//! The contract facade: the single stateful aggregate holding the user
//! registry and the measurement store, keyed by caller identity, plus the
//! owner identity recorded at construction.
//!
//! Both mappings are held as sequences with pairwise-distinct keys and are
//! read abstractly as `Map`s; every mutation is tied in the contracts to
//! the lifecycle steps of [`crate::policy`]. Caller identity is an
//! explicit parameter of each entry point, supplied by the hosting
//! environment.

use vstd::prelude::*;
use crate::bmi::{compute_bmi, spec_bmi_e4, spec_rounded};
use crate::consent::{Consent, DataPermission};
use crate::policy::{delete_step, insert_if_absent, upsert_step};
use crate::text::{data_message, spec_data_message};

verus! {

/// A registered user profile: a sequence number assigned at registration
/// (the registry size at insertion time), the owning identity, and an
/// optional display name. Created once per identity; never mutated.
#[derive(Clone, Debug)]
pub struct AppUser {
    id: u32,
    uid: String,
    u_name: Option<String>,
}

/// The ghost image of a profile: its sequence number and display name.
/// The owning identity is the key under which the profile is mapped.
pub ghost struct UserView {
    pub id: u32,
    pub name: Option<Seq<char>>,
}

impl View for AppUser {
    type V = UserView;

    closed spec fn view(&self) -> UserView {
        UserView {
            id: self.id,
            name: match self.u_name {
                Some(n) => Some(n@),
                None => None,
            },
        }
    }
}

impl AppUser {
    /// The sequence number assigned at registration.
    pub closed spec fn spec_id(&self) -> u32 {
        self.id
    }

    /// The owning identity.
    pub closed spec fn spec_uid(&self) -> Seq<char> {
        self.uid@
    }

    /// The display name, where one was given.
    pub closed spec fn spec_name(&self) -> Option<Seq<char>> {
        match self.u_name {
            Some(n) => Some(n@),
            None => None,
        }
    }

    /// Builds the profile inserted at registration.
    pub fn new_user(id: u32, uid: String, u_name: String) -> (r: Self)
        ensures
            r@ == (UserView { id, name: Some(u_name@) }),
            r.spec_uid() == uid@,
    {
        AppUser { id, uid, u_name: Some(u_name) }
    }

    /// The sequence number assigned at registration.
    pub fn id(&self) -> (r: u32)
        ensures
            r == self.spec_id(),
    {
        self.id
    }

    /// The owning identity.
    pub fn uid(&self) -> (r: &String)
        ensures
            r@ == self.spec_uid(),
    {
        &self.uid
    }

    /// The display name, where one was given.
    pub fn u_name(&self) -> (r: &Option<String>)
        ensures
            r is Some <==> self.spec_name() is Some,
            (match r {
                Some(n) => self.spec_name() == Some(n@),
                None => self.spec_name() is None,
            }),
    {
        &self.u_name
    }
}

/// A stored measurement: the owning identity (a self-describing copy of
/// the key it is stored under) and the BMI in ten-thousandths.
#[derive(Clone, Debug)]
pub struct Data {
    uid: String,
    bmi_e4: u64,
}

impl Data {
    /// The owning identity.
    pub closed spec fn spec_uid(&self) -> Seq<char> {
        self.uid@
    }

    /// The BMI value, scaled by 10^4.
    pub closed spec fn spec_bmi_e4(&self) -> u64 {
        self.bmi_e4
    }

    /// Builds a measurement record for an identity.
    pub fn new(uid: String, bmi_e4: u64) -> (r: Self)
        ensures
            r.spec_uid() == uid@,
            r.spec_bmi_e4() == bmi_e4,
    {
        Data { uid, bmi_e4 }
    }

    /// The owning identity.
    pub fn uid(&self) -> (r: &String)
        ensures
            r@ == self.spec_uid(),
    {
        &self.uid
    }

    /// The BMI value, scaled by 10^4.
    pub fn bmi_e4(&self) -> (r: u64)
        ensures
            r == self.spec_bmi_e4(),
    {
        self.bmi_e4
    }
}

/// The registry read as a mapping from identity to profile image.
pub open spec fn users_map(s: Seq<AppUser>) -> Map<Seq<char>, UserView>
    decreases s.len(),
{
    if s.len() == 0 {
        Map::empty()
    } else {
        users_map(s.drop_last()).insert(s.last().spec_uid(), s.last()@)
    }
}

/// The measurement store read as a mapping from identity to BMI value.
pub open spec fn data_map(s: Seq<Data>) -> Map<Seq<char>, u64>
    decreases s.len(),
{
    if s.len() == 0 {
        Map::empty()
    } else {
        data_map(s.drop_last()).insert(s.last().spec_uid(), s.last().spec_bmi_e4())
    }
}

/// Pairwise-distinct identities across the registry.
pub open spec fn unique_user_keys(s: Seq<AppUser>) -> bool {
    forall|i: int, j: int| 0 <= i < j < s.len() ==> s[i].spec_uid() != s[j].spec_uid()
}

/// Pairwise-distinct identities across the measurement store.
pub open spec fn unique_data_keys(s: Seq<Data>) -> bool {
    forall|i: int, j: int| 0 <= i < j < s.len() ==> s[i].spec_uid() != s[j].spec_uid()
}

/// An identity is a key of the registry mapping exactly where some
/// profile in the sequence carries it.
proof fn lemma_users_map_contains(s: Seq<AppUser>, k: Seq<char>)
    ensures
        users_map(s).dom().contains(k) <==> (exists|i: int|
            0 <= i < s.len() && s[i].spec_uid() == k),
    decreases s.len(),
{
    if s.len() > 0 {
        let sub = s.drop_last();
        lemma_users_map_contains(sub, k);
        if s.last().spec_uid() == k {
            assert(s[s.len() - 1].spec_uid() == k);
        } else {
            if users_map(s).dom().contains(k) {
                let i = choose|i: int| 0 <= i < sub.len() && sub[i].spec_uid() == k;
                assert(s[i].spec_uid() == k);
            }
            if exists|i: int| 0 <= i < s.len() && s[i].spec_uid() == k {
                let i = choose|i: int| 0 <= i < s.len() && s[i].spec_uid() == k;
                assert(i < s.len() - 1);
                assert(sub[i].spec_uid() == k);
            }
        }
    }
}

/// Appending a profile inserts it into the registry mapping under its key.
proof fn lemma_users_map_push(s: Seq<AppUser>, v: AppUser)
    ensures
        users_map(s.push(v)) == users_map(s).insert(v.spec_uid(), v@),
{
    assert(s.push(v).drop_last() =~= s);
    assert(s.push(v).last() == v);
}

/// An identity is a key of the store mapping exactly where some record in
/// the sequence carries it.
proof fn lemma_data_map_contains(s: Seq<Data>, k: Seq<char>)
    ensures
        data_map(s).dom().contains(k) <==> (exists|i: int|
            0 <= i < s.len() && s[i].spec_uid() == k),
    decreases s.len(),
{
    if s.len() > 0 {
        let sub = s.drop_last();
        lemma_data_map_contains(sub, k);
        if s.last().spec_uid() == k {
            assert(s[s.len() - 1].spec_uid() == k);
        } else {
            if data_map(s).dom().contains(k) {
                let i = choose|i: int| 0 <= i < sub.len() && sub[i].spec_uid() == k;
                assert(s[i].spec_uid() == k);
            }
            if exists|i: int| 0 <= i < s.len() && s[i].spec_uid() == k {
                let i = choose|i: int| 0 <= i < s.len() && s[i].spec_uid() == k;
                assert(i < s.len() - 1);
                assert(sub[i].spec_uid() == k);
            }
        }
    }
}

/// Appending a record inserts its BMI into the store mapping under its key.
proof fn lemma_data_map_push(s: Seq<Data>, v: Data)
    ensures
        data_map(s.push(v)) == data_map(s).insert(v.spec_uid(), v.spec_bmi_e4()),
{
    assert(s.push(v).drop_last() =~= s);
    assert(s.push(v).last() == v);
}

/// With distinct keys, each record's BMI is what the store mapping holds
/// under the record's identity.
proof fn lemma_data_map_index(s: Seq<Data>, i: int)
    requires
        unique_data_keys(s),
        0 <= i < s.len(),
    ensures
        data_map(s).dom().contains(s[i].spec_uid()),
        data_map(s)[s[i].spec_uid()] == s[i].spec_bmi_e4(),
    decreases s.len(),
{
    let sub = s.drop_last();
    if i < s.len() - 1 {
        assert(unique_data_keys(sub)) by {
            assert(forall|a: int, b: int|
                0 <= a < b < sub.len() ==> sub[a] == s[a] && sub[b] == s[b]);
        }
        lemma_data_map_index(sub, i);
        assert(sub[i] == s[i]);
        assert(s.last().spec_uid() != s[i].spec_uid());
    }
}

/// With distinct keys, each profile's image is what the registry mapping
/// holds under the profile's identity.
proof fn lemma_users_map_index(s: Seq<AppUser>, i: int)
    requires
        unique_user_keys(s),
        0 <= i < s.len(),
    ensures
        users_map(s).dom().contains(s[i].spec_uid()),
        users_map(s)[s[i].spec_uid()] == s[i]@,
    decreases s.len(),
{
    let sub = s.drop_last();
    if i < s.len() - 1 {
        assert(unique_user_keys(sub)) by {
            assert(forall|a: int, b: int|
                0 <= a < b < sub.len() ==> sub[a] == s[a] && sub[b] == s[b]);
        }
        lemma_users_map_index(sub, i);
        assert(sub[i] == s[i]);
        assert(s.last().spec_uid() != s[i].spec_uid());
    }
}

/// With distinct keys the registry mapping has exactly one entry per
/// profile: its size is the length of the underlying sequence.
proof fn lemma_users_map_len(s: Seq<AppUser>)
    requires
        unique_user_keys(s),
    ensures
        users_map(s).dom().finite(),
        users_map(s).len() == s.len(),
    decreases s.len(),
{
    if s.len() > 0 {
        let sub = s.drop_last();
        assert(unique_user_keys(sub)) by {
            assert(forall|a: int, b: int|
                0 <= a < b < sub.len() ==> sub[a] == s[a] && sub[b] == s[b]);
        }
        lemma_users_map_len(sub);
        lemma_users_map_contains(sub, s.last().spec_uid());
        assert(!users_map(sub).dom().contains(s.last().spec_uid()));
    }
}

/// With distinct keys, removing a record removes exactly its identity from
/// the store mapping, and the keys stay distinct.
proof fn lemma_data_map_remove(s: Seq<Data>, i: int)
    requires
        unique_data_keys(s),
        0 <= i < s.len(),
    ensures
        data_map(s.remove(i)) == data_map(s).remove(s[i].spec_uid()),
        unique_data_keys(s.remove(i)),
    decreases s.len(),
{
    let k = s[i].spec_uid();
    let r = s.remove(i);
    assert forall|a: int, b: int| 0 <= a < b < r.len() implies r[a].spec_uid()
        != r[b].spec_uid() by {
        let a0 = if a < i { a } else { a + 1 };
        let b0 = if b < i { b } else { b + 1 };
        assert(r[a] == s[a0]);
        assert(r[b] == s[b0]);
    }
    let sub = s.drop_last();
    if i == s.len() - 1 {
        assert(r =~= sub);
        lemma_data_map_contains(sub, k);
        assert(!data_map(sub).dom().contains(k));
        assert(data_map(sub).remove(k) =~= data_map(sub));
        assert(data_map(s).remove(k) =~= data_map(sub));
    } else {
        assert(unique_data_keys(sub)) by {
            assert(forall|a: int, b: int|
                0 <= a < b < sub.len() ==> sub[a] == s[a] && sub[b] == s[b]);
        }
        lemma_data_map_remove(sub, i);
        let lk = s.last().spec_uid();
        let lv = s.last().spec_bmi_e4();
        assert(r.drop_last() =~= sub.remove(i));
        assert(r.len() == s.len() - 1);
        assert(r.last() == s[s.len() - 1]);
        assert(data_map(r) == data_map(sub.remove(i)).insert(lk, lv));
        assert(lk != k);
        assert(data_map(sub).remove(k).insert(lk, lv) =~= data_map(sub).insert(lk, lv).remove(k));
        assert(data_map(s).remove(k) =~= data_map(r));
    }
}

/// Decides whether the profiles of a sequence carry pairwise-distinct
/// identities.
fn users_unique(s: &Vec<AppUser>) -> (r: bool)
    ensures
        r == unique_user_keys(s@),
{
    let n = s.len();
    let mut i: usize = 0;
    while i < n
        invariant
            i <= n,
            n == s@.len(),
            forall|a: int, b: int|
                0 <= a < b < n && a < i ==> s@[a].spec_uid() != s@[b].spec_uid(),
        decreases n - i,
    {
        let mut j: usize = i + 1;
        while j < n
            invariant
                i < j <= n,
                n == s@.len(),
                forall|b: int| i < b < j ==> s@[i as int].spec_uid() != s@[b].spec_uid(),
            decreases n - j,
        {
            if s[i].uid == s[j].uid {
                return false;
            }
            j = j + 1;
        }
        i = i + 1;
    }
    true
}

/// Decides whether the records of a sequence carry pairwise-distinct
/// identities.
fn data_unique(s: &Vec<Data>) -> (r: bool)
    ensures
        r == unique_data_keys(s@),
{
    let n = s.len();
    let mut i: usize = 0;
    while i < n
        invariant
            i <= n,
            n == s@.len(),
            forall|a: int, b: int|
                0 <= a < b < n && a < i ==> s@[a].spec_uid() != s@[b].spec_uid(),
        decreases n - i,
    {
        let mut j: usize = i + 1;
        while j < n
            invariant
                i < j <= n,
                n == s@.len(),
                forall|b: int| i < b < j ==> s@[i as int].spec_uid() != s@[b].spec_uid(),
            decreases n - j,
        {
            if s[i].uid == s[j].uid {
                return false;
            }
            j = j + 1;
        }
        i = i + 1;
    }
    true
}

/// The contract state: the owner identity recorded at construction, the
/// user registry, and the measurement store, both keyed by identity.
#[derive(Clone, Debug)]
pub struct Contract {
    uid: String,
    app_user: Vec<AppUser>,
    data: Vec<Data>,
}

impl Contract {
    /// The owner identity recorded at construction.
    pub closed spec fn owner(&self) -> Seq<char> {
        self.uid@
    }

    /// The registry, read as a mapping from identity to profile image.
    pub closed spec fn users(&self) -> Map<Seq<char>, UserView> {
        users_map(self.app_user@)
    }

    /// The measurement store, read as a mapping from identity to BMI.
    pub closed spec fn measurements(&self) -> Map<Seq<char>, u64> {
        data_map(self.data@)
    }

    /// The number of registered users.
    pub closed spec fn user_count_spec(&self) -> nat {
        self.app_user@.len()
    }

    /// Well-formedness: at most one profile and one measurement per
    /// identity. Established at construction and preserved by every
    /// entry point.
    pub closed spec fn wf(&self) -> bool {
        unique_user_keys(self.app_user@) && unique_data_keys(self.data@)
    }

    /// Constructs the contract state: both mappings empty, the owner
    /// identity recorded. The only way to create an instance.
    pub fn new(uid: String) -> (r: Self)
        ensures
            r.wf(),
            r.owner() == uid@,
            r.users() == Map::<Seq<char>, UserView>::empty(),
            r.measurements() == Map::<Seq<char>, u64>::empty(),
            r.user_count_spec() == 0,
    {
        Contract { uid, app_user: Vec::new(), data: Vec::new() }
    }

    /// The index of the profile registered under an identity, if any.
    fn find_user(&self, uid: &String) -> (r: Option<usize>)
        ensures
            (match r {
                Some(i) => i < self.app_user@.len() && self.app_user@[i as int].spec_uid() == uid@,
                None => forall|i: int|
                    0 <= i < self.app_user@.len() ==> self.app_user@[i].spec_uid() != uid@,
            }),
    {
        let n = self.app_user.len();
        let mut j: usize = 0;
        while j < n
            invariant
                j <= n,
                n == self.app_user@.len(),
                forall|i: int| 0 <= i < j ==> self.app_user@[i].spec_uid() != uid@,
            decreases n - j,
        {
            if self.app_user[j].uid == *uid {
                return Some(j);
            }
            j = j + 1;
        }
        None
    }

    /// The index of the measurement stored under an identity, if any.
    fn find_data(&self, uid: &String) -> (r: Option<usize>)
        ensures
            (match r {
                Some(i) => i < self.data@.len() && self.data@[i as int].spec_uid() == uid@,
                None => forall|i: int|
                    0 <= i < self.data@.len() ==> self.data@[i].spec_uid() != uid@,
            }),
    {
        let n = self.data.len();
        let mut j: usize = 0;
        while j < n
            invariant
                j <= n,
                n == self.data@.len(),
                forall|i: int| 0 <= i < j ==> self.data@[i].spec_uid() != uid@,
            decreases n - j,
        {
            if self.data[j].uid == *uid {
                return Some(j);
            }
            j = j + 1;
        }
        None
    }

    /// Registers the caller under a display name. At most one profile per
    /// identity: an already registered identity is left untouched, else a
    /// profile is inserted whose sequence number is the registry size at
    /// insertion time. The measurement store is never touched.
    pub fn set_user(&mut self, caller: String, u_name: String)
        requires
            old(self).wf(),
        ensures
            final(self).wf(),
            final(self).owner() == old(self).owner(),
            final(self).measurements() == old(self).measurements(),
            final(self).users() == insert_if_absent(
                old(self).users(),
                caller@,
                (UserView { id: old(self).user_count_spec() as u32, name: Some(u_name@) }),
            ),
            final(self).user_count_spec() == (if old(self).users().dom().contains(caller@) {
                old(self).user_count_spec()
            } else {
                old(self).user_count_spec() + 1
            }),
    {
        let id = self.app_user.len() as u32;
        let found = self.find_user(&caller);
        proof {
            lemma_users_map_contains(self.app_user@, caller@);
        }
        match found {
            Some(_) => {},
            None => {
                let ghost s0 = self.app_user@;
                let profile = AppUser::new_user(id, caller, u_name);
                self.app_user.push(profile);
                proof {
                    lemma_users_map_push(s0, profile);
                    assert forall|a: int, b: int|
                        0 <= a < b < self.app_user@.len() implies self.app_user@[a].spec_uid()
                        != self.app_user@[b].spec_uid() by {
                        if b < s0.len() as int {
                            assert(self.app_user@[a] == s0[a]);
                            assert(self.app_user@[b] == s0[b]);
                        } else {
                            assert(self.app_user@[a] == s0[a]);
                            assert(self.app_user@[b] == profile);
                        }
                    }
                }
            },
        }
    }

    /// The profile registered under an identity, if any: a pure read.
    pub fn lookup(&self, uid: &String) -> (r: Option<&AppUser>)
        requires
            self.wf(),
        ensures
            r is Some <==> self.users().dom().contains(uid@),
            (match r {
                Some(u) => u@ == self.users()[uid@] && u.spec_uid() == uid@,
                None => !self.users().dom().contains(uid@),
            }),
    {
        let found = self.find_user(uid);
        proof {
            lemma_users_map_contains(self.app_user@, uid@);
        }
        match found {
            Some(i) => {
                proof {
                    lemma_users_map_index(self.app_user@, i as int);
                }
                Some(&self.app_user[i])
            },
            None => None,
        }
    }

    /// The number of registered users.
    pub fn user_count(&self) -> (n: usize)
        ensures
            n == self.user_count_spec(),
    {
        self.app_user.len()
    }

    /// The owner identity recorded at construction.
    pub fn owner_id(&self) -> (r: &String)
        ensures
            r@ == self.owner(),
    {
        &self.uid
    }

    /// The registered profiles in registration order; the host persists
    /// this sequence, so its order — and with it every sequence number —
    /// survives a round trip through storage.
    pub fn profiles(&self) -> (r: &Vec<AppUser>)
        ensures
            users_map(r@) == self.users(),
            r@.len() == self.user_count_spec(),
            r@ == self.profiles_seq(),
    {
        &self.app_user
    }

    /// The stored measurements in insertion order.
    pub fn records(&self) -> (r: &Vec<Data>)
        ensures
            data_map(r@) == self.measurements(),
            r@ == self.records_seq(),
    {
        &self.data
    }

    /// The registry's underlying sequence.
    pub closed spec fn profiles_seq(&self) -> Seq<AppUser> {
        self.app_user@
    }

    /// The measurement store's underlying sequence.
    pub closed spec fn records_seq(&self) -> Seq<Data> {
        self.data@
    }

    /// The reported user count is the size of the registry mapping: each
    /// registered identity is counted exactly once.
    pub proof fn lemma_user_count_is_registry_size(&self)
        requires
            self.wf(),
        ensures
            self.users().dom().finite(),
            self.users().len() == self.user_count_spec(),
    {
        lemma_users_map_len(self.app_user@);
    }

    /// Rebuilds a contract state from its persisted parts: the owner
    /// identity and the two sequences. Accepted exactly when each
    /// sequence keys its entries by pairwise-distinct identities; a
    /// corrupted layout is rejected with `None`.
    pub fn from_parts(uid: String, app_user: Vec<AppUser>, data: Vec<Data>) -> (r: Option<
        Contract,
    >)
        ensures
            r is Some <==> unique_user_keys(app_user@) && unique_data_keys(data@),
            (match r {
                Some(c) => {
                    &&& c.wf()
                    &&& c.owner() == uid@
                    &&& c.users() == users_map(app_user@)
                    &&& c.measurements() == data_map(data@)
                    &&& c.profiles_seq() == app_user@
                    &&& c.records_seq() == data@
                },
                None => !(unique_user_keys(app_user@) && unique_data_keys(data@)),
            }),
    {
        if !users_unique(&app_user) {
            return None;
        }
        if !data_unique(&data) {
            return None;
        }
        Some(Contract { uid, app_user, data })
    }

    /// Derives the caller's BMI and, under granted consent, persists it
    /// write-once under the caller's identity. The computed whole-number
    /// BMI is returned whether or not storage was authorized; a zero
    /// height is rejected with `None` and changes nothing. The registry
    /// is never touched.
    pub fn compute(
        &mut self,
        caller: String,
        weight: u32,
        height_cm: u32,
        permit: &DataPermission,
    ) -> (r: Option<i32>)
        requires
            old(self).wf(),
        ensures
            final(self).wf(),
            final(self).owner() == old(self).owner(),
            final(self).users() == old(self).users(),
            final(self).user_count_spec() == old(self).user_count_spec(),
            r is Some <==> height_cm > 0,
            (match r {
                Some(v) => v == spec_rounded(weight as int, height_cm as int),
                None => height_cm == 0,
            }),
            final(self).measurements() == (if height_cm > 0 {
                upsert_step(
                    old(self).measurements(),
                    caller@,
                    spec_bmi_e4(weight as int, height_cm as int) as u64,
                    permit@,
                )
            } else {
                old(self).measurements()
            }),
    {
        match compute_bmi(weight, height_cm) {
            None => None,
            Some(b) => {
                match permit.consent() {
                    Consent::Granted => {
                        let found = self.find_data(&caller);
                        proof {
                            lemma_data_map_contains(self.data@, caller@);
                        }
                        match found {
                            Some(_) => {},
                            None => {
                                let ghost s0 = self.data@;
                                let record = Data::new(caller, b.bmi_e4);
                                self.data.push(record);
                                proof {
                                    lemma_data_map_push(s0, record);
                                    assert forall|a: int, b0: int|
                                        0 <= a < b0 < self.data@.len() implies self.data@[
                                        a].spec_uid() != self.data@[b0].spec_uid() by {
                                        if b0 < s0.len() as int {
                                            assert(self.data@[a] == s0[a]);
                                            assert(self.data@[b0] == s0[b0]);
                                        } else {
                                            assert(self.data@[a] == s0[a]);
                                            assert(self.data@[b0] == record);
                                        }
                                    }
                                }
                            },
                        }
                    },
                    Consent::Denied => {},
                    Consent::Unspecified => {},
                }
                Some(b.rounded)
            },
        }
    }

    /// The stored measurement for an identity, rendered for display as
    /// `BMI Data: {bmi} {identity}` with the BMI at two-decimal
    /// precision; `None` where nothing is stored. A pure read.
    pub fn get_data(&mut self, uid: String) -> (r: Option<String>)
        requires
            old(self).wf(),
        ensures
            *final(self) == *old(self),
            r is Some <==> old(self).measurements().dom().contains(uid@),
            (match r {
                Some(msg) => msg@ == spec_data_message(
                    old(self).measurements()[uid@] as nat,
                    uid@,
                ),
                None => !old(self).measurements().dom().contains(uid@),
            }),
    {
        let found = self.find_data(&uid);
        proof {
            lemma_data_map_contains(self.data@, uid@);
        }
        match found {
            Some(i) => {
                proof {
                    lemma_data_map_index(self.data@, i as int);
                }
                let d = &self.data[i];
                Some(data_message(d.bmi_e4, d.uid.as_str()))
            },
            None => None,
        }
    }

    /// Erases the measurement stored under an identity, gated by consent:
    /// only granted consent mutates the store, and deleting an absent
    /// identity is a silent success. Registry and owner are never touched.
    pub fn delete_data(&mut self, uid: String, permit: &DataPermission)
        requires
            old(self).wf(),
        ensures
            final(self).wf(),
            final(self).owner() == old(self).owner(),
            final(self).users() == old(self).users(),
            final(self).user_count_spec() == old(self).user_count_spec(),
            final(self).measurements() == delete_step(old(self).measurements(), uid@, permit@),
    {
        match permit.consent() {
            Consent::Granted => {
                let found = self.find_data(&uid);
                proof {
                    lemma_data_map_contains(self.data@, uid@);
                }
                match found {
                    Some(i) => {
                        proof {
                            lemma_data_map_remove(self.data@, i as int);
                        }
                        self.data.remove(i);
                    },
                    None => {
                        proof {
                            assert(data_map(self.data@).remove(uid@) =~= data_map(self.data@));
                        }
                    },
                }
            },
            Consent::Denied => {},
            Consent::Unspecified => {},
        }
    }
}

} // verus!
