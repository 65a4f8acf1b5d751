use bmi_contract::consent::DataPermission;
use bmi_contract::contract::Contract;

#[test]
fn set_user_test() {
    let kherld = "kherld.testnet".to_string();
    let mut _data = Contract::new(kherld.clone());
    _data.set_user(kherld, "Eternity Pro ".to_owned());
    let data = _data.user_count();
    assert_eq!(data, 1, "Should be one user");
}

#[test]
fn compute_data_test() {
    let kherld = "kherld.testnet".to_string();
    let mut _data = Contract::new(kherld.clone());
    let permit = DataPermission::default();
    let compute = _data.compute(kherld, 45, 125, &permit);
    println!("The following information is 💖 to your health");
    assert_eq!(
        Some(28),
        compute,
        "Should be match the expected result from computation",
    );
}

#[test]
fn get_data_test() {
    let kherld = "kherld.testnet".to_string();
    let mut _data = Contract::new(kherld.clone());
    let test_get = _data.get_data(kherld);
    assert!(test_get.is_none());
}

#[test]
fn delete_data_test() {
    let kherld = "kherld.testnet".to_string();
    let mut _data = Contract::new(kherld.clone());
    let permit = DataPermission::default();
    let delete_test = _data.delete_data(kherld, &permit);
    assert_eq!((), delete_test);
}

#[test]
fn register_twice_keeps_one_user() {
    let caller = "kherld.testnet".to_string();
    let mut c = Contract::new(caller.clone());
    c.set_user(caller.clone(), "Alice".to_string());
    c.set_user(caller.clone(), "Alice".to_string());
    assert_eq!(c.user_count(), 1);
}

#[test]
fn register_rejects_second_profile() {
    let caller = "kherld.testnet".to_string();
    let mut c = Contract::new(caller.clone());
    c.set_user(caller.clone(), "Alice".to_string());
    c.set_user(caller.clone(), "Bob".to_string());
    assert_eq!(c.user_count(), 1);
    let profile = c.lookup(&caller).expect("first registration kept");
    assert_eq!(profile.id(), 0);
    assert_eq!(profile.uid(), &caller);
    assert_eq!(profile.u_name().as_deref(), Some("Alice"));
}

#[test]
fn lookup_absent_identity() {
    let caller = "kherld.testnet".to_string();
    let c = Contract::new(caller.clone());
    assert!(c.lookup(&caller).is_none());
}

#[test]
fn store_then_get_formats_measurement() {
    let caller = "kherld.testnet".to_string();
    let mut c = Contract::new(caller.clone());
    let permit = DataPermission::new(Some(true));
    let rounded = c.compute(caller.clone(), 70, 175, &permit);
    assert_eq!(rounded, Some(22));
    let msg = c.get_data(caller).expect("stored under granted consent");
    assert_eq!(msg, "BMI Data: 22.85 kherld.testnet");
}

#[test]
fn denied_consent_stores_nothing() {
    let caller = "kherld.testnet".to_string();
    let mut c = Contract::new(caller.clone());
    let permit = DataPermission::new(Some(false));
    let rounded = c.compute(caller.clone(), 70, 175, &permit);
    assert_eq!(rounded, Some(22), "the BMI is still computed and returned");
    assert!(c.get_data(caller).is_none());
}

#[test]
fn unspecified_consent_stores_nothing() {
    let caller = "kherld.testnet".to_string();
    let mut c = Contract::new(caller.clone());
    let permit = DataPermission::new(None);
    let rounded = c.compute(caller.clone(), 70, 175, &permit);
    assert_eq!(rounded, Some(22));
    assert!(c.get_data(caller).is_none());
}

#[test]
fn delete_erases_stored_measurement() {
    let caller = "kherld.testnet".to_string();
    let mut c = Contract::new(caller.clone());
    let permit = DataPermission::new(Some(true));
    c.compute(caller.clone(), 70, 175, &permit);
    assert!(c.get_data(caller.clone()).is_some());
    c.delete_data(caller.clone(), &permit);
    assert!(c.get_data(caller).is_none());
}

#[test]
fn write_once_keeps_first_measurement() {
    let caller = "kherld.testnet".to_string();
    let mut c = Contract::new(caller.clone());
    let permit = DataPermission::new(Some(true));
    let first = c.compute(caller.clone(), 70, 175, &permit);
    assert_eq!(first, Some(22));
    let second = c.compute(caller.clone(), 92, 136, &permit);
    assert_eq!(second, Some(49), "the second BMI is computed even though storage is skipped");
    let msg = c.get_data(caller).expect("first measurement kept");
    assert_eq!(msg, "BMI Data: 22.85 kherld.testnet");
}

#[test]
fn delete_without_consent_keeps_measurement() {
    let caller = "kherld.testnet".to_string();
    let mut c = Contract::new(caller.clone());
    c.compute(caller.clone(), 70, 175, &DataPermission::new(Some(true)));
    c.delete_data(caller.clone(), &DataPermission::new(Some(false)));
    assert!(c.get_data(caller.clone()).is_some());
    c.delete_data(caller.clone(), &DataPermission::new(None));
    assert!(c.get_data(caller).is_some());
}

#[test]
fn delete_absent_identity_is_silent_success() {
    let caller = "kherld.testnet".to_string();
    let other = "someone-else.testnet".to_string();
    let mut c = Contract::new(caller.clone());
    let permit = DataPermission::new(Some(true));
    c.compute(caller.clone(), 70, 175, &permit);
    c.delete_data(other.clone(), &permit);
    assert!(c.get_data(other).is_none());
    assert!(c.get_data(caller).is_some(), "the unrelated entry survives");
}

#[test]
fn zero_height_is_rejected() {
    let caller = "kherld.testnet".to_string();
    let mut c = Contract::new(caller.clone());
    let permit = DataPermission::new(Some(true));
    assert_eq!(c.compute(caller.clone(), 70, 0, &permit), None);
    assert!(c.get_data(caller).is_none(), "a rejected input stores nothing");
}

#[test]
fn state_round_trips_through_parts() {
    let caller = "kherld.testnet".to_string();
    let mut c = Contract::new("owner.testnet".to_string());
    c.set_user(caller.clone(), "Eternity Pro ".to_string());
    c.compute(caller.clone(), 45, 125, &DataPermission::new(Some(true)));
    let owner = c.owner_id().clone();
    let profiles = c.profiles().clone();
    let records = c.records().clone();
    let mut back = Contract::from_parts(owner, profiles, records).expect("valid parts accepted");
    assert_eq!(back.user_count(), 1);
    assert_eq!(back.owner_id().as_str(), "owner.testnet");
    let msg = back.get_data(caller).expect("measurement survives the round trip");
    assert_eq!(msg, "BMI Data: 28.80 kherld.testnet");
}

#[test]
fn corrupted_parts_are_rejected() {
    let dup = bmi_contract::contract::AppUser::new_user(0, "a.testnet".to_string(), "A".to_string());
    let dup2 = bmi_contract::contract::AppUser::new_user(1, "a.testnet".to_string(), "B".to_string());
    let r = Contract::from_parts("owner.testnet".to_string(), vec![dup, dup2], Vec::new());
    assert!(r.is_none(), "duplicate identities are a corrupted layout");
}
