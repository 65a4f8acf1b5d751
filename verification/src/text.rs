//! Rendering of stored measurements as display strings.
//!
//! A fixed-point BMI (scaled by 10^4) is shown at two-decimal precision,
//! and a retrieved measurement is reported as `BMI Data: {bmi} {identity}`.

use vstd::prelude::*;

verus! {

/// The decimal digit character for a value below ten.
pub open spec fn digit_char(d: int) -> char
    recommends
        0 <= d < 10,
{
    if d == 0 {
        '0'
    } else if d == 1 {
        '1'
    } else if d == 2 {
        '2'
    } else if d == 3 {
        '3'
    } else if d == 4 {
        '4'
    } else if d == 5 {
        '5'
    } else if d == 6 {
        '6'
    } else if d == 7 {
        '7'
    } else if d == 8 {
        '8'
    } else {
        '9'
    }
}

/// The decimal digit string of a natural number, most significant digit
/// first, with no leading zeros (a zero value is the single digit `0`).
pub open spec fn spec_dec(n: nat) -> Seq<char>
    decreases n,
{
    if n < 10 {
        seq![digit_char(n as int)]
    } else {
        spec_dec(n / 10).push(digit_char((n % 10) as int))
    }
}

/// A fixed-point BMI shown at two-decimal precision: the whole part, a
/// point, and exactly two fractional digits.
pub open spec fn spec_bmi_display(bmi_e4: nat) -> Seq<char> {
    spec_dec(bmi_e4 / 10000) + seq!['.', digit_char(((bmi_e4 / 1000) % 10) as int), digit_char(
        ((bmi_e4 / 100) % 10) as int,
    )]
}

/// The display string of a retrieved measurement:
/// `BMI Data: ` + the two-decimal BMI + a space + the owning identity.
pub open spec fn spec_data_message(bmi_e4: nat, uid: Seq<char>) -> Seq<char> {
    "BMI Data: "@ + spec_bmi_display(bmi_e4) + " "@ + uid
}

/// The one-character string of a decimal digit.
fn digit_str(d: u64) -> (r: &'static str)
    requires
        d < 10,
    ensures
        r@ =~= seq![digit_char(d as int)],
{
    proof {
        reveal_strlit("0");
        reveal_strlit("1");
        reveal_strlit("2");
        reveal_strlit("3");
        reveal_strlit("4");
        reveal_strlit("5");
        reveal_strlit("6");
        reveal_strlit("7");
        reveal_strlit("8");
        reveal_strlit("9");
    }
    if d == 0 {
        "0"
    } else if d == 1 {
        "1"
    } else if d == 2 {
        "2"
    } else if d == 3 {
        "3"
    } else if d == 4 {
        "4"
    } else if d == 5 {
        "5"
    } else if d == 6 {
        "6"
    } else if d == 7 {
        "7"
    } else if d == 8 {
        "8"
    } else {
        "9"
    }
}

/// Renders a natural number in decimal, most significant digit first.
pub fn u64_to_dec(n: u64) -> (r: String)
    ensures
        r@ == spec_dec(n as nat),
    decreases n,
{
    if n < 10 {
        let r = digit_str(n).to_owned();
        proof {
            assert(r@ =~= spec_dec(n as nat));
        }
        r
    } else {
        let mut r = u64_to_dec(n / 10);
        r.append(digit_str(n % 10));
        proof {
            assert(r@ =~= spec_dec(n as nat));
        }
        r
    }
}

/// Renders the display string of a stored measurement.
pub fn data_message(bmi_e4: u64, uid: &str) -> (r: String)
    ensures
        r@ == spec_data_message(bmi_e4 as nat, uid@),
{
    let mut r: String = "BMI Data: ".to_owned();
    let whole = u64_to_dec(bmi_e4 / 10000);
    r.append(whole.as_str());
    r.append(".");
    r.append(digit_str((bmi_e4 / 1000) % 10));
    r.append(digit_str((bmi_e4 / 100) % 10));
    r.append(" ");
    r.append(uid);
    proof {
        reveal_strlit(".");
        reveal_strlit(" ");
        assert(r@ =~= spec_data_message(bmi_e4 as nat, uid@));
    }
    r
}

} // verus!
