//! Names for new stories and modules, made unique by the wall-clock second.

use vstd::prelude::*;
use vstd::string::*;

verus! {

/// Declares std's wall-clock instant so that it can be passed around.
#[verifier::external_type_specification]
#[verifier::external_body]
pub struct ExSystemTime(std::time::SystemTime);

/// The character of a decimal digit.
pub open spec fn digit_char(d: nat) -> char {
    if d == 0 {
        '0'
    } else if d == 1 {
        '1'
    } else if d == 2 {
        '2'
    } else if d == 3 {
        '3'
    } else if d == 4 {
        '4'
    } else if d == 5 {
        '5'
    } else if d == 6 {
        '6'
    } else if d == 7 {
        '7'
    } else if d == 8 {
        '8'
    } else {
        '9'
    }
}

/// `n` written in decimal, with no leading zero.
pub open spec fn decimal(n: nat) -> Seq<char>
    decreases n,
{
    if n < 10 {
        seq![digit_char(n)]
    } else {
        decimal(n / 10).push(digit_char(n % 10))
    }
}

/// The name of a story made at `secs` seconds after the epoch.
pub open spec fn story_name_of(secs: nat) -> Seq<char> {
    "ermine-story-"@ + decimal(secs)
}

/// The name of a module made at `secs` seconds after the epoch.
pub open spec fn mod_name_of(secs: nat) -> Seq<char> {
    "ermine-mod-"@ + decimal(secs)
}

/// The one-character string of digit `d`.
fn digit_str(d: u64) -> (r: &'static str)
    requires
        d < 10,
    ensures
        r@ == seq![digit_char(d as nat)],
{
    proof {
        reveal_strlit("0");
        reveal_strlit("1");
        reveal_strlit("2");
        reveal_strlit("3");
        reveal_strlit("4");
        reveal_strlit("5");
        reveal_strlit("6");
        reveal_strlit("7");
        reveal_strlit("8");
        reveal_strlit("9");
    }
    if d == 0 {
        "0"
    } else if d == 1 {
        "1"
    } else if d == 2 {
        "2"
    } else if d == 3 {
        "3"
    } else if d == 4 {
        "4"
    } else if d == 5 {
        "5"
    } else if d == 6 {
        "6"
    } else if d == 7 {
        "7"
    } else if d == 8 {
        "8"
    } else {
        "9"
    }
}

/// `n` in decimal.
pub fn decimal_string(n: u64) -> (r: String)
    ensures
        r@ == decimal(n as nat),
    decreases n,
{
    if n < 10 {
        String::from_str(digit_str(n))
    } else {
        let mut s = decimal_string(n / 10);
        s.append(digit_str(n % 10));
        s
    }
}

/// The name of a story made at `secs` seconds after the epoch.
pub fn story_name(secs: u64) -> (r: String)
    ensures
        r@ == story_name_of(secs as nat),
{
    let prefix = "ermine-story-";
    let digits = decimal_string(secs);
    String::from_str(prefix).concat(digits.as_str())
}

/// The name of a module made at `secs` seconds after the epoch.
pub fn mod_name(secs: u64) -> (r: String)
    ensures
        r@ == mod_name_of(secs as nat),
{
    let prefix = "ermine-mod-";
    let digits = decimal_string(secs);
    String::from_str(prefix).concat(digits.as_str())
}

/// Relies on std::time::SystemTime::now: the wall clock's reading, which
/// nothing constrains.
#[verifier::external_body]
fn wall_clock_now() -> std::time::SystemTime {
    std::time::SystemTime::now()
}

/// Relies on std::time::SystemTime::duration_since(UNIX_EPOCH): whole seconds
/// from the epoch to `t`, or nothing when `t` is earlier.
#[verifier::external_body]
fn seconds_since_epoch(t: &std::time::SystemTime) -> Option<u64> {
    match t.duration_since(std::time::SystemTime::UNIX_EPOCH) {
        Ok(d) => Some(d.as_secs()),
        Err(_) => None,
    }
}

/// A story name for the current second; nothing when the wall clock reads
/// earlier than the epoch.
pub fn random_story_name() -> (r: Option<String>)
    ensures
        r matches Some(s) ==> exists|secs: u64| s@ == story_name_of(secs as nat),
{
    let now = wall_clock_now();
    match seconds_since_epoch(&now) {
        Some(secs) => Some(story_name(secs)),
        None => None,
    }
}

/// A module name for the current second; nothing when the wall clock reads
/// earlier than the epoch.
pub fn random_mod_name() -> (r: Option<String>)
    ensures
        r matches Some(s) ==> exists|secs: u64| s@ == mod_name_of(secs as nat),
{
    let now = wall_clock_now();
    match seconds_since_epoch(&now) {
        Some(secs) => Some(mod_name(secs)),
        None => None,
    }
}

} // verus!
