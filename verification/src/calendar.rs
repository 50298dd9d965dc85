//! Instants seen in a time zone, and what the calendar says of them.
//!
//! The calendar itself (the zone database, the conversion of an instant to a
//! local date and time, and the formatting of its fields) is the work of the
//! `chrono` and `chrono-tz` crates. This module calls them on plain values
//! and gives their results names. What it says of those results is taken on
//! trust from the two crates; everything built on them is proved.

use vstd::prelude::*;
use chrono::Datelike;

verus! {

/// The last instant that is formatted: the final second of the year 9999 in
/// universal time, in seconds since the epoch.
pub const MAX_INSTANT_SECS: i64 = 253_402_300_799;

/// The name of universal time in the zone database.
pub const UTC: &'static str = "UTC";

/// Whether the zone database of `chrono-tz` holds a zone named `name`.
pub uninterp spec fn is_zone_name(name: Seq<char>) -> bool;

/// What `chrono` writes for the instant `secs` seen in the zone `zone`, under
/// the one-field pattern made of `%` and `specifier`.
pub uninterp spec fn local_format(secs: int, zone: Seq<char>, specifier: Seq<char>) -> Seq<char>;

/// The calendar year of the instant `secs` seen in the zone `zone`.
pub uninterp spec fn local_year(secs: int, zone: Seq<char>) -> int;

/// Whether the instant `secs` lies between the epoch and `MAX_INSTANT_SECS`.
pub open spec fn instant_in_range(secs: int) -> bool {
    0 <= secs <= MAX_INSTANT_SECS
}

/// The one-field patterns that a title template may use, without their `%`.
pub open spec fn specifiers() -> Seq<Seq<char>> {
    seq![
        "Y"@, "C"@, "y"@, "m"@, "b"@, "B"@, "h"@, "d"@, "e"@, "a"@, "A"@, "w"@, "u"@, "U"@,
        "W"@, "G"@, "g"@, "V"@, "j"@, "D"@, "x"@, "F"@, "v"@, "H"@, "k"@, "I"@, "l"@, "P"@,
        "p"@, "M"@, "S"@, "f"@, "R"@, "T"@, "X"@, "r"@, "Z"@, "z"@, ":z"@, "c"@, "+"@, "s"@,
    ]
}

/// Whether `specifier` is one of `specifiers()`.
pub open spec fn is_specifier(specifier: Seq<char>) -> bool {
    specifiers().contains(specifier)
}

/// The zone that an instant is seen in when a record names `timezone`: that
/// zone where the database holds it, universal time otherwise.
pub open spec fn effective_zone(timezone: Seq<char>) -> Seq<char> {
    if is_zone_name(timezone) {
        timezone
    } else {
        UTC@
    }
}

/// Calls `chrono_tz::Tz::from_str` and hands back the name of the zone found.
/// Claims that a zone is found exactly for the names in the database, and
/// that the zone found bears the name it was asked by.
#[verifier::external_body]
pub(crate) fn lookup_zone(name: &str) -> (out: Option<String>)
    ensures
        out.is_some() == is_zone_name(name@),
        out matches Some(found) ==> found@ == name@,
{
    match name.parse::<chrono_tz::Tz>() {
        Ok(zone) => Some(zone.to_string()),
        Err(_) => None,
    }
}

/// Hands back the name of `chrono_tz::Tz::UTC`. Claims that this name is
/// `UTC` and that the database holds it.
#[verifier::external_body]
pub(crate) fn utc_zone() -> (out: String)
    ensures
        out@ == UTC@,
        is_zone_name(out@),
{
    chrono_tz::Tz::UTC.to_string()
}

/// Makes the instant `secs` with `chrono::DateTime::from_timestamp`, moves it
/// to the zone that `chrono_tz::Tz::from_str` finds for `zone`, calls
/// `chrono::DateTime::format` with the pattern `%` followed by `specifier`,
/// and writes the result out. Claims that none of this fails for an instant
/// in range, a zone of the database and a listed pattern, and that the text
/// is the one named `local_format`.
#[verifier::external_body]
fn format_local(secs: i64, zone: &str, specifier: &str) -> (out: String)
    requires
        instant_in_range(secs as int),
        is_zone_name(zone@),
        is_specifier(specifier@),
    ensures
        out@ == local_format(secs as int, zone@, specifier@),
{
    let tz: chrono_tz::Tz = zone.parse().unwrap();
    let datetime = chrono::DateTime::from_timestamp(secs, 0).unwrap().with_timezone(&tz);
    datetime.format(&format!("%{}", specifier)).to_string()
}

/// Makes the instant `secs` seen in `zone` as `format_local` does, and calls
/// `chrono::Datelike::year` on it. Claims that none of this fails for an
/// instant in range and a zone of the database, and that the number is the
/// one named `local_year`.
#[verifier::external_body]
fn year_local(secs: i64, zone: &str) -> (out: i32)
    requires
        instant_in_range(secs as int),
        is_zone_name(zone@),
    ensures
        out == local_year(secs as int, zone@),
{
    let tz: chrono_tz::Tz = zone.parse().unwrap();
    chrono::DateTime::from_timestamp(secs, 0).unwrap().with_timezone(&tz).year()
}

/// The one-field patterns of `specifiers()`, in order.
pub fn specifier_list() -> (out: Vec<&'static str>)
    ensures
        out@.len() == specifiers().len(),
        forall|i: int| 0 <= i < out@.len() ==> (#[trigger] out@[i])@ == specifiers()[i],
{
    vec![
        "Y", "C", "y", "m", "b", "B", "h", "d", "e", "a", "A", "w", "u", "U",
        "W", "G", "g", "V", "j", "D", "x", "F", "v", "H", "k", "I", "l", "P",
        "p", "M", "S", "f", "R", "T", "X", "r", "Z", "z", ":z", "c", "+", "s",
    ]
}

/// An instant seen in a zone of the database: the value that stands for a
/// zoned date and time. It can only be made of an instant in range and a
/// zone that the database holds.
#[derive(Debug)]
pub struct LocalTime {
    secs: i64,
    zone: String,
}

impl LocalTime {
    #[verifier::type_invariant]
    spec fn valid(self) -> bool {
        instant_in_range(self.secs as int) && is_zone_name(self.zone@)
    }

    /// The instant, in seconds since the epoch.
    pub closed spec fn secs(self) -> int {
        self.secs as int
    }

    /// The name of the zone.
    pub closed spec fn zone(self) -> Seq<char> {
        self.zone@
    }

    /// The instant `secs` seen in the zone that `timezone` names, or in
    /// universal time where the database holds no such zone. There is no such
    /// value for an instant out of range.
    pub fn new(secs: i64, timezone: &str) -> (out: Option<LocalTime>)
        ensures
            out.is_some() == instant_in_range(secs as int),
            out matches Some(local) ==> local.secs() == secs && local.zone() == effective_zone(
                timezone@,
            ),
    {
        if secs < 0 || secs > MAX_INSTANT_SECS {
            return None;
        }
        let zone: String = match lookup_zone(timezone) {
            Some(found) => found,
            None => utc_zone(),
        };
        Some(LocalTime { secs, zone })
    }

    /// The instant, in seconds since the epoch.
    pub fn timestamp(&self) -> (out: i64)
        ensures
            out == self.secs(),
            instant_in_range(out as int),
    {
        proof {
            use_type_invariant(self);
        }
        self.secs
    }

    /// The name of the zone.
    pub fn zone_name(&self) -> (out: &str)
        ensures
            out@ == self.zone(),
            is_zone_name(out@),
    {
        proof {
            use_type_invariant(self);
        }
        self.zone.as_str()
    }

    /// The text of the field that the listed pattern `specifier` names.
    pub(crate) fn listed_field(&self, specifier: &str) -> (out: String)
        requires
            is_specifier(specifier@),
        ensures
            out@ == local_format(self.secs(), self.zone(), specifier@),
    {
        proof {
            use_type_invariant(self);
        }
        format_local(self.secs, self.zone.as_str(), specifier)
    }

    /// The text of one field: what the pattern `%` and `specifier` gives,
    /// for the patterns of `specifiers()` and no others.
    pub fn field(&self, specifier: &str) -> (out: Option<String>)
        ensures
            out.is_some() == is_specifier(specifier@),
            out matches Some(text) ==> text@ == local_format(
                self.secs(),
                self.zone(),
                specifier@,
            ),
    {
        if is_listed(specifier) {
            Some(self.listed_field(specifier))
        } else {
            None
        }
    }

    /// The calendar year.
    pub fn year(&self) -> (out: i32)
        ensures
            out == local_year(self.secs(), self.zone()),
    {
        proof {
            use_type_invariant(self);
        }
        year_local(self.secs, self.zone.as_str())
    }
}

/// Whether `specifier` is one of the patterns of `specifiers()`.
pub fn is_listed(specifier: &str) -> (out: bool)
    ensures
        out == is_specifier(specifier@),
{
    let list: Vec<&'static str> = specifier_list();
    let wanted: String = String::from_str(specifier);
    let mut i: usize = 0;
    while i < list.len()
        invariant
            i <= list@.len(),
            wanted@ == specifier@,
            list@.len() == specifiers().len(),
            forall|k: int| 0 <= k < list@.len() ==> (#[trigger] list@[k])@ == specifiers()[k],
            forall|k: int| 0 <= k < i ==> specifiers()[k] != specifier@,
        decreases list@.len() - i,
    {
        let candidate: String = String::from_str(list[i]);
        if candidate == wanted {
            assert(specifiers()[i as int] == specifier@);
            return true;
        }
        i = i + 1;
    }
    false
}

} // verus!
