//! Instants: the UTC time at which a file was evaluated.

use vstd::prelude::*;

verus! {

/// The seconds of the first instant that can be held: the start of January 1
/// of the year 262144 BCE.
pub const MIN_SECONDS: i64 = -8_334_601_228_800;

/// The seconds of the last second that can be held: the end of December 31 of
/// the year 262142 CE.
pub const MAX_SECONDS: i64 = 8_210_266_876_799;

/// The RFC 3339 text, as `chrono` writes it, of the UTC instant that lies
/// `seconds` whole seconds and `nanos` nanoseconds after the Unix epoch; `None`
/// where `chrono` holds no such instant.
pub uninterp spec fn rfc3339_text(seconds: int, nanos: int) -> Option<Seq<char>>;

/// A character of which RFC 3339 texts are made.
pub open spec fn is_rfc3339_char(c: char) -> bool {
    ('0' <= c && c <= '9') || c == '-' || c == '+' || c == ':' || c == '.' || c == 'T'
}

/// There is an instant `seconds` seconds and `nanos` nanoseconds after the
/// Unix epoch: the seconds lie in the years that can be held, and the
/// nanoseconds stay below one thousand million, or below twice that in the
/// last second of a minute, where they stand for a leap second.
pub open spec fn is_instant(seconds: int, nanos: int) -> bool {
    &&& MIN_SECONDS <= seconds <= MAX_SECONDS
    &&& 0 <= nanos < 2_000_000_000
    &&& nanos >= 1_000_000_000 ==> seconds % 60 == 59
}

/// An instant on the UTC time line, in nanosecond resolution.
///
/// Only instants that `chrono::DateTime<Utc>` can hold are values of this type,
/// so each has an RFC 3339 text.
#[derive(Clone, Copy, Debug, PartialEq, Eq, Structural)]
pub struct Timestamp {
    seconds: i64,
    nanos: u32,
}

impl Timestamp {
    #[verifier::type_invariant]
    spec fn held(self) -> bool {
        is_instant(self.seconds as int, self.nanos as int)
    }

    /// Whole seconds since the Unix epoch; negative before it.
    pub closed spec fn unix_seconds(self) -> int {
        self.seconds as int
    }

    /// Nanoseconds since the last whole second.
    pub closed spec fn subsec_nanos(self) -> int {
        self.nanos as int
    }

    /// The RFC 3339 text of this instant.
    pub open spec fn text(self) -> Seq<char> {
        rfc3339_text(self.unix_seconds(), self.subsec_nanos()).unwrap()
    }

    /// The instant `seconds` seconds and `nanos` nanoseconds after the Unix
    /// epoch, if there is one.
    pub fn new(seconds: i64, nanos: u32) -> (made: Option<Timestamp>)
        ensures
            made is Some <==> is_instant(seconds as int, nanos as int),
            made matches Some(t) ==> t.unix_seconds() == seconds && t.subsec_nanos() == nanos,
    {
        match rfc3339_of(seconds, nanos) {
            Some(_) => Some(Timestamp { seconds, nanos }),
            None => None,
        }
    }

    /// The current instant. It is captured once per file, so that all the
    /// records of the file agree on it.
    ///
    /// The clock decides which instant it is. Whichever it is, it is one that
    /// can be held, and it stands within a second, never in a leap second: its
    /// nanoseconds stay below one thousand million.
    pub fn now() -> (now: Timestamp)
        ensures
            is_instant(now.unix_seconds(), now.subsec_nanos()),
            now.subsec_nanos() < 1_000_000_000,
    {
        let (seconds, nanos) = utc_now();
        Timestamp { seconds, nanos }
    }

    /// Whole seconds since the Unix epoch.
    pub fn seconds(&self) -> (seconds: i64)
        ensures
            seconds == self.unix_seconds(),
            MIN_SECONDS <= seconds <= MAX_SECONDS,
    {
        proof {
            use_type_invariant(self);
        }
        self.seconds
    }

    /// Nanoseconds since the last whole second.
    pub fn nanos(&self) -> (nanos: u32)
        ensures
            nanos == self.subsec_nanos(),
            nanos < 2_000_000_000,
    {
        proof {
            use_type_invariant(self);
        }
        self.nanos
    }

    /// The RFC 3339 text of this instant, such as
    /// `2024-05-01T12:30:00.250+00:00`.
    ///
    /// The text tells the instant: no other seconds and nanoseconds have it.
    pub fn to_rfc3339(&self) -> (text: String)
        ensures
            text@ == self.text(),
            rfc3339_text(self.unix_seconds(), self.subsec_nanos()) == Some(text@),
            forall|i: int| 0 <= i < text@.len() ==> is_rfc3339_char(#[trigger] text@[i]),
            forall|seconds: int, nanos: int|
                (#[trigger] rfc3339_text(seconds, nanos)) == Some(text@) ==> seconds
                    == self.unix_seconds() && nanos == self.subsec_nanos(),
    {
        proof {
            use_type_invariant(self);
        }
        match rfc3339_of(self.seconds, self.nanos) {
            Some(text) => text,
            None => vstd::pervasive::unreached(),
        }
    }
}

/// Calls `chrono::Utc::now` and hands back the instant's `timestamp` and
/// `timestamp_subsec_nanos`.
///
/// The clock decides the value. The contract states what holds of every
/// value. It comes from a `DateTime<Utc>`, and `from_timestamp` takes back
/// what the two getters of such a value give, so it is an instant that can be
/// held. And `Utc::now` makes it from the `subsec_nanos` of a
/// `std::time::Duration`, which std keeps below one thousand million.
/// `Utc::now` stops the program when the system clock stands before the Unix
/// epoch.
#[verifier::external_body]
fn utc_now() -> (now: (i64, u32))
    ensures
        is_instant(now.0 as int, now.1 as int),
        now.1 < 1_000_000_000,
{
    let instant = chrono::Utc::now();
    (instant.timestamp(), instant.timestamp_subsec_nanos())
}

/// Calls `chrono::DateTime::from_timestamp` and, where that gives an instant,
/// `to_rfc3339` on it.
///
/// When there is an instant is spelled out. `from_timestamp` takes the days
/// of the years -262143 to 262142, which begin and end at `MIN_SECONDS` and
/// `MAX_SECONDS`, and it takes nanoseconds from one thousand million on only
/// in the last second of a minute.
///
/// The text is named, not spelled out: `rfc3339_text`. Besides the name the
/// contract states two things of it. It is made of digits, `-`, `:`, `T`, `.`
/// and the `+` of the offset `+00:00`. And it tells the instant: `to_rfc3339`
/// writes the date, the time of day and all the nanoseconds that are not zero,
/// and a leap second as second 60, so that two instants never share a text.
#[verifier::external_body]
fn rfc3339_of(seconds: i64, nanos: u32) -> (text: Option<String>)
    ensures
        text is Some <==> is_instant(seconds as int, nanos as int),
        text is Some <==> rfc3339_text(seconds as int, nanos as int) is Some,
        text matches Some(t) ==> rfc3339_text(seconds as int, nanos as int) == Some(t@),
        text matches Some(t) ==> forall|i: int|
            0 <= i < t@.len() ==> is_rfc3339_char(#[trigger] t@[i]),
        text matches Some(t) ==> forall|other: int, fraction: int|
            (#[trigger] rfc3339_text(other, fraction)) == Some(t@) ==> other == seconds
                && fraction == nanos,
{
    match chrono::DateTime::from_timestamp(seconds, nanos) {
        Some(instant) => Some(instant.to_rfc3339()),
        None => None,
    }
}

} // verus!
