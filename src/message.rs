//! The relayed chat message: who sent it, what was said, and when.
//!
//! This is the one wire shape the relay guarantees. Every subscriber receives
//! a message as the JSON object
//! `{"user_name":…,"text":…,"time_stamp":…}`, whose three members are JSON
//! string literals and whose time stamp is an RFC 3339 instant in UTC.
//! serde_json quotes each member; the object around them is written here.

use chrono::{DateTime, SecondsFormat, Utc};
use vstd::prelude::*;

verus! {

/// The lower-case hexadecimal digit of `n`, for `0 <= n < 16`.
pub open spec fn hex_digit(n: int) -> char {
    seq!['0', '1', '2', '3', '4', '5', '6', '7', '8', '9', 'a', 'b', 'c', 'd', 'e', 'f'][n]
}

/// How serde_json writes the character `c` inside a string literal: quote
/// and backslash escaped, the control characters with a short escape where
/// JSON has one and as `\u00XX` otherwise, every other character as it is.
pub open spec fn json_char(c: char) -> Seq<char> {
    if c == '"' {
        seq!['\\', '"']
    } else if c == '\\' {
        seq!['\\', '\\']
    } else if c == '\u{8}' {
        seq!['\\', 'b']
    } else if c == '\t' {
        seq!['\\', 't']
    } else if c == '\n' {
        seq!['\\', 'n']
    } else if c == '\u{c}' {
        seq!['\\', 'f']
    } else if c == '\r' {
        seq!['\\', 'r']
    } else if (c as int) < 0x20 {
        seq!['\\', 'u', '0', '0', hex_digit((c as int) / 16), hex_digit((c as int) % 16)]
    } else {
        seq![c]
    }
}

/// The characters of `s`, each written as [`json_char`] writes it.
pub open spec fn json_escaped(s: Seq<char>) -> Seq<char>
    decreases s.len(),
{
    if s.len() == 0 {
        Seq::empty()
    } else {
        json_escaped(s.drop_last()) + json_char(s.last())
    }
}

/// The JSON string literal that serde_json writes for the text `s`.
pub open spec fn json_quoted(s: Seq<char>) -> Seq<char> {
    seq!['"'] + json_escaped(s) + seq!['"']
}

/// The last second chrono can represent, +262142-12-31T23:59:59 UTC, in
/// seconds after the Unix epoch.
pub const LATEST_SECS: i64 = 8_210_266_876_799;

/// An instant chrono can represent and write: from the epoch up to
/// [`LATEST_SECS`], with the nanoseconds below one second.
pub open spec fn representable(secs: int, nanos: int) -> bool {
    0 <= secs <= LATEST_SECS && 0 <= nanos < 1_000_000_000
}

/// The RFC 3339 text, in UTC with a `Z` suffix and as many fractional digits
/// as the nanoseconds need, that chrono writes for the instant `secs` seconds
/// and `nanos` nanoseconds after the Unix epoch.
pub uninterp spec fn rfc3339_utc(secs: int, nanos: int) -> Seq<char>;

/// Relies on `serde_json::to_string` on a `str`: it escapes with its
/// `ESCAPE` table and writes into a `Vec`, which never fails.
#[verifier::external_body]
fn quote_json(s: &str) -> (r: Option<String>)
    ensures
        r is Some,
        r matches Some(q) ==> q@ == json_quoted(s@),
{
    serde_json::to_string(s).ok()
}

/// Relies on `chrono::Utc::now`: the current time, read from the system
/// clock, as seconds and nanoseconds since the Unix epoch. It builds its
/// value with `from_timestamp(..).unwrap()` from a `Duration` since the
/// epoch, so what it returns is representable.
#[verifier::external_body]
fn utc_now() -> (t: Timestamp)
    ensures
        representable(t.secs as int, t.nanos as int),
{
    let now = Utc::now();
    Timestamp { secs: now.timestamp(), nanos: now.timestamp_subsec_nanos() }
}

/// Relies on chrono's `DateTime::<Utc>::from_timestamp`, which is `None` for
/// an instant chrono cannot represent, and on
/// `to_rfc3339_opts(SecondsFormat::AutoSi, true)`, the form chrono's serde
/// support writes.
#[verifier::external_body]
fn rfc3339_text(secs: i64, nanos: u32) -> (r: Option<String>)
    ensures
        r matches Some(t) ==> t@ == rfc3339_utc(secs as int, nanos as int),
        representable(secs as int, nanos as int) ==> r is Some,
{
    match DateTime::<Utc>::from_timestamp(secs, nanos) {
        Some(d) => Some(d.to_rfc3339_opts(SecondsFormat::AutoSi, true)),
        None => None,
    }
}

/// A point in time: seconds and nanoseconds since the Unix epoch, in UTC.
#[derive(Debug, Clone, Copy, PartialEq, Eq)]
pub struct Timestamp {
    pub secs: i64,
    pub nanos: u32,
}

impl Timestamp {
    /// The current time.
    pub fn now() -> (t: Timestamp)
        ensures
            representable(t.secs as int, t.nanos as int),
    {
        utc_now()
    }

    /// The RFC 3339 text of this instant, or `None` for one that chrono
    /// cannot represent.
    pub fn to_rfc3339(&self) -> (r: Option<String>)
        ensures
            r matches Some(t) ==> t@ == rfc3339_utc(self.secs as int, self.nanos as int),
            representable(self.secs as int, self.nanos as int) ==> r is Some,
    {
        rfc3339_text(self.secs, self.nanos)
    }
}

/// The JSON text of a message from `user_name` saying `text`, stamped with
/// the RFC 3339 text `time_stamp`.
pub open spec fn envelope_json(user_name: Seq<char>, text: Seq<char>, time_stamp: Seq<char>) -> Seq<
    char,
> {
    "{\"user_name\":"@ + json_quoted(user_name) + ",\"text\":"@ + json_quoted(text)
        + ",\"time_stamp\":"@ + json_quoted(time_stamp) + "}"@
}

/// A message as the relay publishes it: the raw client text enriched with
/// its sender's display name and the moment it was received.
#[derive(Debug, Clone)]
pub struct WsText {
    user_name: String,
    text: String,
    time_stamp: Timestamp,
}

impl WsText {
    pub closed spec fn user_name(&self) -> Seq<char> {
        self.user_name@
    }

    pub closed spec fn text(&self) -> Seq<char> {
        self.text@
    }

    pub closed spec fn time_stamp(&self) -> Timestamp {
        self.time_stamp
    }

    /// The message `text` from `user_name`, stamped with the current time.
    pub fn json_from_ws_message(user_name: &str, text: &str) -> (m: WsText)
        ensures
            m.user_name() == user_name@,
            m.text() == text@,
            representable(m.time_stamp().secs as int, m.time_stamp().nanos as int),
    {
        WsText::new(user_name, text, Timestamp::now())
    }

    /// The message `text` from `user_name`, stamped with `time_stamp`.
    pub fn new(user_name: &str, text: &str, time_stamp: Timestamp) -> (m: WsText)
        ensures
            m.user_name() == user_name@,
            m.text() == text@,
            m.time_stamp() == time_stamp,
    {
        WsText { user_name: user_name.to_owned(), text: text.to_owned(), time_stamp }
    }

    pub fn get_user_name(&self) -> (r: &str)
        ensures
            r@ == self.user_name(),
    {
        self.user_name.as_str()
    }

    pub fn get_text(&self) -> (r: &str)
        ensures
            r@ == self.text(),
    {
        self.text.as_str()
    }

    pub fn get_time_stamp(&self) -> (r: Timestamp)
        ensures
            r == self.time_stamp(),
    {
        self.time_stamp
    }

    /// The JSON text subscribers receive for this message; `None` exactly
    /// when the time stamp is not representable.
    pub fn to_json(&self) -> (r: Option<String>)
        ensures
            r matches Some(j) ==> j@ == envelope_json(
                self.user_name(),
                self.text(),
                rfc3339_utc(self.time_stamp().secs as int, self.time_stamp().nanos as int),
            ),
            representable(self.time_stamp().secs as int, self.time_stamp().nanos as int)
                ==> r is Some,
    {
        let stamp = match self.time_stamp.to_rfc3339() {
            Some(s) => s,
            None => return None,
        };
        let user_name = match quote_json(self.user_name.as_str()) {
            Some(q) => q,
            None => return None,
        };
        let text = match quote_json(self.text.as_str()) {
            Some(q) => q,
            None => return None,
        };
        let time_stamp = match quote_json(stamp.as_str()) {
            Some(q) => q,
            None => return None,
        };
        let mut out = String::from_str("{\"user_name\":");
        out.append(user_name.as_str());
        out.append(",\"text\":");
        out.append(text.as_str());
        out.append(",\"time_stamp\":");
        out.append(time_stamp.as_str());
        out.append("}");
        Some(out)
    }
}

} // verus!
