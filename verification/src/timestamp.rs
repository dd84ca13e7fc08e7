//! Wall-clock timestamps, split into calendar fields, and their two text
//! forms: the compact sortable form that names a crash-log file and the
//! human-readable form that appears in the report header.

use vstd::prelude::*;
use crate::chars::string_from_chars;
use crate::digits::{
    spec_pad2, spec_pad4, spec_dec_signed, pad2_chars, pad4_chars, i64_dec_chars, lemma_pad2_len,
    lemma_pad4_len,
};
use chrono::{Datelike, Timelike};

verus! {

/// A wall-clock reading, split into calendar fields.
pub struct Timestamp {
    pub year: i32,
    pub month: u32,
    pub day: u32,
    pub hour: u32,
    pub minute: u32,
    pub second: u32,
}

impl Timestamp {
    /// Well-formedness: the fields lie in their calendar ranges.
    pub open spec fn wf(self) -> bool {
        &&& 1 <= self.month <= 12
        &&& 1 <= self.day <= 31
        &&& self.hour < 24
        &&& self.minute < 60
        &&& self.second < 60
    }
}

/// The year zero-padded to four digits; years outside 0..=9999 fall back
/// to their plain signed decimal form.
pub open spec fn spec_year_chars(y: int) -> Seq<char> {
    if 0 <= y <= 9999 {
        spec_pad4(y as nat)
    } else {
        spec_dec_signed(y)
    }
}

/// The compact, sortable timestamp text: `YYYYMMDDHHMMSS`.
pub open spec fn spec_compact(t: Timestamp) -> Seq<char> {
    spec_year_chars(t.year as int) + spec_pad2(t.month as nat) + spec_pad2(t.day as nat)
        + spec_pad2(t.hour as nat) + spec_pad2(t.minute as nat) + spec_pad2(t.second as nat)
}

/// The human-readable timestamp text: `YYYY-MM-DD HH:MM:SS`.
pub open spec fn spec_human(t: Timestamp) -> Seq<char> {
    spec_year_chars(t.year as int) + seq!['-'] + spec_pad2(t.month as nat) + seq!['-']
        + spec_pad2(t.day as nat) + seq![' '] + spec_pad2(t.hour as nat) + seq![':'] + spec_pad2(
        t.minute as nat,
    ) + seq![':'] + spec_pad2(t.second as nat)
}

/// Law: a well-formed timestamp with a four-digit year renders at the
/// fixed width of fourteen characters in the compact form, which is what
/// makes the crash-log file names sortable by time.
pub proof fn lemma_compact_fixed_width(t: Timestamp)
    requires
        t.wf(),
        0 <= t.year <= 9999,
    ensures
        spec_compact(t).len() == 14,
{
    lemma_pad4_len(t.year as nat);
    lemma_pad2_len(t.month as nat);
    lemma_pad2_len(t.day as nat);
    lemma_pad2_len(t.hour as nat);
    lemma_pad2_len(t.minute as nat);
    lemma_pad2_len(t.second as nat);
}

/// Relies on `chrono::Local::now` and the `Datelike` / `Timelike`
/// accessors: the reading depends on the clock, but the accessors'
/// documented ranges (month 1..=12, day 1..=31, hour below 24, minute and
/// second below 60) hold of every outcome.
#[verifier::external_body]
pub fn now_local() -> (t: Timestamp)
    ensures
        t.wf(),
{
    let now = chrono::Local::now();
    Timestamp {
        year: now.year(),
        month: now.month(),
        day: now.day(),
        hour: now.hour(),
        minute: now.minute(),
        second: now.second(),
    }
}

fn year_chars(y: i32) -> (r: Vec<char>)
    ensures
        r@ == spec_year_chars(y as int),
{
    if 0 <= y && y <= 9999 {
        pad4_chars(y as u64)
    } else {
        i64_dec_chars(y as i64)
    }
}

/// The compact, sortable timestamp text: `YYYYMMDDHHMMSS`.
pub fn compact_text(t: &Timestamp) -> (r: String)
    ensures
        r@ == spec_compact(*t),
{
    let mut v = year_chars(t.year);
    let mut p = pad2_chars(t.month as u64);
    v.append(&mut p);
    let mut p = pad2_chars(t.day as u64);
    v.append(&mut p);
    let mut p = pad2_chars(t.hour as u64);
    v.append(&mut p);
    let mut p = pad2_chars(t.minute as u64);
    v.append(&mut p);
    let mut p = pad2_chars(t.second as u64);
    v.append(&mut p);
    string_from_chars(&v)
}

/// The human-readable timestamp text: `YYYY-MM-DD HH:MM:SS`.
pub fn human_text(t: &Timestamp) -> (r: String)
    ensures
        r@ == spec_human(*t),
{
    let mut v = year_chars(t.year);
    v.push('-');
    let mut p = pad2_chars(t.month as u64);
    v.append(&mut p);
    v.push('-');
    let mut p = pad2_chars(t.day as u64);
    v.append(&mut p);
    v.push(' ');
    let mut p = pad2_chars(t.hour as u64);
    v.append(&mut p);
    v.push(':');
    let mut p = pad2_chars(t.minute as u64);
    v.append(&mut p);
    v.push(':');
    let mut p = pad2_chars(t.second as u64);
    v.append(&mut p);
    proof {
        assert(v@ =~= spec_human(*t));
    }
    string_from_chars(&v)
}

} // verus!
