//! The payloads of the three supported actions, their built-in handlers, and
//! the calls into `rust_ocpp` that check and write them.

pub mod boot_notification;
pub mod heartbeat;
pub mod status_notification;

use crate::messages::boot_notification::{boot_notification_response_json, RegistrationStatus};
use crate::messages::heartbeat::heartbeat_response_json;
use vstd::prelude::*;

verus! {

/// Whether every character of `text` from `from` up to `to` is a decimal
/// digit.
pub open spec fn digits(text: Seq<char>, from: int, to: int) -> bool {
    forall|k: int| from <= k < to ==> '0' <= #[trigger] text[k] <= '9'
}

/// Whether `text` reads as an RFC 3339 time in UTC whose letter `T` stands at
/// `at`:
/// - the year, of four digits, or of four digits or more behind a sign;
/// - a hyphen, the month in two digits, a hyphen, the day in two digits;
/// - `T`, then hour, minute and second in two digits each, with colons
///   between them;
/// - perhaps a point and a fraction of three, six or nine digits;
/// - the designator `Z`, and nothing behind it.
pub open spec fn rfc3339_utc_at(text: Seq<char>, at: int) -> bool {
    let end = text.len() - 1;
    &&& 10 <= at
    &&& at + 9 <= end
    &&& if at == 10 {
        digits(text, 0, 4)
    } else {
        (text[0] == '+' || text[0] == '-') && digits(text, 1, at - 6)
    }
    &&& text[at - 6] == '-'
    &&& digits(text, at - 5, at - 3)
    &&& text[at - 3] == '-'
    &&& digits(text, at - 2, at)
    &&& text[at] == 'T'
    &&& digits(text, at + 1, at + 3)
    &&& text[at + 3] == ':'
    &&& digits(text, at + 4, at + 6)
    &&& text[at + 6] == ':'
    &&& digits(text, at + 7, at + 9)
    &&& if end == at + 9 {
        true
    } else {
        text[at + 9] == '.' && (end == at + 13 || end == at + 16 || end == at + 19) && digits(
            text,
            at + 10,
            end,
        )
    }
    &&& text[end] == 'Z'
}

/// Whether a text has the form of an RFC 3339 time in UTC, as `chrono`
/// writes it. The year may have more than four digits and a sign, so the
/// place of the `T` is not fixed.
pub open spec fn rfc3339_utc(time: Seq<char>) -> bool {
    exists|at: int| #[trigger] rfc3339_utc_at(time, at)
}

/// Whether the answers that carry `time` can be written, whatever else they
/// hold.
pub open spec fn writable(time: Seq<char>) -> bool {
    &&& heartbeat_response_json(time) is Ok
    &&& forall|interval: u32, status: RegistrationStatus|
        (#[trigger] boot_notification_response_json(time, interval, status)) is Ok
}

/// What holds of every reading of the clock: it has the shape of an RFC 3339
/// time in UTC, and the answers that carry it can be written.
pub open spec fn clock_text(time: Seq<char>) -> bool {
    rfc3339_utc(time) && writable(time)
}

/// Calls `std::time::SystemTime::now`, `chrono`'s `From<SystemTime>` for
/// `DateTime<Utc>` and `DateTime::to_rfc3339_opts` with
/// `SecondsFormat::AutoSi` and `true` for `use_z`, which is how `chrono`
/// serialises a `DateTime<Utc>`. The conversion takes a clock that stands
/// before the Unix epoch as well; it fails only beyond the years that
/// `chrono` can hold, some 262 000 either way. Which instant the text gives
/// depends on the clock, so the contract claims only what holds of every
/// instant. The text has the form that `chrono` writes for every year: the
/// year in four digits, or in four or more behind a sign, the rest of the
/// date and the time in two digits each, a fraction of three, six or nine
/// digits where the second is not whole, and `Z` for the offset of UTC. And
/// `chrono` reads back what it wrote: its parser takes this form, signed years
/// included, and writing a time, an integer and a status as JSON into memory
/// does not fail.
#[verifier::external_body]
pub(crate) fn current_time() -> (r: String)
    ensures
        clock_text(r@),
{
    chrono::DateTime::<chrono::Utc>::from(std::time::SystemTime::now()).to_rfc3339_opts(
        chrono::SecondsFormat::AutoSi,
        true,
    )
}

} // verus!
