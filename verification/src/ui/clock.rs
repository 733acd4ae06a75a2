use vstd::prelude::*;
use chrono::{Local, TimeZone, Utc};

verus! {

/// The whole seconds from the Unix epoch to `nanos` nanoseconds after it,
/// rounded down.
pub open spec fn whole_seconds(nanos: i128) -> int {
    nanos as int / 1_000_000_000
}

/// The seconds from the epoch that chrono's calendar holds, with room for
/// any time zone offset.
pub open spec fn in_calendar(secs: int) -> bool {
    -8_000_000_000_000 <= secs <= 8_000_000_000_000
}

/// The seconds from the epoch that fall in the years 1 to 9999 in every time
/// zone (an offset is less than a day): from 0001-01-02 to 9999-12-30 UTC.
pub open spec fn four_digit_years(secs: int) -> bool {
    -62_135_510_400 <= secs <= 253_402_214_399
}

/// Whether `c` is an ASCII digit.
pub open spec fn is_digit(c: char) -> bool {
    '0' <= c && c <= '9'
}

/// Text of the shape `YYYY-MM-DD HH:MM:SS`.
pub open spec fn timestamp_shape(t: Seq<char>) -> bool {
    &&& t.len() == 19
    &&& forall|i: int|
        0 <= i < 19 ==> if i == 4 || i == 7 {
            #[trigger] t[i] == '-'
        } else if i == 10 {
            t[i] == ' '
        } else if i == 13 || i == 16 {
            t[i] == ':'
        } else {
            is_digit(t[i])
        }
}

/// Formats the instant `secs` seconds after the epoch in the local time zone
/// with chrono: `Utc.timestamp_opt(secs, 0)` (a single result for seconds in
/// the calendar), `with_timezone(&Local)` and the format
/// `%Y-%m-%d %H:%M:%S`. The result depends on the machine's time zone, so
/// only its shape is stated: in the years 1 to 9999 `%Y` writes four digits
/// (`write_year`), the other fields two, and a whole second is never a leap
/// second. chrono panics when the system's zone data cannot place the
/// instant; that depends on the machine, not on `secs`, and is left unsaid.
#[verifier::external_body]
fn local_time_text(secs: i64) -> (r: String)
    requires
        in_calendar(secs as int),
    ensures
        four_digit_years(secs as int) ==> timestamp_shape(r@),
{
    Utc.timestamp_opt(secs, 0).unwrap().with_timezone(&Local).format("%Y-%m-%d %H:%M:%S").to_string()
}

/// A modification time, `nanos` nanoseconds after the epoch, as local date
/// and time to the second (the second it falls in).
pub fn mtime_text(nanos: i128) -> (r: String)
    requires
        in_calendar(whole_seconds(nanos)),
    ensures
        four_digit_years(whole_seconds(nanos)) ==> timestamp_shape(r@),
{
    let q: i128 = nanos / 1_000_000_000;
    let rem: i128 = nanos % 1_000_000_000;
    let secs: i128 = if rem < 0 {
        q - 1
    } else {
        q
    };
    assert(secs == whole_seconds(nanos)) by {
        if rem < 0 {
            vstd::arithmetic::div_mod::lemma_fundamental_div_mod_converse(
                nanos as int,
                1_000_000_000,
                (q - 1) as int,
                (rem + 1_000_000_000) as int,
            );
        } else {
            vstd::arithmetic::div_mod::lemma_fundamental_div_mod_converse(
                nanos as int,
                1_000_000_000,
                q as int,
                rem as int,
            );
        }
    }
    local_time_text(secs as i64)
}

} // verus!
