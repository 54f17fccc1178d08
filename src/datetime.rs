//! Rendering an instant as text through a strftime-style template.

use std::fmt::Write;
use vstd::prelude::*;

verus! {

/// The text that chrono renders for the UTC instant `secs` seconds after the Unix epoch
/// with the strftime-style `template`, or `None` when it renders none.
pub uninterp spec fn utc_formatted(secs: i64, template: Seq<char>) -> Option<Seq<char>>;

/// The instant lies between 0001-01-01T00:00:00Z and 9999-12-31T23:59:59Z, well inside
/// the range of instants that chrono holds.
pub open spec fn within_common_era(secs: i64) -> bool {
    -62_135_596_800 <= secs && secs <= 253_402_300_799
}

/// The templates that the diary uses for the time of day, the ISO week, the weekday and the
/// date: each directive of them renders for any instant that chrono holds.
pub open spec fn always_renders(template: Seq<char>) -> bool {
    template == "%H:%M:%S"@ || template == "%V"@ || template == "%A"@ || template == "%Y-%m-%d"@
}

/// `t` is a time of day as `%H:%M:%S` renders it: two digits, a colon, two digits, a colon,
/// two digits.
pub open spec fn clock_text(t: Seq<char>) -> bool {
    &&& t.len() == 8
    &&& t[2] == ':'
    &&& t[5] == ':'
    &&& forall|i: int| 0 <= i < 8 && i != 2 && i != 5 ==> '0' <= #[trigger] t[i] && t[i] <= '9'
}

/// Relies on chrono's `DateTime::<Utc>::from_timestamp` and `DateTime::format`: the text
/// depends on the instant and the template alone. `None` when the instant lies outside
/// chrono's range or the template holds a directive that chrono cannot render. The
/// directives `%H %M %S %V %A %Y %m %d` never fail on an instant chrono holds (chrono's
/// `format_numeric` and `format_fixed`), and `%H`, `%M`, `%S` write two zero-padded digits.
#[verifier::external_body]
pub(crate) fn format_utc(secs: i64, template: &str) -> (r: Option<String>)
    ensures
        match r {
            Some(t) => utc_formatted(secs, template@) == Some(t@),
            None => utc_formatted(secs, template@) is None,
        },
        within_common_era(secs) && always_renders(template@) ==> r is Some,
        r is Some && template@ == "%H:%M:%S"@ ==> clock_text(r->Some_0@),
{
    let instant = chrono::DateTime::from_timestamp(secs, 0)?;
    let mut text = String::new();
    match write!(text, "{}", instant.format(template)) {
        Ok(()) => Some(text),
        Err(_) => None,
    }
}

} // verus!
