//! The local wall clock.

use vstd::prelude::*;

verus! {

/// The two layouts in which this library writes the local time.
pub open spec fn known_time_layout(layout: Seq<char>) -> bool {
    layout == "%Y%m%d_%H%M%S"@ || layout == "%Y-%m-%d %H:%M:%S"@
}

/// Relies on `chrono::Local::now` and `DateTime::format`: the current local
/// time written in `layout`. Nothing is promised of the text, which depends on
/// the clock; the layout is one that chrono accepts, so the formatting cannot
/// fail.
#[verifier::external_body]
pub(crate) fn local_time_text(layout: &str) -> (r: String)
    requires
        known_time_layout(layout@),
{
    chrono::Local::now().format(layout).to_string()
}

} // verus!
