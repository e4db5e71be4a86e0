//! The report classifier: derive the two-letter region code from the raw
//! text's report-title marker.

use vstd::prelude::*;
use vstd::string::*;
use crate::text::{contains_seq, contains_str};

verus! {

/// The region code for a raw text blob: a flat ordered check of the four
/// known title markers, first match wins, with an "Unknown" sentinel when
/// none matches.  The check runs over the original text, not the filtered
/// lines.
pub open spec fn region_spec(text: Seq<char>) -> Seq<char> {
    if contains_seq(text, "Foreclosure Sales Report: Missouri"@) {
        "MO"@
    } else if contains_seq(text, "Foreclosure Sales Report: Kansas"@) {
        "KS"@
    } else if contains_seq(text, "Foreclosure Sales Report: Iowa"@) {
        "IA"@
    } else if contains_seq(text, "Foreclosure Sales Report: Nebraska"@) {
        "NE"@
    } else {
        "Unknown"@
    }
}

/// Runtime classifier, the counterpart of [`region_spec`].
pub fn classify_region(text: &str) -> (r: String)
    ensures
        r@ == region_spec(text@),
{
    if contains_str(text, "Foreclosure Sales Report: Missouri") {
        String::from_str("MO")
    } else if contains_str(text, "Foreclosure Sales Report: Kansas") {
        String::from_str("KS")
    } else if contains_str(text, "Foreclosure Sales Report: Iowa") {
        String::from_str("IA")
    } else if contains_str(text, "Foreclosure Sales Report: Nebraska") {
        String::from_str("NE")
    } else {
        String::from_str("Unknown")
    }
}

} // verus!
