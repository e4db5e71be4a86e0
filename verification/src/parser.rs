//! The whole engine end to end: noise filter, report classifier, field
//! cycler, and record finalizer — together with the proofs of the
//! engine-wide guarantees.

use vstd::prelude::*;
use crate::errors::ParseSouthLawPropertiesError;
use crate::filter::{extract_lines_spec, extract_lines_from_pdf, deny_phrases, kept_lines,
    line_excluded, hits_deny_list};
use crate::region::{region_spec, classify_region};
use crate::cycler::{cycle_run, records_of, run_cycler};
use crate::ident::{finalize_all, finalize_record, finalize_records};
use crate::records::{Property, RecordModel};
use crate::text::{contains_seq, split_lines, lemma_find_newline_is};

verus! {

/// What one parse invocation yields: the filtered lines minus the trailing
/// token of the line round-trip, cycled into records and finalized with
/// the document-wide region code.  Filtering failures pass through
/// unchanged; the engine never returns a partial record list.
pub open spec fn parse_spec(text: Seq<char>) -> Result<
    Seq<RecordModel>,
    ParseSouthLawPropertiesError,
> {
    match extract_lines_spec(text) {
        Err(e) => Err(e),
        Ok(lines) => Ok(
            finalize_all(records_of(cycle_run(lines.drop_last())), region_spec(text)),
        ),
    }
}

/// Reconstruct the property records of one report text blob.
pub fn parse_southlaw_properties(text: String) -> (r: Result<
    Vec<Property>,
    ParseSouthLawPropertiesError,
>)
    ensures
        (match r {
            Ok(v) => parse_spec(text@) == Ok::<_, ParseSouthLawPropertiesError>(v.deep_view()),
            Err(e) => parse_spec(text@) == Err::<Seq<RecordModel>, _>(e),
        }),
{
    let state = classify_region(text.as_str());
    let mut tokens = match extract_lines_from_pdf(text) {
        Ok(v) => v,
        Err(e) => {
            return Err(e);
        },
    };
    let ghost all_lines = tokens.deep_view();
    let _last = tokens.pop();
    proof {
        assert(tokens.deep_view() =~= all_lines.drop_last());
    }
    let raw = run_cycler(&tokens);
    let fin = finalize_records(&raw, state.as_str());
    Ok(fin)
}

// ---------------------------------------------------------------------------
// Engine-wide guarantees
// ---------------------------------------------------------------------------

/// Identifiers are reproducible: the outcome of a parse, identifiers
/// included, is a function of the text blob alone, so two runs over the
/// same blob yield the same record list in the same order.
pub proof fn lemma_parse_deterministic(
    text: Seq<char>,
    r1: Result<Seq<RecordModel>, ParseSouthLawPropertiesError>,
    r2: Result<Seq<RecordModel>, ParseSouthLawPropertiesError>,
)
    requires
        r1 == parse_spec(text),
        r2 == parse_spec(text),
    ensures
        r1 == r2,
{
}

/// Region constancy: every record of a successful parse carries the same
/// region code — the one derived from the document header.
pub proof fn lemma_region_constant(text: Seq<char>)
    requires
        parse_spec(text) is Ok,
    ensures
        forall|i: int|
            0 <= i < parse_spec(text)->Ok_0.len() ==> (#[trigger] parse_spec(
                text,
            )->Ok_0[i]).state == region_spec(text),
{
}

/// Schema completeness: every record of a successful parse is exactly the
/// finalization of its raw record, so each of the twelve fields holds a
/// defined value — possibly the empty string, never a missing slot — with
/// the region code in `state` and the canonical digest in `id`.
pub proof fn lemma_schema_complete(text: Seq<char>)
    requires
        parse_spec(text) is Ok,
    ensures
        forall|i: int|
            0 <= i < parse_spec(text)->Ok_0.len() ==> {
                let lines = extract_lines_spec(text)->Ok_0;
                let raw = records_of(cycle_run(lines.drop_last()));
                #[trigger] parse_spec(text)->Ok_0[i] == finalize_record(
                    raw[i],
                    region_spec(text),
                )
            },
{
}

/// Boilerplate removal: a raw input consisting solely of one deny-list
/// phrase (no other lines) is filtered away entirely and fails with
/// `NoValidDataError`.
pub proof fn lemma_boilerplate_removed(k: int)
    requires
        0 <= k < deny_phrases().len(),
    ensures
        extract_lines_spec(deny_phrases()[k]) == Err::<Seq<Seq<char>>, _>(
            ParseSouthLawPropertiesError::NoValidDataError,
        ),
{
    reveal_strlit("Foreclosure Sales");
    reveal_strlit("Information Reported as of:");
    reveal_strlit("Property Address");
    reveal_strlit("Property City");
    reveal_strlit("Sale Date");
    reveal_strlit("Sale Time");
    reveal_strlit("Continued Date/Time");
    reveal_strlit("Opening Bid");
    reveal_strlit("Sale Location(City)");
    reveal_strlit("Civil Case No.");
    reveal_strlit("Firm File#");
    reveal_strlit("Property Zip");
    reveal_strlit("13160 Foster, Ste. 100");
    let p = deny_phrases()[k];
    assert(p.len() > 0 && forall|j: int| 0 <= j < p.len() ==> p[j] != '\n');
    lemma_phrase_contains_itself(p);
    assert(hits_deny_list(p));
    lemma_single_noise_line_rejected(p);
}

/// Any single noise line on its own — one line, no newline, caught by the
/// filter — leaves nothing behind and fails with `NoValidDataError`.
pub proof fn lemma_single_noise_line_rejected(t: Seq<char>)
    requires
        t.len() > 0,
        forall|j: int| 0 <= j < t.len() ==> t[j] != '\n',
        line_excluded(t),
    ensures
        extract_lines_spec(t) == Err::<Seq<Seq<char>>, _>(
            ParseSouthLawPropertiesError::NoValidDataError,
        ),
{
    lemma_find_newline_is(t, 0, t.len() as int);
    assert(split_lines(t) == seq![t]);
    assert(seq![t].drop_last() =~= Seq::<Seq<char>>::empty());
    assert(kept_lines(Seq::<Seq<char>>::empty()) =~= Seq::<Seq<char>>::empty());
    assert(seq![t].last() == t);
    assert(kept_lines(seq![t]).len() == 0);
}

/// A whole line from the deny-list hits the deny-list: every phrase
/// contains itself.
pub proof fn lemma_phrase_contains_itself(p: Seq<char>)
    ensures
        contains_seq(p, p),
{
    assert(p.subrange(0, 0 + p.len() as int) =~= p);
}

} // verus!
