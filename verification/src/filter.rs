//! The noise filter: drops report boilerplate and page-number artifacts
//! from the raw line sequence and trims what survives.

use vstd::prelude::*;
use vstd::string::*;
use crate::errors::ParseSouthLawPropertiesError;
use crate::text::{contains_seq, contains_str, trim_spec, trim_str, split_lines, split_newlines};

verus! {

/// The fixed deny-list of boilerplate phrases: the document title, the
/// "as of" banner, the ten column headers, the case-number footer, and the
/// publisher's street address.  A line containing any of them is noise.
pub open spec fn deny_phrases() -> Seq<Seq<char>> {
    seq![
        "Foreclosure Sales"@,
        "Information Reported as of:"@,
        "Property Address"@,
        "Property City"@,
        "Sale Date"@,
        "Sale Time"@,
        "Continued Date/Time"@,
        "Opening Bid"@,
        "Sale Location(City)"@,
        "Civil Case No."@,
        "Firm File#"@,
        "Property Zip"@,
        "13160 Foster, Ste. 100"@,
    ]
}

/// `l` contains at least one deny-list phrase.
pub open spec fn hits_deny_list(l: Seq<char>) -> bool {
    ||| contains_seq(l, "Foreclosure Sales"@)
    ||| contains_seq(l, "Information Reported as of:"@)
    ||| contains_seq(l, "Property Address"@)
    ||| contains_seq(l, "Property City"@)
    ||| contains_seq(l, "Sale Date"@)
    ||| contains_seq(l, "Sale Time"@)
    ||| contains_seq(l, "Continued Date/Time"@)
    ||| contains_seq(l, "Opening Bid"@)
    ||| contains_seq(l, "Sale Location(City)"@)
    ||| contains_seq(l, "Civil Case No."@)
    ||| contains_seq(l, "Firm File#"@)
    ||| contains_seq(l, "Property Zip"@)
    ||| contains_seq(l, "13160 Foster, Ste. 100"@)
}

/// The deny-list disjunction runs exactly over [`deny_phrases`].
pub proof fn lemma_hits_deny_list_indexed(l: Seq<char>)
    ensures
        hits_deny_list(l) <==> exists|k: int|
            0 <= k < deny_phrases().len() && contains_seq(l, #[trigger] deny_phrases()[k]),
{
    assert(deny_phrases()[0] == "Foreclosure Sales"@);
    assert(deny_phrases()[1] == "Information Reported as of:"@);
    assert(deny_phrases()[2] == "Property Address"@);
    assert(deny_phrases()[3] == "Property City"@);
    assert(deny_phrases()[4] == "Sale Date"@);
    assert(deny_phrases()[5] == "Sale Time"@);
    assert(deny_phrases()[6] == "Continued Date/Time"@);
    assert(deny_phrases()[7] == "Opening Bid"@);
    assert(deny_phrases()[8] == "Sale Location(City)"@);
    assert(deny_phrases()[9] == "Civil Case No."@);
    assert(deny_phrases()[10] == "Firm File#"@);
    assert(deny_phrases()[11] == "Property Zip"@);
    assert(deny_phrases()[12] == "13160 Foster, Ste. 100"@);
}

/// A page-number artifact left by text extraction: a line that is exactly
/// one of the single digits "1" through "9".
pub open spec fn is_page_digit(l: Seq<char>) -> bool {
    l.len() == 1 && '1' <= l[0] && l[0] <= '9'
}

/// A line the filter removes: boilerplate or a page-number artifact.  The
/// test runs on the raw line; trimming happens after filtering.
pub open spec fn line_excluded(l: Seq<char>) -> bool {
    hits_deny_list(l) || is_page_digit(l)
}

/// The surviving lines in order, each trimmed of leading and trailing
/// whitespace.
pub open spec fn kept_lines(lines: Seq<Seq<char>>) -> Seq<Seq<char>>
    decreases lines.len(),
{
    if lines.len() == 0 {
        Seq::empty()
    } else {
        let prefix = kept_lines(lines.drop_last());
        if line_excluded(lines.last()) {
            prefix
        } else {
            prefix.push(trim_spec(lines.last()))
        }
    }
}

/// What noise filtering yields for a raw text blob: `EmptyInputError` for
/// an empty blob, `NoValidDataError` when filtering removed every line,
/// and otherwise the surviving trimmed lines.
pub open spec fn extract_lines_spec(text: Seq<char>) -> Result<
    Seq<Seq<char>>,
    ParseSouthLawPropertiesError,
> {
    if text.len() == 0 {
        Err(ParseSouthLawPropertiesError::EmptyInputError)
    } else {
        let kept = kept_lines(split_lines(text));
        if kept.len() == 0 {
            Err(ParseSouthLawPropertiesError::NoValidDataError)
        } else {
            Ok(kept)
        }
    }
}

/// Runtime test for [`line_excluded`].
fn line_excluded_exec(line: &str) -> (r: bool)
    ensures
        r == line_excluded(line@),
{
    let boiler = contains_str(line, "Foreclosure Sales")
        || contains_str(line, "Information Reported as of:")
        || contains_str(line, "Property Address")
        || contains_str(line, "Property City")
        || contains_str(line, "Sale Date")
        || contains_str(line, "Sale Time")
        || contains_str(line, "Continued Date/Time")
        || contains_str(line, "Opening Bid")
        || contains_str(line, "Sale Location(City)")
        || contains_str(line, "Civil Case No.")
        || contains_str(line, "Firm File#")
        || contains_str(line, "Property Zip")
        || contains_str(line, "13160 Foster, Ste. 100");
    if boiler {
        return true;
    }
    let len = line.unicode_len();
    if len != 1 {
        return false;
    }
    let c = line.get_char(0);
    '1' <= c && c <= '9'
}

/// Split the raw blob into lines, drop boilerplate and page-number
/// artifacts, and trim the survivors.  Fails with `EmptyInputError` on an
/// empty blob and with `NoValidDataError` when nothing survives the
/// filter.
pub fn extract_lines_from_pdf(text: String) -> (r: Result<
    Vec<String>,
    ParseSouthLawPropertiesError,
>)
    ensures
        (match r {
            Ok(v) => extract_lines_spec(text@) == Ok::<_, ParseSouthLawPropertiesError>(
                v.deep_view(),
            ),
            Err(e) => extract_lines_spec(text@) == Err::<Seq<Seq<char>>, _>(e),
        }),
{
    if text.as_str().is_empty() {
        return Err(ParseSouthLawPropertiesError::EmptyInputError);
    }
    let lines = split_newlines(text.as_str());
    let n = lines.len();
    let mut out: Vec<String> = Vec::new();
    let mut i: usize = 0;
    proof {
        assert(lines.deep_view().take(0) =~= Seq::<Seq<char>>::empty());
        assert(out.deep_view() =~= kept_lines(lines.deep_view().take(0)));
    }
    while i < n
        invariant
            n == lines@.len(),
            0 <= i <= n,
            lines.deep_view() == split_lines(text@),
            out.deep_view() == kept_lines(lines.deep_view().take(i as int)),
        decreases n - i,
    {
        let excluded = line_excluded_exec(lines[i].as_str());
        proof {
            let lv = lines.deep_view();
            assert(lv.take(i + 1).drop_last() =~= lv.take(i as int));
            assert(lv.take(i + 1).last() == lv[i as int]);
            assert(lv[i as int] == lines@[i as int]@);
        }
        if !excluded {
            out.push(trim_str(lines[i].as_str()));
        }
        proof {
            assert(out.deep_view() =~= kept_lines(lines.deep_view().take(i + 1)));
        }
        i += 1;
    }
    proof {
        assert(lines.deep_view().take(n as int) =~= lines.deep_view());
    }
    if out.len() == 0 {
        Err(ParseSouthLawPropertiesError::NoValidDataError)
    } else {
        Ok(out)
    }
}

} // verus!
