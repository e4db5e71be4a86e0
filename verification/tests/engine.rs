//! End-to-end behaviour of the reconstruction engine: filtering, region
//! classification, cycling, and identifier computation.

use sha2::Digest;
use southlaw_report::ParseSouthLawPropertiesError;
use southlaw_report::Property;
use southlaw_report::cycler::run_cycler;
use southlaw_report::extract_lines_from_pdf;
use southlaw_report::ident::finalize_records;
use southlaw_report::parse_southlaw_properties;
use southlaw_report::region::classify_region;

fn tokens(items: &[&str]) -> Vec<String> {
    items.iter().map(|s| s.to_string()).collect()
}

#[test]
fn empty_input_fails_with_empty_input_error() {
    let r = extract_lines_from_pdf(String::new());
    assert!(matches!(r, Err(ParseSouthLawPropertiesError::EmptyInputError)));
    let r = parse_southlaw_properties(String::new());
    assert!(matches!(r, Err(ParseSouthLawPropertiesError::EmptyInputError)));
}

#[test]
fn each_deny_phrase_alone_fails_with_no_valid_data() {
    let phrases = [
        "Foreclosure Sales",
        "Information Reported as of:",
        "Property Address",
        "Property City",
        "Sale Date",
        "Sale Time",
        "Continued Date/Time",
        "Opening Bid",
        "Sale Location(City)",
        "Civil Case No.",
        "Firm File#",
        "Property Zip",
        "13160 Foster, Ste. 100",
    ];
    for phrase in phrases {
        let r = extract_lines_from_pdf(phrase.to_string());
        assert!(
            matches!(r, Err(ParseSouthLawPropertiesError::NoValidDataError)),
            "phrase not filtered: {}",
            phrase
        );
    }
}

#[test]
fn page_number_artifacts_are_dropped() {
    let text = "Jackson\n4\n123 Main St";
    let lines = extract_lines_from_pdf(text.to_string()).unwrap();
    assert_eq!(lines, vec!["Jackson".to_string(), "123 Main St".to_string()]);
}

#[test]
fn lines_are_trimmed_after_filtering() {
    // The page-number check runs on the raw line, so a padded digit
    // survives filtering and is trimmed afterwards.
    let text = "  Jackson  \n 7 ";
    let lines = extract_lines_from_pdf(text.to_string()).unwrap();
    assert_eq!(lines, vec!["Jackson".to_string(), "7".to_string()]);
}

#[test]
fn boilerplate_lines_are_dropped_among_data() {
    let text = "Foreclosure Sales Report: Missouri\nJackson\nSale Date Sale Time\n123 Main St";
    let lines = extract_lines_from_pdf(text.to_string()).unwrap();
    assert_eq!(lines, vec!["Jackson".to_string(), "123 Main St".to_string()]);
}

#[test]
fn street_county_disambiguation_scenario() {
    let toks = tokens(&[
        "Jackson",
        "123 Main St",
        "Kansas City",
        "64101",
        "01/02/2024",
        "10:00 AM",
        "",
        "$1,000",
        "Kansas City",
        "24-0001",
    ]);
    let records = run_cycler(&toks);
    assert_eq!(records.len(), 1);
    let r = &records[0];
    assert_eq!(r.county, "Jackson");
    assert_eq!(r.street, "123 Main St");
    assert_eq!(r.city, "Kansas City");
    assert_eq!(r.zip, "64101");
    assert_eq!(r.sale_date, "01/02/2024");
    assert_eq!(r.sale_time, "10:00 AM");
    assert_eq!(r.continued_date_time, "");
    assert_eq!(r.opening_bid, "$1,000");
    assert_eq!(r.sale_location_city, "Kansas City");
    assert_eq!(r.firm_file_number, "24-0001");
}

#[test]
fn omitted_county_scenario_double_stamps_the_address() {
    // An address token at the start of a record means the county line was
    // omitted: the token lands in both the county and the street slot (a
    // vendor-pipeline quirk kept deliberately for compatibility), and the
    // record needs only nine tokens.
    let toks = tokens(&[
        "456 Oak Ave",
        "Topeka",
        "66603",
        "02/03/2024",
        "11:00 AM",
        "",
        "$2,000",
        "Topeka",
        "24-0002",
    ]);
    let records = run_cycler(&toks);
    assert_eq!(records.len(), 1);
    let r = &records[0];
    assert_eq!(r.county, "456 Oak Ave");
    assert_eq!(r.street, "456 Oak Ave");
    assert_eq!(r.city, "Topeka");
    assert_eq!(r.zip, "66603");
    assert_eq!(r.sale_date, "02/03/2024");
    assert_eq!(r.sale_time, "11:00 AM");
    assert_eq!(r.continued_date_time, "");
    assert_eq!(r.opening_bid, "$2,000");
    assert_eq!(r.sale_location_city, "Topeka");
    assert_eq!(r.firm_file_number, "24-0002");
}

#[test]
fn county_is_carried_forward_across_records() {
    // A full explicit-county record, then a street-led record: the carried
    // county feeds the cycler state, while the double-stamp still puts the
    // address token itself into the county slot.
    let mut items = vec![
        "Jackson",
        "123 Main St",
        "Kansas City",
        "64101",
        "01/02/2024",
        "10:00 AM",
        "",
        "$1,000",
        "Kansas City",
        "24-0001",
    ];
    items.extend_from_slice(&[
        "456 Oak Ave",
        "Topeka",
        "66603",
        "02/03/2024",
        "11:00 AM",
        "",
        "$2,000",
        "Topeka",
        "24-0002",
    ]);
    let records = run_cycler(&tokens(&items));
    assert_eq!(records.len(), 2);
    assert_eq!(records[0].county, "Jackson");
    assert_eq!(records[1].county, "456 Oak Ave");
    assert_eq!(records[1].street, "456 Oak Ave");
    assert_eq!(records[1].firm_file_number, "24-0002");
}

#[test]
fn partial_trailing_record_keeps_empty_slots() {
    let toks = tokens(&["Jackson", "123 Main St", "Kansas City"]);
    let records = run_cycler(&toks);
    assert_eq!(records.len(), 1);
    let r = &records[0];
    assert_eq!(r.county, "Jackson");
    assert_eq!(r.street, "123 Main St");
    assert_eq!(r.city, "Kansas City");
    assert_eq!(r.zip, "");
    assert_eq!(r.firm_file_number, "");
}

#[test]
fn region_classification_first_match_wins() {
    assert_eq!(classify_region("xx Foreclosure Sales Report: Missouri yy"), "MO");
    assert_eq!(classify_region("Foreclosure Sales Report: Kansas"), "KS");
    assert_eq!(classify_region("Foreclosure Sales Report: Iowa"), "IA");
    assert_eq!(classify_region("Foreclosure Sales Report: Nebraska"), "NE");
    assert_eq!(classify_region("some other report"), "Unknown");
}

fn report_text() -> String {
    // Ten data lines and a trailing newline: the empty token the final
    // newline produces is the one the engine discards before cycling.
    let lines = [
        "Foreclosure Sales Report: Missouri",
        "Information Reported as of: 01/01/2024",
        "Jackson",
        "123 Main St",
        "Kansas City",
        "64101",
        "01/02/2024",
        "10:00 AM",
        "",
        "$1,000",
        "Kansas City",
        "24-0001",
        "",
    ];
    lines.join("\n")
}

#[test]
fn parse_builds_finalized_records() {
    let records = parse_southlaw_properties(report_text()).unwrap();
    // The blank line above "$1,000" is a data token (the empty
    // continued-date slot); the trailing empty token is dropped.
    assert_eq!(records.len(), 1);
    let r = &records[0];
    assert_eq!(r.county, "Jackson");
    assert_eq!(r.street, "123 Main St");
    assert_eq!(r.state, "MO");
    assert_eq!(r.firm_file_number, "24-0001");
    assert_eq!(r.id.len(), 64);
    assert!(r.id.chars().all(|c| c.is_ascii_hexdigit() && !c.is_ascii_uppercase()));
}

#[test]
fn parse_twice_yields_identical_ids_in_order() {
    let a = parse_southlaw_properties(report_text()).unwrap();
    let b = parse_southlaw_properties(report_text()).unwrap();
    assert_eq!(a.len(), b.len());
    for (x, y) in a.iter().zip(b.iter()) {
        assert_eq!(x.id, y.id);
    }
}

#[test]
fn every_record_of_one_parse_shares_the_state() {
    let mut text = report_text();
    let more = [
        "456 Oak Ave",
        "Topeka",
        "66603",
        "02/03/2024",
        "11:00 AM",
        "",
        "$2,000",
        "Topeka",
        "24-0002",
        "",
    ];
    text.push_str(&more.join("\n"));
    let records = parse_southlaw_properties(text).unwrap();
    assert_eq!(records.len(), 2);
    for r in &records {
        assert_eq!(r.state, "MO");
    }
}

#[test]
fn every_field_of_every_record_is_populated() {
    let records = parse_southlaw_properties(report_text()).unwrap();
    for r in &records {
        // Each of the twelve fields holds a value; empty strings are
        // valid values, and here only the continued-date slot is empty.
        let fields = [
            &r.id,
            &r.state,
            &r.county,
            &r.street,
            &r.city,
            &r.zip,
            &r.sale_date,
            &r.sale_time,
            &r.continued_date_time,
            &r.opening_bid,
            &r.sale_location_city,
            &r.firm_file_number,
        ];
        assert_eq!(fields.len(), 12);
        assert!(!r.id.is_empty());
        assert!(!r.state.is_empty());
    }
}

fn raw_record(fields: [&str; 10]) -> Property {
    let mut p = Property::new();
    for (i, v) in fields.iter().enumerate() {
        p.set(i, v.to_string());
    }
    p
}

#[test]
fn identifier_matches_sha256_of_canonical_concatenation() {
    let raw = raw_record(["A", "B", "C", "1", "2", "3", "4", "5", "6", "7"]);
    let finalized = finalize_records(&vec![raw], "MO");
    assert_eq!(finalized.len(), 1);
    // SHA-256 of the exact byte sequence "ABCMO1234567": county, street,
    // city, state, zip, sale date, sale time, continued date/time, opening
    // bid, sale location city, firm file number, with no separators.
    assert_eq!(
        finalized[0].id,
        "a1a23997e9e45bf33a2ed9d66ffcca71166a5bf5232a5cb3a2aefef66c1fa8b1"
    );
    assert_eq!(finalized[0].state, "MO");
    assert_eq!(finalized[0].county, "A");
}

#[test]
fn identifier_agrees_with_the_hasher_itself() {
    let raw = raw_record([
        "Jackson",
        "123 Main St",
        "Kansas City",
        "64101",
        "01/02/2024",
        "10:00 AM",
        "",
        "$1,000",
        "Kansas City",
        "24-0001",
    ]);
    let finalized = finalize_records(&vec![raw], "MO");
    let concatenated = "Jackson123 Main StKansas CityMO6410101/02/202410:00 AM$1,000Kansas City24-0001";
    let digest = sha2::Sha256::digest(concatenated.as_bytes());
    let mut expected = String::new();
    for b in digest.as_slice() {
        expected.push_str(&format!("{:02x}", b));
    }
    assert_eq!(finalized[0].id, expected);
}

#[test]
fn kansas_report_stamps_ks() {
    let lines = ["Foreclosure Sales Report: Kansas", "Shawnee", "456 Oak Ave", ""];
    let records = parse_southlaw_properties(lines.join("\n")).unwrap();
    assert_eq!(records.len(), 1);
    assert_eq!(records[0].state, "KS");
}

#[test]
fn unrecognized_report_stamps_unknown() {
    let lines = ["Some Other Report", "Jackson", "123 Main St", ""];
    let records = parse_southlaw_properties(lines.join("\n")).unwrap();
    assert_eq!(records.len(), 1);
    assert_eq!(records[0].state, "Unknown");
}

#[test]
fn missing_trailing_newline_drops_the_last_data_token() {
    // The token discard before cycling is unconditional: without the
    // trailing newline the last data line itself is the dropped token.
    // This miscount fragility is part of the format's documented
    // behaviour.
    let lines = ["Jackson", "123 Main St", "Kansas City"];
    let records = parse_southlaw_properties(lines.join("\n")).unwrap();
    assert_eq!(records.len(), 1);
    assert_eq!(records[0].county, "Jackson");
    assert_eq!(records[0].street, "123 Main St");
    assert_eq!(records[0].city, "");
}

#[test]
fn no_input_line_survives_everything_filtered() {
    // Well-formed boilerplate-only report: distinct from the empty blob.
    let text = "Foreclosure Sales Report: Missouri\nProperty Address Property City\n3";
    let r = parse_southlaw_properties(text.to_string());
    assert!(matches!(r, Err(ParseSouthLawPropertiesError::NoValidDataError)));
}

#[test]
fn error_messages_are_stable() {
    assert_eq!(
        ParseSouthLawPropertiesError::EmptyInputError.message(),
        "Empty input error"
    );
    assert_eq!(
        ParseSouthLawPropertiesError::NoValidDataError.message(),
        "No valid data found in the input"
    );
    assert_eq!(
        ParseSouthLawPropertiesError::UnexpectedContentError.message(),
        "Unexpected content encountered in data"
    );
}
