//! Line-to-record reconstruction engine for scheduled foreclosure sale
//! reports.
//!
//! The input is one text blob already extracted from a vendor report, as a
//! flat sequence of lines.  The engine removes boilerplate lines, derives a
//! two-letter region code from the report title, walks the remaining lines
//! through a fixed ten-slot record schema, and stamps every finished record
//! with a deterministic SHA-256 identifier over a canonical field
//! concatenation.  Fetching the document, extracting its text, and serving
//! the result are the callers' business.

pub mod chars;
pub mod cycler;
pub mod errors;
pub mod filter;
pub mod ident;
pub mod parser;
pub mod records;
pub mod region;
pub mod text;

pub use errors::ParseSouthLawPropertiesError;
pub use filter::extract_lines_from_pdf;
pub use parser::parse_southlaw_properties;
pub use records::Property;
pub use text::is_street_address;
