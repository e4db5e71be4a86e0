//! The record finalizer: the canonical field concatenation, its SHA-256
//! digest, and the lowercase hexadecimal identifier built from it.

use vstd::prelude::*;
use vstd::string::*;
use vstd::utf8::encode_utf8;
use crate::records::{Property, RecordModel};

verus! {

/// The SHA-256 digest of a byte sequence.  The digest is a pure function
/// of the input bytes; its definition lives in the outside hasher.
pub uninterp spec fn sha256_of(data: Seq<u8>) -> Seq<u8>;

/// Relies on sha2::Sha256 through the Digest trait: the digest depends on
/// the input bytes alone and is exactly 32 bytes long.
#[verifier::external_body]
fn sha256_digest(data: &[u8]) -> (r: Vec<u8>)
    ensures
        r@ == sha256_of(data@),
        r@.len() == 32,
{
    let digest = <sha2::Sha256 as sha2::Digest>::digest(data);
    digest.as_slice().to_vec()
}

/// The lowercase hexadecimal digit for a value below sixteen.
pub open spec fn hex_char(n: u8) -> char {
    if n == 0 {
        '0'
    } else if n == 1 {
        '1'
    } else if n == 2 {
        '2'
    } else if n == 3 {
        '3'
    } else if n == 4 {
        '4'
    } else if n == 5 {
        '5'
    } else if n == 6 {
        '6'
    } else if n == 7 {
        '7'
    } else if n == 8 {
        '8'
    } else if n == 9 {
        '9'
    } else if n == 10 {
        'a'
    } else if n == 11 {
        'b'
    } else if n == 12 {
        'c'
    } else if n == 13 {
        'd'
    } else if n == 14 {
        'e'
    } else {
        'f'
    }
}

/// Lowercase hexadecimal rendering: two digits per byte, high nibble
/// first.
pub open spec fn hex_of(bytes: Seq<u8>) -> Seq<char>
    decreases bytes.len(),
{
    if bytes.len() == 0 {
        Seq::empty()
    } else {
        hex_of(bytes.drop_last()) + seq![
            hex_char(bytes.last() / 16),
            hex_char(bytes.last() % 16),
        ]
    }
}

/// One lowercase hexadecimal digit as a string slice.
fn hex_digit_str(n: u8) -> (r: &'static str)
    requires
        n < 16,
    ensures
        r@.len() == 1,
        r@[0] == hex_char(n),
{
    proof {
        reveal_strlit("0");
        reveal_strlit("1");
        reveal_strlit("2");
        reveal_strlit("3");
        reveal_strlit("4");
        reveal_strlit("5");
        reveal_strlit("6");
        reveal_strlit("7");
        reveal_strlit("8");
        reveal_strlit("9");
        reveal_strlit("a");
        reveal_strlit("b");
        reveal_strlit("c");
        reveal_strlit("d");
        reveal_strlit("e");
        reveal_strlit("f");
    }
    match n {
        0 => "0",
        1 => "1",
        2 => "2",
        3 => "3",
        4 => "4",
        5 => "5",
        6 => "6",
        7 => "7",
        8 => "8",
        9 => "9",
        10 => "a",
        11 => "b",
        12 => "c",
        13 => "d",
        14 => "e",
        _ => "f",
    }
}

/// Render a byte vector as lowercase hexadecimal.
pub fn to_hex(bytes: &Vec<u8>) -> (r: String)
    ensures
        r@ == hex_of(bytes@),
{
    let mut out = String::new();
    let n = bytes.len();
    let mut i: usize = 0;
    proof {
        assert(bytes@.take(0) =~= Seq::<u8>::empty());
    }
    while i < n
        invariant
            n == bytes@.len(),
            0 <= i <= n,
            out@ == hex_of(bytes@.take(i as int)),
        decreases n - i,
    {
        let b = bytes[i];
        out.append(hex_digit_str(b / 16));
        out.append(hex_digit_str(b % 16));
        proof {
            assert(bytes@.take(i + 1).drop_last() =~= bytes@.take(i as int));
            assert(bytes@.take(i + 1).last() == bytes@[i as int]);
            assert(out@ =~= hex_of(bytes@.take(i + 1)));
        }
        i += 1;
    }
    proof {
        assert(bytes@.take(n as int) =~= bytes@);
    }
    out
}

/// The canonical concatenation the identifier is computed over: the ten
/// cycled fields with the document-wide region code in fourth position, in
/// schema order, with no separators.
pub open spec fn concat_fields(r: RecordModel, state: Seq<char>) -> Seq<char> {
    r.county + r.street + r.city + state + r.zip + r.sale_date + r.sale_time
        + r.continued_date_time + r.opening_bid + r.sale_location_city + r.firm_file_number
}

/// A record's identifier: the lowercase hexadecimal SHA-256 digest of the
/// UTF-8 bytes of the canonical concatenation.
pub open spec fn record_id(r: RecordModel, state: Seq<char>) -> Seq<char> {
    hex_of(sha256_of(encode_utf8(concat_fields(r, state))))
}

/// A finalized record: the cycled fields unchanged, the document-wide
/// region code stamped in, and the identifier attached.
pub open spec fn finalize_record(r: RecordModel, state: Seq<char>) -> RecordModel {
    RecordModel { state: state, id: record_id(r, state), ..r }
}

/// Finalization is a pure, order-preserving map: no record is dropped,
/// reordered, or merged.
pub open spec fn finalize_all(rs: Seq<RecordModel>, state: Seq<char>) -> Seq<RecordModel> {
    rs.map_values(|r: RecordModel| finalize_record(r, state))
}

/// Finalization is order-preserving: it never drops, reorders, or merges
/// records — the i-th output is exactly the finalization of the i-th
/// input.
pub proof fn lemma_finalize_order_preserving(rs: Seq<RecordModel>, state: Seq<char>)
    ensures
        finalize_all(rs, state).len() == rs.len(),
        forall|i: int|
            0 <= i < rs.len() ==> #[trigger] finalize_all(rs, state)[i] == finalize_record(
                rs[i],
                state,
            ),
{
}

/// Compute one record's identifier from its cycled fields and the
/// document-wide region code.
pub fn compute_id(p: &Property, state: &str) -> (r: String)
    ensures
        r@ == record_id(p@, state@),
{
    let mut s = String::new();
    s.append(p.county.as_str());
    s.append(p.street.as_str());
    s.append(p.city.as_str());
    s.append(state);
    s.append(p.zip.as_str());
    s.append(p.sale_date.as_str());
    s.append(p.sale_time.as_str());
    s.append(p.continued_date_time.as_str());
    s.append(p.opening_bid.as_str());
    s.append(p.sale_location_city.as_str());
    s.append(p.firm_file_number.as_str());
    proof {
        assert(s@ =~= concat_fields(p@, state@));
    }
    let digest = sha256_digest(s.as_str().as_bytes());
    to_hex(&digest)
}

/// Finalize every record in order.
pub fn finalize_records(raw: &Vec<Property>, state: &str) -> (r: Vec<Property>)
    ensures
        r.deep_view() == finalize_all(raw.deep_view(), state@),
{
    let n = raw.len();
    let mut out: Vec<Property> = Vec::new();
    let mut i: usize = 0;
    proof {
        assert(out.deep_view() =~= finalize_all(raw.deep_view().take(0), state@));
    }
    while i < n
        invariant
            n == raw@.len(),
            0 <= i <= n,
            out.deep_view() == finalize_all(raw.deep_view().take(i as int), state@),
        decreases n - i,
    {
        let id = compute_id(&raw[i], state);
        let fin = Property {
            id,
            state: String::from_str(state),
            county: raw[i].county.clone(),
            street: raw[i].street.clone(),
            city: raw[i].city.clone(),
            zip: raw[i].zip.clone(),
            sale_date: raw[i].sale_date.clone(),
            sale_time: raw[i].sale_time.clone(),
            continued_date_time: raw[i].continued_date_time.clone(),
            opening_bid: raw[i].opening_bid.clone(),
            sale_location_city: raw[i].sale_location_city.clone(),
            firm_file_number: raw[i].firm_file_number.clone(),
        };
        proof {
            assert(fin@ =~= finalize_record(raw.deep_view()[i as int], state@));
        }
        let ghost gfin = fin@;
        out.push(fin);
        proof {
            let rv = raw.deep_view();
            assert(out.deep_view() =~= finalize_all(rv.take(i as int), state@).push(gfin));
            assert(finalize_all(rv.take(i + 1), state@) =~= finalize_all(
                rv.take(i as int),
                state@,
            ).push(finalize_record(rv[i as int], state@)));
            assert(out.deep_view() =~= finalize_all(rv.take(i + 1), state@));
        }
        i += 1;
    }
    proof {
        assert(raw.deep_view().take(n as int) =~= raw.deep_view());
    }
    out
}

} // verus!
