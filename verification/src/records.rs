//! The property record: the unit of output, with its twelve text fields,
//! and the slot numbering the field cycler stamps tokens by.

use vstd::prelude::*;

verus! {

/// The mathematical shape of a property record: every field as a character
/// sequence.  A record always has all twelve fields; the empty sequence is
/// a valid (non-matching) value, never a missing slot.
#[verifier::ext_equal]
pub struct RecordModel {
    pub id: Seq<char>,
    pub state: Seq<char>,
    pub county: Seq<char>,
    pub street: Seq<char>,
    pub city: Seq<char>,
    pub zip: Seq<char>,
    pub sale_date: Seq<char>,
    pub sale_time: Seq<char>,
    pub continued_date_time: Seq<char>,
    pub opening_bid: Seq<char>,
    pub sale_location_city: Seq<char>,
    pub firm_file_number: Seq<char>,
}

/// The record every cycle starts from: all twelve fields empty.
pub open spec fn empty_record() -> RecordModel {
    RecordModel {
        id: Seq::empty(),
        state: Seq::empty(),
        county: Seq::empty(),
        street: Seq::empty(),
        city: Seq::empty(),
        zip: Seq::empty(),
        sale_date: Seq::empty(),
        sale_time: Seq::empty(),
        continued_date_time: Seq::empty(),
        opening_bid: Seq::empty(),
        sale_location_city: Seq::empty(),
        firm_file_number: Seq::empty(),
    }
}

/// `r` with slot `idx` replaced by `v`.  Slots 0 through 9 are the ten
/// in-cycle fields in schema order; 10 is the region code and 11 the
/// identifier, which only the finalizer writes.  Any other index leaves the
/// record unchanged.
pub open spec fn with_slot(r: RecordModel, idx: int, v: Seq<char>) -> RecordModel {
    if idx == 0 {
        RecordModel { county: v, ..r }
    } else if idx == 1 {
        RecordModel { street: v, ..r }
    } else if idx == 2 {
        RecordModel { city: v, ..r }
    } else if idx == 3 {
        RecordModel { zip: v, ..r }
    } else if idx == 4 {
        RecordModel { sale_date: v, ..r }
    } else if idx == 5 {
        RecordModel { sale_time: v, ..r }
    } else if idx == 6 {
        RecordModel { continued_date_time: v, ..r }
    } else if idx == 7 {
        RecordModel { opening_bid: v, ..r }
    } else if idx == 8 {
        RecordModel { sale_location_city: v, ..r }
    } else if idx == 9 {
        RecordModel { firm_file_number: v, ..r }
    } else if idx == 10 {
        RecordModel { state: v, ..r }
    } else if idx == 11 {
        RecordModel { id: v, ..r }
    } else {
        r
    }
}

/// One scheduled foreclosure sale, reconstructed from the line stream.
#[derive(Debug, Hash)]
pub struct Property {
    pub id: String,
    pub state: String,
    pub county: String,
    pub street: String,
    pub city: String,
    pub zip: String,
    pub sale_date: String,
    pub sale_time: String,
    pub continued_date_time: String,
    pub opening_bid: String,
    pub sale_location_city: String,
    pub firm_file_number: String,
}

impl View for Property {
    type V = RecordModel;

    open spec fn view(&self) -> RecordModel {
        RecordModel {
            id: self.id@,
            state: self.state@,
            county: self.county@,
            street: self.street@,
            city: self.city@,
            zip: self.zip@,
            sale_date: self.sale_date@,
            sale_time: self.sale_time@,
            continued_date_time: self.continued_date_time@,
            opening_bid: self.opening_bid@,
            sale_location_city: self.sale_location_city@,
            firm_file_number: self.firm_file_number@,
        }
    }
}

impl DeepView for Property {
    type V = RecordModel;

    open spec fn deep_view(&self) -> RecordModel {
        self.view()
    }
}

impl Clone for Property {
    fn clone(&self) -> (r: Self)
        ensures
            r == *self,
    {
        Property {
            id: self.id.clone(),
            state: self.state.clone(),
            county: self.county.clone(),
            street: self.street.clone(),
            city: self.city.clone(),
            zip: self.zip.clone(),
            sale_date: self.sale_date.clone(),
            sale_time: self.sale_time.clone(),
            continued_date_time: self.continued_date_time.clone(),
            opening_bid: self.opening_bid.clone(),
            sale_location_city: self.sale_location_city.clone(),
            firm_file_number: self.firm_file_number.clone(),
        }
    }
}

impl Property {
    /// A new record with every field empty.
    pub fn new() -> (r: Self)
        ensures
            r@ == empty_record(),
    {
        let r = Property {
            id: String::new(),
            state: String::new(),
            county: String::new(),
            street: String::new(),
            city: String::new(),
            zip: String::new(),
            sale_date: String::new(),
            sale_time: String::new(),
            continued_date_time: String::new(),
            opening_bid: String::new(),
            sale_location_city: String::new(),
            firm_file_number: String::new(),
        };
        proof {
            assert(r@ =~= empty_record());
        }
        r
    }

    /// Store `value` into slot `idx` of the schema; an index past the
    /// schema is ignored.
    pub fn set(&mut self, idx: usize, value: String)
        ensures
            final(self)@ == with_slot(old(self)@, idx as int, value@),
    {
        if idx == 0 {
            self.county = value;
        } else if idx == 1 {
            self.street = value;
        } else if idx == 2 {
            self.city = value;
        } else if idx == 3 {
            self.zip = value;
        } else if idx == 4 {
            self.sale_date = value;
        } else if idx == 5 {
            self.sale_time = value;
        } else if idx == 6 {
            self.continued_date_time = value;
        } else if idx == 7 {
            self.opening_bid = value;
        } else if idx == 8 {
            self.sale_location_city = value;
        } else if idx == 9 {
            self.firm_file_number = value;
        } else if idx == 10 {
            self.state = value;
        } else if idx == 11 {
            self.id = value;
        }
    }
}

} // verus!
