//! The field cycler: a state machine that walks the filtered token stream
//! and stamps each token into a fixed ten-slot record schema.  A record
//! starts whenever the cycle index is at slot 0; a token that passes the
//! street-address test there means the county line was omitted, so the
//! token is stamped into both the county and the street slot and the cycle
//! skips ahead one extra step.

use vstd::prelude::*;
use crate::records::{Property, RecordModel, empty_record, with_slot};
use crate::text::{is_street_spec, is_street_address};

verus! {

/// The cycler's whole state: the cycle index, the carried-forward county,
/// the records already completed, and the record being filled.  `cur` is
/// meaningful only while `idx != 0`.
#[verifier::ext_equal]
pub struct CycleModel {
    pub idx: int,
    pub county: Seq<char>,
    pub done: Seq<RecordModel>,
    pub cur: RecordModel,
}

/// The state before any token: slot 0 next, no carried county, nothing
/// produced.
pub open spec fn cycle_init() -> CycleModel {
    CycleModel { idx: 0, county: Seq::empty(), done: Seq::empty(), cur: empty_record() }
}

/// One token of progress.
///
/// At slot 0 a fresh record is opened and the carried county is stamped
/// into it unconditionally.  A street-address token then overwrites the
/// county slot with itself, is stamped into the street slot as well, and
/// the cycle resumes at slot 2 — the double stamp leaves the token, not
/// the carried county, in the county slot, a quirk of the vendor pipeline
/// that is kept deliberately for compatibility.  Any other token is a new
/// county name: it becomes the carried value and fills slot 0.  Away from
/// slot 0 the token goes into the current slot; filling slot 9 completes
/// the record.
pub open spec fn cycle_step(m: CycleModel, tok: Seq<char>) -> CycleModel {
    if m.idx == 0 {
        let opened = with_slot(empty_record(), 0, m.county);
        if is_street_spec(tok) {
            CycleModel {
                idx: 2,
                county: m.county,
                done: m.done,
                cur: with_slot(with_slot(opened, 0, tok), 1, tok),
            }
        } else {
            CycleModel { idx: 1, county: tok, done: m.done, cur: with_slot(opened, 0, tok) }
        }
    } else {
        let cur = with_slot(m.cur, m.idx, tok);
        if m.idx == 9 {
            CycleModel { idx: 0, county: m.county, done: m.done.push(cur), cur: empty_record() }
        } else {
            CycleModel { idx: m.idx + 1, county: m.county, done: m.done, cur }
        }
    }
}

/// The state after consuming `toks` in order, from the initial state.
pub open spec fn cycle_run(toks: Seq<Seq<char>>) -> CycleModel
    decreases toks.len(),
{
    if toks.len() == 0 {
        cycle_init()
    } else {
        cycle_step(cycle_run(toks.drop_last()), toks.last())
    }
}

/// The record list a state denotes: the completed records followed by the
/// still-open one, if a record is open.  A stream that ends mid-record
/// leaves that record's later slots empty rather than dropping it.
pub open spec fn records_of(m: CycleModel) -> Seq<RecordModel> {
    if m.idx == 0 {
        m.done
    } else {
        m.done.push(m.cur)
    }
}

/// The runtime cycler.
pub struct FieldCycler {
    pub idx: usize,
    pub county: String,
    pub done: Vec<Property>,
    pub cur: Property,
}

impl View for FieldCycler {
    type V = CycleModel;

    open spec fn view(&self) -> CycleModel {
        CycleModel {
            idx: self.idx as int,
            county: self.county@,
            done: self.done.deep_view(),
            cur: self.cur@,
        }
    }
}

impl FieldCycler {
    /// The cycle index always stays inside the ten-slot schema.
    pub open spec fn wf(&self) -> bool {
        self.idx < 10
    }

    /// A cycler in the initial state.
    pub fn new() -> (r: Self)
        ensures
            r.wf(),
            r@ == cycle_init(),
    {
        let r = FieldCycler {
            idx: 0,
            county: String::new(),
            done: Vec::new(),
            cur: Property::new(),
        };
        proof {
            assert(r@ =~= cycle_init());
        }
        r
    }

    /// Consume one token.
    pub fn step(&mut self, token: String)
        requires
            old(self).wf(),
        ensures
            final(self).wf(),
            final(self)@ == cycle_step(old(self)@, token@),
    {
        if self.idx == 0 {
            self.cur = Property::new();
            self.cur.set(0, self.county.clone());
            if is_street_address(token.as_str()) {
                self.cur.set(0, token.clone());
                self.cur.set(1, token);
                self.idx = 2;
            } else {
                self.county = token.clone();
                self.cur.set(0, token);
                self.idx = 1;
            }
            proof {
                assert(self@ =~= cycle_step(old(self)@, token@));
            }
        } else {
            self.cur.set(self.idx, token);
            if self.idx == 9 {
                let mut finished = Property::new();
                core::mem::swap(&mut finished, &mut self.cur);
                self.done.push(finished);
                self.idx = 0;
            } else {
                self.idx = self.idx + 1;
            }
            proof {
                assert(self.done.deep_view() =~= cycle_step(old(self)@, token@).done);
                assert(self@ =~= cycle_step(old(self)@, token@));
            }
        }
    }

    /// Hand out the record list this state denotes.
    pub fn finish(self) -> (r: Vec<Property>)
        ensures
            r.deep_view() == records_of(self@),
    {
        let ghost m = self@;
        let FieldCycler { idx, county: _, mut done, cur } = self;
        if idx != 0 {
            done.push(cur);
        }
        proof {
            assert(done.deep_view() =~= records_of(m));
        }
        done
    }
}

/// Walk the whole token stream through the cycler and return the records
/// it denotes, partial trailing record included.
pub fn run_cycler(tokens: &Vec<String>) -> (r: Vec<Property>)
    ensures
        r.deep_view() == records_of(cycle_run(tokens.deep_view())),
{
    let mut cyc = FieldCycler::new();
    let n = tokens.len();
    let mut i: usize = 0;
    proof {
        assert(tokens.deep_view().take(0) =~= Seq::<Seq<char>>::empty());
    }
    while i < n
        invariant
            n == tokens@.len(),
            0 <= i <= n,
            cyc.wf(),
            cyc@ == cycle_run(tokens.deep_view().take(i as int)),
        decreases n - i,
    {
        cyc.step(tokens[i].clone());
        proof {
            let tv = tokens.deep_view();
            assert(tv.take(i + 1).drop_last() =~= tv.take(i as int));
            assert(tv.take(i + 1).last() == tv[i as int]);
        }
        i += 1;
    }
    proof {
        assert(tokens.deep_view().take(n as int) =~= tokens.deep_view());
    }
    cyc.finish()
}

} // verus!
