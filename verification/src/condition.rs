//! Conditions on listings: what a search hands to the store to select by.

use crate::house_listing::ListStatus;
use crate::house_listing::Model;
use vstd::prelude::*;

verus! {

/// A column of the listings that holds a number.
#[derive(Clone, Copy, Debug, PartialEq, Eq, Structural)]
pub enum NumberColumn {
    Hflr,
    Harea,
    Hprice,
}

/// A column of the listings that holds text.
#[derive(Clone, Copy, Debug, PartialEq, Eq, Structural)]
pub enum TextColumn {
    Hdistrict,
    Hlo,
    Hsuite,
}

impl NumberColumn {
    /// What a listing holds in this column.
    pub open spec fn of(self, house: Model) -> u32 {
        match self {
            NumberColumn::Hflr => house.hflr,
            NumberColumn::Harea => house.harea,
            NumberColumn::Hprice => house.hprice,
        }
    }
}

impl TextColumn {
    /// What a listing holds in this column.
    pub open spec fn of(self, house: Model) -> Seq<char> {
        match self {
            TextColumn::Hdistrict => house.hdistrict@,
            TextColumn::Hlo => house.hlo@,
            TextColumn::Hsuite => house.hsuite@,
        }
    }
}

/// `part` occurs somewhere in `text`.
pub open spec fn contains_text(text: Seq<char>, part: Seq<char>) -> bool {
    exists|i: int|
        0 <= i && i + part.len() <= text.len() && #[trigger] text.subrange(i, i + part.len())
            == part
}

/// One requirement on a listing.
#[derive(Clone, Debug, PartialEq, Eq)]
pub enum Clause {
    /// The number is at least the bound.
    Gte(NumberColumn, u32),
    /// The number is below the bound.
    Lt(NumberColumn, u32),
    /// The text holds the part.
    Contains(TextColumn, String),
    /// The listing is on the market.
    Listed,
}

/// A requirement with its text as a sequence of characters.
pub enum ClauseView {
    Gte(NumberColumn, u32),
    Lt(NumberColumn, u32),
    Contains(TextColumn, Seq<char>),
    Listed,
}

impl ClauseView {
    /// The listing meets the requirement.
    pub open spec fn holds(self, house: Model) -> bool {
        match self {
            ClauseView::Gte(column, bound) => column.of(house) >= bound,
            ClauseView::Lt(column, bound) => column.of(house) < bound,
            ClauseView::Contains(column, part) => contains_text(column.of(house), part),
            ClauseView::Listed => house.hunlisted == ListStatus::Listed,
        }
    }
}

impl View for Clause {
    type V = ClauseView;

    open spec fn view(&self) -> ClauseView {
        match self {
            Clause::Gte(column, bound) => ClauseView::Gte(*column, *bound),
            Clause::Lt(column, bound) => ClauseView::Lt(*column, *bound),
            Clause::Contains(column, part) => ClauseView::Contains(*column, part@),
            Clause::Listed => ClauseView::Listed,
        }
    }
}

/// The listing meets every requirement of `clauses`.
pub open spec fn all_hold(clauses: Seq<ClauseView>, house: Model) -> bool {
    forall|i: int| 0 <= i < clauses.len() ==> (#[trigger] clauses[i]).holds(house)
}

/// A requirement that may be absent, as a sequence of none or one.
pub open spec fn optional(clause: Option<ClauseView>) -> Seq<ClauseView> {
    match clause {
        Some(clause) => seq![clause],
        None => Seq::empty(),
    }
}

/// Requirements that a listing has to meet all at once.
#[derive(Clone, Debug, PartialEq, Eq)]
pub struct Condition {
    pub clauses: Vec<Clause>,
}

impl View for Condition {
    type V = Seq<ClauseView>;

    open spec fn view(&self) -> Seq<ClauseView> {
        self.clauses@.map_values(|clause: Clause| clause@)
    }
}

impl Condition {
    /// The listing passes.
    pub open spec fn accepts(&self, house: Model) -> bool {
        all_hold(self@, house)
    }

    /// The condition without requirements: every listing passes.
    pub fn all() -> (condition: Condition)
        ensures
            condition@ == Seq::<ClauseView>::empty(),
    {
        let condition = Condition { clauses: Vec::new() };
        assert(condition@ =~= Seq::<ClauseView>::empty());
        condition
    }

    /// This condition with one more requirement.
    pub fn add(self, clause: Clause) -> (condition: Condition)
        ensures
            condition@ == self@.push(clause@),
    {
        let mut clauses = self.clauses;
        clauses.push(clause);
        let condition = Condition { clauses };
        assert(condition@ =~= self@.push(clause@));
        condition
    }

    /// This condition with one more requirement, if there is one.
    pub fn add_option(self, clause: Option<Clause>) -> (condition: Condition)
        ensures
            condition@ == self@ + optional(
                match clause {
                    Some(clause) => Some(clause@),
                    None => None,
                },
            ),
    {
        match clause {
            Some(clause) => {
                let condition = self.add(clause);
                assert(condition@ =~= self@ + seq![clause@]);
                condition
            },
            None => {
                assert(self@ =~= self@ + Seq::<ClauseView>::empty());
                self
            },
        }
    }
}

/// Adding requirements keeps what the earlier ones ask and adds what the new
/// ones ask.
pub proof fn lemma_all_hold_add(first: Seq<ClauseView>, second: Seq<ClauseView>, house: Model)
    ensures
        all_hold(first + second, house) <==> all_hold(first, house) && all_hold(second, house),
{
    let both = first + second;
    if all_hold(both, house) {
        assert forall|i: int| 0 <= i < first.len() implies (#[trigger] first[i]).holds(house) by {
            assert(both[i] == first[i]);
        }
        assert forall|i: int| 0 <= i < second.len() implies (#[trigger] second[i]).holds(house) by {
            assert(both[first.len() + i] == second[i]);
        }
    }
    if all_hold(first, house) && all_hold(second, house) {
        assert forall|i: int| 0 <= i < both.len() implies (#[trigger] both[i]).holds(house) by {
            if i < first.len() {
                assert(both[i] == first[i]);
            } else {
                assert(both[i] == second[i - first.len()]);
            }
        }
    }
}

} // verus!
