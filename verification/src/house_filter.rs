//! The search filter for listings: what the user typed and picked, and the
//! bounds that follow from it.

use crate::condition::all_hold;
use crate::condition::contains_text;
use crate::condition::lemma_all_hold_add;
use crate::condition::optional;
use crate::condition::Clause;
use crate::condition::ClauseView;
use crate::condition::Condition;
use crate::condition::NumberColumn;
use crate::condition::TextColumn;
use crate::errors::MXFError;
use crate::house_listing::Model;
use vstd::prelude::*;
use vstd::string::StringExecFns;

verus! {

/// Boundaries of the area buckets: bucket `i` in `1..=5` covers the areas from
/// entry `i - 1` up to, but not including, entry `i`.
pub open spec fn area_table() -> Seq<u32> {
    seq![0u32, 50u32, 70u32, 90u32, 110u32, 150u32]
}

/// Boundaries of the floor buckets, read as those of the area buckets.
pub open spec fn floor_table() -> Seq<u32> {
    seq![0u32, 1u32, 10u32, 20u32, 30u32, 31u32]
}

/// Highest bucket index a filter can hold. The indices from one to five name
/// a bucket; zero and six name none.
pub const MAX_BUCKET: usize = 6;

/// A text field counts as given when it is not empty.
pub open spec fn given_text(raw: Seq<char>) -> Option<Seq<char>> {
    if raw.len() > 0 {
        Some(raw)
    } else {
        None
    }
}

/// The lower bound that follows from an explicit bound and a bucket: the
/// explicit bound where there is one, else the bucket's lower boundary, else
/// none.
pub open spec fn lower_bound(explicit: Option<u32>, table: Seq<u32>, bucket: usize) -> Option<u32> {
    if explicit is Some {
        explicit
    } else if 0 < bucket < table.len() {
        Some(table[bucket - 1])
    } else {
        None
    }
}

/// The upper bound that follows from an explicit bound and a bucket, as
/// [`lower_bound`] with the bucket's upper boundary.
pub open spec fn upper_bound(explicit: Option<u32>, table: Seq<u32>, bucket: usize) -> Option<u32> {
    if explicit is Some {
        explicit
    } else if 0 < bucket < table.len() {
        Some(table[bucket as int])
    } else {
        None
    }
}

/// How bounds follow from buckets: an explicit bound always wins over the
/// bucket; without one, a bucket from one to five gives its two boundaries
/// from the table, and the buckets zero and six give none.
pub proof fn lemma_bounds(explicit: u32, table: Seq<u32>, bucket: usize)
    ensures
        lower_bound(Some(explicit), table, bucket) == Some(explicit),
        upper_bound(Some(explicit), table, bucket) == Some(explicit),
        lower_bound(None, table, 0) is None,
        upper_bound(None, table, 0) is None,
        lower_bound(None, floor_table(), 6) is None,
        upper_bound(None, floor_table(), 6) is None,
        lower_bound(None, area_table(), 6) is None,
        upper_bound(None, area_table(), 6) is None,
        1 <= bucket <= 5 ==> lower_bound(None, floor_table(), bucket) == Some(
            floor_table()[bucket - 1],
        ) && upper_bound(None, floor_table(), bucket) == Some(floor_table()[bucket as int]),
        1 <= bucket <= 5 ==> lower_bound(None, area_table(), bucket) == Some(
            area_table()[bucket - 1],
        ) && upper_bound(None, area_table(), bucket) == Some(area_table()[bucket as int]),
{
}

/// The marks for a row of six choices: `"checked"` at the bucket's place where
/// `marked` holds and the bucket is one of the six, and blanks elsewhere.
pub open spec fn checked_row(bucket: usize, marked: bool) -> Seq<Seq<char>> {
    Seq::new(
        6,
        |i: int|
            if marked && i == bucket {
                "checked"@
            } else {
                Seq::<char>::empty()
            },
    )
}

/// A filter as the user gave it.
pub struct FilterView {
    pub district: Seq<char>,
    pub house_type: Seq<char>,
    pub floor_enum: usize,
    pub area_enum: usize,
    pub floor_lower: Option<u32>,
    pub floor_upper: Option<u32>,
    pub area_lower: Option<u32>,
    pub area_upper: Option<u32>,
    pub price_lower: Option<u32>,
    pub price_upper: Option<u32>,
    pub suite: Seq<char>,
    pub page: u64,
}

/// The bounds a filter comes to once empty texts are dropped and buckets are
/// looked up. Two filters search for the same listings exactly when they
/// agree on these.
pub struct Criteria {
    pub district: Option<Seq<char>>,
    pub house_type: Option<Seq<char>>,
    pub area_lower: Option<u32>,
    pub area_upper: Option<u32>,
    pub floor_lower: Option<u32>,
    pub floor_upper: Option<u32>,
    pub price_lower: Option<u32>,
    pub price_upper: Option<u32>,
    pub suite: Option<Seq<char>>,
}

impl FilterView {
    /// Pages are counted from one and no bucket index lies past the last
    /// choice of the form.
    pub open spec fn valid(self) -> bool {
        &&& self.page >= 1
        &&& self.floor_enum <= MAX_BUCKET
        &&& self.area_enum <= MAX_BUCKET
    }

    pub open spec fn criteria(self) -> Criteria {
        Criteria {
            district: given_text(self.district),
            house_type: given_text(self.house_type),
            area_lower: lower_bound(self.area_lower, area_table(), self.area_enum),
            area_upper: upper_bound(self.area_upper, area_table(), self.area_enum),
            floor_lower: lower_bound(self.floor_lower, floor_table(), self.floor_enum),
            floor_upper: upper_bound(self.floor_upper, floor_table(), self.floor_enum),
            price_lower: self.price_lower,
            price_upper: self.price_upper,
            suite: given_text(self.suite),
        }
    }
}

/// The requirement that a number is at least `bound`, if there is a bound.
pub open spec fn at_least(column: NumberColumn, bound: Option<u32>) -> Option<ClauseView> {
    match bound {
        Some(bound) => Some(ClauseView::Gte(column, bound)),
        None => None,
    }
}

/// The requirement that a number is below `bound`, if there is a bound.
pub open spec fn below(column: NumberColumn, bound: Option<u32>) -> Option<ClauseView> {
    match bound {
        Some(bound) => Some(ClauseView::Lt(column, bound)),
        None => None,
    }
}

/// The requirement that a text holds `part`, if there is a part to look for.
pub open spec fn holding(column: TextColumn, part: Option<Seq<char>>) -> Option<ClauseView> {
    match part {
        Some(part) => Some(ClauseView::Contains(column, part)),
        None => None,
    }
}

impl Criteria {
    /// The requirements that the bounds put on a listing, one for each bound
    /// that is there: floor, area, price, district, kind of house, amenities.
    pub open spec fn clauses(self) -> Seq<ClauseView> {
        optional(at_least(NumberColumn::Hflr, self.floor_lower)) + optional(
            below(NumberColumn::Hflr, self.floor_upper),
        ) + optional(at_least(NumberColumn::Harea, self.area_lower)) + optional(
            below(NumberColumn::Harea, self.area_upper),
        ) + optional(at_least(NumberColumn::Hprice, self.price_lower)) + optional(
            below(NumberColumn::Hprice, self.price_upper),
        ) + optional(holding(TextColumn::Hdistrict, self.district)) + optional(
            holding(TextColumn::Hlo, self.house_type),
        ) + optional(holding(TextColumn::Hsuite, self.suite))
    }

    /// The listing lies within every bound that is there: each number in its
    /// half-open range, each text holding the part looked for.
    pub open spec fn accepts(self, house: Model) -> bool {
        &&& self.floor_lower matches Some(bound) ==> house.hflr >= bound
        &&& self.floor_upper matches Some(bound) ==> house.hflr < bound
        &&& self.area_lower matches Some(bound) ==> house.harea >= bound
        &&& self.area_upper matches Some(bound) ==> house.harea < bound
        &&& self.price_lower matches Some(bound) ==> house.hprice >= bound
        &&& self.price_upper matches Some(bound) ==> house.hprice < bound
        &&& self.district matches Some(part) ==> contains_text(house.hdistrict@, part)
        &&& self.house_type matches Some(part) ==> contains_text(house.hlo@, part)
        &&& self.suite matches Some(part) ==> contains_text(house.hsuite@, part)
    }

    /// A listing meets all the requirements exactly when it lies within all
    /// the bounds.
    pub proof fn lemma_clauses_accept(self, house: Model)
        ensures
            all_hold(self.clauses(), house) <==> self.accepts(house),
    {
        let c1 = optional(at_least(NumberColumn::Hflr, self.floor_lower));
        let c2 = optional(below(NumberColumn::Hflr, self.floor_upper));
        let c3 = optional(at_least(NumberColumn::Harea, self.area_lower));
        let c4 = optional(below(NumberColumn::Harea, self.area_upper));
        let c5 = optional(at_least(NumberColumn::Hprice, self.price_lower));
        let c6 = optional(below(NumberColumn::Hprice, self.price_upper));
        let c7 = optional(holding(TextColumn::Hdistrict, self.district));
        let c8 = optional(holding(TextColumn::Hlo, self.house_type));
        let c9 = optional(holding(TextColumn::Hsuite, self.suite));
        lemma_all_hold_add(c1, c2, house);
        lemma_all_hold_add(c1 + c2, c3, house);
        lemma_all_hold_add(c1 + c2 + c3, c4, house);
        lemma_all_hold_add(c1 + c2 + c3 + c4, c5, house);
        lemma_all_hold_add(c1 + c2 + c3 + c4 + c5, c6, house);
        lemma_all_hold_add(c1 + c2 + c3 + c4 + c5 + c6, c7, house);
        lemma_all_hold_add(c1 + c2 + c3 + c4 + c5 + c6 + c7, c8, house);
        lemma_all_hold_add(c1 + c2 + c3 + c4 + c5 + c6 + c7 + c8, c9, house);
        lemma_optional_holds(at_least(NumberColumn::Hflr, self.floor_lower), house);
        lemma_optional_holds(below(NumberColumn::Hflr, self.floor_upper), house);
        lemma_optional_holds(at_least(NumberColumn::Harea, self.area_lower), house);
        lemma_optional_holds(below(NumberColumn::Harea, self.area_upper), house);
        lemma_optional_holds(at_least(NumberColumn::Hprice, self.price_lower), house);
        lemma_optional_holds(below(NumberColumn::Hprice, self.price_upper), house);
        lemma_optional_holds(holding(TextColumn::Hdistrict, self.district), house);
        lemma_optional_holds(holding(TextColumn::Hlo, self.house_type), house);
        lemma_optional_holds(holding(TextColumn::Hsuite, self.suite), house);
    }
}

/// A requirement that may be absent asks what it asks if it is there, and
/// nothing otherwise.
proof fn lemma_optional_holds(clause: Option<ClauseView>, house: Model)
    ensures
        all_hold(optional(clause), house) <==> (clause matches Some(c) ==> c.holds(house)),
{
    match clause {
        Some(c) => {
            assert(optional(clause)[0] == c);
        },
        None => {},
    }
}

/// A validated search filter. It does not change once made.
#[derive(Clone, Copy, Debug, PartialEq, Eq, Hash)]
pub struct HouseFilter<'r> {
    _district: &'r str,
    _house_type: &'r str,
    floor_enum: usize,
    area_enum: usize,
    _floor_lower: Option<u32>,
    _floor_upper: Option<u32>,
    _area_lower: Option<u32>,
    _area_upper: Option<u32>,
    _price_lower: Option<u32>,
    _price_upper: Option<u32>,
    _suite: &'r str,
    page: u64,
}

impl<'r> View for HouseFilter<'r> {
    type V = FilterView;

    closed spec fn view(&self) -> FilterView {
        FilterView {
            district: self._district@,
            house_type: self._house_type@,
            floor_enum: self.floor_enum,
            area_enum: self.area_enum,
            floor_lower: self._floor_lower,
            floor_upper: self._floor_upper,
            area_lower: self._area_lower,
            area_upper: self._area_upper,
            price_lower: self._price_lower,
            price_upper: self._price_upper,
            suite: self._suite@,
            page: self.page,
        }
    }
}

fn area_boundary(i: usize) -> (r: u32)
    requires
        i < 6,
    ensures
        r == area_table()[i as int],
{
    if i == 0 {
        0
    } else if i == 1 {
        50
    } else if i == 2 {
        70
    } else if i == 3 {
        90
    } else if i == 4 {
        110
    } else {
        150
    }
}

fn floor_boundary(i: usize) -> (r: u32)
    requires
        i < 6,
    ensures
        r == floor_table()[i as int],
{
    if i == 0 {
        0
    } else if i == 1 {
        1
    } else if i == 2 {
        10
    } else if i == 3 {
        20
    } else if i == 4 {
        30
    } else {
        31
    }
}

fn given<'a>(raw: &'a str) -> (r: Option<&'a str>)
    ensures
        match r {
            Some(text) => given_text(raw@) == Some(text@),
            None => given_text(raw@) is None,
        },
{
    if raw.is_empty() {
        None
    } else {
        Some(raw)
    }
}

fn checked(bucket: usize, marked: bool) -> (row: Vec<&'static str>)
    ensures
        row@.len() == 6,
        row@.map_values(|text: &'static str| text@) == checked_row(bucket, marked),
{
    let mut row: Vec<&'static str> = Vec::new();
    let mut i: usize = 0;
    while i < 6
        invariant
            i <= 6,
            row@.len() == i,
            forall|j: int|
                0 <= j < i ==> (#[trigger] row@[j])@ == if marked && j == bucket {
                    "checked"@
                } else {
                    Seq::<char>::empty()
                },
        decreases 6 - i,
    {
        if marked && i == bucket {
            row.push("checked");
        } else {
            proof {
                reveal_strlit("");
            }
            row.push("");
        }
        i += 1;
    }
    proof {
        assert(row@.map_values(|text: &'static str| text@) =~= checked_row(bucket, marked));
    }
    row
}

impl<'r> HouseFilter<'r> {
    #[verifier::type_invariant]
    spec fn well_formed(self) -> bool {
        self@.valid()
    }

    /// Validates what the user gave and makes the filter of it.
    ///
    /// A page number of zero is refused, and so is a bucket index past
    /// [`MAX_BUCKET`]; the page is looked at first, then the floor bucket, then
    /// the area bucket.
    pub fn new(
        district: &'r str,
        house_type: &'r str,
        floor_enum: usize,
        area_enum: usize,
        floor_lower: Option<u32>,
        floor_upper: Option<u32>,
        area_lower: Option<u32>,
        area_upper: Option<u32>,
        price_lower: Option<u32>,
        price_upper: Option<u32>,
        suite: &'r str,
        page: u64,
    ) -> (r: Result<HouseFilter<'r>, MXFError>)
        ensures
            page == 0 ==> r == Err::<HouseFilter<'r>, MXFError>(MXFError::InvalidPage(page)),
            page != 0 && floor_enum > MAX_BUCKET ==> r == Err::<HouseFilter<'r>, MXFError>(
                MXFError::InvalidBucket(floor_enum),
            ),
            page != 0 && floor_enum <= MAX_BUCKET && area_enum > MAX_BUCKET ==> r == Err::<
                HouseFilter<'r>,
                MXFError,
            >(MXFError::InvalidBucket(area_enum)),
            page != 0 && floor_enum <= MAX_BUCKET && area_enum <= MAX_BUCKET ==> (r matches Ok(
                filter,
            ) && filter@ == (FilterView {
                district: district@,
                house_type: house_type@,
                floor_enum,
                area_enum,
                floor_lower,
                floor_upper,
                area_lower,
                area_upper,
                price_lower,
                price_upper,
                suite: suite@,
                page,
            })),
    {
        if page == 0 {
            return Err(MXFError::InvalidPage(page));
        }
        if floor_enum > MAX_BUCKET {
            return Err(MXFError::InvalidBucket(floor_enum));
        }
        if area_enum > MAX_BUCKET {
            return Err(MXFError::InvalidBucket(area_enum));
        }
        Ok(
            HouseFilter {
                _district: district,
                _house_type: house_type,
                floor_enum,
                area_enum,
                _floor_lower: floor_lower,
                _floor_upper: floor_upper,
                _area_lower: area_lower,
                _area_upper: area_upper,
                _price_lower: price_lower,
                _price_upper: price_upper,
                _suite: suite,
                page,
            },
        )
    }

    /// The requested page, counted from one.
    pub fn page(&self) -> (page: u64)
        ensures
            page == self@.page,
            page >= 1,
    {
        proof {
            use_type_invariant(self);
        }
        self.page
    }

    /// The district to look for, if one was given.
    pub fn district(&self) -> (r: Option<&str>)
        ensures
            match r {
                Some(text) => self@.criteria().district == Some(text@),
                None => self@.criteria().district is None,
            },
    {
        given(self._district)
    }

    /// The kind of house to look for, if one was given.
    pub fn house_type(&self) -> (r: Option<&str>)
        ensures
            match r {
                Some(text) => self@.criteria().house_type == Some(text@),
                None => self@.criteria().house_type is None,
            },
    {
        given(self._house_type)
    }

    /// The amenity to look for, if one was given.
    pub fn suite(&self) -> (r: Option<&str>)
        ensures
            match r {
                Some(text) => self@.criteria().suite == Some(text@),
                None => self@.criteria().suite is None,
            },
    {
        given(self._suite)
    }

    /// Smallest area that passes, if the area is bounded below.
    pub fn area_lower(&self) -> (r: Option<u32>)
        ensures
            r == self@.criteria().area_lower,
    {
        if let Some(area_lower) = self._area_lower {
            Some(area_lower)
        } else if 0 < self.area_enum && self.area_enum < 6 {
            Some(area_boundary(self.area_enum - 1))
        } else {
            None
        }
    }

    /// The area from which on nothing passes, if the area is bounded above.
    pub fn area_upper(&self) -> (r: Option<u32>)
        ensures
            r == self@.criteria().area_upper,
    {
        if let Some(area_upper) = self._area_upper {
            Some(area_upper)
        } else if 0 < self.area_enum && self.area_enum < 6 {
            Some(area_boundary(self.area_enum))
        } else {
            None
        }
    }

    /// Lowest floor that passes, if the floor is bounded below.
    pub fn floor_lower(&self) -> (r: Option<u32>)
        ensures
            r == self@.criteria().floor_lower,
    {
        if let Some(floor_lower) = self._floor_lower {
            Some(floor_lower)
        } else if 0 < self.floor_enum && self.floor_enum < 6 {
            Some(floor_boundary(self.floor_enum - 1))
        } else {
            None
        }
    }

    /// The floor from which on nothing passes, if the floor is bounded above.
    pub fn floor_upper(&self) -> (r: Option<u32>)
        ensures
            r == self@.criteria().floor_upper,
    {
        if let Some(floor_upper) = self._floor_upper {
            Some(floor_upper)
        } else if 0 < self.floor_enum && self.floor_enum < 6 {
            Some(floor_boundary(self.floor_enum))
        } else {
            None
        }
    }

    /// Lowest price that passes, if the price is bounded below.
    pub fn price_lower(&self) -> (r: Option<u32>)
        ensures
            r == self@.criteria().price_lower,
    {
        self._price_lower
    }

    /// The price from which on nothing passes, if the price is bounded above.
    pub fn price_upper(&self) -> (r: Option<u32>)
        ensures
            r == self@.criteria().price_upper,
    {
        self._price_upper
    }

    /// The condition that selects the listings within this filter's bounds.
    pub fn condition(&self) -> (condition: Condition)
        ensures
            condition@ == self@.criteria().clauses(),
    {
        let floor_lower = match self.floor_lower() {
            Some(bound) => Some(Clause::Gte(NumberColumn::Hflr, bound)),
            None => None,
        };
        let floor_upper = match self.floor_upper() {
            Some(bound) => Some(Clause::Lt(NumberColumn::Hflr, bound)),
            None => None,
        };
        let area_lower = match self.area_lower() {
            Some(bound) => Some(Clause::Gte(NumberColumn::Harea, bound)),
            None => None,
        };
        let area_upper = match self.area_upper() {
            Some(bound) => Some(Clause::Lt(NumberColumn::Harea, bound)),
            None => None,
        };
        let price_lower = match self.price_lower() {
            Some(bound) => Some(Clause::Gte(NumberColumn::Hprice, bound)),
            None => None,
        };
        let price_upper = match self.price_upper() {
            Some(bound) => Some(Clause::Lt(NumberColumn::Hprice, bound)),
            None => None,
        };
        let district = match self.district() {
            Some(part) => Some(Clause::Contains(TextColumn::Hdistrict, String::from_str(part))),
            None => None,
        };
        let house_type = match self.house_type() {
            Some(part) => Some(Clause::Contains(TextColumn::Hlo, String::from_str(part))),
            None => None,
        };
        let suite = match self.suite() {
            Some(part) => Some(Clause::Contains(TextColumn::Hsuite, String::from_str(part))),
            None => None,
        };
        Condition::all().add_option(floor_lower).add_option(floor_upper).add_option(
            area_lower,
        ).add_option(area_upper).add_option(price_lower).add_option(price_upper).add_option(
            district,
        ).add_option(house_type).add_option(suite)
    }

    /// The marks with which the form shows the floor choice again: the picked
    /// bucket is marked unless an explicit floor bound overrides it.
    pub fn floor_checked(&self) -> (row: Vec<&'static str>)
        ensures
            row@.len() == 6,
            row@.map_values(|text: &'static str| text@) == checked_row(
                self@.floor_enum,
                self@.floor_lower is None && self@.floor_upper is None,
            ),
    {
        checked(self.floor_enum, self._floor_lower.is_none() && self._floor_upper.is_none())
    }

    /// The marks with which the form shows the area choice again: the picked
    /// bucket is marked unless an explicit area bound overrides it.
    pub fn area_checked(&self) -> (row: Vec<&'static str>)
        ensures
            row@.len() == 6,
            row@.map_values(|text: &'static str| text@) == checked_row(
                self@.area_enum,
                self@.area_lower is None && self@.area_upper is None,
            ),
    {
        checked(self.area_enum, self._area_lower.is_none() && self._area_upper.is_none())
    }
}

} // verus!
