//! The signature of a filter: one text for each set of bounds, under which
//! the count of result pages is remembered.
//!
//! The signature names the bounds that are there, in a fixed order, as
//! `HouseFilter(area_lower: 110, area_upper: 150)` does; a bound that is not
//! there is left out. A number is written in decimal. A text is written as
//! its length in characters, a colon and the text itself, as in
//! `district: 4:west`, so that no text can be taken for what follows it.

use crate::decimal::append_decimal;
use crate::decimal::decimal;
use crate::decimal::is_digit;
use crate::decimal::lemma_decimal_delimited;
use crate::decimal::lemma_decimal_digits;
use crate::house_filter::Criteria;
use crate::house_filter::FilterView;
use crate::house_filter::HouseFilter;
use vstd::prelude::*;
use vstd::string::StrSliceExecFns;
use vstd::string::StringExecFns;

verus! {

/// A text as the signature writes it: its length, a colon, the text.
pub open spec fn text_value(text: Seq<char>) -> Seq<char> {
    decimal(text.len()) + (seq![':'] + text)
}

/// What stands between two bounds, and so before every bound but the first.
pub open spec fn separator(first: bool) -> Seq<char> {
    if first {
        Seq::empty()
    } else {
        ", "@
    }
}

/// One bound as the signature writes it: its label and its value, after
/// the separator unless it is the first.
pub open spec fn entry(first: bool, label: Seq<char>, value: Seq<char>) -> Seq<char> {
    separator(first) + (label + value)
}

/// A bound as the signature writes it, with what follows it.
pub open spec fn written(first: bool, label: Seq<char>, value: Seq<char>, rest: Seq<char>) -> Seq<
    char,
> {
    separator(first) + (label + (value + rest))
}

impl Criteria {
    /// The signature from the bound `suite` on; `first` says that no bound
    /// was written before.
    pub open spec fn signature_from_suite(self, first: bool) -> Seq<char> {
        match self.suite {
            Some(bound) => written(
                first,
                "suite: "@,
                text_value(bound),
                ")"@,
            ),
            None => ")"@,
        }
    }

    /// The signature from the bound `price_upper` on; `first` says that no bound
    /// was written before.
    pub open spec fn signature_from_price_upper(self, first: bool) -> Seq<char> {
        match self.price_upper {
            Some(bound) => written(
                first,
                "price_upper: "@,
                decimal(bound as nat),
                self.signature_from_suite(false),
            ),
            None => self.signature_from_suite(first),
        }
    }

    /// The signature from the bound `price_lower` on; `first` says that no bound
    /// was written before.
    pub open spec fn signature_from_price_lower(self, first: bool) -> Seq<char> {
        match self.price_lower {
            Some(bound) => written(
                first,
                "price_lower: "@,
                decimal(bound as nat),
                self.signature_from_price_upper(false),
            ),
            None => self.signature_from_price_upper(first),
        }
    }

    /// The signature from the bound `floor_upper` on; `first` says that no bound
    /// was written before.
    pub open spec fn signature_from_floor_upper(self, first: bool) -> Seq<char> {
        match self.floor_upper {
            Some(bound) => written(
                first,
                "floor_upper: "@,
                decimal(bound as nat),
                self.signature_from_price_lower(false),
            ),
            None => self.signature_from_price_lower(first),
        }
    }

    /// The signature from the bound `floor_lower` on; `first` says that no bound
    /// was written before.
    pub open spec fn signature_from_floor_lower(self, first: bool) -> Seq<char> {
        match self.floor_lower {
            Some(bound) => written(
                first,
                "floor_lower: "@,
                decimal(bound as nat),
                self.signature_from_floor_upper(false),
            ),
            None => self.signature_from_floor_upper(first),
        }
    }

    /// The signature from the bound `area_upper` on; `first` says that no bound
    /// was written before.
    pub open spec fn signature_from_area_upper(self, first: bool) -> Seq<char> {
        match self.area_upper {
            Some(bound) => written(
                first,
                "area_upper: "@,
                decimal(bound as nat),
                self.signature_from_floor_lower(false),
            ),
            None => self.signature_from_floor_lower(first),
        }
    }

    /// The signature from the bound `area_lower` on; `first` says that no bound
    /// was written before.
    pub open spec fn signature_from_area_lower(self, first: bool) -> Seq<char> {
        match self.area_lower {
            Some(bound) => written(
                first,
                "area_lower: "@,
                decimal(bound as nat),
                self.signature_from_area_upper(false),
            ),
            None => self.signature_from_area_upper(first),
        }
    }

    /// The signature from the bound `house_type` on; `first` says that no bound
    /// was written before.
    pub open spec fn signature_from_house_type(self, first: bool) -> Seq<char> {
        match self.house_type {
            Some(bound) => written(
                first,
                "house_type: "@,
                text_value(bound),
                self.signature_from_area_lower(false),
            ),
            None => self.signature_from_area_lower(first),
        }
    }

    /// The signature from the bound `district` on; `first` says that no bound
    /// was written before.
    pub open spec fn signature_from_district(self, first: bool) -> Seq<char> {
        match self.district {
            Some(bound) => written(
                first,
                "district: "@,
                text_value(bound),
                self.signature_from_house_type(false),
            ),
            None => self.signature_from_house_type(first),
        }
    }

    /// The signature of these bounds.
    pub open spec fn signature(self) -> Seq<char> {
        "HouseFilter("@ + self.signature_from_district(true)
    }
}

/// Which bound two characters of a label stand for: its place in the order
/// of the bounds, and nine where they stand for none.
spec fn label_code(a: char, b: char) -> int {
    if a == 'd' && b == 'c' {
        0
    } else if a == 'h' && b == 't' {
        1
    } else if a == 'a' && b == 'o' {
        2
    } else if a == 'a' && b == 'p' {
        3
    } else if a == 'f' && b == 'l' {
        4
    } else if a == 'f' && b == 'u' {
        5
    } else if a == 'p' && b == 'l' {
        6
    } else if a == 'p' && b == 'u' {
        7
    } else if a == 's' && b == ' ' {
        8
    } else {
        9
    }
}

/// Which bound a piece of signature starts with, read off the first and the
/// seventh character behind the separator; nine for the closing bracket.
spec fn bound_at(text: Seq<char>, first: bool) -> int {
    let at = if first {
        0int
    } else {
        2int
    };
    if text.len() < at + 7 {
        9
    } else {
        label_code(text[at], text[at + 6])
    }
}

/// What stands before two equal texts can be taken away from both.
proof fn lemma_same_start(start: Seq<char>, a: Seq<char>, b: Seq<char>)
    requires
        start + a == start + b,
    ensures
        a == b,
{
    let n = start.len() as int;
    assert((start + a).subrange(n, (start + a).len() as int) =~= a);
    assert((start + b).subrange(n, (start + b).len() as int) =~= b);
}

/// A written bound starts with the separator, if there is one, and then
/// with its label.
proof fn lemma_written_head(first: bool, label: Seq<char>, value: Seq<char>, rest: Seq<char>)
    requires
        label.len() >= 7,
    ensures
        bound_at(written(first, label, value, rest), first) == label_code(label[0], label[6]),
        written(first, label, value, rest).len() > 0,
        written(first, label, value, rest)[0] == if first {
            label[0]
        } else {
            ','
        },
{
    reveal_strlit(", ");
    let text = written(first, label, value, rest);
    let at = if first {
        0int
    } else {
        2int
    };
    assert(separator(first).len() == at);
    assert(text[at] == label[0]);
    assert(text[at + 6] == label[6]);
}

/// A written number can be read back, as long as what follows it does not
/// start with a digit.
proof fn lemma_written_number(
    first: bool,
    label: Seq<char>,
    a: u32,
    after_a: Seq<char>,
    b: u32,
    after_b: Seq<char>,
)
    requires
        written(first, label, decimal(a as nat), after_a) == written(
            first,
            label,
            decimal(b as nat),
            after_b,
        ),
        after_a.len() > 0,
        after_b.len() > 0,
        !is_digit(after_a[0]),
        !is_digit(after_b[0]),
    ensures
        a == b,
        after_a == after_b,
{
    lemma_same_start(
        separator(first),
        label + (decimal(a as nat) + after_a),
        label + (decimal(b as nat) + after_b),
    );
    lemma_same_start(label, decimal(a as nat) + after_a, decimal(b as nat) + after_b);
    lemma_decimal_delimited(a as nat, after_a, b as nat, after_b);
}

/// A written text can be read back, whatever follows it.
proof fn lemma_written_text(
    first: bool,
    label: Seq<char>,
    a: Seq<char>,
    after_a: Seq<char>,
    b: Seq<char>,
    after_b: Seq<char>,
)
    requires
        written(first, label, text_value(a), after_a) == written(
            first,
            label,
            text_value(b),
            after_b,
        ),
    ensures
        a == b,
        after_a == after_b,
{
    lemma_same_start(
        separator(first),
        label + (text_value(a) + after_a),
        label + (text_value(b) + after_b),
    );
    lemma_same_start(label, text_value(a) + after_a, text_value(b) + after_b);
    let rest_a = seq![':'] + a + after_a;
    let rest_b = seq![':'] + b + after_b;
    assert(text_value(a) + after_a =~= decimal(a.len()) + rest_a);
    assert(text_value(b) + after_b =~= decimal(b.len()) + rest_b);
    assert(rest_a[0] == ':');
    assert(rest_b[0] == ':');
    lemma_decimal_delimited(a.len(), rest_a, b.len(), rest_b);
    assert(rest_a.subrange(1, 1 + a.len() as int) =~= a);
    assert(rest_b.subrange(1, 1 + b.len() as int) =~= b);
    assert(rest_a.subrange(1 + a.len() as int, rest_a.len() as int) =~= after_a);
    assert(rest_b.subrange(1 + b.len() as int, rest_b.len() as int) =~= after_b);
}

/// Writing a bound behind a text and then the rest is writing the bound with
/// its rest behind the text.
proof fn lemma_entry_join(
    before: Seq<char>,
    first: bool,
    label: Seq<char>,
    value: Seq<char>,
    rest: Seq<char>,
)
    ensures
        (before + entry(first, label, value)) + rest == before + written(first, label, value, rest),
{
    assert((before + entry(first, label, value)) + rest =~= before + written(
        first,
        label,
        value,
        rest,
    ));
}

impl Criteria {
    /// The signature from `suite` on starts with the first bound that is
    /// there from `suite` on, or with the closing bracket, and never with a
    /// digit.
    proof fn lemma_head_suite(self, first: bool)
        ensures
            bound_at(self.signature_from_suite(first), first) >= 8,
            self.suite is Some <==> bound_at(
                self.signature_from_suite(first),
                first,
            ) == 8,
            self.signature_from_suite(first).len() > 0,
            !is_digit(self.signature_from_suite(first)[0]),
    {
        reveal_strlit("suite: ");
        reveal_strlit(")");
        match self.suite {
            Some(bound) => {
                lemma_written_head(
                    first,
                    "suite: "@,
                    text_value(bound),
                    ")"@,
                );
            },
            None => {
            },
        }
    }

    /// The signature from `price_upper` on starts with the first bound that is
    /// there from `price_upper` on, or with the closing bracket, and never with a
    /// digit.
    proof fn lemma_head_price_upper(self, first: bool)
        ensures
            bound_at(self.signature_from_price_upper(first), first) >= 7,
            self.price_upper is Some <==> bound_at(
                self.signature_from_price_upper(first),
                first,
            ) == 7,
            self.signature_from_price_upper(first).len() > 0,
            !is_digit(self.signature_from_price_upper(first)[0]),
    {
        reveal_strlit("price_upper: ");
        match self.price_upper {
            Some(bound) => {
                lemma_written_head(
                    first,
                    "price_upper: "@,
                    decimal(bound as nat),
                    self.signature_from_suite(false),
                );
            },
            None => {
                self.lemma_head_suite(first);
            },
        }
    }

    /// The signature from `price_lower` on starts with the first bound that is
    /// there from `price_lower` on, or with the closing bracket, and never with a
    /// digit.
    proof fn lemma_head_price_lower(self, first: bool)
        ensures
            bound_at(self.signature_from_price_lower(first), first) >= 6,
            self.price_lower is Some <==> bound_at(
                self.signature_from_price_lower(first),
                first,
            ) == 6,
            self.signature_from_price_lower(first).len() > 0,
            !is_digit(self.signature_from_price_lower(first)[0]),
    {
        reveal_strlit("price_lower: ");
        match self.price_lower {
            Some(bound) => {
                lemma_written_head(
                    first,
                    "price_lower: "@,
                    decimal(bound as nat),
                    self.signature_from_price_upper(false),
                );
            },
            None => {
                self.lemma_head_price_upper(first);
            },
        }
    }

    /// The signature from `floor_upper` on starts with the first bound that is
    /// there from `floor_upper` on, or with the closing bracket, and never with a
    /// digit.
    proof fn lemma_head_floor_upper(self, first: bool)
        ensures
            bound_at(self.signature_from_floor_upper(first), first) >= 5,
            self.floor_upper is Some <==> bound_at(
                self.signature_from_floor_upper(first),
                first,
            ) == 5,
            self.signature_from_floor_upper(first).len() > 0,
            !is_digit(self.signature_from_floor_upper(first)[0]),
    {
        reveal_strlit("floor_upper: ");
        match self.floor_upper {
            Some(bound) => {
                lemma_written_head(
                    first,
                    "floor_upper: "@,
                    decimal(bound as nat),
                    self.signature_from_price_lower(false),
                );
            },
            None => {
                self.lemma_head_price_lower(first);
            },
        }
    }

    /// The signature from `floor_lower` on starts with the first bound that is
    /// there from `floor_lower` on, or with the closing bracket, and never with a
    /// digit.
    proof fn lemma_head_floor_lower(self, first: bool)
        ensures
            bound_at(self.signature_from_floor_lower(first), first) >= 4,
            self.floor_lower is Some <==> bound_at(
                self.signature_from_floor_lower(first),
                first,
            ) == 4,
            self.signature_from_floor_lower(first).len() > 0,
            !is_digit(self.signature_from_floor_lower(first)[0]),
    {
        reveal_strlit("floor_lower: ");
        match self.floor_lower {
            Some(bound) => {
                lemma_written_head(
                    first,
                    "floor_lower: "@,
                    decimal(bound as nat),
                    self.signature_from_floor_upper(false),
                );
            },
            None => {
                self.lemma_head_floor_upper(first);
            },
        }
    }

    /// The signature from `area_upper` on starts with the first bound that is
    /// there from `area_upper` on, or with the closing bracket, and never with a
    /// digit.
    proof fn lemma_head_area_upper(self, first: bool)
        ensures
            bound_at(self.signature_from_area_upper(first), first) >= 3,
            self.area_upper is Some <==> bound_at(
                self.signature_from_area_upper(first),
                first,
            ) == 3,
            self.signature_from_area_upper(first).len() > 0,
            !is_digit(self.signature_from_area_upper(first)[0]),
    {
        reveal_strlit("area_upper: ");
        match self.area_upper {
            Some(bound) => {
                lemma_written_head(
                    first,
                    "area_upper: "@,
                    decimal(bound as nat),
                    self.signature_from_floor_lower(false),
                );
            },
            None => {
                self.lemma_head_floor_lower(first);
            },
        }
    }

    /// The signature from `area_lower` on starts with the first bound that is
    /// there from `area_lower` on, or with the closing bracket, and never with a
    /// digit.
    proof fn lemma_head_area_lower(self, first: bool)
        ensures
            bound_at(self.signature_from_area_lower(first), first) >= 2,
            self.area_lower is Some <==> bound_at(
                self.signature_from_area_lower(first),
                first,
            ) == 2,
            self.signature_from_area_lower(first).len() > 0,
            !is_digit(self.signature_from_area_lower(first)[0]),
    {
        reveal_strlit("area_lower: ");
        match self.area_lower {
            Some(bound) => {
                lemma_written_head(
                    first,
                    "area_lower: "@,
                    decimal(bound as nat),
                    self.signature_from_area_upper(false),
                );
            },
            None => {
                self.lemma_head_area_upper(first);
            },
        }
    }

    /// The signature from `house_type` on starts with the first bound that is
    /// there from `house_type` on, or with the closing bracket, and never with a
    /// digit.
    proof fn lemma_head_house_type(self, first: bool)
        ensures
            bound_at(self.signature_from_house_type(first), first) >= 1,
            self.house_type is Some <==> bound_at(
                self.signature_from_house_type(first),
                first,
            ) == 1,
            self.signature_from_house_type(first).len() > 0,
            !is_digit(self.signature_from_house_type(first)[0]),
    {
        reveal_strlit("house_type: ");
        match self.house_type {
            Some(bound) => {
                lemma_written_head(
                    first,
                    "house_type: "@,
                    text_value(bound),
                    self.signature_from_area_lower(false),
                );
            },
            None => {
                self.lemma_head_area_lower(first);
            },
        }
    }

    /// The signature from `district` on starts with the first bound that is
    /// there from `district` on, or with the closing bracket, and never with a
    /// digit.
    proof fn lemma_head_district(self, first: bool)
        ensures
            bound_at(self.signature_from_district(first), first) >= 0,
            self.district is Some <==> bound_at(
                self.signature_from_district(first),
                first,
            ) == 0,
            self.signature_from_district(first).len() > 0,
            !is_digit(self.signature_from_district(first)[0]),
    {
        reveal_strlit("district: ");
        match self.district {
            Some(bound) => {
                lemma_written_head(
                    first,
                    "district: "@,
                    text_value(bound),
                    self.signature_from_house_type(false),
                );
            },
            None => {
                self.lemma_head_house_type(first);
            },
        }
    }

    /// From equal signatures from `suite` on, the bounds from `suite` on
    /// can be read back.
    proof fn lemma_read_suite(self, other: Criteria, first: bool)
        requires
            self.signature_from_suite(first) == other.signature_from_suite(first),
        ensures
            self.suite == other.suite,
    {
        self.lemma_head_suite(first);
        other.lemma_head_suite(first);
        match (self.suite, other.suite) {
            (Some(a), Some(b)) => {
                lemma_written_text(first, "suite: "@, a, ")"@, b, ")"@);
            },
            (None, None) => {
            },
            _ => {},
        }
    }

    /// From equal signatures from `price_upper` on, the bounds from `price_upper` on
    /// can be read back.
    proof fn lemma_read_price_upper(self, other: Criteria, first: bool)
        requires
            self.signature_from_price_upper(first) == other.signature_from_price_upper(first),
        ensures
            self.price_upper == other.price_upper,
            self.suite == other.suite,
    {
        self.lemma_head_price_upper(first);
        other.lemma_head_price_upper(first);
        match (self.price_upper, other.price_upper) {
            (Some(a), Some(b)) => {
                self.lemma_head_suite(false);
                other.lemma_head_suite(false);
                lemma_written_number(
                    first,
                    "price_upper: "@,
                    a,
                    self.signature_from_suite(false),
                    b,
                    other.signature_from_suite(false),
                );
                self.lemma_read_suite(other, false);
            },
            (None, None) => {
                self.lemma_read_suite(other, first);
            },
            _ => {},
        }
    }

    /// From equal signatures from `price_lower` on, the bounds from `price_lower` on
    /// can be read back.
    proof fn lemma_read_price_lower(self, other: Criteria, first: bool)
        requires
            self.signature_from_price_lower(first) == other.signature_from_price_lower(first),
        ensures
            self.price_lower == other.price_lower,
            self.price_upper == other.price_upper,
            self.suite == other.suite,
    {
        self.lemma_head_price_lower(first);
        other.lemma_head_price_lower(first);
        match (self.price_lower, other.price_lower) {
            (Some(a), Some(b)) => {
                self.lemma_head_price_upper(false);
                other.lemma_head_price_upper(false);
                lemma_written_number(
                    first,
                    "price_lower: "@,
                    a,
                    self.signature_from_price_upper(false),
                    b,
                    other.signature_from_price_upper(false),
                );
                self.lemma_read_price_upper(other, false);
            },
            (None, None) => {
                self.lemma_read_price_upper(other, first);
            },
            _ => {},
        }
    }

    /// From equal signatures from `floor_upper` on, the bounds from `floor_upper` on
    /// can be read back.
    proof fn lemma_read_floor_upper(self, other: Criteria, first: bool)
        requires
            self.signature_from_floor_upper(first) == other.signature_from_floor_upper(first),
        ensures
            self.floor_upper == other.floor_upper,
            self.price_lower == other.price_lower,
            self.price_upper == other.price_upper,
            self.suite == other.suite,
    {
        self.lemma_head_floor_upper(first);
        other.lemma_head_floor_upper(first);
        match (self.floor_upper, other.floor_upper) {
            (Some(a), Some(b)) => {
                self.lemma_head_price_lower(false);
                other.lemma_head_price_lower(false);
                lemma_written_number(
                    first,
                    "floor_upper: "@,
                    a,
                    self.signature_from_price_lower(false),
                    b,
                    other.signature_from_price_lower(false),
                );
                self.lemma_read_price_lower(other, false);
            },
            (None, None) => {
                self.lemma_read_price_lower(other, first);
            },
            _ => {},
        }
    }

    /// From equal signatures from `floor_lower` on, the bounds from `floor_lower` on
    /// can be read back.
    proof fn lemma_read_floor_lower(self, other: Criteria, first: bool)
        requires
            self.signature_from_floor_lower(first) == other.signature_from_floor_lower(first),
        ensures
            self.floor_lower == other.floor_lower,
            self.floor_upper == other.floor_upper,
            self.price_lower == other.price_lower,
            self.price_upper == other.price_upper,
            self.suite == other.suite,
    {
        self.lemma_head_floor_lower(first);
        other.lemma_head_floor_lower(first);
        match (self.floor_lower, other.floor_lower) {
            (Some(a), Some(b)) => {
                self.lemma_head_floor_upper(false);
                other.lemma_head_floor_upper(false);
                lemma_written_number(
                    first,
                    "floor_lower: "@,
                    a,
                    self.signature_from_floor_upper(false),
                    b,
                    other.signature_from_floor_upper(false),
                );
                self.lemma_read_floor_upper(other, false);
            },
            (None, None) => {
                self.lemma_read_floor_upper(other, first);
            },
            _ => {},
        }
    }

    /// From equal signatures from `area_upper` on, the bounds from `area_upper` on
    /// can be read back.
    proof fn lemma_read_area_upper(self, other: Criteria, first: bool)
        requires
            self.signature_from_area_upper(first) == other.signature_from_area_upper(first),
        ensures
            self.area_upper == other.area_upper,
            self.floor_lower == other.floor_lower,
            self.floor_upper == other.floor_upper,
            self.price_lower == other.price_lower,
            self.price_upper == other.price_upper,
            self.suite == other.suite,
    {
        self.lemma_head_area_upper(first);
        other.lemma_head_area_upper(first);
        match (self.area_upper, other.area_upper) {
            (Some(a), Some(b)) => {
                self.lemma_head_floor_lower(false);
                other.lemma_head_floor_lower(false);
                lemma_written_number(
                    first,
                    "area_upper: "@,
                    a,
                    self.signature_from_floor_lower(false),
                    b,
                    other.signature_from_floor_lower(false),
                );
                self.lemma_read_floor_lower(other, false);
            },
            (None, None) => {
                self.lemma_read_floor_lower(other, first);
            },
            _ => {},
        }
    }

    /// From equal signatures from `area_lower` on, the bounds from `area_lower` on
    /// can be read back.
    proof fn lemma_read_area_lower(self, other: Criteria, first: bool)
        requires
            self.signature_from_area_lower(first) == other.signature_from_area_lower(first),
        ensures
            self.area_lower == other.area_lower,
            self.area_upper == other.area_upper,
            self.floor_lower == other.floor_lower,
            self.floor_upper == other.floor_upper,
            self.price_lower == other.price_lower,
            self.price_upper == other.price_upper,
            self.suite == other.suite,
    {
        self.lemma_head_area_lower(first);
        other.lemma_head_area_lower(first);
        match (self.area_lower, other.area_lower) {
            (Some(a), Some(b)) => {
                self.lemma_head_area_upper(false);
                other.lemma_head_area_upper(false);
                lemma_written_number(
                    first,
                    "area_lower: "@,
                    a,
                    self.signature_from_area_upper(false),
                    b,
                    other.signature_from_area_upper(false),
                );
                self.lemma_read_area_upper(other, false);
            },
            (None, None) => {
                self.lemma_read_area_upper(other, first);
            },
            _ => {},
        }
    }

    /// From equal signatures from `house_type` on, the bounds from `house_type` on
    /// can be read back.
    proof fn lemma_read_house_type(self, other: Criteria, first: bool)
        requires
            self.signature_from_house_type(first) == other.signature_from_house_type(first),
        ensures
            self.house_type == other.house_type,
            self.area_lower == other.area_lower,
            self.area_upper == other.area_upper,
            self.floor_lower == other.floor_lower,
            self.floor_upper == other.floor_upper,
            self.price_lower == other.price_lower,
            self.price_upper == other.price_upper,
            self.suite == other.suite,
    {
        self.lemma_head_house_type(first);
        other.lemma_head_house_type(first);
        match (self.house_type, other.house_type) {
            (Some(a), Some(b)) => {
                lemma_written_text(
                    first,
                    "house_type: "@,
                    a,
                    self.signature_from_area_lower(false),
                    b,
                    other.signature_from_area_lower(false),
                );
                self.lemma_read_area_lower(other, false);
            },
            (None, None) => {
                self.lemma_read_area_lower(other, first);
            },
            _ => {},
        }
    }

    /// From equal signatures from `district` on, the bounds from `district` on
    /// can be read back.
    proof fn lemma_read_district(self, other: Criteria, first: bool)
        requires
            self.signature_from_district(first) == other.signature_from_district(first),
        ensures
            self.district == other.district,
            self.house_type == other.house_type,
            self.area_lower == other.area_lower,
            self.area_upper == other.area_upper,
            self.floor_lower == other.floor_lower,
            self.floor_upper == other.floor_upper,
            self.price_lower == other.price_lower,
            self.price_upper == other.price_upper,
            self.suite == other.suite,
    {
        self.lemma_head_district(first);
        other.lemma_head_district(first);
        match (self.district, other.district) {
            (Some(a), Some(b)) => {
                lemma_written_text(
                    first,
                    "district: "@,
                    a,
                    self.signature_from_house_type(false),
                    b,
                    other.signature_from_house_type(false),
                );
                self.lemma_read_house_type(other, false);
            },
            (None, None) => {
                self.lemma_read_house_type(other, first);
            },
            _ => {},
        }
    }

    /// Bounds that differ have signatures that differ: from the signature
    /// every bound can be read back.
    pub proof fn lemma_signature_injective(self, other: Criteria)
        requires
            self.signature() == other.signature(),
        ensures
            self == other,
    {
        lemma_same_start(
            "HouseFilter("@,
            self.signature_from_district(true),
            other.signature_from_district(true),
        );
        self.lemma_read_district(other, true);
    }
}

impl FilterView {
    /// The signature of the bounds this filter comes to.
    pub open spec fn signature(self) -> Seq<char> {
        self.criteria().signature()
    }
}

/// Filters that come to the same bounds have the same signature, and filters
/// that differ in any bound have different signatures.
pub proof fn lemma_signature_tells_bounds(a: FilterView, b: FilterView)
    ensures
        a.criteria() == b.criteria() ==> a.signature() == b.signature(),
        a.criteria() != b.criteria() ==> a.signature() != b.signature(),
{
    if a.signature() == b.signature() {
        a.criteria().lemma_signature_injective(b.criteria());
    }
}

/// Writes the separator at the end of `out`, unless the next bound is the
/// first.
fn append_separator(out: &mut String, first: bool)
    ensures
        final(out)@ == old(out)@ + separator(first),
{
    if !first {
        out.append(", ");
    }
    assert(out@ =~= old(out)@ + separator(first));
}

/// Writes a text bound at the end of `out`, if it is there, and says
/// whether the next bound is still the first.
fn append_text_bound(
    out: &mut String,
    first: bool,
    label: &str,
    value: Option<&str>,
) -> (still_first: bool)
    ensures
        match value {
            Some(text) => final(out)@ == old(out)@ + entry(first, label@, text_value(text@))
                && !still_first,
            None => final(out)@ == old(out)@ && still_first == first,
        },
{
    match value {
        Some(text) => {
            append_separator(out, first);
            out.append(label);
            let length = text.unicode_len();
            append_decimal(out, length as u64);
            proof {
                reveal_strlit(":");
            }
            out.append(":");
            out.append(text);
            assert(out@ =~= old(out)@ + entry(first, label@, text_value(text@)));
            false
        },
        None => first,
    }
}

/// Writes a number bound at the end of `out`, if it is there, and says
/// whether the next bound is still the first.
fn append_number_bound(
    out: &mut String,
    first: bool,
    label: &str,
    value: Option<u32>,
) -> (still_first: bool)
    ensures
        match value {
            Some(n) => final(out)@ == old(out)@ + entry(first, label@, decimal(n as nat))
                && !still_first,
            None => final(out)@ == old(out)@ && still_first == first,
        },
{
    match value {
        Some(n) => {
            append_separator(out, first);
            out.append(label);
            append_decimal(out, n as u64);
            assert(out@ =~= old(out)@ + entry(first, label@, decimal(n as nat)));
            false
        },
        None => first,
    }
}

impl<'r> HouseFilter<'r> {
    /// The signature of this filter's bounds. Filters with the same bounds
    /// have the same signature, whatever page they ask for and however the
    /// bounds were given; filters with different bounds have different ones.
    pub fn signature(&self) -> (text: String)
        ensures
            text@ == self@.signature(),
    {
        let ghost bounds = self@.criteria();
        let ghost whole = bounds.signature();
        let mut out = String::from_str("HouseFilter(");
        let mut first = true;
        let ghost before = out@;
        let ghost was_first = first;
        first = append_text_bound(&mut out, first, "district: ", self.district());
        proof {
            match bounds.district {
                Some(bound) => {
                    lemma_entry_join(
                        before,
                        was_first,
                        "district: "@,
                        text_value(bound),
                        bounds.signature_from_house_type(false),
                    );
                },
                None => {},
            }
            assert(out@ + bounds.signature_from_house_type(first) == whole);
        }
        let ghost before = out@;
        let ghost was_first = first;
        first = append_text_bound(&mut out, first, "house_type: ", self.house_type());
        proof {
            match bounds.house_type {
                Some(bound) => {
                    lemma_entry_join(
                        before,
                        was_first,
                        "house_type: "@,
                        text_value(bound),
                        bounds.signature_from_area_lower(false),
                    );
                },
                None => {},
            }
            assert(out@ + bounds.signature_from_area_lower(first) == whole);
        }
        let ghost before = out@;
        let ghost was_first = first;
        first = append_number_bound(&mut out, first, "area_lower: ", self.area_lower());
        proof {
            match bounds.area_lower {
                Some(bound) => {
                    lemma_entry_join(
                        before,
                        was_first,
                        "area_lower: "@,
                        decimal(bound as nat),
                        bounds.signature_from_area_upper(false),
                    );
                },
                None => {},
            }
            assert(out@ + bounds.signature_from_area_upper(first) == whole);
        }
        let ghost before = out@;
        let ghost was_first = first;
        first = append_number_bound(&mut out, first, "area_upper: ", self.area_upper());
        proof {
            match bounds.area_upper {
                Some(bound) => {
                    lemma_entry_join(
                        before,
                        was_first,
                        "area_upper: "@,
                        decimal(bound as nat),
                        bounds.signature_from_floor_lower(false),
                    );
                },
                None => {},
            }
            assert(out@ + bounds.signature_from_floor_lower(first) == whole);
        }
        let ghost before = out@;
        let ghost was_first = first;
        first = append_number_bound(&mut out, first, "floor_lower: ", self.floor_lower());
        proof {
            match bounds.floor_lower {
                Some(bound) => {
                    lemma_entry_join(
                        before,
                        was_first,
                        "floor_lower: "@,
                        decimal(bound as nat),
                        bounds.signature_from_floor_upper(false),
                    );
                },
                None => {},
            }
            assert(out@ + bounds.signature_from_floor_upper(first) == whole);
        }
        let ghost before = out@;
        let ghost was_first = first;
        first = append_number_bound(&mut out, first, "floor_upper: ", self.floor_upper());
        proof {
            match bounds.floor_upper {
                Some(bound) => {
                    lemma_entry_join(
                        before,
                        was_first,
                        "floor_upper: "@,
                        decimal(bound as nat),
                        bounds.signature_from_price_lower(false),
                    );
                },
                None => {},
            }
            assert(out@ + bounds.signature_from_price_lower(first) == whole);
        }
        let ghost before = out@;
        let ghost was_first = first;
        first = append_number_bound(&mut out, first, "price_lower: ", self.price_lower());
        proof {
            match bounds.price_lower {
                Some(bound) => {
                    lemma_entry_join(
                        before,
                        was_first,
                        "price_lower: "@,
                        decimal(bound as nat),
                        bounds.signature_from_price_upper(false),
                    );
                },
                None => {},
            }
            assert(out@ + bounds.signature_from_price_upper(first) == whole);
        }
        let ghost before = out@;
        let ghost was_first = first;
        first = append_number_bound(&mut out, first, "price_upper: ", self.price_upper());
        proof {
            match bounds.price_upper {
                Some(bound) => {
                    lemma_entry_join(
                        before,
                        was_first,
                        "price_upper: "@,
                        decimal(bound as nat),
                        bounds.signature_from_suite(false),
                    );
                },
                None => {},
            }
            assert(out@ + bounds.signature_from_suite(first) == whole);
        }
        let ghost before = out@;
        let ghost was_first = first;
        first = append_text_bound(&mut out, first, "suite: ", self.suite());
        proof {
            match bounds.suite {
                Some(bound) => {
                    lemma_entry_join(
                        before,
                        was_first,
                        "suite: "@,
                        text_value(bound),
                        ")"@,
                    );
                },
                None => {},
            }
            assert(out@ + ")"@ == whole);
        }
        out.append(")");
        out
    }
}

} // verus!
