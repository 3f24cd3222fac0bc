//! Meals and their presentation rows. Prices are held in cents so that a
//! missing price ("no price published") stays distinct from a free meal
//! until presentation, where — in exactly one place — a missing tier
//! becomes zero.

use crate::text::{join_comma, spec_decimal, spec_join_comma, spec_padded_decimal, u64_to_padded_string, u64_to_string};
use vstd::prelude::*;
use vstd::string::StringExecFns;

verus! {

/// Per-audience prices of one meal, in cents. `None` means the provider
/// published no price for that tier.
#[derive(Clone, Copy, Debug, PartialEq, Eq, Structural)]
pub struct PriceSet {
    pub students: Option<u64>,
    pub employees: Option<u64>,
    pub pupils: Option<u64>,
    pub others: Option<u64>,
}

/// One menu entry of a canteen on one date.
#[derive(Debug)]
pub struct Meal {
    pub id: u64,
    pub name: String,
    pub category: String,
    pub notes: Vec<String>,
    pub prices: PriceSet,
}

/// A presentation row shared by the table printer and the chat embeds.
/// Prices are in cents; the guest column carries the pupil tier.
#[derive(Debug)]
pub struct TabledMeal {
    pub name: String,
    pub student_price: u64,
    pub employee_price: u64,
    pub guest_price: u64,
    pub notes: String,
}

/// The presentation policy for one optional price tier: its value, or zero
/// where no price was published.
pub open spec fn tier_or_zero(t: Option<u64>) -> u64 {
    match t {
        Some(v) => v,
        None => 0,
    }
}

/// Reads one optional price tier under the presentation policy.
pub fn tier_cents(t: &Option<u64>) -> (r: u64)
    ensures
        r == tier_or_zero(*t),
{
    match t {
        Some(v) => *v,
        None => 0,
    }
}

/// How a presentation row relates to the meal it renders.
pub open spec fn row_matches(meal: Meal, row: TabledMeal) -> bool {
    &&& row.name@ == meal.name@
    &&& row.student_price == tier_or_zero(meal.prices.students)
    &&& row.employee_price == tier_or_zero(meal.prices.employees)
    &&& row.guest_price == tier_or_zero(meal.prices.pupils)
    &&& row.notes@ == spec_join_comma(meal.notes.deep_view())
}

/// Maps a meal to its presentation row. Total: every meal, with any
/// combination of absent price tiers and an empty or non-empty note list,
/// yields a row; absent tiers render as zero and the notes join with `", "`.
pub fn to_row(meal: &Meal) -> (row: TabledMeal)
    ensures
        row_matches(*meal, row),
{
    TabledMeal {
        name: meal.name.clone(),
        student_price: tier_cents(&meal.prices.students),
        employee_price: tier_cents(&meal.prices.employees),
        guest_price: tier_cents(&meal.prices.pupils),
        notes: join_comma(&meal.notes),
    }
}

/// The text for a cent amount as a plain decimal number of euros, with no
/// trailing fraction zeros: whole euros render bare, tenths render with one
/// digit, anything else with two.
pub open spec fn spec_price_chars(cents: nat) -> Seq<char> {
    if cents % 100 == 0 {
        spec_decimal(cents / 100)
    } else if cents % 10 == 0 {
        spec_decimal(cents / 100) + seq!['.'] + spec_decimal((cents / 10) % 10)
    } else {
        spec_decimal(cents / 100) + seq!['.'] + spec_padded_decimal(cents % 100, 2)
    }
}

/// Renders a cent amount as a decimal number of euros.
pub fn price_display(cents: u64) -> (s: String)
    ensures
        s@ == spec_price_chars(cents as nat),
{
    if cents % 100 == 0 {
        u64_to_string(cents / 100)
    } else if cents % 10 == 0 {
        let mut s = u64_to_string(cents / 100);
        s.append(".");
        let f = u64_to_string((cents / 10) % 10);
        s.append(f.as_str());
        proof {
            reveal_strlit(".");
            assert("."@ =~= seq!['.']);
        }
        s
    } else {
        let mut s = u64_to_string(cents / 100);
        s.append(".");
        let f = u64_to_padded_string(cents % 100, 2);
        s.append(f.as_str());
        proof {
            reveal_strlit(".");
            assert("."@ =~= seq!['.']);
        }
        s
    }
}

} // verus!
