//! The chat surface's decisions: the caller denylist checked before any
//! command body runs, the autocomplete name filter, and the reply each
//! meal-command outcome calls for. The chat framework itself — command
//! registration, message delivery — is a collaborator outside the library.

use crate::errors::FetchError;
use crate::models::canteen::Canteen;
use crate::models::meal::{
    spec_price_chars, tier_cents, tier_or_zero, Meal, PriceSet, price_display,
};
use crate::text::{contains_seq, spec_join_comma, join_comma, str_contains};
use std::collections::HashMap;
use vstd::prelude::*;
use vstd::string::StringExecFns;

verus! {

/// Shared state of the chat service: a per-user vote counter, kept as an
/// extension point. No command reads or writes it today; a caller that
/// ever does must guard the read-modify-write with a mutual-exclusion
/// lock.
pub struct Data {
    pub votes: HashMap<String, u32>,
}

impl Data {
    /// A fresh store with no votes recorded.
    pub fn new() -> (d: Data)
        ensures
            d.votes@ == Map::<String, u32>::empty(),
    {
        Data { votes: HashMap::new() }
    }
}

/// Whether a caller is denylisted. The check runs before any command body,
/// whatever command was invoked.
pub fn caller_denied(caller: u64, denylist: &Vec<u64>) -> (denied: bool)
    ensures
        denied == denylist@.contains(caller),
{
    let mut i: usize = 0;
    while i < denylist.len()
        invariant
            i <= denylist@.len(),
            forall|k: int| 0 <= k < i ==> denylist@[k] != caller,
        decreases denylist@.len() - i,
    {
        if denylist[i] == caller {
            return true;
        }
        i += 1;
    }
    false
}

/// The canteen names that contain the partial text, in the order the
/// provider listed them: the autocomplete suggestions.
pub open spec fn spec_matching_names(canteens: Seq<Canteen>, partial: Seq<char>) -> Seq<
    Seq<char>,
> {
    canteens.map_values(|c: Canteen| c.name@).filter(|n: Seq<char>| contains_seq(n, partial))
}

/// Filters the canteen names for autocompletion.
pub fn filter_canteen_names(canteens: &Vec<Canteen>, partial: &str) -> (names: Vec<String>)
    ensures
        names@.len() == spec_matching_names(canteens@, partial@).len(),
        forall|k: int| 0 <= k < names@.len() ==> #[trigger] names@[k]@ == spec_matching_names(
            canteens@,
            partial@,
        )[k],
{
    let ghost pred = |n: Seq<char>| contains_seq(n, partial@);
    let mut names: Vec<String> = Vec::new();
    let mut i: usize = 0;
    while i < canteens.len()
        invariant
            i <= canteens@.len(),
            names@.len() == spec_matching_names(canteens@.take(i as int), partial@).len(),
            forall|k: int| 0 <= k < names@.len() ==> #[trigger] names@[k]@ == spec_matching_names(
                canteens@.take(i as int),
                partial@,
            )[k],
        decreases canteens@.len() - i,
    {
        proof {
            reveal(Seq::filter);
            let prev = canteens@.take(i as int).map_values(|c: Canteen| c.name@);
            let cur = canteens@.take(i as int + 1).map_values(|c: Canteen| c.name@);
            assert(canteens@.take(i as int + 1) =~= canteens@.take(i as int).push(
                canteens@[i as int],
            ));
            assert(cur =~= prev.push(canteens@[i as int].name@));
            assert(cur.drop_last() =~= prev);
        }
        if str_contains(canteens[i].name.as_str(), partial) {
            names.push(canteens[i].name.clone());
        }
        i += 1;
    }
    proof {
        assert(canteens@.take(canteens@.len() as int) =~= canteens@);
    }
    names
}

/// The reply, if any, that the canteen-by-name lookup outcome forces: none
/// when a canteen was found and the meal fetch may proceed.
pub fn canteen_lookup_reply(lookup: &Result<Option<Canteen>, FetchError>) -> (r: Option<String>)
    ensures
        lookup matches Ok(o) ==> o is Some ==> r is None,
        lookup matches Ok(o) ==> o is None ==> ({
            &&& r matches Some(t)
            &&& t@ == "Canteen not found."@
        }),
        lookup is Err ==> ({
            &&& r matches Some(t)
            &&& t@ == "Failed to fetch canteen."@
        }),
{
    match lookup {
        Ok(Some(_)) => None,
        Ok(None) => Some(String::from_str("Canteen not found.")),
        Err(_) => Some(String::from_str("Failed to fetch canteen.")),
    }
}

/// One chat embed: a title and a single field.
#[derive(Debug)]
pub struct MealEmbed {
    pub title: String,
    pub field_name: String,
    pub field_value: String,
}

/// The price block of an embed, one line per tier, a missing tier shown
/// as zero.
pub open spec fn spec_price_info(p: PriceSet) -> Seq<char> {
    "Students: "@ + spec_price_chars(tier_or_zero(p.students) as nat) + "\nEmployees: "@
        + spec_price_chars(tier_or_zero(p.employees) as nat) + "\nPupils: "@ + spec_price_chars(
        tier_or_zero(p.pupils) as nat,
    ) + "\nOthers: "@ + spec_price_chars(tier_or_zero(p.others) as nat)
}

/// The name of an embed's single field.
pub open spec fn spec_embed_field_name(meal: Meal) -> Seq<char> {
    "Category: "@ + meal.category@
}

/// The value of an embed's single field: the price block, then the joined
/// notes.
pub open spec fn spec_embed_field_value(meal: Meal) -> Seq<char> {
    "Prices:\n"@ + spec_price_info(meal.prices) + "\nNotes: "@ + spec_join_comma(
        meal.notes.deep_view(),
    )
}

/// How an embed relates to the meal it presents.
pub open spec fn embed_matches(meal: Meal, e: MealEmbed) -> bool {
    &&& e.title@ == meal.name@
    &&& e.field_name@ == spec_embed_field_name(meal)
    &&& e.field_value@ == spec_embed_field_value(meal)
}

/// Builds the embed for one meal.
pub fn meal_embed(meal: &Meal) -> (e: MealEmbed)
    ensures
        embed_matches(*meal, e),
{
    let mut field_name = String::from_str("Category: ");
    field_name.append(meal.category.as_str());

    let mut info = String::from_str("Students: ");
    let students = price_display(tier_cents(&meal.prices.students));
    info.append(students.as_str());
    info.append("\nEmployees: ");
    let employees = price_display(tier_cents(&meal.prices.employees));
    info.append(employees.as_str());
    info.append("\nPupils: ");
    let pupils = price_display(tier_cents(&meal.prices.pupils));
    info.append(pupils.as_str());
    info.append("\nOthers: ");
    let others = price_display(tier_cents(&meal.prices.others));
    info.append(others.as_str());

    let mut field_value = String::from_str("Prices:\n");
    field_value.append(info.as_str());
    field_value.append("\nNotes: ");
    let notes = join_comma(&meal.notes);
    field_value.append(notes.as_str());
    proof {
        assert(field_value@ =~= spec_embed_field_value(*meal));
    }

    MealEmbed { title: meal.name.clone(), field_name, field_value }
}

/// The reply of the chat meal command once the meals arrived: the no-meals
/// notice for an empty list, one embed per meal otherwise, and the error
/// text where the fetch itself failed.
#[derive(Debug)]
pub enum ChatReply {
    Text(String),
    Embeds(Vec<MealEmbed>),
    Failed(String),
}

/// Decides the chat reply for a fetched meal list.
pub fn meal_chat_reply(meals: &Result<Vec<Meal>, FetchError>) -> (r: ChatReply)
    ensures
        meals matches Ok(v) ==> v@.len() == 0 ==> ({
            &&& r matches ChatReply::Text(t)
            &&& t@ == "No meals found for the selected canteen."@
        }),
        meals matches Ok(v) ==> v@.len() > 0 ==> ({
            &&& r matches ChatReply::Embeds(es)
            &&& es@.len() == v@.len()
            &&& forall|j: int| 0 <= j < v@.len() ==> embed_matches(v@[j], #[trigger] es@[j])
        }),
        meals matches Err(e) ==> ({
            &&& r matches ChatReply::Failed(m)
            &&& m@ == e.spec_message()
        }),
{
    match meals {
        Ok(v) => {
            if v.len() == 0 {
                return ChatReply::Text(String::from_str(
                    "No meals found for the selected canteen.",
                ));
            }
            let mut es: Vec<MealEmbed> = Vec::new();
            let mut i: usize = 0;
            while i < v.len()
                invariant
                    i <= v@.len(),
                    es@.len() == i,
                    forall|j: int| 0 <= j < i ==> embed_matches(v@[j], #[trigger] es@[j]),
                decreases v@.len() - i,
            {
                es.push(meal_embed(&v[i]));
                i += 1;
            }
            ChatReply::Embeds(es)
        },
        Err(e) => ChatReply::Failed(e.message().clone()),
    }
}

} // verus!
