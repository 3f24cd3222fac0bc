//! Per-canteen meal aggregation. Each canteen's fetch is independent: one
//! canteen's failure neither blocks nor discards the results of the others.
//! An empty meal list is a valid outcome — the canteen published no menu —
//! and stays distinguishable from a failed fetch all the way to the
//! rendered report.

use crate::errors::FetchError;
use crate::models::canteen::Canteen;
use crate::models::meal::{row_matches, to_row, Meal, TabledMeal};
use vstd::prelude::*;
use vstd::string::StringExecFns;

verus! {

/// One canteen together with the outcome of its own meal fetch.
#[derive(Debug)]
pub struct CanteenMeals {
    pub canteen: Canteen,
    pub outcome: Result<Vec<Meal>, FetchError>,
}

/// The report for one canteen, labeled with its name: rendered rows, an
/// explicit no-meals notice, or the fetch error.
#[derive(Debug)]
pub enum CanteenReport {
    Rows { canteen_name: String, rows: Vec<TabledMeal> },
    NoMeals { canteen_name: String },
    Failed { canteen_name: String, message: String },
}

/// The notice for a canteen whose provider call itself failed.
pub open spec fn spec_fetch_error_message(name: Seq<char>, err: Seq<char>) -> Seq<char> {
    "Error fetching meals for "@ + name + ": "@ + err
}

/// Builds the notice for a canteen whose provider call failed.
pub fn fetch_error_message(name: &String, err: &FetchError) -> (s: String)
    ensures
        s@ == spec_fetch_error_message(name@, err.spec_message()),
{
    let mut s = String::from_str("Error fetching meals for ");
    s.append(name.as_str());
    s.append(": ");
    s.append(err.message().as_str());
    s
}

/// The notice for a canteen that published no meals.
pub open spec fn spec_no_meals_message(name: Seq<char>) -> Seq<char> {
    "No meals found for "@ + name
}

/// Builds the notice for a canteen that published no meals.
pub fn no_meals_message(name: &String) -> (s: String)
    ensures
        s@ == spec_no_meals_message(name@),
{
    let mut s = String::from_str("No meals found for ");
    s.append(name.as_str());
    s
}

/// The no-meals notice is never the same text as a fetch-error notice: a
/// closed canteen cannot be mistaken for a failed call, whatever the
/// canteen is called and whatever the error says.
pub proof fn lemma_notices_distinct(name: Seq<char>, other_name: Seq<char>, err: Seq<char>)
    ensures
        spec_no_meals_message(name) != spec_fetch_error_message(other_name, err),
{
    reveal_strlit("No meals found for ");
    reveal_strlit("Error fetching meals for ");
    let a = spec_no_meals_message(name);
    let b = spec_fetch_error_message(other_name, err);
    assert(a[0] == 'N');
    assert(b[0] == 'E');
    if a == b {
        assert(a[0] == b[0]);
    }
}

/// How a report relates to one canteen's fetch outcome: meals render to
/// rows in order, an empty list becomes the no-meals notice, an error
/// becomes the error notice.
pub open spec fn report_matches(result: CanteenMeals, report: CanteenReport) -> bool {
    match result.outcome {
        Ok(meals) => if meals@.len() == 0 {
            report matches CanteenReport::NoMeals { canteen_name } && canteen_name@
                == result.canteen.name@
        } else {
            report matches CanteenReport::Rows { canteen_name, rows } && canteen_name@
                == result.canteen.name@ && rows@.len() == meals@.len() && (forall|j: int|
                0 <= j < meals@.len() ==> row_matches(meals@[j], #[trigger] rows@[j]))
        },
        Err(e) => report matches CanteenReport::Failed { canteen_name, message } && canteen_name@
            == result.canteen.name@ && message@ == spec_fetch_error_message(
            result.canteen.name@,
            e.spec_message(),
        ),
    }
}

/// Maps a meal list to its presentation rows, in order.
pub fn meals_to_rows(meals: &Vec<Meal>) -> (rows: Vec<TabledMeal>)
    ensures
        rows@.len() == meals@.len(),
        forall|j: int| 0 <= j < meals@.len() ==> row_matches(meals@[j], #[trigger] rows@[j]),
{
    let mut rows: Vec<TabledMeal> = Vec::new();
    let mut i: usize = 0;
    while i < meals.len()
        invariant
            i <= meals@.len(),
            rows@.len() == i,
            forall|j: int| 0 <= j < i ==> row_matches(meals@[j], #[trigger] rows@[j]),
        decreases meals@.len() - i,
    {
        rows.push(to_row(&meals[i]));
        i += 1;
    }
    rows
}

/// Builds the per-canteen reports, one per fetch outcome, in the order the
/// canteens were resolved. No canteen is dropped: a failed fetch yields its
/// error report in place while every other canteen keeps its rows.
pub fn aggregate_results(results: &Vec<CanteenMeals>) -> (reports: Vec<CanteenReport>)
    ensures
        reports@.len() == results@.len(),
        forall|i: int| 0 <= i < results@.len() ==> report_matches(
            results@[i],
            #[trigger] reports@[i],
        ),
{
    let mut reports: Vec<CanteenReport> = Vec::new();
    let mut i: usize = 0;
    while i < results.len()
        invariant
            i <= results@.len(),
            reports@.len() == i,
            forall|k: int| 0 <= k < i ==> report_matches(results@[k], #[trigger] reports@[k]),
        decreases results@.len() - i,
    {
        let result = &results[i];
        let report = match &result.outcome {
            Ok(meals) => if meals.len() == 0 {
                CanteenReport::NoMeals { canteen_name: result.canteen.name.clone() }
            } else {
                CanteenReport::Rows {
                    canteen_name: result.canteen.name.clone(),
                    rows: meals_to_rows(meals),
                }
            },
            Err(e) => CanteenReport::Failed {
                canteen_name: result.canteen.name.clone(),
                message: fetch_error_message(&result.canteen.name, e),
            },
        };
        reports.push(report);
        i += 1;
    }
    reports
}

} // verus!
