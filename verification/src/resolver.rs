//! Canteen resolution: which canteens an invocation asks about. An id
//! override wins over a location override, which wins over the configured
//! default list; naming both overrides is a validation error. The provider
//! fetch itself happens at the caller's edge; the library plans the single
//! query and interprets its outcome.

use crate::config::Configs;
use crate::errors::{FetchError, ValidationError};
use crate::models::canteen::Canteen;
use vstd::prelude::*;
use vstd::string::StringExecFns;

verus! {

/// The one provider query an invocation leads to.
#[derive(Debug)]
pub enum CanteenQuery {
    /// Fetch the single canteen with this id.
    ById(u32),
    /// Fetch the canteens matching this free-text location; the provider
    /// owns the matching semantics.
    ByLocation(String),
    /// Fetch the canteens with these ids in one batched call.
    ByIds(Vec<u32>),
}

fn copy_ids(v: &Vec<u32>) -> (r: Vec<u32>)
    ensures
        r@ == v@,
{
    let mut r: Vec<u32> = Vec::new();
    let mut i: usize = 0;
    while i < v.len()
        invariant
            i <= v@.len(),
            r@ =~= v@.take(i as int),
        decreases v@.len() - i,
    {
        r.push(v[i]);
        i += 1;
    }
    proof {
        assert(v@.take(v@.len() as int) =~= v@);
    }
    r
}

/// Plans the provider query for one invocation. First match wins: an id
/// override queries that single id, else a location override forwards the
/// free text, else the configured canteen ids are queried in one batch.
/// Both overrides together are rejected, and nothing is queried.
pub fn plan_canteen_query(id: Option<u32>, location: &Option<String>, config: &Configs) -> (r:
    Result<CanteenQuery, ValidationError>)
    ensures
        r is Err <==> id is Some && location is Some,
        id matches Some(i) ==> location is None ==> r == Ok::<CanteenQuery, ValidationError>(
            CanteenQuery::ById(i),
        ),
        id is None ==> (match *location {
            Some(l) => r == Ok::<CanteenQuery, ValidationError>(CanteenQuery::ByLocation(l)),
            None => r matches Ok(q) && q matches CanteenQuery::ByIds(v) && v@
                == config.locations.canteens@,
        }),
{
    if id.is_some() && location.is_some() {
        return Err(ValidationError);
    }
    match id {
        Some(i) => Ok(CanteenQuery::ById(i)),
        None => match location {
            Some(l) => Ok(CanteenQuery::ByLocation(l.clone())),
            None => Ok(CanteenQuery::ByIds(copy_ids(&config.locations.canteens))),
        },
    }
}

/// What the provider answered: one optional canteen for an id query, a
/// list for a location or batch query.
#[derive(Debug)]
pub enum QueryReply {
    OneCanteen(Result<Option<Canteen>, FetchError>),
    ManyCanteens(Result<Vec<Canteen>, FetchError>),
}

/// The canteens an invocation resolved to. An id that matched nothing is a
/// reported condition, not a failure; a transport or decode failure
/// surfaces as no canteens resolved, and meal fetching is skipped.
#[derive(Debug)]
pub enum CanteenResolution {
    Resolved(Vec<Canteen>),
    NotFound,
    Failed(FetchError),
}

/// Interprets the provider's answer to the planned query.
pub fn resolve_canteens(reply: QueryReply) -> (r: CanteenResolution)
    ensures
        reply matches QueryReply::OneCanteen(Ok(Some(c))) ==> r matches
            CanteenResolution::Resolved(v) && v@ == seq![c],
        reply matches QueryReply::OneCanteen(Ok(o)) ==> o is None ==> r is NotFound,
        reply matches QueryReply::OneCanteen(Err(e)) ==> r == CanteenResolution::Failed(e),
        reply matches QueryReply::ManyCanteens(Ok(v)) ==> r == CanteenResolution::Resolved(v),
        reply matches QueryReply::ManyCanteens(Err(e)) ==> r == CanteenResolution::Failed(e),
{
    match reply {
        QueryReply::OneCanteen(Ok(Some(c))) => {
            let mut v: Vec<Canteen> = Vec::new();
            v.push(c);
            CanteenResolution::Resolved(v)
        },
        QueryReply::OneCanteen(Ok(None)) => CanteenResolution::NotFound,
        QueryReply::OneCanteen(Err(e)) => CanteenResolution::Failed(e),
        QueryReply::ManyCanteens(Ok(v)) => CanteenResolution::Resolved(v),
        QueryReply::ManyCanteens(Err(e)) => CanteenResolution::Failed(e),
    }
}

/// The user-facing line a resolution outcome calls for: nothing for a
/// resolved list, a not-found line for an id that matched nothing, and the
/// query-specific error line for a failed fetch.
pub open spec fn spec_resolution_notice(query: CanteenQuery, r: CanteenResolution) -> Option<
    Seq<char>,
> {
    match r {
        CanteenResolution::Resolved(_) => None,
        CanteenResolution::NotFound => Some("Canteen not found by ID"@),
        CanteenResolution::Failed(e) => Some(spec_query_error_prefix(query) + e.spec_message()),
    }
}

/// The error-line prefix for each query form.
pub open spec fn spec_query_error_prefix(query: CanteenQuery) -> Seq<char> {
    match query {
        CanteenQuery::ById(_) => "Error fetching canteens by ID: "@,
        CanteenQuery::ByLocation(_) => "Error fetching canteens by location: "@,
        CanteenQuery::ByIds(_) => "Error fetching canteens by IDs: "@,
    }
}

/// Builds the user-facing line for a resolution outcome.
pub fn resolution_notice(query: &CanteenQuery, r: &CanteenResolution) -> (notice: Option<String>)
    ensures
        notice is None <==> spec_resolution_notice(*query, *r) is None,
        notice matches Some(s) ==> spec_resolution_notice(*query, *r) == Some(s@),
{
    match r {
        CanteenResolution::Resolved(_) => None,
        CanteenResolution::NotFound => Some(String::from_str("Canteen not found by ID")),
        CanteenResolution::Failed(e) => {
            let mut s = match query {
                CanteenQuery::ById(_) => String::from_str("Error fetching canteens by ID: "),
                CanteenQuery::ByLocation(_) => String::from_str(
                    "Error fetching canteens by location: ",
                ),
                CanteenQuery::ByIds(_) => String::from_str("Error fetching canteens by IDs: "),
            };
            s.append(e.message().as_str());
            Some(s)
        },
    }
}

} // verus!
