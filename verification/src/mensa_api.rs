//! The Dresden canteen listing: from the provider's full canteen list,
//! keep the ones in Dresden and shorten each name to its second
//! comma-separated segment (or the empty string where the name has no
//! comma).

use crate::models::canteen::Canteen;
use crate::text::{spec_find_char, find_char, str_eq};
use vstd::prelude::*;
use vstd::string::StrSliceExecFns;

verus! {

/// The second comma-separated segment of a name: what stands between the
/// first comma and the second (or the end), with any surrounding spaces
/// kept; empty where the name has no comma.
pub open spec fn spec_second_comma_segment(s: Seq<char>) -> Seq<char> {
    let a = spec_find_char(s, ',', 0);
    if a == s.len() {
        Seq::empty()
    } else {
        s.subrange(a + 1, spec_find_char(s, ',', a + 1))
    }
}

/// Extracts the second comma-separated segment of a name.
pub fn second_comma_segment(name: &str) -> (seg: String)
    ensures
        seg@ == spec_second_comma_segment(name@),
{
    let len = name.unicode_len();
    let a = find_char(name, ',', 0);
    if a == len {
        String::new()
    } else {
        let b = find_char(name, ',', a + 1);
        name.substring_char(a + 1, b).to_owned()
    }
}

/// Whether a canteen is in Dresden.
pub open spec fn spec_is_dresden(c: Canteen) -> bool {
    c.city@ == "Dresden"@
}

/// How a listed entry relates to the canteen it came from: same identity
/// and location, name shortened to its second comma-separated segment.
pub open spec fn dresden_entry_matches(orig: Canteen, out: Canteen) -> bool {
    &&& out.id == orig.id
    &&& out.name@ == spec_second_comma_segment(orig.name@)
    &&& out.city@ == orig.city@
    &&& out.address@ == orig.address@
}

/// Keeps the Dresden canteens, in order, each with its shortened name.
pub fn get_dresden_canteens(canteens: &Vec<Canteen>) -> (r: Vec<Canteen>)
    ensures
        r@.len() == canteens@.filter(|c: Canteen| spec_is_dresden(c)).len(),
        forall|j: int| 0 <= j < r@.len() ==> dresden_entry_matches(
            canteens@.filter(|c: Canteen| spec_is_dresden(c))[j],
            #[trigger] r@[j],
        ),
{
    let ghost pred = |c: Canteen| spec_is_dresden(c);
    let mut r: Vec<Canteen> = Vec::new();
    let mut i: usize = 0;
    while i < canteens.len()
        invariant
            i <= canteens@.len(),
            r@.len() == canteens@.take(i as int).filter(|c: Canteen| spec_is_dresden(c)).len(),
            forall|j: int| 0 <= j < r@.len() ==> dresden_entry_matches(
                canteens@.take(i as int).filter(|c: Canteen| spec_is_dresden(c))[j],
                #[trigger] r@[j],
            ),
        decreases canteens@.len() - i,
    {
        proof {
            reveal(Seq::filter);
            assert(canteens@.take(i as int + 1) =~= canteens@.take(i as int).push(
                canteens@[i as int],
            ));
            assert(canteens@.take(i as int + 1).drop_last() =~= canteens@.take(i as int));
        }
        let c = &canteens[i];
        if str_eq(c.city.as_str(), "Dresden") {
            let entry = Canteen {
                id: c.id,
                name: second_comma_segment(c.name.as_str()),
                city: c.city.clone(),
                address: c.address.clone(),
            };
            r.push(entry);
        }
        i += 1;
    }
    proof {
        assert(canteens@.take(canteens@.len() as int) =~= canteens@);
    }
    r
}

} // verus!
