//! Location search results: how they are shown, how one is chosen, and the
//! addresses of the weather service.

use vstd::prelude::*;
use vstd::string::*;
use crate::error::RunError;

verus! {

/// One result of a location search. `url` is the service's reference for the place,
/// which later requests name it by.
#[derive(Debug, Clone)]
pub struct LocationCandidate {
    pub id: u64,
    pub name: String,
    pub region: String,
    pub country: String,
    pub url: String,
}

/// `name, region, country`.
pub open spec fn label_text(c: LocationCandidate) -> Seq<char> {
    c.name@ + ", "@ + c.region@ + ", "@ + c.country@
}

/// The line that shows a candidate in a choice: `name, region, country`.
pub fn candidate_label(c: &LocationCandidate) -> (r: String)
    ensures
        r@ == label_text(*c),
{
    let mut out = c.name.clone();
    out.append(", ");
    out.append(c.region.as_str());
    out.append(", ");
    out.append(c.country.as_str());
    out
}

/// The label of each candidate, in order.
pub fn candidate_labels(candidates: &Vec<LocationCandidate>) -> (r: Vec<String>)
    ensures
        r@.len() == candidates@.len(),
        forall|i: int| 0 <= i < r@.len() ==> #[trigger] r@[i]@ == label_text(candidates@[i]),
{
    let mut out: Vec<String> = Vec::new();
    let mut i: usize = 0;
    while i < candidates.len()
        invariant
            i <= candidates@.len(),
            out@.len() == i,
            forall|k: int| 0 <= k < i ==> #[trigger] out@[k]@ == label_text(candidates@[k]),
        decreases candidates@.len() - i,
    {
        out.push(candidate_label(&candidates[i]));
        i = i + 1;
    }
    out
}

/// What choosing `index` among `n` candidates comes to: the position, or why there is
/// none.
pub open spec fn selection_of(n: int, index: int) -> Result<int, RunError> {
    if n == 0 {
        Err(RunError::EmptySearchResult)
    } else if 0 <= index < n {
        Ok(index)
    } else {
        Err(RunError::InvalidSelectionIndex)
    }
}

/// Takes the candidate at zero-based `index`. No candidates at all is
/// `EmptySearchResult`; an index outside `0..len` is `InvalidSelectionIndex`.
pub fn select_candidate(candidates: Vec<LocationCandidate>, index: i64) -> (r: Result<
    LocationCandidate,
    RunError,
>)
    ensures
        match selection_of(candidates@.len() as int, index as int) {
            Ok(i) => r == Ok::<LocationCandidate, RunError>(candidates@[i]),
            Err(e) => r == Err::<LocationCandidate, RunError>(e),
        },
{
    let mut candidates = candidates;
    let n = candidates.len();
    if n == 0 {
        return Err(RunError::EmptySearchResult);
    }
    if index < 0 || index as u64 >= n as u64 {
        return Err(RunError::InvalidSelectionIndex);
    }
    Ok(candidates.remove(index as usize))
}

/// With at least one candidate, neither the index one past the last nor -1 selects
/// anything: both are `InvalidSelectionIndex`.
pub proof fn lemma_selection_outside_is_invalid(n: int)
    requires
        n > 0,
    ensures
        selection_of(n, n) == Err::<int, RunError>(RunError::InvalidSelectionIndex),
        selection_of(n, -1) == Err::<int, RunError>(RunError::InvalidSelectionIndex),
        forall|i: int| 0 <= i < n ==> selection_of(n, i) == Ok::<int, RunError>(i),
{
}

/// The address of a location search for `query`.
pub open spec fn search_url_text(api_key: Seq<char>, query: Seq<char>) -> Seq<char> {
    "https://api.weatherapi.com/v1/search.json?key="@ + api_key + "&q="@ + query
}

/// The address of the current conditions at the place that `location` refers to.
pub open spec fn current_url_text(api_key: Seq<char>, location: Seq<char>) -> Seq<char> {
    "https://api.weatherapi.com/v1/current.json?key="@ + api_key + "&q="@ + location + "&aqi=no"@
}

pub fn search_url(api_key: &str, query: &str) -> (r: String)
    ensures
        r@ == search_url_text(api_key@, query@),
{
    let mut out = String::from_str("https://api.weatherapi.com/v1/search.json?key=");
    out.append(api_key);
    out.append("&q=");
    out.append(query);
    out
}

pub fn current_url(api_key: &str, location: &str) -> (r: String)
    ensures
        r@ == current_url_text(api_key@, location@),
{
    let mut out = String::from_str("https://api.weatherapi.com/v1/current.json?key=");
    out.append(api_key);
    out.append("&q=");
    out.append(location);
    out.append("&aqi=no");
    out
}

} // verus!
