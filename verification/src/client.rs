//! The provider client port and the domain client built on it.
//!
//! The port is the capability "fetch a JSON resource by URL with Basic
//! credentials". The fixture-backed double lives here and is verified;
//! the live network client of the surrounding program stands outside
//! the verified core, which is why every promise of the domain client
//! is stated relative to what the port returned.

use crate::decode::{
    decode_places_response, decode_journeys_response, journeys_from_raws, journeys_of_raws,
    journeys_response_of, places_response_of, Journey, JourneyV, Place, PlaceV,
};
use crate::error::{SncfAPIError, SncfAPIErrorV};
use crate::fake;
use crate::fake::{API_BASE_JSON, JOURNEYS_INVALID_DATE_JSON, JOURNEYS_JSON, PLACES_JSON};
use crate::strutil::str_eq;
use crate::url::{journeys_url, journeys_url_spec, places_url, places_url_spec};
use vstd::prelude::*;
use vstd::string::*;

verus! {

/// The capability to fetch a JSON resource by URL with Basic
/// credentials: the API key as username, no password.
///
/// `response_spec` names what an implementation returns for each URL;
/// `get` must return exactly that. Transport failures, non-2xx statuses
/// (with the body kept verbatim) and connection errors are an
/// implementation's `Err` values.
pub trait HTTPClient {
    /// What `get` returns for a URL: the response body, or an error.
    spec fn response_spec(&self, url: Seq<char>) -> Result<Seq<char>, SncfAPIErrorV>;

    /// Fetches the resource at `url`.
    fn get(&self, url: &str, username: &str, password: Option<&str>) -> (r: Result<
        String,
        SncfAPIError,
    >)
        ensures
            match r {
                Ok(body) => self.response_spec(url@) == Ok::<Seq<char>, SncfAPIErrorV>(body@),
                Err(e) => self.response_spec(url@) == Err::<Seq<char>, SncfAPIErrorV>(e@),
            },
    ;
}

/// The exact URL whose fixture is the base discovery body.
pub const FAKE_API_BASE_URL: &'static str = "https://api.sncf.com/v1";

/// The exact URL whose fixture is the autocomplete body.
pub const FAKE_PLACES_URL: &'static str = "https://api.sncf.com/v1/coverage/sncf/places?q=Grenoble";

/// The exact URL whose fixture is the itinerary body.
pub const FAKE_JOURNEYS_URL: &'static str =
    "https://api.sncf.com/v1/coverage/sncf/journeys?from=stop_area%3ASNCF%3A87747006&to=stop_area%3ASNCF%3A87747337&first_section_mode[]=walking&last_section_mode[]=walking&min_nb_transfers=0&direct_path=none&min_nb_journeys=25&is_journey_schedules=True";

/// The exact URL whose fixture is the itinerary body with an unparsable
/// departure timestamp.
pub const FAKE_JOURNEYS_INVALID_DATE_URL: &'static str =
    "https://api.sncf.com/v1/coverage/sncf/journeys?from=stop_area%3ASNCF%3A87747006&to=stop_area%3ASNCF%3A87747338&first_section_mode[]=walking&last_section_mode[]=walking&min_nb_transfers=0&direct_path=none&min_nb_journeys=25&is_journey_schedules=True";

/// The body the fixture-backed double serves for a URL; an empty object
/// for any URL without a fixture.
pub open spec fn fake_response(url: Seq<char>) -> Seq<char> {
    if url == FAKE_API_BASE_URL@ {
        API_BASE_JSON@
    } else if url == FAKE_PLACES_URL@ {
        PLACES_JSON@
    } else if url == FAKE_JOURNEYS_URL@ {
        JOURNEYS_JSON@
    } else if url == FAKE_JOURNEYS_INVALID_DATE_URL@ {
        JOURNEYS_INVALID_DATE_JSON@
    } else {
        "{}"@
    }
}

/// The deterministic fixture-backed double, keyed by exact request URL.
#[derive(Debug)]
pub struct FakeClient;

impl FakeClient {
    pub fn new() -> (r: Self)
        ensures
            r == (FakeClient {}),
    {
        FakeClient {}
    }
}

impl Default for FakeClient {
    fn default() -> (r: Self)
        ensures
            r == (FakeClient {}),
    {
        FakeClient::new()
    }
}

impl HTTPClient for FakeClient {
    open spec fn response_spec(&self, url: Seq<char>) -> Result<Seq<char>, SncfAPIErrorV> {
        Ok(fake_response(url))
    }

    fn get(&self, url: &str, _username: &str, _password: Option<&str>) -> (r: Result<
        String,
        SncfAPIError,
    >) {
        if str_eq(url, FAKE_API_BASE_URL) {
            Ok(fake::api_base())
        } else if str_eq(url, FAKE_PLACES_URL) {
            Ok(fake::places())
        } else if str_eq(url, FAKE_JOURNEYS_URL) {
            Ok(fake::journeys())
        } else if str_eq(url, FAKE_JOURNEYS_INVALID_DATE_URL) {
            Ok(fake::journeys_invalid_date())
        } else {
            Ok(String::from_str("{}"))
        }
    }
}

/// A selectable place: its category is exactly `"stop_area"`.
pub open spec fn is_stop_area(p: PlaceV) -> bool {
    p.embedded_type == Some("stop_area"@)
}

/// The `"stop_area"` entries of a list, in their original order.
pub open spec fn stop_areas_of(ps: Seq<PlaceV>) -> Seq<PlaceV>
    decreases ps.len(),
{
    if ps.len() == 0 {
        Seq::empty()
    } else {
        stop_areas_of(ps.drop_last()) + (if is_stop_area(ps.last()) {
            seq![ps.last()]
        } else {
            Seq::empty()
        })
    }
}

/// What `fetchPlaces` gives for a port response: the error as it came,
/// or the decoded list filtered to stop areas in provider order.
pub open spec fn places_result_of(resp: Result<Seq<char>, SncfAPIErrorV>) -> Result<
    Seq<PlaceV>,
    SncfAPIErrorV,
> {
    match resp {
        Err(e) => Err(e),
        Ok(body) => match places_response_of(body) {
            Err(e) => Err(e),
            Ok(ps) => Ok(stop_areas_of(ps)),
        },
    }
}

/// What `fetchJourneys` gives for a port response: the error as it
/// came, or the decoded raw list built into journeys, all-or-nothing.
pub open spec fn journeys_result_of(resp: Result<Seq<char>, SncfAPIErrorV>) -> Result<
    Seq<JourneyV>,
    SncfAPIErrorV,
> {
    match resp {
        Err(e) => Err(e),
        Ok(body) => match journeys_response_of(body) {
            Err(e) => Err(e),
            Ok(raws) => journeys_of_raws(raws),
        },
    }
}

/// Percent-encodes `query` into the fixed search endpoint, issues the
/// GET, decodes the body and filters to category `"stop_area"`,
/// preserving provider order.
pub fn fetch_places<C: HTTPClient>(
    client: &C,
    username: &str,
    password: Option<&str>,
    query: &str,
) -> (r: Result<Vec<Place>, SncfAPIError>)
    ensures
        match r {
            Ok(v) => places_result_of(client.response_spec(places_url_spec(query@)))
                == Ok::<Seq<PlaceV>, SncfAPIErrorV>(v.deep_view()),
            Err(e) => places_result_of(client.response_spec(places_url_spec(query@)))
                == Err::<Seq<PlaceV>, SncfAPIErrorV>(e@),
        },
{
    let url = places_url(query);
    let body = match client.get(url.as_str(), username, password) {
        Ok(b) => b,
        Err(e) => {
            return Err(e);
        },
    };
    let all = match decode_places_response(body.as_str()) {
        Ok(v) => v,
        Err(e) => {
            return Err(e);
        },
    };
    Ok(filter_stop_areas(&all))
}

/// Keeps the entries whose category is exactly `"stop_area"`, in their
/// original order; all others are discarded.
pub fn filter_stop_areas(all: &Vec<Place>) -> (r: Vec<Place>)
    ensures
        r.deep_view() == stop_areas_of(all.deep_view()),
{
    let ghost av = all.deep_view();
    let mut out: Vec<Place> = Vec::new();
    proof {
        assert(av.take(0) =~= Seq::<PlaceV>::empty());
        assert(out.deep_view() =~= Seq::<PlaceV>::empty());
    }
    let mut i: usize = 0;
    while i < all.len()
        invariant
            i <= all@.len(),
            av == all.deep_view(),
            out.deep_view() == stop_areas_of(av.take(i as int)),
        decreases all@.len() - i,
    {
        let p = &all[i];
        let keep = match &p.embedded_type {
            Some(e) => str_eq(e.as_str(), "stop_area"),
            None => false,
        };
        proof {
            assert(keep == is_stop_area(av[i as int]));
            assert(av.take(i + 1).drop_last() =~= av.take(i as int));
            assert(av.take(i + 1).last() == av[i as int]);
        }
        if keep {
            let ghost prev = out.deep_view();
            out.push(p.duplicate());
            proof {
                assert(out.deep_view() =~= prev.push(av[i as int]));
                assert(stop_areas_of(av.take(i + 1)) =~= stop_areas_of(av.take(i as int)).push(
                    av[i as int],
                ));
            }
        } else {
            proof {
                assert(stop_areas_of(av.take(i + 1)) =~= stop_areas_of(av.take(i as int)));
            }
        }
        i += 1;
    }
    proof {
        assert(av.take(all@.len() as int) =~= av);
    }
    out
}

/// Builds the fixed-shape itinerary query for two stop ids, issues the
/// GET, decodes the raw list (a missing list decodes as empty) and
/// builds the journeys; any single unparsable timestamp fails the whole
/// call.
pub fn fetch_journeys<C: HTTPClient>(
    client: &C,
    username: &str,
    password: Option<&str>,
    from_id: &str,
    to_id: &str,
) -> (r: Result<Vec<Journey>, SncfAPIError>)
    ensures
        match r {
            Ok(v) => journeys_result_of(client.response_spec(journeys_url_spec(from_id@, to_id@)))
                == Ok::<Seq<JourneyV>, SncfAPIErrorV>(v.deep_view()),
            Err(e) => journeys_result_of(client.response_spec(journeys_url_spec(from_id@, to_id@)))
                == Err::<Seq<JourneyV>, SncfAPIErrorV>(e@),
        },
{
    let url = journeys_url(from_id, to_id);
    let body = match client.get(url.as_str(), username, password) {
        Ok(b) => b,
        Err(e) => {
            return Err(e);
        },
    };
    let raws = match decode_journeys_response(body.as_str()) {
        Ok(v) => v,
        Err(e) => {
            return Err(e);
        },
    };
    journeys_from_raws(&raws)
}

/// The user agent string of the surrounding program's live client.
pub fn user_agent(name: &str, version: &str) -> (r: String)
    ensures
        r@ == name@ + "/"@ + version@
            + " (rust; tokio; +https://github.com/uggla/async_rust_tui)"@,
{
    let mut out = String::from_str(name);
    out.append("/");
    out.append(version);
    out.append(" (rust; tokio; +https://github.com/uggla/async_rust_tui)");
    out
}

} // verus!
