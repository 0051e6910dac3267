//! Decoding of the provider's response bodies into domain entities.
//!
//! The shape of each response is fixed: an object holding a list of
//! items, each item an object of plain members. Decoding is
//! all-or-nothing: the first malformed item fails the whole body.

use crate::error::{SncfAPIError, SncfAPIErrorV};
use crate::json::{
    json_arr, json_as_array, json_as_str, json_as_u64, json_doc, json_field, json_get,
    json_is_null, json_repr, json_str, json_u64, json_value_is_null, parse_json,
};
use crate::timestamp::{
    date_text, duration_spec, parse_timestamp_spec, parse_provider_timestamp, duration_between,
    format_date, Timestamp,
};
use vstd::prelude::*;
use vstd::string::*;

verus! {

/// A provider-defined location entity; only the `"stop_area"` subtype is
/// selectable.
#[derive(Debug)]
pub struct Place {
    pub id: String,
    pub name: String,
    pub embedded_type: Option<String>,
}

/// Spec-level image of `Place`.
pub struct PlaceV {
    pub id: Seq<char>,
    pub name: Seq<char>,
    pub embedded_type: Option<Seq<char>>,
}

impl View for Place {
    type V = PlaceV;

    open spec fn view(&self) -> PlaceV {
        PlaceV {
            id: self.id@,
            name: self.name@,
            embedded_type: match self.embedded_type {
                Some(ref e) => Some(e@),
                None => None,
            },
        }
    }
}

impl DeepView for Place {
    type V = PlaceV;

    open spec fn deep_view(&self) -> PlaceV {
        self@
    }
}

impl Place {
    /// A field-for-field copy.
    pub fn duplicate(&self) -> (r: Place)
        ensures
            r@ == self@,
    {
        Place {
            id: self.id.clone(),
            name: self.name.clone(),
            embedded_type: match &self.embedded_type {
                Some(e) => Some(e.clone()),
                None => None,
            },
        }
    }
}

/// A raw itinerary item as the provider returns it, before timestamp
/// parsing.
#[derive(Debug)]
pub struct RawJourney {
    pub departure_date_time: String,
    pub arrival_date_time: String,
    pub nb_transfers: Option<u64>,
}

/// Spec-level image of `RawJourney`.
pub struct RawJourneyV {
    pub departure_date_time: Seq<char>,
    pub arrival_date_time: Seq<char>,
    pub nb_transfers: Option<u64>,
}

impl View for RawJourney {
    type V = RawJourneyV;

    open spec fn view(&self) -> RawJourneyV {
        RawJourneyV {
            departure_date_time: self.departure_date_time@,
            arrival_date_time: self.arrival_date_time@,
            nb_transfers: self.nb_transfers,
        }
    }
}

impl DeepView for RawJourney {
    type V = RawJourneyV;

    open spec fn deep_view(&self) -> RawJourneyV {
        self@
    }
}

/// A computed trip between two stops: parsed timestamps, a derived
/// display date, the elapsed span, and the transfer count (0 where the
/// raw payload has none).
#[derive(Debug)]
pub struct Journey {
    pub departure: Timestamp,
    pub arrival: Timestamp,
    pub date_label: String,
    pub duration_seconds: i64,
    pub transfer_count: u64,
}

/// Spec-level image of `Journey`.
pub struct JourneyV {
    pub departure: Timestamp,
    pub arrival: Timestamp,
    pub date_label: Seq<char>,
    pub duration_seconds: i64,
    pub transfer_count: u64,
}

impl View for Journey {
    type V = JourneyV;

    open spec fn view(&self) -> JourneyV {
        JourneyV {
            departure: self.departure,
            arrival: self.arrival,
            date_label: self.date_label@,
            duration_seconds: self.duration_seconds,
            transfer_count: self.transfer_count,
        }
    }
}

impl DeepView for Journey {
    type V = JourneyV;

    open spec fn deep_view(&self) -> JourneyV {
        self@
    }
}

/// The place decoded from one item's content: `id` and `name` are
/// required strings, `embedded_type` an optional string (absent or null
/// decodes as absent).
pub open spec fn place_of_item(d: Seq<char>) -> Option<PlaceV> {
    match json_field(d, "id"@) {
        None => None,
        Some(idv) => match json_str(idv) {
            None => None,
            Some(id) => match json_field(d, "name"@) {
                None => None,
                Some(namev) => match json_str(namev) {
                    None => None,
                    Some(name) => match json_field(d, "embedded_type"@) {
                        None => Some(PlaceV { id, name, embedded_type: None }),
                        Some(ev) => if json_is_null(ev) {
                            Some(PlaceV { id, name, embedded_type: None })
                        } else {
                            match json_str(ev) {
                                None => None,
                                Some(e) => Some(PlaceV { id, name, embedded_type: Some(e) }),
                            }
                        },
                    },
                },
            },
        },
    }
}

/// The places decoded from a list of item contents, in order;
/// all-or-nothing.
pub open spec fn places_of_items(items: Seq<Seq<char>>) -> Option<Seq<PlaceV>>
    decreases items.len(),
{
    if items.len() == 0 {
        Some(Seq::empty())
    } else {
        match places_of_items(items.drop_last()) {
            None => None,
            Some(ps) => match place_of_item(items.last()) {
                None => None,
                Some(p) => Some(ps.push(p)),
            },
        }
    }
}

/// What decoding a places response body gives: the members of the
/// `places` list in provider order, or a decode error.
pub open spec fn places_response_of(body: Seq<char>) -> Result<Seq<PlaceV>, SncfAPIErrorV> {
    match json_doc(body) {
        None => Err(SncfAPIErrorV::Decode),
        Some(doc) => match json_field(doc, "places"@) {
            None => Err(SncfAPIErrorV::Decode),
            Some(p) => match json_arr(p) {
                None => Err(SncfAPIErrorV::Decode),
                Some(items) => match places_of_items(items) {
                    None => Err(SncfAPIErrorV::Decode),
                    Some(ps) => Ok(ps),
                },
            },
        },
    }
}

/// The raw journey decoded from one item's content: both timestamps are
/// required strings, `nb_transfers` an optional number (absent or null
/// decodes as absent).
pub open spec fn journey_of_item(d: Seq<char>) -> Option<RawJourneyV> {
    match json_field(d, "departure_date_time"@) {
        None => None,
        Some(dv) => match json_str(dv) {
            None => None,
            Some(dep) => match json_field(d, "arrival_date_time"@) {
                None => None,
                Some(av) => match json_str(av) {
                    None => None,
                    Some(arr) => match json_field(d, "nb_transfers"@) {
                        None => Some(
                            RawJourneyV {
                                departure_date_time: dep,
                                arrival_date_time: arr,
                                nb_transfers: None,
                            },
                        ),
                        Some(tv) => if json_is_null(tv) {
                            Some(
                                RawJourneyV {
                                    departure_date_time: dep,
                                    arrival_date_time: arr,
                                    nb_transfers: None,
                                },
                            )
                        } else {
                            match json_u64(tv) {
                                None => None,
                                Some(n) => Some(
                                    RawJourneyV {
                                        departure_date_time: dep,
                                        arrival_date_time: arr,
                                        nb_transfers: Some(n),
                                    },
                                ),
                            }
                        },
                    },
                },
            },
        },
    }
}

/// The raw journeys decoded from a list of item contents, in order;
/// all-or-nothing.
pub open spec fn journeys_of_items(items: Seq<Seq<char>>) -> Option<Seq<RawJourneyV>>
    decreases items.len(),
{
    if items.len() == 0 {
        Some(Seq::empty())
    } else {
        match journeys_of_items(items.drop_last()) {
            None => None,
            Some(js) => match journey_of_item(items.last()) {
                None => None,
                Some(j) => Some(js.push(j)),
            },
        }
    }
}

/// What decoding a journeys response body gives: the members of the
/// `journeys` list in provider order — a missing list decodes as empty,
/// not an error — or a decode error.
pub open spec fn journeys_response_of(body: Seq<char>) -> Result<Seq<RawJourneyV>, SncfAPIErrorV> {
    match json_doc(body) {
        None => Err(SncfAPIErrorV::Decode),
        Some(doc) => match json_field(doc, "journeys"@) {
            None => Ok(Seq::empty()),
            Some(j) => match json_arr(j) {
                None => Err(SncfAPIErrorV::Decode),
                Some(items) => match journeys_of_items(items) {
                    None => Err(SncfAPIErrorV::Decode),
                    Some(js) => Ok(js),
                },
            },
        },
    }
}

/// Decodes one places item.
fn decode_place_item(item: &serde_json::Value) -> (r: Option<Place>)
    ensures
        match r {
            Some(p) => place_of_item(json_repr(*item)) == Some(p@),
            None => place_of_item(json_repr(*item)) is None,
        },
{
    let idv = match json_get(item, "id") {
        Some(v) => v,
        None => {
            return None;
        },
    };
    let id = match json_as_str(idv) {
        Some(s) => String::from_str(s),
        None => {
            return None;
        },
    };
    let namev = match json_get(item, "name") {
        Some(v) => v,
        None => {
            return None;
        },
    };
    let name = match json_as_str(namev) {
        Some(s) => String::from_str(s),
        None => {
            return None;
        },
    };
    let embedded_type = match json_get(item, "embedded_type") {
        None => None,
        Some(ev) => if json_value_is_null(ev) {
            None
        } else {
            match json_as_str(ev) {
                Some(s) => Some(String::from_str(s)),
                None => {
                    return None;
                },
            }
        },
    };
    Some(Place { id, name, embedded_type })
}

/// Decodes one journeys item.
fn decode_journey_item(item: &serde_json::Value) -> (r: Option<RawJourney>)
    ensures
        match r {
            Some(j) => journey_of_item(json_repr(*item)) == Some(j@),
            None => journey_of_item(json_repr(*item)) is None,
        },
{
    let dv = match json_get(item, "departure_date_time") {
        Some(v) => v,
        None => {
            return None;
        },
    };
    let departure_date_time = match json_as_str(dv) {
        Some(s) => String::from_str(s),
        None => {
            return None;
        },
    };
    let av = match json_get(item, "arrival_date_time") {
        Some(v) => v,
        None => {
            return None;
        },
    };
    let arrival_date_time = match json_as_str(av) {
        Some(s) => String::from_str(s),
        None => {
            return None;
        },
    };
    let nb_transfers = match json_get(item, "nb_transfers") {
        None => None,
        Some(tv) => if json_value_is_null(tv) {
            None
        } else {
            match json_as_u64(tv) {
                Some(n) => Some(n),
                None => {
                    return None;
                },
            }
        },
    };
    Some(RawJourney { departure_date_time, arrival_date_time, nb_transfers })
}

/// Where one item fails to decode, the whole list fails.
proof fn lemma_places_items_fail(items: Seq<Seq<char>>, k: int)
    requires
        0 <= k < items.len(),
        place_of_item(items[k]) is None,
    ensures
        places_of_items(items) is None,
    decreases items.len(),
{
    if items.len() == k + 1 {
    } else {
        assert(items.drop_last()[k] == items[k]);
        lemma_places_items_fail(items.drop_last(), k);
    }
}

/// Where one item fails to decode, the whole list fails.
proof fn lemma_journeys_items_fail(items: Seq<Seq<char>>, k: int)
    requires
        0 <= k < items.len(),
        journey_of_item(items[k]) is None,
    ensures
        journeys_of_items(items) is None,
    decreases items.len(),
{
    if items.len() == k + 1 {
    } else {
        assert(items.drop_last()[k] == items[k]);
        lemma_journeys_items_fail(items.drop_last(), k);
    }
}

/// Decodes a places response body: the `places` list, order preserved,
/// without filtering.
pub fn decode_places_response(body: &str) -> (r: Result<Vec<Place>, SncfAPIError>)
    ensures
        match r {
            Ok(v) => places_response_of(body@) == Ok::<Seq<PlaceV>, SncfAPIErrorV>(v.deep_view()),
            Err(e) => places_response_of(body@) == Err::<Seq<PlaceV>, SncfAPIErrorV>(e@),
        },
{
    let doc = match parse_json(body) {
        Some(v) => v,
        None => {
            return Err(SncfAPIError::DecodeError);
        },
    };
    let pl = match json_get(&doc, "places") {
        Some(v) => v,
        None => {
            return Err(SncfAPIError::DecodeError);
        },
    };
    let arr = match json_as_array(pl) {
        Some(a) => a,
        None => {
            return Err(SncfAPIError::DecodeError);
        },
    };
    let ghost items: Seq<Seq<char>> = Seq::new(arr@.len(), |ix: int| json_repr(arr@[ix]));
    proof {
        assert(json_arr(json_repr(*pl)) matches Some(w) && w =~= items);
    }
    let mut out: Vec<Place> = Vec::new();
    let mut i: usize = 0;
    while i < arr.len()
        invariant
            i <= arr@.len(),
            json_doc(body@) == Some(json_repr(doc)),
            json_field(json_repr(doc), "places"@) == Some(json_repr(*pl)),
            json_arr(json_repr(*pl)) == Some(items),
            items.len() == arr@.len(),
            forall|ix: int| 0 <= ix < arr@.len() ==> #[trigger] items[ix] == json_repr(arr@[ix]),
            places_of_items(items.take(i as int)) == Some(out.deep_view()),
        decreases arr@.len() - i,
    {
        let item = &arr[i];
        match decode_place_item(item) {
            Some(p) => {
                let ghost prev = out.deep_view();
                out.push(p);
                proof {
                    assert(items.take(i + 1).drop_last() =~= items.take(i as int));
                    assert(items.take(i + 1).last() == items[i as int]);
                    assert(out.deep_view() =~= prev.push(p@));
                }
            },
            None => {
                proof {
                    lemma_places_items_fail(items, i as int);
                }
                return Err(SncfAPIError::DecodeError);
            },
        }
        i += 1;
    }
    proof {
        assert(items.take(arr@.len() as int) =~= items);
    }
    Ok(out)
}

/// Decodes a journeys response body: the `journeys` list, order
/// preserved; a missing list decodes as empty.
pub fn decode_journeys_response(body: &str) -> (r: Result<Vec<RawJourney>, SncfAPIError>)
    ensures
        match r {
            Ok(v) => journeys_response_of(body@) == Ok::<Seq<RawJourneyV>, SncfAPIErrorV>(
                v.deep_view(),
            ),
            Err(e) => journeys_response_of(body@) == Err::<Seq<RawJourneyV>, SncfAPIErrorV>(e@),
        },
{
    let doc = match parse_json(body) {
        Some(v) => v,
        None => {
            return Err(SncfAPIError::DecodeError);
        },
    };
    let jl = match json_get(&doc, "journeys") {
        Some(v) => v,
        None => {
            let empty: Vec<RawJourney> = Vec::new();
            proof {
                assert(empty.deep_view() =~= Seq::<RawJourneyV>::empty());
            }
            return Ok(empty);
        },
    };
    let arr = match json_as_array(jl) {
        Some(a) => a,
        None => {
            return Err(SncfAPIError::DecodeError);
        },
    };
    let ghost items: Seq<Seq<char>> = Seq::new(arr@.len(), |ix: int| json_repr(arr@[ix]));
    proof {
        assert(json_arr(json_repr(*jl)) matches Some(w) && w =~= items);
    }
    let mut out: Vec<RawJourney> = Vec::new();
    let mut i: usize = 0;
    while i < arr.len()
        invariant
            i <= arr@.len(),
            json_doc(body@) == Some(json_repr(doc)),
            json_field(json_repr(doc), "journeys"@) == Some(json_repr(*jl)),
            json_arr(json_repr(*jl)) == Some(items),
            items.len() == arr@.len(),
            forall|ix: int| 0 <= ix < arr@.len() ==> #[trigger] items[ix] == json_repr(arr@[ix]),
            journeys_of_items(items.take(i as int)) == Some(out.deep_view()),
        decreases arr@.len() - i,
    {
        let item = &arr[i];
        match decode_journey_item(item) {
            Some(j) => {
                let ghost prev = out.deep_view();
                out.push(j);
                proof {
                    assert(items.take(i + 1).drop_last() =~= items.take(i as int));
                    assert(items.take(i + 1).last() == items[i as int]);
                    assert(out.deep_view() =~= prev.push(j@));
                }
            },
            None => {
                proof {
                    lemma_journeys_items_fail(items, i as int);
                }
                return Err(SncfAPIError::DecodeError);
            },
        }
        i += 1;
    }
    proof {
        assert(items.take(arr@.len() as int) =~= items);
    }
    Ok(out)
}

/// The journey built from one raw item: both timestamps parsed in the
/// provider's home zone, the display date derived from the departure,
/// the duration the elapsed span between the two instants, and a missing
/// transfer count defaulted to 0.
pub open spec fn journey_of_raw(r: RawJourneyV) -> Result<JourneyV, SncfAPIErrorV> {
    match parse_timestamp_spec(r.departure_date_time) {
        None => Err(SncfAPIErrorV::DateParse(r.departure_date_time)),
        Some(dep) => match parse_timestamp_spec(r.arrival_date_time) {
            None => Err(SncfAPIErrorV::DateParse(r.arrival_date_time)),
            Some(arr) => match duration_spec(dep.epoch, arr.epoch) {
                None => Err(SncfAPIErrorV::Duration),
                Some(dur) => Ok(
                    JourneyV {
                        departure: dep,
                        arrival: arr,
                        date_label: date_text(dep),
                        duration_seconds: dur,
                        transfer_count: match r.nb_transfers {
                            Some(n) => n,
                            None => 0,
                        },
                    },
                ),
            },
        },
    }
}

/// The journeys built from the raw items, in order; the first failure
/// fails the whole list.
pub open spec fn journeys_of_raws(rs: Seq<RawJourneyV>) -> Result<Seq<JourneyV>, SncfAPIErrorV>
    decreases rs.len(),
{
    if rs.len() == 0 {
        Ok(Seq::empty())
    } else {
        match journeys_of_raws(rs.drop_last()) {
            Err(e) => Err(e),
            Ok(js) => match journey_of_raw(rs.last()) {
                Err(e) => Err(e),
                Ok(j) => Ok(js.push(j)),
            },
        }
    }
}

/// Where one raw item fails and everything before it succeeds, the
/// whole list fails with that item's error.
proof fn lemma_raws_fail(rs: Seq<RawJourneyV>, k: int, e: SncfAPIErrorV)
    requires
        0 <= k < rs.len(),
        journeys_of_raws(rs.take(k)) is Ok,
        journey_of_raw(rs[k]) == Err::<JourneyV, SncfAPIErrorV>(e),
    ensures
        journeys_of_raws(rs) == Err::<Seq<JourneyV>, SncfAPIErrorV>(e),
    decreases rs.len(),
{
    if rs.len() == k + 1 {
        assert(rs.drop_last() =~= rs.take(k));
    } else {
        assert(rs.drop_last().take(k) =~= rs.take(k));
        assert(rs.drop_last()[k] == rs[k]);
        lemma_raws_fail(rs.drop_last(), k, e);
    }
}

/// Builds the journeys from the raw items, in order; any single
/// unparsable timestamp or unrepresentable span fails the entire call.
pub fn journeys_from_raws(raws: &Vec<RawJourney>) -> (r: Result<Vec<Journey>, SncfAPIError>)
    ensures
        match r {
            Ok(v) => journeys_of_raws(raws.deep_view()) == Ok::<Seq<JourneyV>, SncfAPIErrorV>(
                v.deep_view(),
            ),
            Err(e) => journeys_of_raws(raws.deep_view()) == Err::<Seq<JourneyV>, SncfAPIErrorV>(
                e@,
            ),
        },
{
    let ghost rsv = raws.deep_view();
    let mut out: Vec<Journey> = Vec::new();
    proof {
        assert(rsv.take(0) =~= Seq::<RawJourneyV>::empty());
        assert(out.deep_view() =~= Seq::<JourneyV>::empty());
    }
    let mut i: usize = 0;
    while i < raws.len()
        invariant
            rsv == raws.deep_view(),
            i <= raws@.len(),
            journeys_of_raws(rsv.take(i as int)) == Ok::<Seq<JourneyV>, SncfAPIErrorV>(
                out.deep_view(),
            ),
        decreases raws@.len() - i,
    {
        let raw = &raws[i];
        match journey_from_raw(raw) {
            Ok(j) => {
                let ghost prev = out.deep_view();
                out.push(j);
                proof {
                    assert(rsv.take(i + 1).drop_last() =~= rsv.take(i as int));
                    assert(rsv.take(i + 1).last() == rsv[i as int]);
                    assert(out.deep_view() =~= prev.push(j@));
                }
            },
            Err(e) => {
                proof {
                    lemma_raws_fail(rsv, i as int, e@);
                }
                return Err(e);
            },
        }
        i += 1;
    }
    proof {
        assert(rsv.take(raws@.len() as int) =~= rsv);
    }
    Ok(out)
}

/// Builds one journey from one raw item.
fn journey_from_raw(raw: &RawJourney) -> (r: Result<Journey, SncfAPIError>)
    ensures
        match r {
            Ok(j) => journey_of_raw(raw@) == Ok::<JourneyV, SncfAPIErrorV>(j@),
            Err(e) => journey_of_raw(raw@) == Err::<JourneyV, SncfAPIErrorV>(e@),
        },
{
    let dep = match parse_provider_timestamp(raw.departure_date_time.as_str()) {
        Ok(t) => t,
        Err(e) => {
            return Err(e);
        },
    };
    let arr = match parse_provider_timestamp(raw.arrival_date_time.as_str()) {
        Ok(t) => t,
        Err(e) => {
            return Err(e);
        },
    };
    let dur = match duration_between(dep.epoch, arr.epoch) {
        Ok(d) => d,
        Err(e) => {
            return Err(e);
        },
    };
    let label = format_date(&dep);
    let transfer_count: u64 = match raw.nb_transfers {
        Some(n) => n,
        None => 0,
    };
    Ok(
        Journey {
            departure: dep,
            arrival: arr,
            date_label: label,
            duration_seconds: dur,
            transfer_count,
        },
    )
}

} // verus!
