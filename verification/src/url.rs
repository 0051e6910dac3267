//! Query building against the provider's fixed endpoints, with
//! percent-encoding of free text and stop ids.

use vstd::prelude::*;
use vstd::string::*;
use vstd::utf8::encode_utf8;

verus! {

/// An RFC 3986 unreserved byte: a letter, a digit, `-`, `.`, `_` or `~`.
pub open spec fn is_unreserved(b: u8) -> bool {
    (65 <= b && b <= 90) || (97 <= b && b <= 122) || (48 <= b && b <= 57) || b == 45 || b == 46
        || b == 95 || b == 126
}

/// The ASCII code of the upper-case hexadecimal digit of `d`.
pub open spec fn hex_byte(d: int) -> u8 {
    if d < 10 {
        (48 + d) as u8
    } else {
        (55 + d) as u8
    }
}

/// The percent-encoding of one byte: itself where unreserved, else
/// `%` and two upper-case hexadecimal digits.
pub open spec fn pct_byte(b: u8) -> Seq<u8> {
    if is_unreserved(b) {
        seq![b]
    } else {
        seq![37u8, hex_byte(b as int / 16), hex_byte(b as int % 16)]
    }
}

/// The percent-encoding of a byte sequence.
pub open spec fn pct_encode_bytes(bs: Seq<u8>) -> Seq<u8>
    decreases bs.len(),
{
    if bs.len() == 0 {
        Seq::empty()
    } else {
        pct_encode_bytes(bs.drop_last()) + pct_byte(bs.last())
    }
}

/// Bytes below 128 read as the characters of the same values.
pub open spec fn ascii_chars(bs: Seq<u8>) -> Seq<char> {
    bs.map_values(|b: u8| b as char)
}

/// The percent-encoding of a text, over its UTF-8 bytes.
pub open spec fn pct_text(s: Seq<char>) -> Seq<char> {
    ascii_chars(pct_encode_bytes(encode_utf8(s)))
}

/// Relies on `String::from_utf8`: bytes below 128 are valid UTF-8 and
/// decode to the characters of the same values.
#[verifier::external_body]
fn ascii_string(v: &Vec<u8>) -> (r: String)
    requires
        forall|i: int| 0 <= i < v@.len() ==> v@[i] < 128,
    ensures
        r@ == ascii_chars(v@),
{
    String::from_utf8(v.clone()).unwrap_or_default()
}

/// Exec twin of `hex_byte`.
fn hex_byte_x(d: u8) -> (r: u8)
    requires
        d <= 15,
    ensures
        r == hex_byte(d as int),
{
    if d < 10 {
        48 + d
    } else {
        55 + d
    }
}

/// Percent-encodes the UTF-8 bytes of `s`, leaving unreserved bytes as
/// they stand.
pub fn percent_encode(s: &str) -> (r: String)
    ensures
        r@ == pct_text(s@),
{
    let bytes = s.as_bytes_vec();
    let mut out: Vec<u8> = Vec::new();
    let mut i: usize = 0;
    while i < bytes.len()
        invariant
            bytes@ == s.spec_bytes(),
            i <= bytes@.len(),
            out@ == pct_encode_bytes(bytes@.take(i as int)),
            forall|j: int| 0 <= j < out@.len() ==> out@[j] < 128,
        decreases bytes@.len() - i,
    {
        let b = bytes[i];
        if (65 <= b && b <= 90) || (97 <= b && b <= 122) || (48 <= b && b <= 57) || b == 45 || b
            == 46 || b == 95 || b == 126 {
            out.push(b);
        } else {
            out.push(37);
            out.push(hex_byte_x(b / 16));
            out.push(hex_byte_x(b % 16));
        }
        proof {
            assert(bytes@.take(i + 1).drop_last() =~= bytes@.take(i as int));
            assert(bytes@.take(i + 1).last() == b);
        }
        i += 1;
    }
    proof {
        assert(bytes@.take(bytes@.len() as int) =~= bytes@);
    }
    ascii_string(&out)
}

/// The base discovery endpoint.
pub open spec fn api_base_url_spec() -> Seq<char> {
    "https://api.sncf.com/v1"@
}

/// The autocomplete endpoint for a free-text query.
pub open spec fn places_url_spec(q: Seq<char>) -> Seq<char> {
    "https://api.sncf.com/v1/coverage/sncf/places?q="@ + pct_text(q)
}

/// The itinerary endpoint between two stop ids: walking first and last
/// leg, zero minimum transfers, no direct-path mode, minimum 25
/// itineraries, schedule-aware.
pub open spec fn journeys_url_spec(from: Seq<char>, to: Seq<char>) -> Seq<char> {
    "https://api.sncf.com/v1/coverage/sncf/journeys?from="@ + pct_text(from) + "&to="@ + pct_text(
        to,
    )
        + "&first_section_mode[]=walking&last_section_mode[]=walking&min_nb_transfers=0&direct_path=none&min_nb_journeys=25&is_journey_schedules=True"@
}

/// The base discovery URL.
pub fn api_base_url() -> (r: String)
    ensures
        r@ == api_base_url_spec(),
{
    String::from_str("https://api.sncf.com/v1")
}

/// Builds the autocomplete URL for a free-text query.
pub fn places_url(query: &str) -> (r: String)
    ensures
        r@ == places_url_spec(query@),
{
    let out = String::from_str("https://api.sncf.com/v1/coverage/sncf/places?q=");
    let enc = percent_encode(query);
    out.concat(enc.as_str())
}

/// Builds the itinerary URL between two stop ids.
pub fn journeys_url(from_id: &str, to_id: &str) -> (r: String)
    ensures
        r@ == journeys_url_spec(from_id@, to_id@),
{
    let mut out = String::from_str("https://api.sncf.com/v1/coverage/sncf/journeys?from=");
    let enc_from = percent_encode(from_id);
    out.append(enc_from.as_str());
    out.append("&to=");
    let enc_to = percent_encode(to_id);
    out.append(enc_to.as_str());
    out.append(
        "&first_section_mode[]=walking&last_section_mode[]=walking&min_nb_transfers=0&direct_path=none&min_nb_journeys=25&is_journey_schedules=True",
    );
    out
}

} // verus!
