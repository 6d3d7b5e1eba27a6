//! The weather and geocoding services: which to ask, how to ask, and what
//! the location search answers.
use vstd::prelude::*;

use crate::text::{push_all, string_push};

verus! {

/// The weather services the application can ask.
#[derive(Clone, Copy, Debug, PartialEq, Eq, Structural)]
pub enum WeatherApi {
    OpenMeteo,
}

/// The answer of the location search: a collection of places.
pub struct GeoLocation {
    pub collection_type: String,
    pub features: Vec<Feature>,
}

/// One place found by the location search.
pub struct Feature {
    pub feature_type: String,
    pub properties: Properties,
    pub geometry: Geometry,
}

/// What the location search says of a place. `extent` holds the bit
/// patterns of the 64-bit floats that bound the place.
pub struct Properties {
    pub osm_type: String,
    pub osm_id: u64,
    pub osm_key: String,
    pub osm_value: String,
    pub name: String,
    pub country: String,
    pub countrycode: String,
    pub place_type: Option<String>,
    pub city: Option<String>,
    pub district: Option<String>,
    pub street: Option<String>,
    pub housenumber: Option<String>,
    pub postcode: Option<String>,
    pub locality: Option<String>,
    pub county: Option<String>,
    pub state: Option<String>,
    pub extra: Option<Extra>,
    pub extent: Option<Vec<u64>>,
}

/// Further details of a place.
pub struct Extra {
    pub admin_level: Option<String>,
}

/// Where a place lies. `coordinates` are longitude and latitude, each held as
/// the bit pattern of its 64-bit float.
pub struct Geometry {
    pub geometry_type: String,
    pub coordinates: (u64, u64),
}

/// The line that shows a place in the result list: its name, a comma and a
/// space, and its state (nothing when the place has none).
pub open spec fn entry_text(feature: Feature) -> Seq<char> {
    feature.properties.name@ + seq![',', ' '] + match feature.properties.state {
        Some(s) => s@,
        None => Seq::<char>::empty(),
    }
}

/// The line that shows `feature` in the result list.
pub fn list_entry(feature: &Feature) -> (entry: String)
    ensures
        entry@ == entry_text(*feature),
{
    let mut entry = feature.properties.name.clone();
    string_push(&mut entry, ',');
    string_push(&mut entry, ' ');
    match &feature.properties.state {
        Some(s) => push_all(&mut entry, s.as_str()),
        None => {},
    }
    assert(entry@ =~= entry_text(*feature));
    entry
}

/// The lines that show the places of `geo` in the result list, in order.
pub fn list_entries(geo: &GeoLocation) -> (entries: Vec<String>)
    ensures
        entries@.len() == geo.features@.len(),
        forall|i: int| 0 <= i < entries@.len() ==> #[trigger] entries@[i]@ == entry_text(
            geo.features@[i],
        ),
{
    let mut entries: Vec<String> = Vec::new();
    let n = geo.features.len();
    let mut i: usize = 0;
    while i < n
        invariant
            n == geo.features@.len(),
            i <= n,
            entries@.len() == i,
            forall|j: int| 0 <= j < i ==> #[trigger] entries@[j]@ == entry_text(geo.features@[j]),
        decreases n - i,
    {
        entries.push(list_entry(&geo.features[i]));
        i = i + 1;
    }
    entries
}

/// The address of the location search for `query`: five places at most,
/// cities and localities only, named in English.
pub open spec fn location_url_text(query: Seq<char>) -> Seq<char> {
    "https://photon.komoot.io/api/?q="@ + query + "&limit=5&layer=city&layer=locality&lang=en"@
}

/// The address of every query starts the same way, carries the query
/// verbatim right after `q=`, and so tells different queries apart.
pub proof fn law_url_carries_query(q1: Seq<char>, q2: Seq<char>)
    ensures
        location_url_text(q1).take(32) == location_url_text(q2).take(32),
        location_url_text(q1).take(32).skip(29) == seq!['?', 'q', '='],
        location_url_text(q1).skip(32).take(q1.len() as int) == q1,
        location_url_text(q1).len() - q1.len() == location_url_text(q2).len() - q2.len(),
        q1 != q2 ==> location_url_text(q1) != location_url_text(q2),
{
    reveal_strlit("https://photon.komoot.io/api/?q=");
    let prefix = "https://photon.komoot.io/api/?q="@;
    let suffix = "&limit=5&layer=city&layer=locality&lang=en"@;
    assert(location_url_text(q1).take(32) =~= prefix);
    assert(location_url_text(q2).take(32) =~= prefix);
    assert(prefix.skip(29) =~= seq!['?', 'q', '=']);
    assert(location_url_text(q1).skip(32).take(q1.len() as int) =~= q1);
    if q1 != q2 && location_url_text(q1) == location_url_text(q2) {
        assert(location_url_text(q2).skip(32).take(q2.len() as int) =~= q2);
        assert(q1.len() == q2.len());
        assert(q1 =~= q2);
    }
}

/// The address of the location search for `query`.
pub fn location_url(query: &str) -> (url: String)
    ensures
        url@ == location_url_text(query@),
{
    let mut url = "https://photon.komoot.io/api/?q=".to_owned();
    push_all(&mut url, query);
    push_all(&mut url, "&limit=5&layer=city&layer=locality&lang=en");
    url
}

} // verus!
