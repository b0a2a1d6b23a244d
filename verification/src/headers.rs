//! Request headers as plain values: a small header map with the
//! case-insensitive lookup HTTP prescribes for header names, and the
//! geolocation record drawn from a fixed set of headers.

use vstd::prelude::*;
use vstd::string::StrSliceExecFns;

verus! {

/// Whether two characters are equal up to ASCII case.
pub open spec fn char_eq_nocase(a: char, b: char) -> bool {
    ||| a == b
    ||| (0x41 <= a as u32 <= 0x5A && b as u32 == a as u32 + 0x20)
    ||| (0x41 <= b as u32 <= 0x5A && a as u32 == b as u32 + 0x20)
}

/// Whether two header names are equal up to ASCII case.
pub open spec fn name_eq_nocase(a: Seq<char>, b: Seq<char>) -> bool {
    a.len() == b.len() && forall|k: int| 0 <= k < a.len() ==> char_eq_nocase(a[k], b[k])
}

/// Runtime test for `name_eq_nocase`.
#[verifier::loop_isolation(false)]
pub fn str_eq_nocase(a: &str, b: &str) -> (r: bool)
    ensures
        r == name_eq_nocase(a@, b@),
{
    let na = a.unicode_len();
    let nb = b.unicode_len();
    if na != nb {
        return false;
    }
    let mut i: usize = 0;
    while i < na
        invariant
            0 <= i <= na,
            forall|k: int| 0 <= k < i ==> char_eq_nocase(a@[k], b@[k]),
        decreases na - i,
    {
        let ca = a.get_char(i) as u32;
        let cb = b.get_char(i) as u32;
        let same = ca == cb || (0x41 <= ca && ca <= 0x5A && cb == ca + 0x20) || (0x41 <= cb && cb
            <= 0x5A && ca == cb + 0x20);
        if !same {
            return false;
        }
        i += 1;
    }
    true
}

/// The value of the first header whose name matches `name` up to ASCII
/// case, if any.
pub open spec fn header_lookup(entries: Seq<(Seq<char>, Seq<char>)>, name: Seq<char>) -> Option<
    Seq<char>,
>
    decreases entries.len(),
{
    if entries.len() == 0 {
        Option::None
    } else if name_eq_nocase(entries[0].0, name) {
        Option::Some(entries[0].1)
    } else {
        header_lookup(entries.drop_first(), name)
    }
}

/// An ordered set of request headers, each a name/value pair of plain
/// strings. Lookup by name is case-insensitive; absence is an ordinary
/// outcome, never an error.
pub struct HeaderMap {
    pub entries: Vec<(String, String)>,
}

impl View for HeaderMap {
    type V = Seq<(Seq<char>, Seq<char>)>;

    open spec fn view(&self) -> Seq<(Seq<char>, Seq<char>)> {
        self.entries.deep_view()
    }
}

impl HeaderMap {
    /// A header map with no entries.
    pub fn new() -> (r: HeaderMap)
        ensures
            r@ == Seq::<(Seq<char>, Seq<char>)>::empty(),
    {
        let r = HeaderMap { entries: Vec::new() };
        proof {
            assert(r@ =~= Seq::<(Seq<char>, Seq<char>)>::empty());
        }
        r
    }

    /// Appends one header to the map.
    pub fn add(&mut self, name: &str, value: &str)
        ensures
            final(self)@ == old(self)@.push((name@, value@)),
    {
        self.entries.push((name.to_owned(), value.to_owned()));
        proof {
            assert(self@ =~= old(self)@.push((name@, value@)));
        }
    }

    /// The value of the first header named `name`, compared without regard
    /// to ASCII case, or `None` when no header carries that name.
    #[verifier::loop_isolation(false)]
    pub fn get(&self, name: &str) -> (r: Option<String>)
        ensures
            r.deep_view() == header_lookup(self@, name@),
    {
        let n = self.entries.len();
        let mut i: usize = 0;
        proof {
            assert(self@.skip(0) =~= self@);
        }
        while i < n
            invariant
                0 <= i <= n,
                header_lookup(self@.skip(i as int), name@) == header_lookup(self@, name@),
            decreases n - i,
        {
            if str_eq_nocase(self.entries[i].0.as_str(), name) {
                proof {
                    assert(self@.skip(i as int)[0] == self@[i as int]);
                }
                return Some(self.entries[i].1.clone());
            }
            proof {
                assert(self@.skip(i as int).drop_first() =~= self@.skip(i as int + 1));
            }
            i += 1;
        }
        proof {
            assert(self@.skip(n as int) =~= Seq::<(Seq<char>, Seq<char>)>::empty());
        }
        None
    }
}

/// The geolocation record for one request: ten optional fields, each
/// mirroring the presence and verbatim value of one inbound header.
pub struct LocationRecord {
    pub country: Option<String>,
    pub city: Option<String>,
    pub continent: Option<String>,
    pub longitude: Option<String>,
    pub latitude: Option<String>,
    pub region: Option<String>,
    pub region_code: Option<String>,
    pub metro_code: Option<String>,
    pub postal_code: Option<String>,
    pub timezone: Option<String>,
}

/// The mathematical shadow of a `LocationRecord`.
pub ghost struct LocationView {
    pub country: Option<Seq<char>>,
    pub city: Option<Seq<char>>,
    pub continent: Option<Seq<char>>,
    pub longitude: Option<Seq<char>>,
    pub latitude: Option<Seq<char>>,
    pub region: Option<Seq<char>>,
    pub region_code: Option<Seq<char>>,
    pub metro_code: Option<Seq<char>>,
    pub postal_code: Option<Seq<char>>,
    pub timezone: Option<Seq<char>>,
}

impl View for LocationRecord {
    type V = LocationView;

    open spec fn view(&self) -> LocationView {
        LocationView {
            country: self.country.deep_view(),
            city: self.city.deep_view(),
            continent: self.continent.deep_view(),
            longitude: self.longitude.deep_view(),
            latitude: self.latitude.deep_view(),
            region: self.region.deep_view(),
            region_code: self.region_code.deep_view(),
            metro_code: self.metro_code.deep_view(),
            postal_code: self.postal_code.deep_view(),
            timezone: self.timezone.deep_view(),
        }
    }
}

/// The record a header set yields: each field is the verbatim value of its
/// header, or absent where the header is absent.
pub open spec fn located(h: Seq<(Seq<char>, Seq<char>)>) -> LocationView {
    LocationView {
        country: header_lookup(h, "CF-IPCountry"@),
        city: header_lookup(h, "CF-IPCity"@),
        continent: header_lookup(h, "CF-IPContinent"@),
        longitude: header_lookup(h, "CF-IPLongitude"@),
        latitude: header_lookup(h, "CF-IPLatitude"@),
        region: header_lookup(h, "CF-Region"@),
        region_code: header_lookup(h, "CF-Region-Code"@),
        metro_code: header_lookup(h, "CF-Metro-Code"@),
        postal_code: header_lookup(h, "CF-Postal-Code"@),
        timezone: header_lookup(h, "CF-Timezone"@),
    }
}

/// Reads the ten geolocation headers out of `h`, copying each value
/// verbatim and leaving a field absent where its header is absent.
pub fn extract_location(h: &HeaderMap) -> (r: LocationRecord)
    ensures
        r@ == located(h@),
{
    LocationRecord {
        country: h.get("CF-IPCountry"),
        city: h.get("CF-IPCity"),
        continent: h.get("CF-IPContinent"),
        longitude: h.get("CF-IPLongitude"),
        latitude: h.get("CF-IPLatitude"),
        region: h.get("CF-Region"),
        region_code: h.get("CF-Region-Code"),
        metro_code: h.get("CF-Metro-Code"),
        postal_code: h.get("CF-Postal-Code"),
        timezone: h.get("CF-Timezone"),
    }
}

} // verus!
