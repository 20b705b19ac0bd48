//! Where the weather is asked for, and the query parameters that say so.
use crate::decimal::{decimal_digits, fixed_text, format_fixed, push_decimal};
use vstd::prelude::*;
use vstd::string::*;

verus! {

/// A decimal number `mantissa / 10^scale`, as a coordinate or a zoom level
/// is written.
#[derive(Clone, Copy, Debug, PartialEq, Eq)]
pub struct Decimal {
    mantissa: i64,
    scale: u32,
}

/// The largest scale of a `Decimal`.
pub const DECIMAL_MAX_SCALE: u32 = 18;

impl Decimal {
    #[verifier::type_invariant]
    spec fn inv(&self) -> bool {
        self.scale <= DECIMAL_MAX_SCALE
    }

    pub closed spec fn spec_mantissa(&self) -> int {
        self.mantissa as int
    }

    pub closed spec fn spec_scale(&self) -> nat {
        self.scale as nat
    }

    /// The text of the number, with exactly `scale` fractional digits.
    pub open spec fn spec_text(&self) -> Seq<char> {
        fixed_text(self.spec_mantissa(), self.spec_scale())
    }

    /// `mantissa / 10^scale`; `None` where `scale` exceeds 18.
    pub fn new(mantissa: i64, scale: u32) -> (r: Option<Decimal>)
        ensures
            r is Some <==> scale <= DECIMAL_MAX_SCALE,
            r matches Some(d) ==> d.spec_mantissa() == mantissa && d.spec_scale() == scale,
    {
        if scale <= DECIMAL_MAX_SCALE {
            Some(Decimal { mantissa, scale })
        } else {
            None
        }
    }

    pub fn format(&self) -> (r: String)
        ensures
            r@ == self.spec_text(),
    {
        proof {
            use_type_invariant(self);
        }
        format_fixed(self.mantissa, self.scale)
    }
}

/// A place, or a set of places, to ask the weather of.
#[derive(Clone, Debug, PartialEq, Eq)]
pub enum LocationSpecifier {
    CityAndCountryName { city: String, country: String },
    CityId(String),
    Coordinates { lat: Decimal, lon: Decimal },
    ZipCode { zip: String, country: String },
    BoundingBox {
        lon_left: Decimal,
        lat_bottom: Decimal,
        lon_right: Decimal,
        lat_top: Decimal,
        zoom: Decimal,
    },
    Circle { lat: Decimal, lon: Decimal, count: u16 },
    CityIds(Vec<String>),
}

/// `name` where `country` is empty, else `name,country`.
pub open spec fn with_country(name: Seq<char>, country: Seq<char>) -> Seq<char> {
    if country.len() == 0 {
        name
    } else {
        name + ","@ + country
    }
}

/// The texts of `ids` one after another.
pub open spec fn joined(ids: Seq<String>) -> Seq<char>
    decreases ids.len(),
{
    if ids.len() == 0 {
        Seq::empty()
    } else {
        joined(ids.drop_last()) + ids.last()@
    }
}

/// The query parameters that select `l`.
pub open spec fn location_params(l: LocationSpecifier) -> Seq<(Seq<char>, Seq<char>)> {
    match l {
        LocationSpecifier::CityAndCountryName { city, country } => seq![
            ("q"@, with_country(city@, country@)),
        ],
        LocationSpecifier::CityId(id) => seq![("id"@, id@)],
        LocationSpecifier::Coordinates { lat, lon } => seq![
            ("lat"@, lat.spec_text()),
            ("lon"@, lon.spec_text()),
        ],
        LocationSpecifier::ZipCode { zip, country } => seq![("zip"@, with_country(zip@, country@))],
        LocationSpecifier::BoundingBox { lon_left, lat_bottom, lon_right, lat_top, zoom } => seq![
            (
                "bbox"@,
                lon_left.spec_text() + ","@ + lat_bottom.spec_text() + ","@ + lon_right.spec_text()
                    + ","@ + lat_top.spec_text() + ","@ + zoom.spec_text(),
            ),
        ],
        LocationSpecifier::Circle { lat, lon, count } => seq![
            ("lat"@, lat.spec_text()),
            ("lon"@, lon.spec_text()),
            ("cnt"@, decimal_digits(count as nat)),
        ],
        LocationSpecifier::CityIds(ids) => seq![("id"@, joined(ids@))],
    }
}

pub open spec fn params_view(ps: Seq<(String, String)>) -> Seq<(Seq<char>, Seq<char>)> {
    ps.map_values(|p: (String, String)| (p.0@, p.1@))
}

fn text(s: &str) -> (r: String)
    ensures
        r@ == s@,
{
    s.to_owned()
}

fn text_with_country(name: &String, country: &String) -> (r: String)
    ensures
        r@ == with_country(name@, country@),
{
    let mut r = name.clone();
    if !country.as_str().is_empty() {
        r.append(",");
        r.append(country.as_str());
    }
    r
}

impl LocationSpecifier {
    /// The query parameters that select this location.
    pub fn format(&self) -> (r: Vec<(String, String)>)
        ensures
            params_view(r@) == location_params(*self),
    {
        let mut r: Vec<(String, String)> = Vec::new();
        match self {
            LocationSpecifier::CityAndCountryName { city, country } => {
                r.push((text("q"), text_with_country(city, country)));
            },
            LocationSpecifier::CityId(id) => {
                r.push((text("id"), id.clone()));
            },
            LocationSpecifier::Coordinates { lat, lon } => {
                r.push((text("lat"), lat.format()));
                r.push((text("lon"), lon.format()));
            },
            LocationSpecifier::ZipCode { zip, country } => {
                r.push((text("zip"), text_with_country(zip, country)));
            },
            LocationSpecifier::BoundingBox { lon_left, lat_bottom, lon_right, lat_top, zoom } => {
                let mut b = lon_left.format();
                b.append(",");
                b.append(lat_bottom.format().as_str());
                b.append(",");
                b.append(lon_right.format().as_str());
                b.append(",");
                b.append(lat_top.format().as_str());
                b.append(",");
                b.append(zoom.format().as_str());
                r.push((text("bbox"), b));
            },
            LocationSpecifier::Circle { lat, lon, count } => {
                r.push((text("lat"), lat.format()));
                r.push((text("lon"), lon.format()));
                let mut c = String::new();
                push_decimal(&mut c, *count as u64);
                r.push((text("cnt"), c));
            },
            LocationSpecifier::CityIds(ids) => {
                let mut all = String::new();
                let mut i: usize = 0;
                while i < ids.len()
                    invariant
                        i <= ids.len(),
                        all@ == joined(ids@.take(i as int)),
                    decreases ids.len() - i,
                {
                    all.append(ids[i].as_str());
                    proof {
                        assert(ids@.take(i as int + 1).drop_last() =~= ids@.take(i as int));
                    }
                    i = i + 1;
                }
                assert(ids@.take(ids.len() as int) =~= ids@);
                r.push((text("id"), all));
            },
        }
        assert(params_view(r@) =~= location_params(*self));
        r
    }
}

} // verus!
