//! Weather snapshots, temperature scales, and the conversion of a snapshot into
//! values ready to show.

use vstd::prelude::*;
use vstd::string::*;
use crate::clock::{convert_to_12h_format, to_12h_text};

verus! {

/// One fetch of current conditions. Temperatures, speeds and precipitation are in
/// hundredths of their unit (1234 is 12.34); humidity is a whole percentage.
#[derive(Debug, Clone)]
pub struct WeatherSnapshot {
    pub location_name: String,
    pub region: String,
    pub country: String,
    pub temp_c: i64,
    pub temp_f: i64,
    pub feelslike_c: i64,
    pub feelslike_f: i64,
    /// `YYYY-MM-DD HH:MM`, the local time at the place.
    pub localtime: String,
    pub wind_kph: i64,
    pub wind_mph: i64,
    pub humidity: i64,
    pub precip_mm: i64,
}

/// The temperature scale that a report is shown in.
#[derive(Debug, Clone, Copy, PartialEq, Eq, Structural)]
pub enum DisplayUnits {
    Celsius,
    Fahrenheit,
    Kelvin,
}

/// A snapshot made ready to show: temperatures in the chosen scale, in hundredths.
#[derive(Debug, Clone)]
pub struct FormatedData {
    pub location_name: String,
    pub units: DisplayUnits,
    pub temperature: i64,
    pub feelslike: i64,
    pub twenty_four_hour: String,
    pub twelve_hour: String,
    pub wind_kph: i64,
    pub wind_mph: i64,
    pub humidity: i64,
    pub precip_mm: i64,
}

/// What a `FormatedData` holds, as mathematical values.
pub struct FormatedView {
    pub location_name: Seq<char>,
    pub units: DisplayUnits,
    pub temperature: int,
    pub feelslike: int,
    pub twenty_four_hour: Seq<char>,
    pub twelve_hour: Seq<char>,
    pub wind_kph: int,
    pub wind_mph: int,
    pub humidity: int,
    pub precip_mm: int,
}

impl View for FormatedData {
    type V = FormatedView;

    open spec fn view(&self) -> FormatedView {
        FormatedView {
            location_name: self.location_name@,
            units: self.units,
            temperature: self.temperature as int,
            feelslike: self.feelslike as int,
            twenty_four_hour: self.twenty_four_hour@,
            twelve_hour: self.twelve_hour@,
            wind_kph: self.wind_kph as int,
            wind_mph: self.wind_mph as int,
            humidity: self.humidity as int,
            precip_mm: self.precip_mm as int,
        }
    }
}

/// `a / b` rounded to the nearest integer, halves away from zero.
pub open spec fn round_div(a: int, b: int) -> int
    recommends
        b > 0,
{
    if a >= 0 {
        (2 * a + b) / (2 * b)
    } else {
        -((-2 * a + b) / (2 * b))
    }
}

/// 273.15 K, in hundredths.
pub const ZERO_CELSIUS_IN_KELVIN: i64 = 27315;

/// Kelvin to Celsius, in hundredths: `c = k - 273.15`.
pub fn kelvin_to_celsius(k: i64) -> (c: i64)
    requires
        k >= i64::MIN + ZERO_CELSIUS_IN_KELVIN,
    ensures
        c == k - ZERO_CELSIUS_IN_KELVIN,
{
    k - ZERO_CELSIUS_IN_KELVIN
}

/// Celsius to Kelvin, in hundredths: `k = c + 273.15`.
pub fn celsius_to_kelvin(c: i64) -> (k: i64)
    requires
        c <= i64::MAX - ZERO_CELSIUS_IN_KELVIN,
    ensures
        k == c + ZERO_CELSIUS_IN_KELVIN,
{
    c + ZERO_CELSIUS_IN_KELVIN
}

/// `f = c * 1.8 + 32`, in hundredths, rounded to the nearest hundredth.
pub open spec fn fahrenheit_of(c: int) -> int {
    round_div(c * 9, 5) + 3200
}

/// Celsius to Fahrenheit, in hundredths: `f = c * 1.8 + 32`, rounded to the nearest
/// hundredth.
pub fn celsius_to_fahrenheit(c: i64) -> (f: i64)
    requires
        i64::MIN <= fahrenheit_of(c as int) <= i64::MAX,
    ensures
        f == fahrenheit_of(c as int),
{
    let a: i128 = (c as i128) * 9;
    let q: i128 = if a >= 0 {
        (2 * a + 5) / 10
    } else {
        -((-2 * a + 5) / 10)
    };
    (q + 3200) as i64
}

/// `p` is the position of the first space in `t`.
pub open spec fn first_space_at(t: Seq<char>, p: int) -> bool {
    &&& 0 <= p < t.len()
    &&& t[p] == ' '
    &&& forall|k: int| 0 <= k < p ==> t[k] != ' '
}

/// The time of day in `YYYY-MM-DD HH:MM`: what follows the first space, or all of it
/// when there is no space.
pub open spec fn time_part(t: Seq<char>) -> Seq<char> {
    if exists|p: int| first_space_at(t, p) {
        let p = choose|p: int| first_space_at(t, p);
        t.subrange(p + 1, t.len() as int)
    } else {
        t
    }
}

/// The time of day in a local timestamp `YYYY-MM-DD HH:MM`.
pub fn time_of_day(t: &str) -> (r: &str)
    ensures
        r@ == time_part(t@),
{
    let n = t.unicode_len();
    let mut p: usize = 0;
    while p < n && t.get_char(p) != ' '
        invariant
            p <= n == t@.len(),
            forall|k: int| 0 <= k < p ==> t@[k] != ' ',
        decreases n - p,
    {
        p = p + 1;
    }
    if p == n {
        assert(!exists|q: int| first_space_at(t@, q));
        t
    } else {
        assert(first_space_at(t@, p as int));
        assert forall|q: int| first_space_at(t@, q) implies q == p by {
            if q < p {
                assert(t@[q] != ' ');
            } else if q > p {
                assert(t@[p as int] != ' ');
            }
        }
        t.substring_char(p + 1, n)
    }
}

/// `city, region, country`; an empty part still keeps its separators.
pub open spec fn place_text(s: WeatherSnapshot) -> Seq<char> {
    s.location_name@ + ", "@ + s.region@ + ", "@ + s.country@
}

/// A temperature given natively in Celsius and Fahrenheit, in the chosen scale.
pub open spec fn in_units(c: int, f: int, units: DisplayUnits) -> int {
    match units {
        DisplayUnits::Celsius => c,
        DisplayUnits::Fahrenheit => f,
        DisplayUnits::Kelvin => c + ZERO_CELSIUS_IN_KELVIN,
    }
}

/// Whether the temperatures of `s` can be shown in `units` without leaving `i64`.
pub open spec fn fits_units(s: WeatherSnapshot, units: DisplayUnits) -> bool {
    units == DisplayUnits::Kelvin ==> {
        &&& s.temp_c <= i64::MAX - ZERO_CELSIUS_IN_KELVIN
        &&& s.feelslike_c <= i64::MAX - ZERO_CELSIUS_IN_KELVIN
    }
}

fn temperature_in(c: i64, f: i64, units: DisplayUnits) -> (r: i64)
    requires
        units == DisplayUnits::Kelvin ==> c <= i64::MAX - ZERO_CELSIUS_IN_KELVIN,
    ensures
        r == in_units(c as int, f as int, units),
{
    match units {
        DisplayUnits::Celsius => c,
        DisplayUnits::Fahrenheit => f,
        DisplayUnits::Kelvin => celsius_to_kelvin(c),
    }
}

/// A snapshot made ready to show in `units`.
pub open spec fn formatted_view(s: WeatherSnapshot, units: DisplayUnits) -> FormatedView {
    FormatedView {
        location_name: place_text(s),
        units,
        temperature: in_units(s.temp_c as int, s.temp_f as int, units),
        feelslike: in_units(s.feelslike_c as int, s.feelslike_f as int, units),
        twenty_four_hour: time_part(s.localtime@),
        twelve_hour: to_12h_text(time_part(s.localtime@)),
        wind_kph: s.wind_kph as int,
        wind_mph: s.wind_mph as int,
        humidity: s.humidity as int,
        precip_mm: s.precip_mm as int,
    }
}

/// Makes a snapshot ready to show in `units`: the place as `city, region, country`,
/// the temperatures in that scale (Celsius and Fahrenheit as the service gave them,
/// Kelvin from Celsius), the local time both as given and on a 12-hour clock, and the
/// other readings as they came.
pub fn get_formated_data(snapshot: WeatherSnapshot, units: DisplayUnits) -> (r: FormatedData)
    requires
        fits_units(snapshot, units),
    ensures
        r@ == formatted_view(snapshot, units),
{
    let mut location_name = snapshot.location_name.clone();
    location_name.append(", ");
    location_name.append(snapshot.region.as_str());
    location_name.append(", ");
    location_name.append(snapshot.country.as_str());
    let time = time_of_day(snapshot.localtime.as_str());
    let twenty_four_hour = String::from_str(time);
    let twelve_hour = convert_to_12h_format(String::from_str(time));
    FormatedData {
        location_name,
        units,
        temperature: temperature_in(snapshot.temp_c, snapshot.temp_f, units),
        feelslike: temperature_in(snapshot.feelslike_c, snapshot.feelslike_f, units),
        twenty_four_hour,
        twelve_hour,
        wind_kph: snapshot.wind_kph,
        wind_mph: snapshot.wind_mph,
        humidity: snapshot.humidity,
        precip_mm: snapshot.precip_mm,
    }
}

} // verus!
