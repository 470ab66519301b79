//! The report: each reading written out on a labelled line.

use vstd::prelude::*;
use vstd::string::*;
use crate::weather::{round_div, DisplayUnits, FormatedData, FormatedView};

verus! {

/// The decimal digits of `n`, most significant first.
pub open spec fn decimal_text(n: nat) -> Seq<char>
    decreases n,
{
    if n < 10 {
        seq![(48 + n) as char]
    } else {
        decimal_text(n / 10) + seq![(48 + n % 10) as char]
    }
}

/// Relies on the `Display` of `u64` (through `to_string`): the decimal digits of `n`,
/// most significant first, with no sign and no padding.
#[verifier::external_body]
fn decimal(n: u64) -> (r: String)
    ensures
        r@ == decimal_text(n as nat),
{
    n.to_string()
}

pub open spec fn abs(v: int) -> int {
    if v < 0 {
        -v
    } else {
        v
    }
}

/// A whole number in decimal, with a leading `-` when negative.
pub open spec fn whole_text(v: int) -> Seq<char> {
    if v < 0 {
        "-"@ + decimal_text(abs(v) as nat)
    } else {
        decimal_text(v as nat)
    }
}

/// A value in hundredths, rounded to tenths (halves away from zero) and written with
/// one decimal place: 1234 is `12.3`, -5 is `-0.1`.
pub open spec fn one_decimal_text(hundredths: int) -> Seq<char> {
    let t = round_div(hundredths, 10);
    let sign = if t < 0 {
        "-"@
    } else {
        ""@
    };
    sign + decimal_text((abs(t) / 10) as nat) + "."@ + decimal_text((abs(t) % 10) as nat)
}

pub fn whole(v: i64) -> (r: String)
    ensures
        r@ == whole_text(v as int),
{
    if v < 0 {
        let a: u64 = (-(v as i128)) as u64;
        let mut out = String::from_str("-");
        out.append(decimal(a).as_str());
        out
    } else {
        decimal(v as u64)
    }
}

/// Writes a value given in hundredths with one decimal place.
pub fn one_decimal(hundredths: i64) -> (r: String)
    ensures
        r@ == one_decimal_text(hundredths as int),
{
    let v: i128 = hundredths as i128;
    let t: i128 = if v >= 0 {
        (2 * v + 10) / 20
    } else {
        -((-2 * v + 10) / 20)
    };
    let a: u64 = if t < 0 {
        (-t) as u64
    } else {
        t as u64
    };
    proof {
        reveal_strlit("");
        reveal_strlit("-");
    }
    let mut out = if t < 0 {
        String::from_str("-")
    } else {
        String::from_str("")
    };
    out.append(decimal(a / 10).as_str());
    out.append(".");
    out.append(decimal(a % 10).as_str());
    out
}

pub open spec fn unit_suffix(units: DisplayUnits) -> Seq<char> {
    match units {
        DisplayUnits::Celsius => "°C"@,
        DisplayUnits::Fahrenheit => "°F"@,
        DisplayUnits::Kelvin => "K"@,
    }
}

fn unit_label(units: DisplayUnits) -> (r: &'static str)
    ensures
        r@ == unit_suffix(units),
{
    match units {
        DisplayUnits::Celsius => "°C",
        DisplayUnits::Fahrenheit => "°F",
        DisplayUnits::Kelvin => "K",
    }
}

/// The lines of a report, each a fixed label and its value.
pub open spec fn report_lines(d: FormatedView) -> Seq<Seq<char>> {
    seq![
        "  Location:          "@ + d.location_name,
        "  Temperature:       "@ + one_decimal_text(d.temperature) + " "@ + unit_suffix(d.units),
        "  Feels like:        "@ + one_decimal_text(d.feelslike) + " "@ + unit_suffix(d.units),
        "  Local time:        "@ + d.twenty_four_hour,
        "  12-hour time:      "@ + d.twelve_hour,
        "  Wind (kph):        "@ + one_decimal_text(d.wind_kph) + " kph"@,
        "  Wind (mph):        "@ + one_decimal_text(d.wind_mph) + " mph"@,
        "  Humidity:          "@ + whole_text(d.humidity) + " %"@,
        "  Precipitation:     "@ + one_decimal_text(d.precip_mm) + " mm"@,
    ]
}

fn line(label: &str, value: &str, suffix: &str) -> (r: String)
    ensures
        r@ == label@ + value@ + suffix@,
{
    let mut out = String::from_str(label);
    out.append(value);
    out.append(suffix);
    out
}

/// Renders a report as its nine labelled lines: place, temperature and felt
/// temperature in the chosen scale, local time on both clocks, wind in kph and in mph,
/// humidity and precipitation. Readings in hundredths show with one decimal place.
pub fn display_formated_data(data: &FormatedData) -> (r: Vec<String>)
    ensures
        r@.len() == report_lines(data@).len(),
        forall|i: int| 0 <= i < r@.len() ==> #[trigger] r@[i]@ == report_lines(data@)[i],
{
    let unit = unit_label(data.units);
    let mut spaced = String::from_str(" ");
    spaced.append(unit);
    let mut out: Vec<String> = Vec::new();
    out.push(line("  Location:          ", data.location_name.as_str(), ""));
    out.push(line("  Temperature:       ", one_decimal(data.temperature).as_str(), spaced.as_str()));
    out.push(line("  Feels like:        ", one_decimal(data.feelslike).as_str(), spaced.as_str()));
    out.push(line("  Local time:        ", data.twenty_four_hour.as_str(), ""));
    out.push(line("  12-hour time:      ", data.twelve_hour.as_str(), ""));
    out.push(line("  Wind (kph):        ", one_decimal(data.wind_kph).as_str(), " kph"));
    out.push(line("  Wind (mph):        ", one_decimal(data.wind_mph).as_str(), " mph"));
    out.push(line("  Humidity:          ", whole(data.humidity).as_str(), " %"));
    out.push(line("  Precipitation:     ", one_decimal(data.precip_mm).as_str(), " mm"));
    proof {
        reveal_strlit("");
    }
    assert(out@[0]@ =~= report_lines(data@)[0]);
    assert(out@[3]@ =~= report_lines(data@)[3]);
    assert(out@[4]@ =~= report_lines(data@)[4]);
    out
}

} // verus!
