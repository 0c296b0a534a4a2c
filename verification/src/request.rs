//! The address at which a forecast is asked for.

use crate::location::{Coordinates, CoordinatesView};
use crate::text::same_text;
use vstd::prelude::*;

verus! {

/// Which forecast is asked for.
#[derive(Clone, Copy, Debug, PartialEq, Eq, Structural)]
pub enum ReportKind {
    /// Temperature and chance of rain, hour by hour.
    Current,
    /// Lowest and highest temperature, day by day.
    WeeklyMinMax,
}

/// The kind of report that the text of an option names: `1` for the current
/// weather, `2` for the week's lows and highs, and none for any other text.
pub open spec fn report_kind_spec(option: Seq<char>) -> Option<ReportKind> {
    if option == "1"@ {
        Some(ReportKind::Current)
    } else if option == "2"@ {
        Some(ReportKind::WeeklyMinMax)
    } else {
        None
    }
}

/// The address of the forecast service, up to the question mark.
pub open spec fn endpoint() -> Seq<char> {
    "https://api.open-meteo.com/v1/forecast"@
}

/// The parameter that names the series asked for.
pub open spec fn series_parameter(kind: ReportKind) -> Seq<char> {
    match kind {
        ReportKind::Current => "hourly=temperature_2m,precipitation_probability"@,
        ReportKind::WeeklyMinMax => "daily=temperature_2m_min,temperature_2m_max"@,
    }
}

/// The four parameters of a request, in the order in which they are
/// written. The texts of the place go in as they are, nothing escaped.
pub open spec fn query_parameters(place: CoordinatesView, kind: ReportKind) -> Seq<Seq<char>> {
    seq![
        "latitude="@ + place.latitude,
        "longitude="@ + place.longitude,
        series_parameter(kind),
        "timezone="@ + place.timezone,
    ]
}

/// The address for a place and a kind of report: the endpoint, a question
/// mark, and the four parameters with an ampersand between them.
pub open spec fn target_text(place: CoordinatesView, kind: ReportKind) -> Seq<char> {
    let p = query_parameters(place, kind);
    endpoint() + "?"@ + p[0] + "&"@ + p[1] + "&"@ + p[2] + "&"@ + p[3]
}

/// The address for a place and the text of an option, and the empty text
/// where the option names no kind of report.
pub open spec fn construct_url_spec(
    latitude: Seq<char>,
    longitude: Seq<char>,
    timezone: Seq<char>,
    option: Seq<char>,
) -> Seq<char> {
    match report_kind_spec(option) {
        Some(kind) => target_text(CoordinatesView { latitude, longitude, timezone }, kind),
        None => Seq::empty(),
    }
}

/// Reads the text of an option as a kind of report.
pub fn report_kind(option: &str) -> (r: Option<ReportKind>)
    ensures
        r == report_kind_spec(option@),
{
    if same_text(option, "1") {
        Some(ReportKind::Current)
    } else if same_text(option, "2") {
        Some(ReportKind::WeeklyMinMax)
    } else {
        None
    }
}

/// One parameter: a name that ends in the equals sign, then the value.
fn parameter(name: &str, value: &str) -> (r: String)
    ensures
        r@ == name@ + value@,
{
    let mut r = String::from_str(name);
    r.append(value);
    r
}

/// The address written out from its parts.
fn write_target(latitude: &str, longitude: &str, timezone: &str, kind: ReportKind) -> (r: String)
    ensures
        r@ == target_text(
            CoordinatesView { latitude: latitude@, longitude: longitude@, timezone: timezone@ },
            kind,
        ),
{
    let series = match kind {
        ReportKind::Current => "hourly=temperature_2m,precipitation_probability",
        ReportKind::WeeklyMinMax => "daily=temperature_2m_min,temperature_2m_max",
    };
    let mut r = String::from_str("https://api.open-meteo.com/v1/forecast");
    r.append("?");
    r.append(parameter("latitude=", latitude).as_str());
    r.append("&");
    r.append(parameter("longitude=", longitude).as_str());
    r.append("&");
    r.append(series);
    r.append("&");
    r.append(parameter("timezone=", timezone).as_str());
    r
}

/// The address at which the forecast of `kind` for `place` is asked for.
pub fn build_target(place: &Coordinates, kind: ReportKind) -> (r: String)
    ensures
        r@ == target_text(place@, kind),
{
    write_target(place.latitude.as_str(), place.longitude.as_str(), place.timezone.as_str(), kind)
}

/// The address for a place and the text of an option. Where the option
/// names no kind of report the address is empty, and only then.
pub fn construct_url(latitude: &str, longitude: &str, timezone: &str, option: &str) -> (r: String)
    ensures
        r@ == construct_url_spec(latitude@, longitude@, timezone@, option@),
        r@.len() == 0 <==> report_kind_spec(option@) is None,
{
    match report_kind(option) {
        Some(kind) => {
            proof {
                lemma_target_is_not_empty(
                    CoordinatesView {
                        latitude: latitude@,
                        longitude: longitude@,
                        timezone: timezone@,
                    },
                    kind,
                );
            }
            write_target(latitude, longitude, timezone, kind)
        },
        None => String::new(),
    }
}

/// An address is never the empty text, so the empty text can stand for
/// "no address".
pub proof fn lemma_target_is_not_empty(place: CoordinatesView, kind: ReportKind)
    ensures
        target_text(place, kind).len() > 0,
{
    reveal_strlit("?");
    assert(target_text(place, kind).len() >= "?"@.len());
}

/// An address depends on the place and the kind of report alone: two texts
/// that both meet the contract of `build_target` for one place and one kind
/// are the same text.
pub proof fn lemma_build_target_is_repeatable(
    place: CoordinatesView,
    kind: ReportKind,
    first: String,
    second: String,
)
    requires
        first@ == target_text(place, kind),
        second@ == target_text(place, kind),
    ensures
        first@ == second@,
{
}

} // verus!
