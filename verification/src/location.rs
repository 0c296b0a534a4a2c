//! From the menu line, or from three lines of custom entry, to the place
//! whose weather is asked for.

use crate::error::InputError;
use crate::text::{
    decimal_string, decimal_text, lemma_parse_decimal_text, lemma_trimmed_decimal_text, parse_unsigned,
    parse_usize, parse_usize_spec, same_text, trim, trimmed,
};
use vstd::prelude::*;

verus! {

/// A city of the menu. Latitude and longitude are held in the decimal text
/// in which they are written into a request.
#[derive(Clone, Debug, PartialEq, Eq)]
pub struct City {
    pub name: String,
    pub latitude: String,
    pub longitude: String,
    pub timezone: String,
}

/// A place: latitude and longitude in decimal text, and the name of a time
/// zone. Nothing is asked of the time zone's text, which may be empty.
#[derive(Clone, Debug, PartialEq, Eq)]
pub struct Coordinates {
    pub latitude: String,
    pub longitude: String,
    pub timezone: String,
}

/// A city as a value of four texts.
pub struct CityView {
    pub name: Seq<char>,
    pub latitude: Seq<char>,
    pub longitude: Seq<char>,
    pub timezone: Seq<char>,
}

/// A place as a value of three texts.
pub struct CoordinatesView {
    pub latitude: Seq<char>,
    pub longitude: Seq<char>,
    pub timezone: Seq<char>,
}

impl View for City {
    type V = CityView;

    open spec fn view(&self) -> CityView {
        CityView {
            name: self.name@,
            latitude: self.latitude@,
            longitude: self.longitude@,
            timezone: self.timezone@,
        }
    }
}

impl View for Coordinates {
    type V = CoordinatesView;

    open spec fn view(&self) -> CoordinatesView {
        CoordinatesView {
            latitude: self.latitude@,
            longitude: self.longitude@,
            timezone: self.timezone@,
        }
    }
}

impl CityView {
    /// Where the city lies.
    pub open spec fn coordinates(self) -> CoordinatesView {
        CoordinatesView {
            latitude: self.latitude,
            longitude: self.longitude,
            timezone: self.timezone,
        }
    }
}

/// The cities of a list, each as a value.
pub open spec fn city_views(cities: Seq<City>) -> Seq<CityView> {
    Seq::new(cities.len(), |i: int| cities[i]@)
}

/// What a choice comes to, with the place as a value.
pub open spec fn outcome_view(r: Result<Coordinates, InputError>) -> Result<
    CoordinatesView,
    InputError,
> {
    match r {
        Ok(c) => Ok(c@),
        Err(e) => Err(e),
    }
}

/// The place that the menu line `input` picks from `cities`. The line is
/// trimmed and read as a number; the cities are counted from one.
pub open spec fn resolve_spec(input: Seq<char>, cities: Seq<CityView>) -> Result<
    CoordinatesView,
    InputError,
> {
    match parse_usize_spec(trimmed(input)) {
        None => Err(InputError::InvalidChoice),
        Some(n) => if 1 <= n <= cities.len() {
            Ok(cities[n - 1].coordinates())
        } else {
            Err(InputError::OutOfRange)
        },
    }
}

impl City {
    /// Where the city lies.
    pub fn coordinates(&self) -> (r: Coordinates)
        ensures
            r@ == self@.coordinates(),
    {
        Coordinates {
            latitude: self.latitude.clone(),
            longitude: self.longitude.clone(),
            timezone: self.timezone.clone(),
        }
    }
}

/// Picks a city by the number on the menu line.
///
/// The line is trimmed first. A line that is no unsigned number is an
/// `InvalidChoice`; a number that is zero or beyond the list is `OutOfRange`.
pub fn resolve(input: &str, cities: &Vec<City>) -> (r: Result<Coordinates, InputError>)
    ensures
        outcome_view(r) == resolve_spec(input@, city_views(cities@)),
{
    match parse_usize(trim(input)) {
        None => Err(InputError::InvalidChoice),
        Some(choice) => {
            if choice < 1 || choice > cities.len() {
                Err(InputError::OutOfRange)
            } else {
                Ok(cities[choice - 1].coordinates())
            }
        },
    }
}

/// The cities of the built-in menu, in the order in which they are offered.
pub open spec fn city_table() -> Seq<CityView> {
    seq![
        CityView {
            name: "Adelaide, Australia"@,
            latitude: "-34.9285"@,
            longitude: "138.6007"@,
            timezone: "Australia/Adelaide"@,
        },
        CityView {
            name: "Melbourne, Australia"@,
            latitude: "-37.8136"@,
            longitude: "144.9631"@,
            timezone: "Australia/Melbourne"@,
        },
        CityView {
            name: "London, UK"@,
            latitude: "51.5072"@,
            longitude: "-0.1276"@,
            timezone: "Europe/London"@,
        },
        CityView {
            name: "Beijing, China"@,
            latitude: "39.9042"@,
            longitude: "116.4074"@,
            timezone: "Asia/Shanghai"@,
        },
    ]
}

/// One city of the menu, from its four texts.
fn city(name: &str, latitude: &str, longitude: &str, timezone: &str) -> (r: City)
    ensures
        r@ == (CityView {
            name: name@,
            latitude: latitude@,
            longitude: longitude@,
            timezone: timezone@,
        }),
{
    City {
        name: String::from_str(name),
        latitude: String::from_str(latitude),
        longitude: String::from_str(longitude),
        timezone: String::from_str(timezone),
    }
}

/// The cities of the built-in menu.
pub fn cities() -> (r: Vec<City>)
    ensures
        city_views(r@) == city_table(),
{
    let mut r: Vec<City> = Vec::new();
    r.push(city("Adelaide, Australia", "-34.9285", "138.6007", "Australia/Adelaide"));
    r.push(city("Melbourne, Australia", "-37.8136", "144.9631", "Australia/Melbourne"));
    r.push(city("London, UK", "51.5072", "-0.1276", "Europe/London"));
    r.push(city("Beijing, China", "39.9042", "116.4074", "Asia/Shanghai"));
    assert(city_views(r@) =~= city_table());
    r
}

/// Picks a city of the built-in menu by the number on the menu line.
pub fn get_city_choice(input: &str) -> (r: Result<Coordinates, InputError>)
    ensures
        outcome_view(r) == resolve_spec(input@, city_table()),
{
    let menu = cities();
    resolve(input, &menu)
}

/// Whether the menu line asks for custom entry: trimmed, it is the numeral
/// of the number that follows the last city's.
pub open spec fn is_custom_choice_spec(input: Seq<char>, city_count: nat) -> bool {
    trimmed(input) == decimal_text(city_count + 1)
}

/// Whether the menu line asks for custom entry, the item that the menu
/// offers after its last city. The line has to be that item's numeral as the
/// menu shows it: a plus sign or a leading zero makes it a choice of city.
pub fn is_custom_choice(input: &str, cities: &Vec<City>) -> (r: bool)
    ensures
        r == is_custom_choice_spec(input@, cities@.len()),
{
    let count: u128 = cities.len() as u128;
    let numeral = decimal_string(count + 1);
    same_text(trim(input), numeral.as_str())
}

/// The place that custom entry comes to. `latitude` and `longitude` are what
/// the reading of each line as a number gave, `None` where the line held no
/// number; `tz_text` is the time zone's line as typed.
pub open spec fn resolve_custom_spec(
    latitude: Option<Seq<char>>,
    longitude: Option<Seq<char>>,
    tz_text: Seq<char>,
) -> Result<CoordinatesView, InputError> {
    match latitude {
        None => Err(InputError::InvalidLatitude),
        Some(latitude) => match longitude {
            None => Err(InputError::InvalidLongitude),
            Some(longitude) => Ok(
                CoordinatesView { latitude, longitude, timezone: trimmed(tz_text) },
            ),
        },
    }
}

/// Puts a custom place together.
///
/// `latitude` and `longitude` carry what the reading of each line as a
/// number gave, written in decimal text, and `None` where the line held no
/// number. A missing latitude is reported before a missing longitude. The
/// time zone's line is trimmed and taken as it is, empty or not.
pub fn resolve_custom(latitude: Option<String>, longitude: Option<String>, tz_text: &str) -> (r:
    Result<Coordinates, InputError>)
    ensures
        outcome_view(r) == resolve_custom_spec(
            match latitude {
                Some(t) => Some(t@),
                None => None,
            },
            match longitude {
                Some(t) => Some(t@),
                None => None,
            },
            tz_text@,
        ),
{
    match latitude {
        None => Err(InputError::InvalidLatitude),
        Some(latitude) => match longitude {
            None => Err(InputError::InvalidLongitude),
            Some(longitude) => Ok(
                Coordinates { latitude, longitude, timezone: String::from_str(trim(tz_text)) },
            ),
        },
    }
}

/// The numeral of a city's place on the menu picks that city: for every `n`
/// from one to the length of the list, the line that holds the numeral of
/// `n` gives the coordinates and time zone of the `n`-th city.
pub proof fn lemma_resolve_picks_city(n: nat, cities: Seq<CityView>)
    requires
        1 <= n <= cities.len(),
        cities.len() <= usize::MAX,
    ensures
        resolve_spec(decimal_text(n), cities) == Ok::<CoordinatesView, InputError>(
            cities[n - 1].coordinates(),
        ),
{
    lemma_trimmed_decimal_text(n);
    lemma_parse_decimal_text(n);
}

/// A number that names no city is out of range: the numeral of zero, and
/// that of any number beyond the list that a `usize` can hold.
pub proof fn lemma_resolve_out_of_range(n: nat, cities: Seq<CityView>)
    requires
        n == 0 || cities.len() < n,
        n <= usize::MAX,
    ensures
        resolve_spec(decimal_text(n), cities) == Err::<CoordinatesView, InputError>(
            InputError::OutOfRange,
        ),
{
    lemma_trimmed_decimal_text(n);
    lemma_parse_decimal_text(n);
}

/// A line that is no unsigned number is an invalid choice, whatever the
/// list of cities.
pub proof fn lemma_resolve_invalid_choice(input: Seq<char>, cities: Seq<CityView>)
    requires
        parse_unsigned(trimmed(input)) is None,
    ensures
        resolve_spec(input, cities) == Err::<CoordinatesView, InputError>(
            InputError::InvalidChoice,
        ),
{
}

/// The item of custom entry is never a city: the line that asks for custom
/// entry is out of range as a choice of city.
pub proof fn lemma_custom_choice_is_no_city(input: Seq<char>, cities: Seq<CityView>)
    requires
        is_custom_choice_spec(input, cities.len()),
        cities.len() < usize::MAX,
    ensures
        resolve_spec(input, cities) == Err::<CoordinatesView, InputError>(
            InputError::OutOfRange,
        ),
{
    lemma_parse_decimal_text(cities.len() + 1);
}

/// Choosing a city depends on the line and the list alone: two outcomes
/// that both meet the contract of `resolve` for one line and one list are
/// the same, place for place and error for error.
pub proof fn lemma_resolve_is_repeatable(
    input: Seq<char>,
    cities: Seq<CityView>,
    first: Result<Coordinates, InputError>,
    second: Result<Coordinates, InputError>,
)
    requires
        outcome_view(first) == resolve_spec(input, cities),
        outcome_view(second) == resolve_spec(input, cities),
    ensures
        outcome_view(first) == outcome_view(second),
        first is Ok <==> second is Ok,
{
}

} // verus!
