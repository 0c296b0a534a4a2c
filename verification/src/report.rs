//! From the answer of the forecast service to what is shown to the user.
//!
//! Every part of an answer may be missing. A missing part is no error: it
//! is told in a line of its own.

use crate::error::InputError;
use crate::request::{report_kind, report_kind_spec, ReportKind};
use crate::text::texts;
use vstd::prelude::*;

verus! {

/// One block of an answer. Each series may be missing, and each reading is
/// held in the decimal text in which it is shown.
#[derive(Clone, Debug, Default, PartialEq, Eq)]
pub struct Weather {
    pub temperature_2m: Option<Vec<String>>,
    pub temperature_2m_min: Option<Vec<String>>,
    pub temperature_2m_max: Option<Vec<String>>,
    pub time: Option<Vec<String>>,
    pub precipitation_probability: Option<Vec<String>>,
}

/// An answer of the forecast service: an hourly and a daily block, each of
/// which may be missing.
#[derive(Clone, Debug, Default, PartialEq, Eq)]
pub struct WeatherResponse {
    pub hourly: Option<Weather>,
    pub daily: Option<Weather>,
}

/// One day of the week's table.
#[derive(Clone, Debug, PartialEq, Eq)]
pub struct Day {
    pub date: String,
    pub min: String,
    pub max: String,
}

/// What an answer holds of the report that was asked for.
#[derive(Clone, Debug, PartialEq, Eq)]
pub enum Report {
    /// The current weather was asked for and the answer has no hourly block.
    NoHourlyData,
    /// The first reading of each hourly series, where the series has one.
    Current { temperature: Option<String>, precipitation: Option<String> },
    /// The week was asked for and the answer has no daily block.
    NoDailyData,
    /// The daily block lacks the lows, the highs, or both.
    NoMinMaxData,
    /// The daily block has lows and highs but no dates.
    NoDateData,
    /// The days for which the answer has a date, a low and a high.
    Weekly { days: Vec<Day> },
}

/// A series that may be missing, as a value.
pub open spec fn series_view(series: Option<Vec<String>>) -> Option<Seq<Seq<char>>> {
    match series {
        Some(readings) => Some(texts(readings@)),
        None => None,
    }
}

/// A reading that may be missing, as a value.
pub open spec fn reading_view(reading: Option<String>) -> Option<Seq<char>> {
    match reading {
        Some(text) => Some(text@),
        None => None,
    }
}

/// A block of an answer as a value.
pub struct WeatherView {
    pub temperature_2m: Option<Seq<Seq<char>>>,
    pub temperature_2m_min: Option<Seq<Seq<char>>>,
    pub temperature_2m_max: Option<Seq<Seq<char>>>,
    pub time: Option<Seq<Seq<char>>>,
    pub precipitation_probability: Option<Seq<Seq<char>>>,
}

/// An answer as a value.
pub struct WeatherResponseView {
    pub hourly: Option<WeatherView>,
    pub daily: Option<WeatherView>,
}

/// A day of the table as a value.
pub struct DayView {
    pub date: Seq<char>,
    pub min: Seq<char>,
    pub max: Seq<char>,
}

/// A report as a value.
pub enum ReportView {
    NoHourlyData,
    Current { temperature: Option<Seq<char>>, precipitation: Option<Seq<char>> },
    NoDailyData,
    NoMinMaxData,
    NoDateData,
    Weekly { days: Seq<DayView> },
}

impl View for Weather {
    type V = WeatherView;

    open spec fn view(&self) -> WeatherView {
        WeatherView {
            temperature_2m: series_view(self.temperature_2m),
            temperature_2m_min: series_view(self.temperature_2m_min),
            temperature_2m_max: series_view(self.temperature_2m_max),
            time: series_view(self.time),
            precipitation_probability: series_view(self.precipitation_probability),
        }
    }
}

/// A block that may be missing, as a value.
pub open spec fn block_view(block: Option<Weather>) -> Option<WeatherView> {
    match block {
        Some(weather) => Some(weather@),
        None => None,
    }
}

impl View for WeatherResponse {
    type V = WeatherResponseView;

    open spec fn view(&self) -> WeatherResponseView {
        WeatherResponseView { hourly: block_view(self.hourly), daily: block_view(self.daily) }
    }
}

impl View for Day {
    type V = DayView;

    open spec fn view(&self) -> DayView {
        DayView { date: self.date@, min: self.min@, max: self.max@ }
    }
}

/// The days of a table, each as a value.
pub open spec fn day_views(days: Seq<Day>) -> Seq<DayView> {
    Seq::new(days.len(), |i: int| days[i]@)
}

impl View for Report {
    type V = ReportView;

    open spec fn view(&self) -> ReportView {
        match *self {
            Report::NoHourlyData => ReportView::NoHourlyData,
            Report::Current { temperature, precipitation } => ReportView::Current {
                temperature: reading_view(temperature),
                precipitation: reading_view(precipitation),
            },
            Report::NoDailyData => ReportView::NoDailyData,
            Report::NoMinMaxData => ReportView::NoMinMaxData,
            Report::NoDateData => ReportView::NoDateData,
            Report::Weekly { days } => ReportView::Weekly { days: day_views(days@) },
        }
    }
}

/// The first reading of a series; none where the series is missing or
/// empty.
pub open spec fn first_reading(series: Option<Seq<Seq<char>>>) -> Option<Seq<char>> {
    match series {
        Some(readings) => if readings.len() > 0 {
            Some(readings[0])
        } else {
            None
        },
        None => None,
    }
}

/// The smallest of three lengths.
pub open spec fn shortest(a: nat, b: nat, c: nat) -> nat {
    if a <= b && a <= c {
        a
    } else if b <= c {
        b
    } else {
        c
    }
}

/// The table of the week: lows, highs and dates paired by position, as far
/// as the shortest of the three series goes.
pub open spec fn paired_days(
    lows: Seq<Seq<char>>,
    highs: Seq<Seq<char>>,
    dates: Seq<Seq<char>>,
) -> Seq<DayView> {
    Seq::new(
        shortest(lows.len(), highs.len(), dates.len()),
        |i: int| DayView { date: dates[i], min: lows[i], max: highs[i] },
    )
}

/// What `response` holds of the report of `kind`.
///
/// For the current weather the two hourly series are looked at each for
/// itself. For the week the lows and highs are wanted together, then the
/// dates; only with all three is there a table.
pub open spec fn interpret_spec(response: WeatherResponseView, kind: ReportKind) -> ReportView {
    match kind {
        ReportKind::Current => match response.hourly {
            None => ReportView::NoHourlyData,
            Some(hourly) => ReportView::Current {
                temperature: first_reading(hourly.temperature_2m),
                precipitation: first_reading(hourly.precipitation_probability),
            },
        },
        ReportKind::WeeklyMinMax => match response.daily {
            None => ReportView::NoDailyData,
            Some(daily) => match (daily.temperature_2m_min, daily.temperature_2m_max) {
                (Some(lows), Some(highs)) => match daily.time {
                    Some(dates) => ReportView::Weekly { days: paired_days(lows, highs, dates) },
                    None => ReportView::NoDateData,
                },
                _ => ReportView::NoMinMaxData,
            },
        },
    }
}

/// The first reading of a series, if it has one.
fn first_of(series: &Option<Vec<String>>) -> (r: Option<String>)
    ensures
        reading_view(r) == first_reading(series_view(*series)),
{
    match series {
        Some(readings) => if readings.len() > 0 {
            Some(readings[0].clone())
        } else {
            None
        },
        None => None,
    }
}

/// Pairs lows, highs and dates by position; what goes beyond the shortest
/// series is left out.
fn pair_days(lows: &Vec<String>, highs: &Vec<String>, dates: &Vec<String>) -> (days: Vec<Day>)
    ensures
        day_views(days@) == paired_days(texts(lows@), texts(highs@), texts(dates@)),
{
    let mut count = lows.len();
    if highs.len() < count {
        count = highs.len();
    }
    if dates.len() < count {
        count = dates.len();
    }
    let mut days: Vec<Day> = Vec::new();
    let mut at: usize = 0;
    while at < count
        invariant
            count == shortest(lows@.len(), highs@.len(), dates@.len()),
            at <= count,
            days@.len() == at,
            forall|i: int|
                0 <= i < at ==> (#[trigger] days@[i])@ == (DayView {
                    date: dates@[i]@,
                    min: lows@[i]@,
                    max: highs@[i]@,
                }),
        decreases count - at,
    {
        days.push(Day { date: dates[at].clone(), min: lows[at].clone(), max: highs[at].clone() });
        at += 1;
    }
    assert(day_views(days@) =~= paired_days(texts(lows@), texts(highs@), texts(dates@)));
    days
}

/// Takes from an answer what the report of `kind` shows.
pub fn interpret(response: &WeatherResponse, kind: ReportKind) -> (r: Report)
    ensures
        r@ == interpret_spec(response@, kind),
{
    match kind {
        ReportKind::Current => match &response.hourly {
            None => Report::NoHourlyData,
            Some(hourly) => Report::Current {
                temperature: first_of(&hourly.temperature_2m),
                precipitation: first_of(&hourly.precipitation_probability),
            },
        },
        ReportKind::WeeklyMinMax => match &response.daily {
            None => Report::NoDailyData,
            Some(daily) => match (&daily.temperature_2m_min, &daily.temperature_2m_max) {
                (Some(lows), Some(highs)) => match &daily.time {
                    Some(dates) => Report::Weekly { days: pair_days(lows, highs, dates) },
                    None => Report::NoDateData,
                },
                _ => Report::NoMinMaxData,
            },
        },
    }
}

/// What an answer holds of the report that the text of an option names;
/// an `InvalidReportKind` where the option names none.
pub open spec fn interpret_option_spec(response: WeatherResponseView, option: Seq<char>) -> Result<
    ReportView,
    InputError,
> {
    match report_kind_spec(option) {
        Some(kind) => Ok(interpret_spec(response, kind)),
        None => Err(InputError::InvalidReportKind),
    }
}

/// A report or a refusal, with the report as a value.
pub open spec fn report_outcome_view(r: Result<Report, InputError>) -> Result<
    ReportView,
    InputError,
> {
    match r {
        Ok(report) => Ok(report@),
        Err(e) => Err(e),
    }
}

/// Takes from an answer what the report shows that the text of an option
/// names. An option that names no kind of report is refused as
/// `InvalidReportKind`, whatever the answer holds.
pub fn interpret_option(response: &WeatherResponse, option: &str) -> (r: Result<
    Report,
    InputError,
>)
    ensures
        report_outcome_view(r) == interpret_option_spec(response@, option@),
{
    match report_kind(option) {
        Some(kind) => Ok(interpret(response, kind)),
        None => Err(InputError::InvalidReportKind),
    }
}

/// The line that shows one day of the table.
pub open spec fn day_line(day: DayView) -> Seq<char> {
    "Date: "@ + day.date + ", Min: "@ + day.min + "°C, Max: "@ + day.max + "°C"@
}

/// The line on the temperature.
pub open spec fn temperature_line(reading: Option<Seq<char>>) -> Seq<char> {
    match reading {
        Some(text) => "Current temperature: "@ + text + "°C"@,
        None => "No temperature data available."@,
    }
}

/// The line on the chance of rain.
pub open spec fn precipitation_line(reading: Option<Seq<char>>) -> Seq<char> {
    match reading {
        Some(text) => "Chance of rain: "@ + text + "%"@,
        None => "No precipitation data available."@,
    }
}

/// The lines in which a report is shown, from top to bottom.
pub open spec fn report_lines(report: ReportView) -> Seq<Seq<char>> {
    match report {
        ReportView::NoHourlyData => seq!["No hourly data available."@],
        ReportView::Current { temperature, precipitation } => seq![
            temperature_line(temperature),
            precipitation_line(precipitation),
        ],
        ReportView::NoDailyData => seq!["No daily data available."@],
        ReportView::NoMinMaxData => seq!["No min/max temperature data available."@],
        ReportView::NoDateData => seq!["No date data available."@],
        ReportView::Weekly { days } => Seq::new(days.len(), |i: int| day_line(days[i])),
    }
}

/// A text between two others.
fn framed(before: &str, text: &str, after: &str) -> (r: String)
    ensures
        r@ == before@ + text@ + after@,
{
    let mut r = String::from_str(before);
    r.append(text);
    r.append(after);
    r
}

impl Day {
    /// The line that shows the day.
    pub fn line(&self) -> (r: String)
        ensures
            r@ == day_line(self@),
    {
        let mut r = String::from_str("Date: ");
        r.append(self.date.as_str());
        r.append(", Min: ");
        r.append(self.min.as_str());
        r.append("°C, Max: ");
        r.append(self.max.as_str());
        r.append("°C");
        r
    }
}

impl Report {
    /// The lines in which the report is shown, from top to bottom.
    pub fn lines(&self) -> (r: Vec<String>)
        ensures
            texts(r@) == report_lines(self@),
    {
        let mut r: Vec<String> = Vec::new();
        match self {
            Report::NoHourlyData => {
                r.push(String::from_str("No hourly data available."));
            },
            Report::Current { temperature, precipitation } => {
                r.push(
                    match temperature {
                        Some(text) => framed("Current temperature: ", text.as_str(), "°C"),
                        None => String::from_str("No temperature data available."),
                    },
                );
                r.push(
                    match precipitation {
                        Some(text) => framed("Chance of rain: ", text.as_str(), "%"),
                        None => String::from_str("No precipitation data available."),
                    },
                );
            },
            Report::NoDailyData => {
                r.push(String::from_str("No daily data available."));
            },
            Report::NoMinMaxData => {
                r.push(String::from_str("No min/max temperature data available."));
            },
            Report::NoDateData => {
                r.push(String::from_str("No date data available."));
            },
            Report::Weekly { days } => {
                let mut at: usize = 0;
                while at < days.len()
                    invariant
                        at <= days.len(),
                        r@.len() == at,
                        forall|i: int| 0 <= i < at ==> (#[trigger] r@[i])@ == day_line(days@[i]@),
                    decreases days.len() - at,
                {
                    r.push(days[at].line());
                    at += 1;
                }
            },
        }
        assert(texts(r@) =~= report_lines(self@));
        r
    }
}

/// A report depends on the answer and the kind alone: two reports that both
/// meet the contract of `interpret` for one answer and one kind are the
/// same, and so are the lines in which they are shown.
pub proof fn lemma_interpret_is_repeatable(
    response: WeatherResponseView,
    kind: ReportKind,
    first: Report,
    second: Report,
)
    requires
        first@ == interpret_spec(response, kind),
        second@ == interpret_spec(response, kind),
    ensures
        first@ == second@,
        report_lines(first@) == report_lines(second@),
{
}

/// The week is shown in one line for each day of the table and in no other
/// line: with lows, highs and dates all present, the report has as many
/// lines as the shortest of the three series has readings, and the line at
/// each place shows what the three series hold at that place.
pub proof fn lemma_week_has_a_line_for_each_day(
    response: WeatherResponseView,
    lows: Seq<Seq<char>>,
    highs: Seq<Seq<char>>,
    dates: Seq<Seq<char>>,
)
    requires
        response.daily matches Some(daily) && daily.temperature_2m_min == Some(lows)
            && daily.temperature_2m_max == Some(highs) && daily.time == Some(dates),
    ensures
        report_lines(interpret_spec(response, ReportKind::WeeklyMinMax)).len() == shortest(
            lows.len(),
            highs.len(),
            dates.len(),
        ),
        forall|i: int|
            0 <= i < shortest(lows.len(), highs.len(), dates.len()) ==> #[trigger] report_lines(
                interpret_spec(response, ReportKind::WeeklyMinMax),
            )[i] == day_line(DayView { date: dates[i], min: lows[i], max: highs[i] }),
{
}

/// The week's table is as long as the shortest of the three series, and
/// its row at each place holds what the three series hold at that place.
pub proof fn lemma_paired_days_shortest_wins(
    lows: Seq<Seq<char>>,
    highs: Seq<Seq<char>>,
    dates: Seq<Seq<char>>,
)
    ensures
        paired_days(lows, highs, dates).len() <= lows.len(),
        paired_days(lows, highs, dates).len() <= highs.len(),
        paired_days(lows, highs, dates).len() <= dates.len(),
        paired_days(lows, highs, dates).len() == lows.len() || paired_days(
            lows,
            highs,
            dates,
        ).len() == highs.len() || paired_days(lows, highs, dates).len() == dates.len(),
        forall|i: int|
            0 <= i < paired_days(lows, highs, dates).len() ==> #[trigger] paired_days(
                lows,
                highs,
                dates,
            )[i] == (DayView { date: dates[i], min: lows[i], max: highs[i] }),
{
}

} // verus!
