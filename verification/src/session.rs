//! One run of the tool as a sequence of steps.
//!
//! The library decides; the front end acts. The front end hands in what
//! happened (a line was typed, a number was read, the forecast arrived) and
//! is told what to do next (show lines and read one, read a text as a
//! number, fetch an address, or end the run). A run goes straight through:
//! nothing is asked twice and no request is tried again.

use crate::error::InputError;
use crate::location::{
    city_views, is_custom_choice, is_custom_choice_spec, resolve, resolve_custom, resolve_spec, City,
    CityView, Coordinates, CoordinatesView,
};
use crate::report::{interpret, interpret_spec, report_lines, WeatherResponse, WeatherResponseView};
use crate::request::{build_target, report_kind, report_kind_spec, target_text, ReportKind};
use crate::text::{decimal_string, decimal_text, texts, trim, trimmed};
use vstd::prelude::*;

verus! {

/// How far a run has come, and what it has learned so far.
#[derive(Clone, Debug, PartialEq, Eq)]
pub enum Stage {
    /// Nothing has been shown yet.
    Start,
    /// The menu is shown; the menu line is awaited.
    Choice,
    /// The latitude's line is awaited.
    Latitude,
    /// The latitude's line is being read as a number.
    LatitudeNumber,
    /// The longitude's line is awaited.
    Longitude { latitude: String },
    /// The longitude's line is being read as a number.
    LongitudeNumber { latitude: String },
    /// The time zone's line is awaited.
    Timezone { latitude: String, longitude: String },
    /// The place is known; the line that picks the report is awaited.
    ReportChoice { place: Coordinates },
    /// The forecast has been asked for.
    Forecast { kind: ReportKind },
    /// The report is shown; a last line is awaited before the run ends.
    Farewell,
    /// The run has ended.
    Finished,
}

/// What happened since the last step.
#[derive(Clone, Debug, PartialEq, Eq)]
pub enum Event {
    /// The run begins.
    Begin,
    /// A line was typed.
    Line(String),
    /// A text was read as a number: the number in decimal text, or `None`
    /// where the text holds no number.
    Number(Option<String>),
    /// The forecast arrived.
    Answer(WeatherResponse),
    /// The forecast could not be fetched or could not be read.
    RequestFailed,
}

/// What the front end is to do next.
#[derive(Clone, Debug, PartialEq, Eq)]
pub enum Action {
    /// Show the lines, then read a line and hand it in.
    Ask { lines: Vec<String> },
    /// Read the text as a number and hand in what it gave.
    ReadNumber { text: String },
    /// Fetch the forecast at the address and hand in the answer.
    Fetch { url: String },
    /// End the run with the status, after telling the complaint if there
    /// is one.
    Finish { complaint: Option<String>, status: i32 },
}

/// A stage as a value.
pub enum StageView {
    Start,
    Choice,
    Latitude,
    LatitudeNumber,
    Longitude { latitude: Seq<char> },
    LongitudeNumber { latitude: Seq<char> },
    Timezone { latitude: Seq<char>, longitude: Seq<char> },
    ReportChoice { place: CoordinatesView },
    Forecast { kind: ReportKind },
    Farewell,
    Finished,
}

/// An event as a value.
pub enum EventView {
    Begin,
    Line(Seq<char>),
    Number(Option<Seq<char>>),
    Answer(WeatherResponseView),
    RequestFailed,
}

/// An action as a value.
pub enum ActionView {
    Ask { lines: Seq<Seq<char>> },
    ReadNumber { text: Seq<char> },
    Fetch { url: Seq<char> },
    Finish { complaint: Option<Seq<char>>, status: i32 },
}

impl View for Stage {
    type V = StageView;

    open spec fn view(&self) -> StageView {
        match *self {
            Stage::Start => StageView::Start,
            Stage::Choice => StageView::Choice,
            Stage::Latitude => StageView::Latitude,
            Stage::LatitudeNumber => StageView::LatitudeNumber,
            Stage::Longitude { latitude } => StageView::Longitude { latitude: latitude@ },
            Stage::LongitudeNumber { latitude } => StageView::LongitudeNumber {
                latitude: latitude@,
            },
            Stage::Timezone { latitude, longitude } => StageView::Timezone {
                latitude: latitude@,
                longitude: longitude@,
            },
            Stage::ReportChoice { place } => StageView::ReportChoice { place: place@ },
            Stage::Forecast { kind } => StageView::Forecast { kind },
            Stage::Farewell => StageView::Farewell,
            Stage::Finished => StageView::Finished,
        }
    }
}

impl View for Event {
    type V = EventView;

    open spec fn view(&self) -> EventView {
        match *self {
            Event::Begin => EventView::Begin,
            Event::Line(line) => EventView::Line(line@),
            Event::Number(number) => EventView::Number(
                match number {
                    Some(text) => Some(text@),
                    None => None,
                },
            ),
            Event::Answer(response) => EventView::Answer(response@),
            Event::RequestFailed => EventView::RequestFailed,
        }
    }
}

impl View for Action {
    type V = ActionView;

    open spec fn view(&self) -> ActionView {
        match *self {
            Action::Ask { lines } => ActionView::Ask { lines: texts(lines@) },
            Action::ReadNumber { text } => ActionView::ReadNumber { text: text@ },
            Action::Fetch { url } => ActionView::Fetch { url: url@ },
            Action::Finish { complaint, status } => ActionView::Finish {
                complaint: match complaint {
                    Some(text) => Some(text@),
                    None => None,
                },
                status,
            },
        }
    }
}

/// The line that offers the city at place `index` of the menu, counted
/// from zero: its number, counted from one, and its name.
pub open spec fn city_line(index: int, city: CityView) -> Seq<char> {
    decimal_text((index + 1) as nat) + ". "@ + city.name
}

/// The menu: a line for each city, a line for custom entry under the
/// number after the last city's, and the question.
pub open spec fn menu_lines_spec(menu: Seq<CityView>) -> Seq<Seq<char>> {
    Seq::new(menu.len(), |i: int| city_line(i, menu[i])) + seq![
        decimal_text(menu.len() + 1) + ". Enter custom latitude and longitude"@,
        "Enter the number of your choice: "@,
    ]
}

/// The lines that offer the two reports.
pub open spec fn report_menu_spec() -> Seq<Seq<char>> {
    seq![
        "Choose an option:"@,
        "1. Current weather"@,
        "2. Min/Max temperature for the next seven days"@,
    ]
}

/// The end of a run on an error: the error's words are the complaint, and
/// the status is the error's.
pub open spec fn refusal(e: InputError) -> (StageView, ActionView) {
    (
        StageView::Finished,
        ActionView::Finish { complaint: Some(e.message_text()), status: e.exit_status_spec() },
    )
}

/// What follows the menu line.
pub open spec fn after_choice(menu: Seq<CityView>, line: Seq<char>) -> (StageView, ActionView) {
    if is_custom_choice_spec(line, menu.len()) {
        (StageView::Latitude, ActionView::Ask { lines: seq!["Enter latitude: "@] })
    } else {
        match resolve_spec(line, menu) {
            Ok(place) => (
                StageView::ReportChoice { place },
                ActionView::Ask { lines: report_menu_spec() },
            ),
            Err(e) => refusal(e),
        }
    }
}

/// What follows the line that picks the report: the request for a report
/// that the trimmed line names, and the end of the run for any other line.
pub open spec fn after_report_choice(place: CoordinatesView, line: Seq<char>) -> (
    StageView,
    ActionView,
) {
    match report_kind_spec(trimmed(line)) {
        Some(kind) => (
            StageView::Forecast { kind },
            ActionView::Fetch { url: target_text(place, kind) },
        ),
        None => refusal(InputError::InvalidReportKind),
    }
}

/// The next stage and the action, for a stage and the event that it waits
/// for; `None` for an event that the stage does not wait for.
pub open spec fn step_spec(menu: Seq<CityView>, stage: StageView, event: EventView) -> Option<
    (StageView, ActionView),
> {
    match (stage, event) {
        (StageView::Start, EventView::Begin) => Some(
            (StageView::Choice, ActionView::Ask { lines: menu_lines_spec(menu) }),
        ),
        (StageView::Choice, EventView::Line(line)) => Some(after_choice(menu, line)),
        (StageView::Latitude, EventView::Line(line)) => Some(
            (StageView::LatitudeNumber, ActionView::ReadNumber { text: trimmed(line) }),
        ),
        (StageView::LatitudeNumber, EventView::Number(number)) => Some(
            match number {
                Some(latitude) => (
                    StageView::Longitude { latitude },
                    ActionView::Ask { lines: seq!["Enter longitude: "@] },
                ),
                None => refusal(InputError::InvalidLatitude),
            },
        ),
        (StageView::Longitude { latitude }, EventView::Line(line)) => Some(
            (
                StageView::LongitudeNumber { latitude },
                ActionView::ReadNumber { text: trimmed(line) },
            ),
        ),
        (StageView::LongitudeNumber { latitude }, EventView::Number(number)) => Some(
            match number {
                Some(longitude) => (
                    StageView::Timezone { latitude, longitude },
                    ActionView::Ask { lines: seq!["Enter timezone: "@] },
                ),
                None => refusal(InputError::InvalidLongitude),
            },
        ),
        (StageView::Timezone { latitude, longitude }, EventView::Line(line)) => Some(
            (
                StageView::ReportChoice {
                    place: CoordinatesView { latitude, longitude, timezone: trimmed(line) },
                },
                ActionView::Ask { lines: report_menu_spec() },
            ),
        ),
        (StageView::ReportChoice { place }, EventView::Line(line)) => Some(
            after_report_choice(place, line),
        ),
        (StageView::Forecast { kind }, EventView::Answer(response)) => Some(
            (
                StageView::Farewell,
                ActionView::Ask {
                    lines: report_lines(interpret_spec(response, kind)).push(
                        "Press enter to exit:"@,
                    ),
                },
            ),
        ),
        (StageView::Forecast { kind }, EventView::RequestFailed) => Some(
            (StageView::Finished, ActionView::Finish { complaint: None, status: 1 }),
        ),
        (StageView::Farewell, EventView::Line(line)) => Some(
            (StageView::Finished, ActionView::Finish { complaint: None, status: 0 }),
        ),
        _ => None,
    }
}

/// A step as a value.
pub open spec fn step_view(r: Option<(Stage, Action)>) -> Option<(StageView, ActionView)> {
    match r {
        Some((stage, action)) => Some((stage@, action@)),
        None => None,
    }
}

/// A list that holds one line.
fn one_line(line: &str) -> (r: Vec<String>)
    ensures
        texts(r@) == seq![line@],
{
    let mut r: Vec<String> = Vec::new();
    r.push(String::from_str(line));
    assert(texts(r@) =~= seq![line@]);
    r
}

/// The menu: a line for each city, a line for custom entry, and the
/// question.
pub fn menu_lines(menu: &Vec<City>) -> (r: Vec<String>)
    ensures
        texts(r@) == menu_lines_spec(city_views(menu@)),
{
    let mut r: Vec<String> = Vec::new();
    let mut at: usize = 0;
    while at < menu.len()
        invariant
            at <= menu.len(),
            r@.len() == at,
            forall|i: int| 0 <= i < at ==> (#[trigger] r@[i])@ == city_line(i, menu@[i]@),
        decreases menu.len() - at,
    {
        let mut line = decimal_string(at as u128 + 1);
        line.append(". ");
        line.append(menu[at].name.as_str());
        r.push(line);
        at += 1;
    }
    let mut custom = decimal_string(menu.len() as u128 + 1);
    custom.append(". Enter custom latitude and longitude");
    r.push(custom);
    r.push(String::from_str("Enter the number of your choice: "));
    assert(texts(r@) =~= menu_lines_spec(city_views(menu@)));
    r
}

/// The lines that offer the two reports.
pub fn report_menu() -> (r: Vec<String>)
    ensures
        texts(r@) == report_menu_spec(),
{
    let mut r: Vec<String> = Vec::new();
    r.push(String::from_str("Choose an option:"));
    r.push(String::from_str("1. Current weather"));
    r.push(String::from_str("2. Min/Max temperature for the next seven days"));
    assert(texts(r@) =~= report_menu_spec());
    r
}

/// The end of a run on an error.
fn refuse(e: InputError) -> (r: (Stage, Action))
    ensures
        (r.0@, r.1@) == refusal(e),
{
    (Stage::Finished, Action::Finish { complaint: Some(e.message()), status: e.exit_status() })
}

/// Takes one step of a run.
///
/// `menu` is the list of cities that the run offers, the same at every
/// step. For a stage and the event that it waits for, the result is the
/// next stage and what the front end is to do; for any other event it is
/// `None`, and the run has gone wrong outside the library.
pub fn step(menu: &Vec<City>, stage: Stage, event: Event) -> (r: Option<(Stage, Action)>)
    ensures
        step_view(r) == step_spec(city_views(menu@), stage@, event@),
{
    match stage {
        Stage::Start => match event {
            Event::Begin => Some((Stage::Choice, Action::Ask { lines: menu_lines(menu) })),
            _ => None,
        },
        Stage::Choice => match event {
            Event::Line(line) => {
                if is_custom_choice(line.as_str(), menu) {
                    Some((Stage::Latitude, Action::Ask { lines: one_line("Enter latitude: ") }))
                } else {
                    match resolve(line.as_str(), menu) {
                        Ok(place) => Some(
                            (Stage::ReportChoice { place }, Action::Ask { lines: report_menu() }),
                        ),
                        Err(e) => Some(refuse(e)),
                    }
                }
            },
            _ => None,
        },
        Stage::Latitude => match event {
            Event::Line(line) => Some(
                (
                    Stage::LatitudeNumber,
                    Action::ReadNumber { text: String::from_str(trim(line.as_str())) },
                ),
            ),
            _ => None,
        },
        Stage::LatitudeNumber => match event {
            Event::Number(number) => match number {
                Some(latitude) => Some(
                    (
                        Stage::Longitude { latitude },
                        Action::Ask { lines: one_line("Enter longitude: ") },
                    ),
                ),
                None => Some(refuse(InputError::InvalidLatitude)),
            },
            _ => None,
        },
        Stage::Longitude { latitude } => match event {
            Event::Line(line) => Some(
                (
                    Stage::LongitudeNumber { latitude },
                    Action::ReadNumber { text: String::from_str(trim(line.as_str())) },
                ),
            ),
            _ => None,
        },
        Stage::LongitudeNumber { latitude } => match event {
            Event::Number(number) => match number {
                Some(longitude) => Some(
                    (
                        Stage::Timezone { latitude, longitude },
                        Action::Ask { lines: one_line("Enter timezone: ") },
                    ),
                ),
                None => Some(refuse(InputError::InvalidLongitude)),
            },
            _ => None,
        },
        Stage::Timezone { latitude, longitude } => match event {
            Event::Line(line) => match resolve_custom(
                Some(latitude),
                Some(longitude),
                line.as_str(),
            ) {
                Ok(place) => Some(
                    (Stage::ReportChoice { place }, Action::Ask { lines: report_menu() }),
                ),
                Err(e) => Some(refuse(e)),
            },
            _ => None,
        },
        Stage::ReportChoice { place } => match event {
            Event::Line(line) => match report_kind(trim(line.as_str())) {
                Some(kind) => Some(
                    (Stage::Forecast { kind }, Action::Fetch { url: build_target(&place, kind) }),
                ),
                None => Some(refuse(InputError::InvalidReportKind)),
            },
            _ => None,
        },
        Stage::Forecast { kind } => match event {
            Event::Answer(response) => {
                let mut lines = interpret(&response, kind).lines();
                lines.push(String::from_str("Press enter to exit:"));
                assert(texts(lines@) =~= report_lines(interpret_spec(response@, kind)).push(
                    "Press enter to exit:"@,
                ));
                Some((Stage::Farewell, Action::Ask { lines }))
            },
            Event::RequestFailed => Some(
                (Stage::Finished, Action::Finish { complaint: None, status: 1 }),
            ),
            _ => None,
        },
        Stage::Farewell => match event {
            Event::Line(_) => Some(
                (Stage::Finished, Action::Finish { complaint: None, status: 0 }),
            ),
            _ => None,
        },
        Stage::Finished => None,
    }
}

/// An upper bound on the steps that a run can still take from a stage.
pub open spec fn steps_left(stage: StageView) -> nat {
    match stage {
        StageView::Start => 10,
        StageView::Choice => 9,
        StageView::Latitude => 8,
        StageView::LatitudeNumber => 7,
        StageView::Longitude { .. } => 6,
        StageView::LongitudeNumber { .. } => 5,
        StageView::Timezone { .. } => 4,
        StageView::ReportChoice { .. } => 3,
        StageView::Forecast { .. } => 2,
        StageView::Farewell => 1,
        StageView::Finished => 0,
    }
}

/// Whether `event` is of the kind that answers `action`: a line answers a
/// question, a reading answers a text to be read as a number, an answer or
/// a failure answers a fetch, and nothing answers the end of the run.
pub open spec fn answers(action: ActionView, event: EventView) -> bool {
    match action {
        ActionView::Ask { .. } => event is Line,
        ActionView::ReadNumber { .. } => event is Number,
        ActionView::Fetch { .. } => event is Answer || event is RequestFailed,
        ActionView::Finish { .. } => false,
    }
}

/// A run goes forward only: every step leaves fewer steps to take, so no
/// stage comes twice, nothing is asked again, and a run that began at the
/// start has ended after ten steps at most.
pub proof fn lemma_step_goes_forward(menu: Seq<CityView>, stage: StageView, event: EventView)
    ensures
        step_spec(menu, stage, event) matches Some((next, _)) ==> steps_left(next) < steps_left(
            stage,
        ),
        steps_left(stage) <= 10,
{
}

/// The action of a step says which events the next stage waits for: the
/// next stage takes an event if and only if the event answers the action.
/// A front end that answers each action in kind is never turned away, and
/// after the end of the run no event is taken.
pub proof fn lemma_next_stage_takes_the_answer(
    menu: Seq<CityView>,
    stage: StageView,
    event: EventView,
    reply: EventView,
)
    ensures
        step_spec(menu, stage, event) matches Some((next, action)) ==> {
            &&& step_spec(menu, next, reply) is Some <==> answers(action, reply)
            &&& action is Finish <==> next is Finished
        },
{
}

/// A forecast is fetched only for a place and a report that were both
/// named: the step that asks for a fetch is the one that takes the report's
/// line, the trimmed line names a kind of report, and the address is that
/// of the place and the kind. A line that names no report ends the run
/// with the complaint of `InvalidReportKind`, and nothing is fetched.
pub proof fn lemma_fetch_needs_a_named_report(
    menu: Seq<CityView>,
    stage: StageView,
    event: EventView,
)
    ensures
        step_spec(menu, stage, event) matches Some((next, action)) ==> (action is Fetch ==> {
            &&& stage matches StageView::ReportChoice { place }
            &&& event matches EventView::Line(line)
            &&& report_kind_spec(trimmed(line)) matches Some(kind)
            &&& action == (ActionView::Fetch { url: target_text(place, kind) })
            &&& next == (StageView::Forecast { kind })
        }),
        stage is ReportChoice ==> (event matches EventView::Line(line) ==> (report_kind_spec(
            trimmed(line),
        ) is None ==> step_spec(menu, stage, event) == Some(
            refusal(InputError::InvalidReportKind),
        ))),
{
}

/// A run ends in failure in three cases and no other: the latitude's line
/// holds no number, the longitude's line holds no number, or the forecast
/// could not be had. Every other end has status zero.
pub proof fn lemma_failure_status(menu: Seq<CityView>, stage: StageView, event: EventView)
    ensures
        step_spec(menu, stage, event) matches Some((_, ActionView::Finish { status, .. })) ==> {
            &&& status == 0 || status == 1
            &&& status == 1 <==> {
                ||| stage is LatitudeNumber && event == EventView::Number(None)
                ||| stage is LongitudeNumber && event == EventView::Number(None)
                ||| stage is Forecast && event is RequestFailed
            }
        },
{
}

} // verus!
