use weather_lookup::location::{cities, City, Coordinates};
use weather_lookup::report::{Weather, WeatherResponse};
use weather_lookup::request::ReportKind;
use weather_lookup::session::{menu_lines, report_menu, step, Action, Event, Stage};

/// What a run showed and how it ended.
#[derive(Debug, PartialEq)]
struct Run {
    shown: Vec<String>,
    fetched: Vec<String>,
    complaint: Option<String>,
    status: i32,
    steps: usize,
}

/// Plays a run as a front end would: the lines are typed one after the
/// other, numbers are read as `f64`, and a fetch gives `answer`.
fn play(menu: &Vec<City>, typed: &[&str], answer: Option<WeatherResponse>) -> Run {
    let mut typed = typed.iter();
    let mut run = Run { shown: Vec::new(), fetched: Vec::new(), complaint: None, status: 0, steps: 0 };
    let mut stage = Stage::Start;
    let mut event = Event::Begin;
    loop {
        let (next, action) = step(menu, stage, event).unwrap();
        run.steps += 1;
        stage = next;
        event = match action {
            Action::Ask { lines } => {
                run.shown.extend(lines);
                Event::Line(typed.next().unwrap().to_string())
            }
            Action::ReadNumber { text } => {
                Event::Number(text.parse::<f64>().ok().map(|number| number.to_string()))
            }
            Action::Fetch { url } => {
                run.fetched.push(url);
                match answer.clone() {
                    Some(response) => Event::Answer(response),
                    None => Event::RequestFailed,
                }
            }
            Action::Finish { complaint, status } => {
                assert_eq!(stage, Stage::Finished);
                assert!(typed.next().is_none());
                run.complaint = complaint;
                run.status = status;
                return run;
            }
        };
    }
}

fn texts(lines: &[&str]) -> Vec<String> {
    lines.iter().map(|line| line.to_string()).collect()
}

fn series(readings: &[f64]) -> Option<Vec<String>> {
    Some(readings.iter().map(|r| r.to_string()).collect())
}

fn answer() -> WeatherResponse {
    WeatherResponse {
        hourly: Some(Weather {
            temperature_2m: series(&[21.5, 22.0]),
            precipitation_probability: series(&[30.0]),
            ..Weather::default()
        }),
        daily: Some(Weather {
            temperature_2m_min: series(&[10.0, 11.0]),
            temperature_2m_max: series(&[20.0, 19.0]),
            time: Some(texts(&["2024-01-01", "2024-01-02"])),
            ..Weather::default()
        }),
    }
}

const MENU: [&str; 6] = [
    "1. Adelaide, Australia",
    "2. Melbourne, Australia",
    "3. London, UK",
    "4. Beijing, China",
    "5. Enter custom latitude and longitude",
    "Enter the number of your choice: ",
];

const REPORTS: [&str; 3] =
    ["Choose an option:", "1. Current weather", "2. Min/Max temperature for the next seven days"];

#[test]
fn the_menu_numbers_the_cities_and_offers_custom_entry_last() {
    assert_eq!(menu_lines(&cities()), texts(&MENU));
    assert_eq!(
        menu_lines(&Vec::new()),
        texts(&["1. Enter custom latitude and longitude", "Enter the number of your choice: "])
    );
    let mut many = Vec::new();
    for n in 0..10 {
        many.push(City {
            name: format!("City {}", n),
            latitude: "0".to_string(),
            longitude: "0".to_string(),
            timezone: "UTC".to_string(),
        });
    }
    let lines = menu_lines(&many);
    assert_eq!(lines.len(), 12);
    assert_eq!(lines[8], "9. City 8");
    assert_eq!(lines[9], "10. City 9");
    assert_eq!(lines[10], "11. Enter custom latitude and longitude");
}

#[test]
fn the_report_menu_offers_the_two_reports() {
    assert_eq!(report_menu(), texts(&REPORTS));
}

#[test]
fn a_run_for_a_city_and_the_current_weather() {
    let run = play(&cities(), &["1\n", "1\n", "\n"], Some(answer()));
    let mut shown = texts(&MENU);
    shown.extend(texts(&REPORTS));
    shown.extend(texts(&["Current temperature: 21.5°C", "Chance of rain: 30%", "Press enter to exit:"]));
    assert_eq!(run.shown, shown);
    assert_eq!(run.fetched, texts(&["https://api.open-meteo.com/v1/forecast?latitude=-34.9285&longitude=138.6007&hourly=temperature_2m,precipitation_probability&timezone=Australia/Adelaide"]));
    assert_eq!(run.complaint, None);
    assert_eq!(run.status, 0);
    assert_eq!(run.steps, 5);
}

#[test]
fn a_run_for_a_city_and_the_week() {
    let run = play(&cities(), &[" 3 \n", "2\n", "\n"], Some(answer()));
    assert_eq!(
        run.shown[9..],
        texts(&[
            "Date: 2024-01-01, Min: 10°C, Max: 20°C",
            "Date: 2024-01-02, Min: 11°C, Max: 19°C",
            "Press enter to exit:",
        ])
    );
    assert_eq!(run.fetched, texts(&["https://api.open-meteo.com/v1/forecast?latitude=51.5072&longitude=-0.1276&daily=temperature_2m_min,temperature_2m_max&timezone=Europe/London"]));
    assert_eq!(run.status, 0);
}

#[test]
fn a_run_with_custom_entry() {
    let run = play(
        &cities(),
        &["5\n", " 12.50 \n", "1e2\n", "  Europe/Paris \n", "2\n", "\n"],
        Some(WeatherResponse::default()),
    );
    let mut shown = texts(&MENU);
    shown.extend(texts(&["Enter latitude: ", "Enter longitude: ", "Enter timezone: "]));
    shown.extend(texts(&REPORTS));
    shown.extend(texts(&["No daily data available.", "Press enter to exit:"]));
    assert_eq!(run.shown, shown);
    assert_eq!(run.fetched, texts(&["https://api.open-meteo.com/v1/forecast?latitude=12.5&longitude=100&daily=temperature_2m_min,temperature_2m_max&timezone=Europe/Paris"]));
    assert_eq!(run.status, 0);
    assert_eq!(run.steps, 10);
}

#[test]
fn custom_entry_takes_numbers_out_of_range_and_an_empty_time_zone() {
    let run = play(&cities(), &["5", "-91", "1000.5", "\n", "1"], None);
    assert_eq!(run.fetched, texts(&["https://api.open-meteo.com/v1/forecast?latitude=-91&longitude=1000.5&hourly=temperature_2m,precipitation_probability&timezone="]));
}

#[test]
fn a_menu_line_that_is_no_number_ends_the_run_without_failure() {
    for line in ["abc\n", "\n", "1 2\n"] {
        let run = play(&cities(), &[line], Some(answer()));
        assert_eq!(run.shown, texts(&MENU));
        assert_eq!(run.fetched, Vec::<String>::new());
        assert_eq!(run.complaint, Some("Invalid choice".to_string()));
        assert_eq!(run.status, 0);
    }
}

#[test]
fn a_menu_line_that_names_no_city_ends_the_run_without_failure() {
    for line in ["0\n", "6\n", "05\n", "+5\n"] {
        let run = play(&cities(), &[line], Some(answer()));
        assert_eq!(run.fetched, Vec::<String>::new());
        assert_eq!(run.complaint, Some("Choice out of range".to_string()));
        assert_eq!(run.status, 0);
    }
}

#[test]
fn a_latitude_that_is_no_number_fails_the_run_at_once() {
    let run = play(&cities(), &["5\n", "north\n"], Some(answer()));
    let mut shown = texts(&MENU);
    shown.extend(texts(&["Enter latitude: "]));
    assert_eq!(run.shown, shown);
    assert_eq!(run.fetched, Vec::<String>::new());
    assert_eq!(run.complaint, Some("Invalid latitude".to_string()));
    assert_eq!(run.status, 1);
}

#[test]
fn a_longitude_that_is_no_number_fails_the_run_at_once() {
    let run = play(&cities(), &["5\n", "1\n", "\n"], Some(answer()));
    assert_eq!(run.shown.last().unwrap(), "Enter longitude: ");
    assert_eq!(run.fetched, Vec::<String>::new());
    assert_eq!(run.complaint, Some("Invalid longitude".to_string()));
    assert_eq!(run.status, 1);
}

#[test]
fn a_line_that_names_no_report_ends_the_run_and_nothing_is_fetched() {
    for line in ["3\n", "\n", "current\n", "12\n"] {
        let run = play(&cities(), &["2\n", line], Some(answer()));
        assert_eq!(run.fetched, Vec::<String>::new());
        assert_eq!(run.complaint, Some("Invalid option".to_string()));
        assert_eq!(run.status, 0);
    }
}

#[test]
fn a_forecast_that_cannot_be_had_fails_the_run() {
    let run = play(&cities(), &["2\n", "1\n"], None);
    assert_eq!(run.fetched.len(), 1);
    assert_eq!(run.complaint, None);
    assert_eq!(run.status, 1);
    assert_eq!(run.shown.len(), MENU.len() + REPORTS.len());
}

#[test]
fn an_event_that_the_stage_does_not_wait_for_is_turned_away() {
    let menu = cities();
    let place = Coordinates {
        latitude: "1".to_string(),
        longitude: "2".to_string(),
        timezone: "UTC".to_string(),
    };
    assert_eq!(step(&menu, Stage::Start, Event::Line("1".to_string())), None);
    assert_eq!(step(&menu, Stage::Choice, Event::Begin), None);
    assert_eq!(step(&menu, Stage::Latitude, Event::Number(Some("1".to_string()))), None);
    assert_eq!(step(&menu, Stage::LatitudeNumber, Event::Line("1".to_string())), None);
    assert_eq!(step(&menu, Stage::ReportChoice { place }, Event::RequestFailed), None);
    assert_eq!(step(&menu, Stage::Forecast { kind: ReportKind::Current }, Event::Line(String::new())), None);
    assert_eq!(step(&menu, Stage::Farewell, Event::Answer(answer())), None);
    for event in [
        Event::Begin,
        Event::Line(String::new()),
        Event::Number(None),
        Event::Answer(answer()),
        Event::RequestFailed,
    ] {
        assert_eq!(step(&menu, Stage::Finished, event), None);
    }
}

#[test]
fn the_text_to_be_read_as_a_number_is_the_trimmed_line() {
    let menu = cities();
    assert_eq!(
        step(&menu, Stage::Latitude, Event::Line("  -34.9285\r\n".to_string())),
        Some((Stage::LatitudeNumber, Action::ReadNumber { text: "-34.9285".to_string() }))
    );
    assert_eq!(
        step(&menu, Stage::Longitude { latitude: "1".to_string() }, Event::Line("\t x y \n".to_string())),
        Some((
            Stage::LongitudeNumber { latitude: "1".to_string() },
            Action::ReadNumber { text: "x y".to_string() }
        ))
    );
}

#[test]
fn the_same_step_taken_twice_gives_the_same_result() {
    let menu = cities();
    let first = step(&menu, Stage::Choice, Event::Line("2\n".to_string()));
    let second = step(&menu, Stage::Choice, Event::Line("2\n".to_string()));
    assert_eq!(first, second);
    assert!(first.is_some());
}
