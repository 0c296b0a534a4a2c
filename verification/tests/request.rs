use weather_lookup::location::Coordinates;
use weather_lookup::request::{build_target, construct_url, report_kind, ReportKind};

fn adelaide() -> Coordinates {
    Coordinates {
        latitude: (-34.9285f64).to_string(),
        longitude: (138.6007f64).to_string(),
        timezone: "Australia/Adelaide".to_string(),
    }
}

#[test]
fn test_construct_url_current_weather() {
    let url = construct_url(
        &(-34.9285f64).to_string(),
        &(138.6007f64).to_string(),
        "Australia/Adelaide",
        "1",
    );
    assert_eq!(url, "https://api.open-meteo.com/v1/forecast?latitude=-34.9285&longitude=138.6007&hourly=temperature_2m,precipitation_probability&timezone=Australia/Adelaide");
}

#[test]
fn test_construct_url_invalid_option() {
    let url = construct_url(
        &(-34.9285f64).to_string(),
        &(138.6007f64).to_string(),
        "Australia/Adelaide",
        "3",
    );
    assert_eq!(url, "");
}

#[test]
fn construct_url_for_the_week_asks_for_the_daily_series() {
    let url = construct_url("51.5072", "-0.1276", "Europe/London", "2");
    assert_eq!(url, "https://api.open-meteo.com/v1/forecast?latitude=51.5072&longitude=-0.1276&daily=temperature_2m_min,temperature_2m_max&timezone=Europe/London");
}

#[test]
fn the_query_of_the_current_weather_has_its_four_parameters() {
    let url = build_target(&adelaide(), ReportKind::Current);
    let (address, query) = url.split_once('?').unwrap();
    assert_eq!(address, "https://api.open-meteo.com/v1/forecast");
    let mut parameters: Vec<&str> = query.split('&').collect();
    parameters.sort();
    assert_eq!(
        parameters,
        vec![
            "hourly=temperature_2m,precipitation_probability",
            "latitude=-34.9285",
            "longitude=138.6007",
            "timezone=Australia/Adelaide",
        ]
    );
}

#[test]
fn build_target_and_construct_url_agree() {
    let place = adelaide();
    assert_eq!(
        build_target(&place, ReportKind::Current),
        construct_url(&place.latitude, &place.longitude, &place.timezone, "1")
    );
    assert_eq!(
        build_target(&place, ReportKind::WeeklyMinMax),
        construct_url(&place.latitude, &place.longitude, &place.timezone, "2")
    );
}

#[test]
fn an_option_that_names_no_report_gives_the_empty_address() {
    for option in ["", "0", "3", "12", " 1", "1 ", "1\n", "one", "+1", "01"] {
        assert_eq!(construct_url("1", "2", "UTC", option), "", "{:?}", option);
        assert_eq!(report_kind(option), None, "{:?}", option);
    }
}

#[test]
fn report_kind_reads_the_two_options() {
    assert_eq!(report_kind("1"), Some(ReportKind::Current));
    assert_eq!(report_kind("2"), Some(ReportKind::WeeklyMinMax));
}

#[test]
fn the_texts_of_the_place_go_in_as_they_are() {
    let place = Coordinates {
        latitude: "NaN".to_string(),
        longitude: "1e400".to_string(),
        timezone: "a b&c=d".to_string(),
    };
    assert_eq!(
        build_target(&place, ReportKind::WeeklyMinMax),
        "https://api.open-meteo.com/v1/forecast?latitude=NaN&longitude=1e400&daily=temperature_2m_min,temperature_2m_max&timezone=a b&c=d"
    );
    let empty = Coordinates { latitude: String::new(), longitude: String::new(), timezone: String::new() };
    assert_eq!(
        build_target(&empty, ReportKind::Current),
        "https://api.open-meteo.com/v1/forecast?latitude=&longitude=&hourly=temperature_2m,precipitation_probability&timezone="
    );
}

#[test]
fn building_twice_gives_the_same_address() {
    let place = adelaide();
    assert_eq!(build_target(&place, ReportKind::Current), build_target(&place, ReportKind::Current));
    assert_eq!(construct_url("1", "2", "UTC", "2"), construct_url("1", "2", "UTC", "2"));
    assert_eq!(construct_url("1", "2", "UTC", "x"), construct_url("1", "2", "UTC", "x"));
}
