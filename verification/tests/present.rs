use wttr::present::{render, Commands, DescriptionType, SPEED, TEMP};
use wttr::weather::{RawRecord, Response};

fn london() -> Response {
    Response::from_json(
        r#"{"area":"London","temp":10,"sens":8,"max":12,"min":5,"code":113,"winddir16Point":"N","windspeed":14}"#,
    )
    .unwrap()
}

fn oymyakon() -> Response {
    Response::from_raw(RawRecord {
        area: Some("Оймякон".to_string()),
        temp: Some(-52),
        sens: Some(-60),
        max: Some(-48),
        min: Some(-55),
        code: Some(230),
        winddir16_point: Some("SSW".to_string()),
        windspeed: Some(0),
    })
    .unwrap()
}

#[test]
fn the_units() {
    assert_eq!(TEMP, "°C");
    assert_eq!(SPEED, "km/h");
}

#[test]
fn full_summary_of_london() {
    assert_eq!(
        render(&london(), &Commands::Full),
        "London: ☀ 10°C (8°C) | ↑ 14km/h | max:12°C | min:5°C"
    );
}

#[test]
fn full_summary_with_negative_temperatures() {
    assert_eq!(
        render(&oymyakon(), &Commands::Full),
        "Оймякон: ❄ -52°C (-60°C) | ↙ 0km/h | max:-48°C | min:-55°C"
    );
}

#[test]
fn area_is_printed_as_it_is() {
    assert_eq!(render(&london(), &Commands::Area), "London");
    assert_eq!(render(&oymyakon(), &Commands::Area), "Оймякон");
}

#[test]
fn temperatures_carry_their_unit() {
    let record = london();
    assert_eq!(render(&record, &Commands::Temperature), "10°C");
    assert_eq!(render(&record, &Commands::FeelTemperature), "8°C");
    assert_eq!(render(&record, &Commands::MaxTemperature), "12°C");
    assert_eq!(render(&record, &Commands::MinTemperature), "5°C");
    let cold = oymyakon();
    assert_eq!(render(&cold, &Commands::Temperature), "-52°C");
    assert_eq!(render(&cold, &Commands::FeelTemperature), "-60°C");
    assert_eq!(render(&cold, &Commands::MaxTemperature), "-48°C");
    assert_eq!(render(&cold, &Commands::MinTemperature), "-55°C");
}

#[test]
fn wind_speed_carries_its_unit() {
    assert_eq!(render(&london(), &Commands::WindSpeed), "14km/h");
    assert_eq!(render(&oymyakon(), &Commands::WindSpeed), "0km/h");
}

#[test]
fn description_as_text_and_as_emoji() {
    let text = Commands::Description { description_type: DescriptionType::Text };
    let emoji = Commands::Description { description_type: DescriptionType::Emoji };
    assert_eq!(render(&london(), &text), "Sunny");
    assert_eq!(render(&london(), &emoji), "☀");
    assert_eq!(render(&oymyakon(), &text), "HeavySnow");
    assert_eq!(render(&oymyakon(), &emoji), "❄");
}

#[test]
fn wind_direction_as_text_and_as_arrow() {
    let text = Commands::WindDirection { description_type: DescriptionType::Text };
    let emoji = Commands::WindDirection { description_type: DescriptionType::Emoji };
    assert_eq!(render(&london(), &text), "N");
    assert_eq!(render(&london(), &emoji), "↑");
    assert_eq!(render(&oymyakon(), &text), "SSW");
    assert_eq!(render(&oymyakon(), &emoji), "↙");
}

#[test]
fn a_record_at_a_glance() {
    assert_eq!(london().to_string(), "↑ ☀");
    assert_eq!(oymyakon().to_string(), "↙ ❄");
}

#[test]
fn the_extremes_are_printed_in_full() {
    let record = Response::from_raw(RawRecord {
        area: Some(String::new()),
        temp: Some(2147483647),
        sens: Some(-2147483648),
        max: Some(0),
        min: Some(-1),
        code: Some(389),
        winddir16_point: Some("ENE".to_string()),
        windspeed: Some(4294967295),
    })
    .unwrap();
    assert_eq!(
        render(&record, &Commands::Full),
        ": 🌩 2147483647°C (-2147483648°C) | ↗ 4294967295km/h | max:0°C | min:-1°C"
    );
    assert_eq!(render(&record, &Commands::Area), "");
}
