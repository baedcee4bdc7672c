use wttr::cache::CacheProbe;
use wttr::error::WeatherError;
use wttr::pipeline::{Event, Pipeline, Request, Step, EXTRACTION_QUERY, PROVIDER_URL};
use wttr::present::{render, Commands};
use wttr::weather::Response;

const LONDON: &str = "{\"area\":\"London\",\"temp\":10,\"sens\":8,\"max\":12,\"min\":5,\"code\":113,\"winddir16Point\":\"N\",\"windspeed\":14}\n";

const REPORT: &str = r#"{"current_condition":[{"FeelsLikeC":"8","temp_C":"10","weatherCode":"113","winddir16Point":"N","windspeedKmph":"14"}],"nearest_area":[{"areaName":[{"value":"London"}]}],"weather":[{"maxtempC":"12","mintempC":"5"}]}"#;

/// Stands in for the file system, the network and the extraction: answers
/// each request from what it holds and keeps a list of what was asked.
struct World {
    cache: Option<(u64, String)>,
    report: Option<String>,
    extracted: Option<String>,
    writable: bool,
    asked: Vec<String>,
}

fn world(cache: Option<(u64, &str)>) -> World {
    World {
        cache: cache.map(|(age, text)| (age, text.to_string())),
        report: Some(REPORT.to_string()),
        extracted: Some(LONDON.to_string()),
        writable: true,
        asked: Vec::new(),
    }
}

fn answer(world: &mut World, request: Request) -> Event {
    match request {
        Request::ProbeCache => {
            world.asked.push("probe".to_string());
            match &world.cache {
                Some((age, _)) => Event::Probed(CacheProbe::Found { age_secs: *age }),
                None => Event::Probed(CacheProbe::Missing),
            }
        }
        Request::ReadCache => {
            world.asked.push("read".to_string());
            Event::CacheRead(world.cache.as_ref().map(|(_, text)| text.clone()))
        }
        Request::RemoveCache => {
            world.asked.push("remove".to_string());
            world.cache = None;
            Event::Removed(true)
        }
        Request::Fetch => {
            world.asked.push("fetch".to_string());
            Event::Fetched(world.report.clone())
        }
        Request::Extract(report) => {
            world.asked.push("extract".to_string());
            assert_eq!(Some(report), world.report);
            Event::Extracted(world.extracted.clone())
        }
        Request::WriteCache(text) => {
            world.asked.push("write".to_string());
            if world.writable {
                world.cache = Some((0, text));
            }
            Event::Written(world.writable)
        }
    }
}

fn run(world: &mut World, no_cache: bool) -> Result<Response, WeatherError> {
    let mut step = Pipeline::start(no_cache, true);
    for _ in 0..10 {
        match step {
            Step::Perform(pipeline, request) => {
                let event = answer(world, request);
                step = pipeline.step(event);
            }
            Step::Finish(record) => return Ok(record),
            Step::Fail(error) => return Err(error),
        }
    }
    panic!("the lookup did not end");
}

#[test]
fn the_provider_and_the_query() {
    assert_eq!(PROVIDER_URL, "https://wttr.in/?format=j1");
    assert!(EXTRACTION_QUERY.contains("area: .nearest_area[0].areaName[0].value"));
    assert!(EXTRACTION_QUERY.contains("temp: (.current_condition[0].temp_C)|tonumber"));
    assert!(EXTRACTION_QUERY.contains("sens: (.current_condition[0].FeelsLikeC)|tonumber"));
    assert!(EXTRACTION_QUERY.contains("max: (.weather[0].maxtempC)|tonumber"));
    assert!(EXTRACTION_QUERY.contains("min: (.weather[0].mintempC)|tonumber"));
    assert!(EXTRACTION_QUERY.contains("code: (.current_condition[0].weatherCode)|tonumber"));
    assert!(EXTRACTION_QUERY.contains("winddir16Point: .current_condition[0].winddir16Point"));
    assert!(EXTRACTION_QUERY.contains("windspeed: (.current_condition[0].windspeedKmph)|tonumber"));
}

#[test]
fn cold_start_fetches_once_and_fills_the_cache() {
    let mut world = world(None);
    let record = run(&mut world, false).unwrap();
    assert_eq!(world.asked, vec!["probe", "fetch", "extract", "write"]);
    assert_eq!(world.asked.iter().filter(|asked| *asked == "fetch").count(), 1);
    assert_eq!(world.cache, Some((0, LONDON.to_string())));
    assert_eq!(render(&record, &Commands::Area), "London");
}

#[test]
fn no_cache_fetches_although_the_cache_is_fresh() {
    let stored = r#"{"area":"Paris","temp":1,"sens":1,"max":1,"min":1,"code":116,"winddir16Point":"S","windspeed":1}"#;
    let mut world = world(Some((5, stored)));
    let record = run(&mut world, true).unwrap();
    assert_eq!(world.asked, vec!["fetch", "extract", "write"]);
    assert_eq!(render(&record, &Commands::Area), "London");
    assert_eq!(world.cache, Some((0, LONDON.to_string())));
}

#[test]
fn no_cache_starts_with_the_fetch() {
    assert_eq!(Pipeline::start(true, true), Step::Perform(Pipeline::Fetching, Request::Fetch));
}

#[test]
fn a_lookup_starts_with_a_look_at_the_cache() {
    assert_eq!(Pipeline::start(false, true), Step::Perform(Pipeline::Probing, Request::ProbeCache));
}

#[test]
fn without_a_home_directory_nothing_is_looked_up() {
    assert_eq!(Pipeline::start(false, false), Step::Fail(WeatherError::HomeDirUnavailable));
    assert_eq!(Pipeline::start(true, false), Step::Fail(WeatherError::HomeDirUnavailable));
}

#[test]
fn a_fresh_cache_is_read_and_nothing_else_happens() {
    let stored = r#"{"area":"Paris","temp":1,"sens":2,"max":3,"min":0,"code":116,"winddir16Point":"S","windspeed":4}"#;
    for age in [0, 1, 3599, 3600] {
        let mut world = world(Some((age, stored)));
        let record = run(&mut world, false).unwrap();
        assert_eq!(world.asked, vec!["probe", "read"], "{}", age);
        assert_eq!(world.cache, Some((age, stored.to_string())));
        assert_eq!(Ok(record), Response::from_json(stored));
    }
}

#[test]
fn a_stale_cache_is_removed_and_replaced() {
    let stored = r#"{"area":"Paris","temp":1,"sens":2,"max":3,"min":0,"code":116,"winddir16Point":"S","windspeed":4}"#;
    for age in [3601, 7200, u64::MAX] {
        let mut world = world(Some((age, stored)));
        let record = run(&mut world, false).unwrap();
        assert_eq!(world.asked, vec!["probe", "remove", "fetch", "extract", "write"], "{}", age);
        assert_eq!(world.cache, Some((0, LONDON.to_string())));
        assert_eq!(render(&record, &Commands::Area), "London");
    }
}

#[test]
fn probing_decides_by_the_age() {
    let at = |age_secs| Pipeline::Probing.step(Event::Probed(CacheProbe::Found { age_secs }));
    assert_eq!(at(3600), Step::Perform(Pipeline::Reading, Request::ReadCache));
    assert_eq!(at(3601), Step::Perform(Pipeline::Removing, Request::RemoveCache));
    assert_eq!(
        Pipeline::Probing.step(Event::Probed(CacheProbe::Missing)),
        Step::Perform(Pipeline::Fetching, Request::Fetch)
    );
    assert_eq!(
        Pipeline::Probing.step(Event::Probed(CacheProbe::Failed)),
        Step::Fail(WeatherError::CacheIoError)
    );
}

#[test]
fn a_cache_that_cannot_be_read_fails_the_lookup() {
    assert_eq!(Pipeline::Reading.step(Event::CacheRead(None)), Step::Fail(WeatherError::CacheIoError));
}

#[test]
fn a_cache_that_holds_no_record_fails_the_lookup() {
    for stored in ["", "{}", "not json", r#"{"area":"Paris"}"#] {
        let mut world = world(Some((10, stored)));
        assert_eq!(run(&mut world, false), Err(WeatherError::MalformedRecord));
        assert_eq!(world.asked, vec!["probe", "read"]);
    }
}

#[test]
fn a_cache_that_cannot_be_removed_fails_the_lookup() {
    assert_eq!(Pipeline::Removing.step(Event::Removed(false)), Step::Fail(WeatherError::CacheIoError));
    assert_eq!(
        Pipeline::Removing.step(Event::Removed(true)),
        Step::Perform(Pipeline::Fetching, Request::Fetch)
    );
}

#[test]
fn a_failed_request_to_the_provider_fails_the_lookup() {
    let mut world = world(None);
    world.report = None;
    assert_eq!(run(&mut world, false), Err(WeatherError::NetworkError));
    assert_eq!(world.asked, vec!["probe", "fetch"]);
    assert_eq!(world.cache, None);
}

#[test]
fn the_report_is_handed_to_the_extraction_as_it_came() {
    assert_eq!(
        Pipeline::Fetching.step(Event::Fetched(Some(REPORT.to_string()))),
        Step::Perform(Pipeline::Extracting, Request::Extract(REPORT.to_string()))
    );
}

#[test]
fn a_failed_extraction_fails_the_lookup() {
    let mut world = world(None);
    world.extracted = None;
    assert_eq!(run(&mut world, false), Err(WeatherError::ExtractionError));
    assert_eq!(world.asked, vec!["probe", "fetch", "extract"]);
    assert_eq!(world.cache, None);
}

#[test]
fn an_extraction_that_is_no_json_is_not_written() {
    for text in ["", "jq: error", "{\"area\":", "{}\n{}\n"] {
        let mut world = world(None);
        world.extracted = Some(text.to_string());
        assert_eq!(run(&mut world, false), Err(WeatherError::ExtractionError), "{:?}", text);
        assert_eq!(world.asked, vec!["probe", "fetch", "extract"]);
        assert_eq!(world.cache, None);
    }
}

#[test]
fn an_extraction_that_holds_no_record_is_written_and_fails() {
    let text = r#"{"area":"London","temp":10,"sens":8,"max":12,"min":5,"code":114,"winddir16Point":"N","windspeed":14}"#;
    let mut world = world(None);
    world.extracted = Some(text.to_string());
    assert_eq!(run(&mut world, false), Err(WeatherError::MalformedRecord));
    assert_eq!(world.asked, vec!["probe", "fetch", "extract", "write"]);
    assert_eq!(world.cache, Some((0, text.to_string())));
}

#[test]
fn the_extracted_text_is_written_as_it_came() {
    let step = Pipeline::Extracting.step(Event::Extracted(Some(LONDON.to_string())));
    assert_eq!(
        step,
        Step::Perform(
            Pipeline::Writing(Response::from_json(LONDON)),
            Request::WriteCache(LONDON.to_string())
        )
    );
}

#[test]
fn a_cache_that_cannot_be_written_fails_the_lookup() {
    let mut world = world(None);
    world.writable = false;
    assert_eq!(run(&mut world, false), Err(WeatherError::CacheIoError));
    assert_eq!(world.asked, vec!["probe", "fetch", "extract", "write"]);
}

#[test]
fn the_record_is_delivered_once_the_cache_is_written() {
    let record = Response::from_json(LONDON).unwrap();
    assert_eq!(
        Pipeline::Writing(Ok(record.clone())).step(Event::Written(true)),
        Step::Finish(record)
    );
    assert_eq!(
        Pipeline::Writing(Err(WeatherError::MalformedRecord)).step(Event::Written(true)),
        Step::Fail(WeatherError::MalformedRecord)
    );
}

#[test]
fn an_event_that_answers_another_request_counts_as_failure() {
    assert_eq!(Pipeline::Probing.step(Event::Written(true)), Step::Fail(WeatherError::CacheIoError));
    assert_eq!(
        Pipeline::Reading.step(Event::Fetched(Some(LONDON.to_string()))),
        Step::Fail(WeatherError::CacheIoError)
    );
    assert_eq!(Pipeline::Removing.step(Event::Written(true)), Step::Fail(WeatherError::CacheIoError));
    assert_eq!(
        Pipeline::Fetching.step(Event::CacheRead(Some(LONDON.to_string()))),
        Step::Fail(WeatherError::NetworkError)
    );
    assert_eq!(
        Pipeline::Extracting.step(Event::Fetched(Some(LONDON.to_string()))),
        Step::Fail(WeatherError::ExtractionError)
    );
    assert_eq!(
        Pipeline::Writing(Response::from_json(LONDON)).step(Event::Removed(true)),
        Step::Fail(WeatherError::CacheIoError)
    );
}
