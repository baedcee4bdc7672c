//! The weather report and the coded values it holds.

pub mod weathercode;
pub mod winddir;

use crate::error::WeatherError;
use crate::json::{member, members, parse, parsed_members, Scalar};
use crate::weather::weathercode::{condition_of, WeatherCode};
use crate::weather::winddir::{lemma_name_finds_its_point, Winddir16Point};
use vstd::prelude::*;
use vstd::string::*;

verus! {

/// The fields of a record as a JSON document holds them, before any of them
/// is checked: `None` where the document has no such member or has one of
/// another kind.
#[derive(Debug, PartialEq, Eq)]
pub struct RawRecord {
    pub area: Option<String>,
    pub temp: Option<i64>,
    pub sens: Option<i64>,
    pub max: Option<i64>,
    pub min: Option<i64>,
    pub code: Option<i64>,
    pub winddir16_point: Option<String>,
    pub windspeed: Option<i64>,
}

/// A `RawRecord` as a mathematical value.
pub struct RawRecordView {
    pub area: Option<Seq<char>>,
    pub temp: Option<int>,
    pub sens: Option<int>,
    pub max: Option<int>,
    pub min: Option<int>,
    pub code: Option<int>,
    pub winddir16_point: Option<Seq<char>>,
    pub windspeed: Option<int>,
}

/// The characters of an optional string.
pub open spec fn text_of(text: Option<String>) -> Option<Seq<char>> {
    match text {
        Some(s) => Some(s@),
        None => None,
    }
}

/// An optional machine integer as a mathematical one.
pub open spec fn number_of(number: Option<i64>) -> Option<int> {
    match number {
        Some(n) => Some(n as int),
        None => None,
    }
}

impl View for RawRecord {
    type V = RawRecordView;

    open spec fn view(&self) -> RawRecordView {
        RawRecordView {
            area: text_of(self.area),
            temp: number_of(self.temp),
            sens: number_of(self.sens),
            max: number_of(self.max),
            min: number_of(self.min),
            code: number_of(self.code),
            winddir16_point: text_of(self.winddir16_point),
            windspeed: number_of(self.windspeed),
        }
    }
}

/// The current weather at one place.
#[derive(Debug, Clone, PartialEq, Eq)]
pub struct Response {
    area: String,
    temp: i32,
    sens: i32,
    max: i32,
    min: i32,
    code: WeatherCode,
    winddir16_point: Winddir16Point,
    windspeed: u32,
}

/// A `Response` as a mathematical value. Temperatures are in degrees
/// Celsius, the wind speed in kilometres per hour; `code` is the number of
/// the weather code.
pub struct ResponseView {
    pub area: Seq<char>,
    pub temp: int,
    pub sens: int,
    pub max: int,
    pub min: int,
    pub code: int,
    pub winddir16_point: Winddir16Point,
    pub windspeed: int,
}

impl View for Response {
    type V = ResponseView;

    closed spec fn view(&self) -> ResponseView {
        ResponseView {
            area: self.area@,
            temp: self.temp as int,
            sens: self.sens as int,
            max: self.max as int,
            min: self.min as int,
            code: self.code@,
            winddir16_point: self.winddir16_point,
            windspeed: self.windspeed as int,
        }
    }
}

/// Whether an optional integer is there and is a temperature that a record
/// can hold.
pub open spec fn is_temperature(number: Option<int>) -> bool {
    number matches Some(n) && i32::MIN <= n <= i32::MAX
}

/// Whether an optional integer is there and is a speed that a record can
/// hold.
pub open spec fn is_speed(number: Option<int>) -> bool {
    number matches Some(n) && 0 <= n <= u32::MAX
}

/// Whether the raw fields make a record: all eight are there, the numbers
/// fit their fields, the code is in the provider's list and the wind
/// direction is the name of a compass point.
pub open spec fn is_complete(raw: RawRecordView) -> bool {
    &&& raw.area is Some
    &&& is_temperature(raw.temp)
    &&& is_temperature(raw.sens)
    &&& is_temperature(raw.max)
    &&& is_temperature(raw.min)
    &&& raw.code matches Some(code) && condition_of(code) is Some
    &&& raw.winddir16_point matches Some(name) && Winddir16Point::named(name) is Some
    &&& is_speed(raw.windspeed)
}

/// The record that the raw fields make: each field as it was read, the wind
/// direction as the compass point of that name. Fields that do not make a
/// record are malformed; there is no stand-in for a missing or unknown value.
pub open spec fn record_of(raw: RawRecordView) -> Result<ResponseView, WeatherError> {
    if is_complete(raw) {
        Ok(
            ResponseView {
                area: raw.area->0,
                temp: raw.temp->0,
                sens: raw.sens->0,
                max: raw.max->0,
                min: raw.min->0,
                code: raw.code->0,
                winddir16_point: Winddir16Point::named(raw.winddir16_point->0)->0,
                windspeed: raw.windspeed->0,
            },
        )
    } else {
        Err(WeatherError::MalformedRecord)
    }
}

/// The integer under `key`, where the members have one there.
pub open spec fn integer_at(all: Map<Seq<char>, Scalar>, key: Seq<char>) -> Option<int> {
    if all.contains_key(key) && all[key] is Integer {
        Some(all[key]->Integer_0)
    } else {
        None
    }
}

/// The string under `key`, where the members have one there.
pub open spec fn text_at(all: Map<Seq<char>, Scalar>, key: Seq<char>) -> Option<Seq<char>> {
    if all.contains_key(key) && all[key] is Text {
        Some(all[key]->Text_0)
    } else {
        None
    }
}

/// The raw fields among the members of a document's top-level object, each
/// under its key.
pub open spec fn raw_fields(all: Map<Seq<char>, Scalar>) -> RawRecordView {
    RawRecordView {
        area: text_at(all, "area"@),
        temp: integer_at(all, "temp"@),
        sens: integer_at(all, "sens"@),
        max: integer_at(all, "max"@),
        min: integer_at(all, "min"@),
        code: integer_at(all, "code"@),
        winddir16_point: text_at(all, "winddir16Point"@),
        windspeed: integer_at(all, "windspeed"@),
    }
}

/// The record that a text holds: the one that the fields of its JSON
/// document make. A text that is no JSON document holds none.
pub open spec fn record_in(text: Seq<char>) -> Result<ResponseView, WeatherError> {
    match parsed_members(text) {
        Some(all) => record_of(raw_fields(all)),
        None => Err(WeatherError::MalformedRecord),
    }
}

/// The outcome of making a record, as a mathematical value.
pub open spec fn outcome_view(outcome: Result<Response, WeatherError>) -> Result<
    ResponseView,
    WeatherError,
> {
    match outcome {
        Ok(record) => Ok(record@),
        Err(error) => Err(error),
    }
}

/// Whether the values are ones that a record can hold: temperatures and
/// speed within their fields, and a code of the provider's list.
pub open spec fn is_record(record: ResponseView) -> bool {
    &&& i32::MIN <= record.temp <= i32::MAX
    &&& i32::MIN <= record.sens <= i32::MAX
    &&& i32::MIN <= record.max <= i32::MAX
    &&& i32::MIN <= record.min <= i32::MAX
    &&& condition_of(record.code) is Some
    &&& 0 <= record.windspeed <= u32::MAX
}

/// Whether the members hold each field of the record under its key: the
/// place and the name of the wind direction as strings, the rest as
/// integers.
pub open spec fn holds_fields(all: Map<Seq<char>, Scalar>, record: ResponseView) -> bool {
    &&& all.contains_pair("area"@, Scalar::Text(record.area))
    &&& all.contains_pair("temp"@, Scalar::Integer(record.temp))
    &&& all.contains_pair("sens"@, Scalar::Integer(record.sens))
    &&& all.contains_pair("max"@, Scalar::Integer(record.max))
    &&& all.contains_pair("min"@, Scalar::Integer(record.min))
    &&& all.contains_pair("code"@, Scalar::Integer(record.code))
    &&& all.contains_pair("winddir16Point"@, Scalar::Text(record.winddir16_point.name()))
    &&& all.contains_pair("windspeed"@, Scalar::Integer(record.windspeed))
}

/// The keys of the eight fields.
pub open spec fn field_keys() -> Set<Seq<char>> {
    set![
        "area"@,
        "temp"@,
        "sens"@,
        "max"@,
        "min"@,
        "code"@,
        "winddir16Point"@,
        "windspeed"@,
    ]
}

/// A document that holds all eight fields of a record parses into that
/// record: every field comes back as it was written.
pub proof fn lemma_complete_document_round_trips(text: Seq<char>, record: ResponseView)
    requires
        is_record(record),
        parsed_members(text) matches Some(all) && holds_fields(all, record),
    ensures
        record_in(text) == Ok::<ResponseView, WeatherError>(record),
{
    lemma_name_finds_its_point(record.winddir16_point);
}

/// A document that lacks one of the eight fields is malformed, whatever
/// else it holds.
pub proof fn lemma_missing_field_is_malformed(text: Seq<char>, key: Seq<char>)
    requires
        field_keys().contains(key),
        parsed_members(text) matches Some(all) && !all.contains_key(key),
    ensures
        record_in(text) == Err::<ResponseView, WeatherError>(WeatherError::MalformedRecord),
{
}

/// A document whose code is not in the provider's list is malformed,
/// whatever else it holds.
pub proof fn lemma_unlisted_code_is_malformed(text: Seq<char>, code: int)
    requires
        condition_of(code) is None,
        parsed_members(text) matches Some(all) && all.contains_pair(
            "code"@,
            Scalar::Integer(code),
        ),
    ensures
        record_in(text) == Err::<ResponseView, WeatherError>(WeatherError::MalformedRecord),
{
}

/// A record is only ever made of values that it can hold.
pub proof fn lemma_record_of_is_record(raw: RawRecordView)
    ensures
        record_of(raw) matches Ok(record) ==> is_record(record),
{
}

fn integer_member(document: &serde_json::Value, key: &str) -> (found: Option<i64>)
    ensures
        number_of(found) == integer_at(members(*document), key@),
{
    match member(document, key) {
        Some(inner) => inner.as_i64(),
        None => None,
    }
}

fn text_member(document: &serde_json::Value, key: &str) -> (found: Option<String>)
    ensures
        text_of(found) == text_at(members(*document), key@),
{
    match member(document, key) {
        Some(inner) => match inner.as_str() {
            Some(text) => Some(String::from_str(text)),
            None => None,
        },
        None => None,
    }
}

fn temperature(number: Option<i64>) -> (checked: Option<i32>)
    ensures
        checked is Some <==> is_temperature(number_of(number)),
        checked matches Some(t) ==> number == Some(t as i64),
{
    match number {
        Some(n) => if -2147483648 <= n && n <= 2147483647 {
            Some(n as i32)
        } else {
            None
        },
        None => None,
    }
}

fn speed(number: Option<i64>) -> (checked: Option<u32>)
    ensures
        checked is Some <==> is_speed(number_of(number)),
        checked matches Some(s) ==> number == Some(s as i64),
{
    match number {
        Some(n) => if 0 <= n && n <= 4294967295 {
            Some(n as u32)
        } else {
            None
        },
        None => None,
    }
}

impl RawRecord {
    /// Reads the eight fields from a parsed document.
    pub fn from_document(document: &serde_json::Value) -> (raw: RawRecord)
        ensures
            raw@ == raw_fields(members(*document)),
    {
        RawRecord {
            area: text_member(document, "area"),
            temp: integer_member(document, "temp"),
            sens: integer_member(document, "sens"),
            max: integer_member(document, "max"),
            min: integer_member(document, "min"),
            code: integer_member(document, "code"),
            winddir16_point: text_member(document, "winddir16Point"),
            windspeed: integer_member(document, "windspeed"),
        }
    }
}

impl Response {
    /// Makes a record of raw fields, or says that they are malformed.
    pub fn from_raw(raw: RawRecord) -> (outcome: Result<Response, WeatherError>)
        ensures
            outcome_view(outcome) == record_of(raw@),
    {
        let area = match raw.area {
            Some(area) => area,
            None => {
                return Err(WeatherError::MalformedRecord);
            },
        };
        let temp = match temperature(raw.temp) {
            Some(temp) => temp,
            None => {
                return Err(WeatherError::MalformedRecord);
            },
        };
        let sens = match temperature(raw.sens) {
            Some(sens) => sens,
            None => {
                return Err(WeatherError::MalformedRecord);
            },
        };
        let max = match temperature(raw.max) {
            Some(max) => max,
            None => {
                return Err(WeatherError::MalformedRecord);
            },
        };
        let min = match temperature(raw.min) {
            Some(min) => min,
            None => {
                return Err(WeatherError::MalformedRecord);
            },
        };
        let code = match raw.code {
            Some(number) => match WeatherCode::from_code(number) {
                Some(code) => code,
                None => {
                    return Err(WeatherError::MalformedRecord);
                },
            },
            None => {
                return Err(WeatherError::MalformedRecord);
            },
        };
        let winddir16_point = match raw.winddir16_point {
            Some(name) => match Winddir16Point::from_text(name.as_str()) {
                Some(point) => point,
                None => {
                    return Err(WeatherError::MalformedRecord);
                },
            },
            None => {
                return Err(WeatherError::MalformedRecord);
            },
        };
        let windspeed = match speed(raw.windspeed) {
            Some(windspeed) => windspeed,
            None => {
                return Err(WeatherError::MalformedRecord);
            },
        };
        Ok(Response { area, temp, sens, max, min, code, winddir16_point, windspeed })
    }

    /// Makes a record of a parsed document.
    pub fn from_document(document: &serde_json::Value) -> (outcome: Result<
        Response,
        WeatherError,
    >)
        ensures
            outcome_view(outcome) == record_of(raw_fields(members(*document))),
    {
        Response::from_raw(RawRecord::from_document(document))
    }

    /// Parses a JSON text into a record.
    pub fn from_json(text: &str) -> (outcome: Result<Response, WeatherError>)
        ensures
            outcome_view(outcome) == record_in(text@),
    {
        match parse(text) {
            Ok(document) => Response::from_document(&document),
            Err(_) => Err(WeatherError::MalformedRecord),
        }
    }

    /// The name of the place.
    pub fn area(&self) -> (area: &String)
        ensures
            area@ == self@.area,
    {
        &self.area
    }

    /// The temperature.
    pub fn temp(&self) -> (temp: &i32)
        ensures
            *temp == self@.temp,
    {
        &self.temp
    }

    /// The temperature as it feels.
    pub fn sens(&self) -> (sens: &i32)
        ensures
            *sens == self@.sens,
    {
        &self.sens
    }

    /// The highest temperature of the day.
    pub fn max(&self) -> (max: &i32)
        ensures
            *max == self@.max,
    {
        &self.max
    }

    /// The lowest temperature of the day.
    pub fn min(&self) -> (min: &i32)
        ensures
            *min == self@.min,
    {
        &self.min
    }

    /// The weather code.
    pub fn code(&self) -> (code: &WeatherCode)
        ensures
            code@ == self@.code,
    {
        &self.code
    }

    /// The direction the wind blows from.
    pub fn winddir16_point(&self) -> (point: &Winddir16Point)
        ensures
            *point == self@.winddir16_point,
    {
        &self.winddir16_point
    }

    /// The wind speed.
    pub fn windspeed(&self) -> (windspeed: &u32)
        ensures
            *windspeed == self@.windspeed,
    {
        &self.windspeed
    }
}

} // verus!
