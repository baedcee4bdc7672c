//! What is printed for each command.

use crate::text::{decimal, decimal_string};
use crate::weather::weathercode::condition_of;
use crate::weather::{Response, ResponseView};
use vstd::prelude::*;
use vstd::string::*;

verus! {

/// The unit printed behind every temperature.
pub const TEMP: &'static str = "°C";

/// The unit printed behind the wind speed.
pub const SPEED: &'static str = "km/h";

/// How a coded value is shown.
#[derive(Debug, Clone, Copy, PartialEq, Eq, Structural)]
pub enum DescriptionType {
    /// By its name.
    Text,
    /// By its glyph.
    Emoji,
}

/// The field, or the summary, that a lookup prints.
#[derive(Debug, Clone, Copy, PartialEq, Eq, Structural)]
pub enum Commands {
    /// Current temperature.
    Temperature,
    /// Current temperature as it feels.
    FeelTemperature,
    /// The weather condition.
    Description { description_type: DescriptionType },
    /// Wind speed.
    WindSpeed,
    /// Wind direction on the sixteen-point rose.
    WindDirection { description_type: DescriptionType },
    /// Lowest temperature of the day.
    MinTemperature,
    /// Highest temperature of the day.
    MaxTemperature,
    /// The place the report is for.
    Area,
    /// All of the above in one line.
    Full,
}

/// A temperature with its unit.
pub open spec fn degrees(temperature: int) -> Seq<char> {
    decimal(temperature) + TEMP@
}

/// A wind speed with its unit.
pub open spec fn kmh(speed: int) -> Seq<char> {
    decimal(speed) + SPEED@
}

/// The weather condition of a record, shown as asked.
pub open spec fn description(record: ResponseView, description_type: DescriptionType) -> Seq<
    char,
> {
    match description_type {
        DescriptionType::Text => condition_of(record.code)->0.name(),
        DescriptionType::Emoji => seq![condition_of(record.code)->0.emoji()],
    }
}

/// The wind direction of a record, shown as asked.
pub open spec fn wind_direction(record: ResponseView, description_type: DescriptionType) -> Seq<
    char,
> {
    match description_type {
        DescriptionType::Text => record.winddir16_point.name(),
        DescriptionType::Emoji => seq![record.winddir16_point.arrow()],
    }
}

/// The one-line summary of a record: the place, the condition and the
/// temperature with the felt temperature in brackets, then the wind, then
/// the day's highest and lowest temperature.
pub open spec fn summary(record: ResponseView) -> Seq<char> {
    record.area + ": "@ + description(record, DescriptionType::Emoji) + " "@ + degrees(
        record.temp,
    ) + " ("@ + degrees(record.sens) + ") | "@ + wind_direction(record, DescriptionType::Emoji)
        + " "@ + kmh(record.windspeed) + " | max:"@ + degrees(record.max) + " | min:"@ + degrees(
        record.min,
    )
}

/// The wind and the condition of a record as two glyphs with a blank between
/// them.
pub open spec fn glyphs(record: ResponseView) -> Seq<char> {
    wind_direction(record, DescriptionType::Emoji) + " "@ + description(
        record,
        DescriptionType::Emoji,
    )
}

/// The line that a command prints for a record. Numbers carry their unit;
/// the place and the coded values stand alone.
pub open spec fn rendering(record: ResponseView, command: Commands) -> Seq<char> {
    match command {
        Commands::Area => record.area,
        Commands::Temperature => degrees(record.temp),
        Commands::MaxTemperature => degrees(record.max),
        Commands::MinTemperature => degrees(record.min),
        Commands::FeelTemperature => degrees(record.sens),
        Commands::WindSpeed => kmh(record.windspeed),
        Commands::Description { description_type } => description(record, description_type),
        Commands::WindDirection { description_type } => wind_direction(record, description_type),
        Commands::Full => summary(record),
    }
}

fn degrees_string(temperature: i32) -> (shown: String)
    ensures
        shown@ == degrees(temperature as int),
{
    let mut shown = decimal_string(temperature as i64);
    shown.append(TEMP);
    shown
}

fn kmh_string(speed: u32) -> (shown: String)
    ensures
        shown@ == kmh(speed as int),
{
    let mut shown = decimal_string(speed as i64);
    shown.append(SPEED);
    shown
}

fn description_string(response: &Response, description_type: DescriptionType) -> (shown: String)
    ensures
        shown@ == description(response@, description_type),
{
    match description_type {
        DescriptionType::Text => response.code().into_text(),
        DescriptionType::Emoji => response.code().into_symbol(),
    }
}

fn wind_direction_string(response: &Response, description_type: DescriptionType) -> (shown:
    String)
    ensures
        shown@ == wind_direction(response@, description_type),
{
    match description_type {
        DescriptionType::Text => response.winddir16_point().into_text(),
        DescriptionType::Emoji => response.winddir16_point().into_symbol(),
    }
}

fn summary_string(response: &Response) -> (line: String)
    ensures
        line@ == summary(response@),
{
    let mut line = response.area().clone();
    line.append(": ");
    line.append(description_string(response, DescriptionType::Emoji).as_str());
    line.append(" ");
    line.append(degrees_string(*response.temp()).as_str());
    line.append(" (");
    line.append(degrees_string(*response.sens()).as_str());
    line.append(") | ");
    line.append(wind_direction_string(response, DescriptionType::Emoji).as_str());
    line.append(" ");
    line.append(kmh_string(*response.windspeed()).as_str());
    line.append(" | max:");
    line.append(degrees_string(*response.max()).as_str());
    line.append(" | min:");
    line.append(degrees_string(*response.min()).as_str());
    line
}

/// The line to print for a command.
pub fn render(response: &Response, command: &Commands) -> (line: String)
    ensures
        line@ == rendering(response@, *command),
{
    match command {
        Commands::Area => response.area().clone(),
        Commands::Temperature => degrees_string(*response.temp()),
        Commands::MaxTemperature => degrees_string(*response.max()),
        Commands::MinTemperature => degrees_string(*response.min()),
        Commands::FeelTemperature => degrees_string(*response.sens()),
        Commands::WindSpeed => kmh_string(*response.windspeed()),
        Commands::Description { description_type } => description_string(
            response,
            *description_type,
        ),
        Commands::WindDirection { description_type } => wind_direction_string(
            response,
            *description_type,
        ),
        Commands::Full => summary_string(response),
    }
}

impl Response {
    /// The record at a glance: the glyph of the wind direction, a blank and
    /// the glyph of the condition.
    pub fn to_string(&self) -> (shown: String)
        ensures
            shown@ == glyphs(self@),
    {
        let mut shown = wind_direction_string(self, DescriptionType::Emoji);
        shown.append(" ");
        shown.append(description_string(self, DescriptionType::Emoji).as_str());
        shown
    }
}

} // verus!
