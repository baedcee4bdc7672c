//! The provider's weather codes and the conditions they stand for.

use vstd::prelude::*;
use vstd::string::*;

verus! {

/// A weather condition, as the provider names it.
#[derive(Debug, Clone, Copy, PartialEq, Eq, Structural)]
pub enum WeatherCondition {
    Sunny,
    PartlyCloudy,
    Cloudy,
    VeryCloudy,
    Fog,
    LightShowers,
    LightSleetShowers,
    LightSleet,
    ThunderyShowers,
    LightSnow,
    HeavySnow,
    LightRain,
    HeavyShowers,
    HeavyRain,
    LightSnowShowers,
    HeavySnowShowers,
    ThunderyHeavyRain,
    ThunderySnowShowers,
}

impl WeatherCondition {
    /// The name of this condition: the letters of the variant.
    pub open spec fn name(self) -> Seq<char> {
        match self {
            WeatherCondition::Sunny => "Sunny"@,
            WeatherCondition::PartlyCloudy => "PartlyCloudy"@,
            WeatherCondition::Cloudy => "Cloudy"@,
            WeatherCondition::VeryCloudy => "VeryCloudy"@,
            WeatherCondition::Fog => "Fog"@,
            WeatherCondition::LightShowers => "LightShowers"@,
            WeatherCondition::LightSleetShowers => "LightSleetShowers"@,
            WeatherCondition::LightSleet => "LightSleet"@,
            WeatherCondition::ThunderyShowers => "ThunderyShowers"@,
            WeatherCondition::LightSnow => "LightSnow"@,
            WeatherCondition::HeavySnow => "HeavySnow"@,
            WeatherCondition::LightRain => "LightRain"@,
            WeatherCondition::HeavyShowers => "HeavyShowers"@,
            WeatherCondition::HeavyRain => "HeavyRain"@,
            WeatherCondition::LightSnowShowers => "LightSnowShowers"@,
            WeatherCondition::HeavySnowShowers => "HeavySnowShowers"@,
            WeatherCondition::ThunderyHeavyRain => "ThunderyHeavyRain"@,
            WeatherCondition::ThunderySnowShowers => "ThunderySnowShowers"@,
        }
    }

    /// The emoji that stands for this condition. Conditions that look alike
    /// share one.
    pub open spec fn emoji(self) -> char {
        match self {
            WeatherCondition::Sunny => '☀',
            WeatherCondition::PartlyCloudy => '⛅',
            WeatherCondition::Cloudy => '☁',
            WeatherCondition::VeryCloudy => '☁',
            WeatherCondition::Fog => '🌫',
            WeatherCondition::LightShowers => '🌦',
            WeatherCondition::LightSleetShowers => '🌧',
            WeatherCondition::LightSleet => '🌧',
            WeatherCondition::ThunderyShowers => '⛈',
            WeatherCondition::LightSnow => '🌨',
            WeatherCondition::HeavySnow => '❄',
            WeatherCondition::LightRain => '🌦',
            WeatherCondition::HeavyShowers => '🌧',
            WeatherCondition::HeavyRain => '🌧',
            WeatherCondition::LightSnowShowers => '🌨',
            WeatherCondition::HeavySnowShowers => '❄',
            WeatherCondition::ThunderyHeavyRain => '🌩',
            WeatherCondition::ThunderySnowShowers => '⛈',
        }
    }

    /// The condition's name as a string.
    pub fn into_text(&self) -> (text: String)
        ensures
            text@ == self.name(),
    {
        let label: &str = match self {
            WeatherCondition::Sunny => "Sunny",
            WeatherCondition::PartlyCloudy => "PartlyCloudy",
            WeatherCondition::Cloudy => "Cloudy",
            WeatherCondition::VeryCloudy => "VeryCloudy",
            WeatherCondition::Fog => "Fog",
            WeatherCondition::LightShowers => "LightShowers",
            WeatherCondition::LightSleetShowers => "LightSleetShowers",
            WeatherCondition::LightSleet => "LightSleet",
            WeatherCondition::ThunderyShowers => "ThunderyShowers",
            WeatherCondition::LightSnow => "LightSnow",
            WeatherCondition::HeavySnow => "HeavySnow",
            WeatherCondition::LightRain => "LightRain",
            WeatherCondition::HeavyShowers => "HeavyShowers",
            WeatherCondition::HeavyRain => "HeavyRain",
            WeatherCondition::LightSnowShowers => "LightSnowShowers",
            WeatherCondition::HeavySnowShowers => "HeavySnowShowers",
            WeatherCondition::ThunderyHeavyRain => "ThunderyHeavyRain",
            WeatherCondition::ThunderySnowShowers => "ThunderySnowShowers",
        };
        String::from_str(label)
    }

    /// The condition as a one-glyph string.
    pub fn into_symbol(&self) -> (symbol: String)
        ensures
            symbol@ == seq![self.emoji()],
    {
        proof {
            reveal_strlit("☀");
            reveal_strlit("⛅");
            reveal_strlit("☁");
            reveal_strlit("🌫");
            reveal_strlit("🌦");
            reveal_strlit("🌧");
            reveal_strlit("⛈");
            reveal_strlit("🌨");
            reveal_strlit("❄");
            reveal_strlit("🌩");
        }
        let glyph: &str = match self {
            WeatherCondition::Sunny => "☀",
            WeatherCondition::PartlyCloudy => "⛅",
            WeatherCondition::Cloudy => "☁",
            WeatherCondition::VeryCloudy => "☁",
            WeatherCondition::Fog => "🌫",
            WeatherCondition::LightShowers => "🌦",
            WeatherCondition::LightSleetShowers => "🌧",
            WeatherCondition::LightSleet => "🌧",
            WeatherCondition::ThunderyShowers => "⛈",
            WeatherCondition::LightSnow => "🌨",
            WeatherCondition::HeavySnow => "❄",
            WeatherCondition::LightRain => "🌦",
            WeatherCondition::HeavyShowers => "🌧",
            WeatherCondition::HeavyRain => "🌧",
            WeatherCondition::LightSnowShowers => "🌨",
            WeatherCondition::HeavySnowShowers => "❄",
            WeatherCondition::ThunderyHeavyRain => "🌩",
            WeatherCondition::ThunderySnowShowers => "⛈",
        };
        String::from_str(glyph)
    }
}

/// The provider's code list: the condition that each code stands for.
/// A number that is not in the list stands for nothing.
pub open spec fn condition_of(code: int) -> Option<WeatherCondition> {
    if code == 113 {
        Some(WeatherCondition::Sunny)
    } else if code == 116 {
        Some(WeatherCondition::PartlyCloudy)
    } else if code == 119 {
        Some(WeatherCondition::Cloudy)
    } else if code == 122 {
        Some(WeatherCondition::VeryCloudy)
    } else if code == 143 {
        Some(WeatherCondition::Fog)
    } else if code == 176 {
        Some(WeatherCondition::LightShowers)
    } else if code == 179 {
        Some(WeatherCondition::LightSleetShowers)
    } else if code == 182 {
        Some(WeatherCondition::LightSleet)
    } else if code == 185 {
        Some(WeatherCondition::LightSleet)
    } else if code == 200 {
        Some(WeatherCondition::ThunderyShowers)
    } else if code == 227 {
        Some(WeatherCondition::LightSnow)
    } else if code == 230 {
        Some(WeatherCondition::HeavySnow)
    } else if code == 248 {
        Some(WeatherCondition::Fog)
    } else if code == 260 {
        Some(WeatherCondition::Fog)
    } else if code == 263 {
        Some(WeatherCondition::LightShowers)
    } else if code == 266 {
        Some(WeatherCondition::LightRain)
    } else if code == 281 {
        Some(WeatherCondition::LightSleet)
    } else if code == 284 {
        Some(WeatherCondition::LightSleet)
    } else if code == 293 {
        Some(WeatherCondition::LightRain)
    } else if code == 296 {
        Some(WeatherCondition::LightRain)
    } else if code == 299 {
        Some(WeatherCondition::HeavyShowers)
    } else if code == 302 {
        Some(WeatherCondition::HeavyRain)
    } else if code == 305 {
        Some(WeatherCondition::HeavyShowers)
    } else if code == 308 {
        Some(WeatherCondition::HeavyRain)
    } else if code == 311 {
        Some(WeatherCondition::LightSleet)
    } else if code == 314 {
        Some(WeatherCondition::LightSleet)
    } else if code == 317 {
        Some(WeatherCondition::LightSleet)
    } else if code == 320 {
        Some(WeatherCondition::LightSnow)
    } else if code == 323 {
        Some(WeatherCondition::LightSnowShowers)
    } else if code == 326 {
        Some(WeatherCondition::LightSnowShowers)
    } else if code == 329 {
        Some(WeatherCondition::HeavySnow)
    } else if code == 332 {
        Some(WeatherCondition::HeavySnow)
    } else if code == 335 {
        Some(WeatherCondition::HeavySnowShowers)
    } else if code == 338 {
        Some(WeatherCondition::HeavySnow)
    } else if code == 350 {
        Some(WeatherCondition::LightSleet)
    } else if code == 353 {
        Some(WeatherCondition::LightShowers)
    } else if code == 356 {
        Some(WeatherCondition::HeavyShowers)
    } else if code == 359 {
        Some(WeatherCondition::HeavyRain)
    } else if code == 362 {
        Some(WeatherCondition::LightSleetShowers)
    } else if code == 365 {
        Some(WeatherCondition::LightSleetShowers)
    } else if code == 368 {
        Some(WeatherCondition::LightSnowShowers)
    } else if code == 371 {
        Some(WeatherCondition::HeavySnowShowers)
    } else if code == 374 {
        Some(WeatherCondition::LightSleetShowers)
    } else if code == 377 {
        Some(WeatherCondition::LightSleet)
    } else if code == 386 {
        Some(WeatherCondition::ThunderyShowers)
    } else if code == 389 {
        Some(WeatherCondition::ThunderyHeavyRain)
    } else if code == 392 {
        Some(WeatherCondition::ThunderySnowShowers)
    } else if code == 395 {
        Some(WeatherCondition::HeavySnowShowers)
    } else {
        None
    }
}

/// Looks a number up in the provider's list.
fn lookup(code: i64) -> (found: Option<WeatherCondition>)
    ensures
        found == condition_of(code as int),
{
    match code {
        113 => Some(WeatherCondition::Sunny),
        116 => Some(WeatherCondition::PartlyCloudy),
        119 => Some(WeatherCondition::Cloudy),
        122 => Some(WeatherCondition::VeryCloudy),
        143 | 248 | 260 => Some(WeatherCondition::Fog),
        176 | 263 | 353 => Some(WeatherCondition::LightShowers),
        179 | 362 | 365 | 374 => Some(WeatherCondition::LightSleetShowers),
        182 | 185 | 281 | 284 | 311 | 314 | 317 | 350 | 377 => Some(WeatherCondition::LightSleet),
        200 | 386 => Some(WeatherCondition::ThunderyShowers),
        227 | 320 => Some(WeatherCondition::LightSnow),
        230 | 329 | 332 | 338 => Some(WeatherCondition::HeavySnow),
        266 | 293 | 296 => Some(WeatherCondition::LightRain),
        299 | 305 | 356 => Some(WeatherCondition::HeavyShowers),
        302 | 308 | 359 => Some(WeatherCondition::HeavyRain),
        323 | 326 | 368 => Some(WeatherCondition::LightSnowShowers),
        335 | 371 | 395 => Some(WeatherCondition::HeavySnowShowers),
        389 => Some(WeatherCondition::ThunderyHeavyRain),
        392 => Some(WeatherCondition::ThunderySnowShowers),
        _ => None,
    }
}

/// A weather code that the provider's list knows.
#[derive(Debug, Clone, Copy, PartialEq, Eq)]
pub struct WeatherCode {
    code: u16,
    condition: WeatherCondition,
}

impl View for WeatherCode {
    type V = int;

    /// The code's number.
    closed spec fn view(&self) -> int {
        self.code as int
    }
}

impl WeatherCode {
    #[verifier::type_invariant]
    spec fn listed(self) -> bool {
        condition_of(self.code as int) == Some(self.condition)
    }

    /// The code with the given number, if the provider's list has it.
    pub fn from_code(code: i64) -> (found: Option<WeatherCode>)
        ensures
            found is Some <==> condition_of(code as int) is Some,
            found matches Some(known) ==> known@ == code,
    {
        match lookup(code) {
            Some(condition) => Some(WeatherCode { code: code as u16, condition }),
            None => None,
        }
    }

    /// The code's number.
    pub fn number(&self) -> (number: u16)
        ensures
            number == self@,
    {
        self.code
    }

    /// The condition that the code stands for.
    pub fn condition(&self) -> (condition: WeatherCondition)
        ensures
            condition_of(self@) == Some(condition),
    {
        proof {
            use_type_invariant(self);
        }
        self.condition
    }

    /// The name of the code's condition.
    pub fn into_text(&self) -> (text: String)
        ensures
            condition_of(self@) matches Some(condition) && text@ == condition.name(),
    {
        self.condition().into_text()
    }

    /// The emoji of the code's condition, as a one-glyph string.
    pub fn into_symbol(&self) -> (symbol: String)
        ensures
            condition_of(self@) matches Some(condition) && symbol@ == seq![condition.emoji()],
    {
        self.condition().into_symbol()
    }
}

} // verus!
