//! The weather model: current conditions, the forecast parts, and what a
//! provider may be asked for.

use vstd::prelude::*;

use crate::temperature::Temperature;
use crate::time::Timestamp;

verus! {

/// What a caller asks a provider for; a provider may return everything
/// whatever it is asked.
#[derive(Debug, Clone, Copy, PartialEq, Eq, Structural)]
pub enum WeatherQueryType {
    All,
    Current,
    Forecast,
}

/// Part of the day that a reading belongs to.
#[derive(Debug, Clone, Copy, PartialEq, Eq, Structural)]
pub enum Daytime {
    Day,
    Night,
}

/// The weather states a reading can report.
#[derive(Debug, Clone, Copy, PartialEq, Eq, Structural)]
pub enum Condition {
    Clear,
    PartlyCloudy,
    Cloudy,
    Overcast,
    Drizzle,
    LightRain,
    Rain,
    ModerateRain,
    HeavyRain,
    ContinuousHeavyRain,
    Showers,
    WetSnow,
    LightSnow,
    Snow,
    SnowShowers,
    Hail,
    Thunderstorm,
    ThunderstormWithRain,
    ThunderstormWithHail,
}

/// The lower-case display name of a condition.
pub open spec fn condition_name(c: Condition) -> Seq<char> {
    match c {
        Condition::Clear => "clear"@,
        Condition::PartlyCloudy => "partly cloudy"@,
        Condition::Cloudy => "cloudy"@,
        Condition::Overcast => "overcast"@,
        Condition::Drizzle => "drizzle"@,
        Condition::LightRain => "light rain"@,
        Condition::Rain => "rain"@,
        Condition::ModerateRain => "moderate rain"@,
        Condition::HeavyRain => "heavy rain"@,
        Condition::ContinuousHeavyRain => "continuous heavy rain"@,
        Condition::Showers => "showers"@,
        Condition::WetSnow => "wet snow"@,
        Condition::LightSnow => "light snow"@,
        Condition::Snow => "snow"@,
        Condition::SnowShowers => "snow showers"@,
        Condition::Hail => "hail"@,
        Condition::Thunderstorm => "thunderstorm"@,
        Condition::ThunderstormWithRain => "thunderstorm with rain"@,
        Condition::ThunderstormWithHail => "thunderstorm with hail"@,
    }
}

/// The identifier of a condition's tag, as in `PartlyCloudy`.
pub open spec fn condition_code(c: Condition) -> Seq<char> {
    match c {
        Condition::Clear => "Clear"@,
        Condition::PartlyCloudy => "PartlyCloudy"@,
        Condition::Cloudy => "Cloudy"@,
        Condition::Overcast => "Overcast"@,
        Condition::Drizzle => "Drizzle"@,
        Condition::LightRain => "LightRain"@,
        Condition::Rain => "Rain"@,
        Condition::ModerateRain => "ModerateRain"@,
        Condition::HeavyRain => "HeavyRain"@,
        Condition::ContinuousHeavyRain => "ContinuousHeavyRain"@,
        Condition::Showers => "Showers"@,
        Condition::WetSnow => "WetSnow"@,
        Condition::LightSnow => "LightSnow"@,
        Condition::Snow => "Snow"@,
        Condition::SnowShowers => "SnowShowers"@,
        Condition::Hail => "Hail"@,
        Condition::Thunderstorm => "Thunderstorm"@,
        Condition::ThunderstormWithRain => "ThunderstormWithRain"@,
        Condition::ThunderstormWithHail => "ThunderstormWithHail"@,
    }
}

impl Condition {
    /// The lower-case display name, as in `partly cloudy`.
    pub fn name(&self) -> (r: String)
        ensures
            r@ == condition_name(*self),
    {
        let s = match self {
            Condition::Clear => "clear",
            Condition::PartlyCloudy => "partly cloudy",
            Condition::Cloudy => "cloudy",
            Condition::Overcast => "overcast",
            Condition::Drizzle => "drizzle",
            Condition::LightRain => "light rain",
            Condition::Rain => "rain",
            Condition::ModerateRain => "moderate rain",
            Condition::HeavyRain => "heavy rain",
            Condition::ContinuousHeavyRain => "continuous heavy rain",
            Condition::Showers => "showers",
            Condition::WetSnow => "wet snow",
            Condition::LightSnow => "light snow",
            Condition::Snow => "snow",
            Condition::SnowShowers => "snow showers",
            Condition::Hail => "hail",
            Condition::Thunderstorm => "thunderstorm",
            Condition::ThunderstormWithRain => "thunderstorm with rain",
            Condition::ThunderstormWithHail => "thunderstorm with hail",
        };
        s.to_owned()
    }

    /// The identifier of the tag, as in `PartlyCloudy`.
    pub fn code(&self) -> (r: String)
        ensures
            r@ == condition_code(*self),
    {
        let s = match self {
            Condition::Clear => "Clear",
            Condition::PartlyCloudy => "PartlyCloudy",
            Condition::Cloudy => "Cloudy",
            Condition::Overcast => "Overcast",
            Condition::Drizzle => "Drizzle",
            Condition::LightRain => "LightRain",
            Condition::Rain => "Rain",
            Condition::ModerateRain => "ModerateRain",
            Condition::HeavyRain => "HeavyRain",
            Condition::ContinuousHeavyRain => "ContinuousHeavyRain",
            Condition::Showers => "Showers",
            Condition::WetSnow => "WetSnow",
            Condition::LightSnow => "LightSnow",
            Condition::Snow => "Snow",
            Condition::SnowShowers => "SnowShowers",
            Condition::Hail => "Hail",
            Condition::Thunderstorm => "Thunderstorm",
            Condition::ThunderstormWithRain => "ThunderstormWithRain",
            Condition::ThunderstormWithHail => "ThunderstormWithHail",
        };
        s.to_owned()
    }
}

/// One named part of the day's outlook (`morning`, `day`, `evening`, `night`).
#[derive(Debug, Clone)]
pub struct ForecastPart {
    pub name: String,
    pub temp: Temperature,
    pub humidity: Option<u64>,
    pub icon: Option<String>,
    pub condition: Option<Condition>,
    pub feels_like: Option<Temperature>,
    pub daytime: Option<Daytime>,
}

/// The outlook, in the order the provider gave its parts.
#[derive(Debug, Clone)]
pub struct Forecast {
    pub parts: Vec<ForecastPart>,
}

/// What a provider returns: current conditions and the outlook.
#[derive(Debug, Clone)]
pub struct WeatherInfo {
    /// Whether the value came out of the cache rather than the network.
    pub is_cached: bool,
    /// When the value was fetched from the network.
    pub created_at: Timestamp,
    pub temp: Temperature,
    pub feels_like: Option<Temperature>,
    pub humidity: Option<u64>,
    pub icon: Option<String>,
    pub condition: Option<Condition>,
    pub forecasts: Option<Forecast>,
    pub daytime: Option<Daytime>,
}

} // verus!
