//! Weather-condition codes as reported by the forecast service, and their
//! renderings as text and as emoji.

use vstd::prelude::*;

verus! {

/// Cloud cover over an area.
#[derive(Clone, Copy, Debug, PartialEq, Eq, Structural)]
pub enum CloudCover {
    MainlyClear,
    Partial,
    Overcast,
}

/// Basic intensity of a weather event.
#[derive(Clone, Copy, Debug, PartialEq, Eq, Structural)]
pub enum Intensity {
    Light,
    Moderate,
    Heavy,
}

/// Intensity for weather events with two states.
#[derive(Clone, Copy, Debug, PartialEq, Eq, Structural)]
pub enum SimpleIntensity {
    Light,
    Heavy,
}

/// A weather condition, decoded from the forecast service's numeric code.
#[derive(Clone, Copy, Debug, PartialEq, Eq, Structural)]
pub enum WeatherCode {
    Clear,
    Cloudy(CloudCover),
    Fog { is_rime_fog: bool },
    Drizzle(Intensity),
    FreezingDrizzle(SimpleIntensity),
    Rain(Intensity),
    FreezingRain(SimpleIntensity),
    SnowFall(Intensity),
    SnowGrains,
    RainShowers(Intensity),
    SnowShowers(SimpleIntensity),
    Thunderstorm,
    ThunderstormWithHail(SimpleIntensity),
}

impl WeatherCode {
    /// The condition a numeric code decodes to, or `None` for a code the
    /// service does not define.
    pub open spec fn spec_from_code(code: usize) -> Option<WeatherCode> {
        if code == 0 {
            Some(WeatherCode::Clear)
        } else if code == 1 {
            Some(WeatherCode::Cloudy(CloudCover::MainlyClear))
        } else if code == 2 {
            Some(WeatherCode::Cloudy(CloudCover::Partial))
        } else if code == 3 {
            Some(WeatherCode::Cloudy(CloudCover::Overcast))
        } else if code == 45 {
            Some(WeatherCode::Fog { is_rime_fog: false })
        } else if code == 48 {
            Some(WeatherCode::Fog { is_rime_fog: true })
        } else if code == 51 {
            Some(WeatherCode::Drizzle(Intensity::Light))
        } else if code == 53 {
            Some(WeatherCode::Drizzle(Intensity::Moderate))
        } else if code == 55 {
            Some(WeatherCode::Drizzle(Intensity::Heavy))
        } else if code == 56 {
            Some(WeatherCode::FreezingDrizzle(SimpleIntensity::Light))
        } else if code == 57 {
            Some(WeatherCode::FreezingDrizzle(SimpleIntensity::Heavy))
        } else if code == 61 {
            Some(WeatherCode::Rain(Intensity::Light))
        } else if code == 63 {
            Some(WeatherCode::Rain(Intensity::Moderate))
        } else if code == 65 {
            Some(WeatherCode::Rain(Intensity::Heavy))
        } else if code == 66 {
            Some(WeatherCode::FreezingRain(SimpleIntensity::Light))
        } else if code == 67 {
            Some(WeatherCode::FreezingRain(SimpleIntensity::Heavy))
        } else if code == 71 {
            Some(WeatherCode::SnowFall(Intensity::Light))
        } else if code == 73 {
            Some(WeatherCode::SnowFall(Intensity::Moderate))
        } else if code == 75 {
            Some(WeatherCode::SnowFall(Intensity::Heavy))
        } else if code == 77 {
            Some(WeatherCode::SnowGrains)
        } else if code == 80 {
            Some(WeatherCode::RainShowers(Intensity::Light))
        } else if code == 81 {
            Some(WeatherCode::RainShowers(Intensity::Moderate))
        } else if code == 82 {
            Some(WeatherCode::RainShowers(Intensity::Heavy))
        } else if code == 85 {
            Some(WeatherCode::SnowShowers(SimpleIntensity::Light))
        } else if code == 86 {
            Some(WeatherCode::SnowShowers(SimpleIntensity::Heavy))
        } else if code == 95 {
            Some(WeatherCode::Thunderstorm)
        } else if code == 96 {
            Some(WeatherCode::ThunderstormWithHail(SimpleIntensity::Light))
        } else if code == 99 {
            Some(WeatherCode::ThunderstormWithHail(SimpleIntensity::Heavy))
        } else {
            None
        }
    }

    /// Decodes a numeric weather code; returns `None` exactly on the codes
    /// the service does not define.
    pub fn from_code(code: usize) -> (r: Option<Self>)
        ensures
            r == Self::spec_from_code(code),
    {
        match code {
            0 => Some(Self::Clear),
            1 => Some(Self::Cloudy(CloudCover::MainlyClear)),
            2 => Some(Self::Cloudy(CloudCover::Partial)),
            3 => Some(Self::Cloudy(CloudCover::Overcast)),
            45 => Some(Self::Fog { is_rime_fog: false }),
            48 => Some(Self::Fog { is_rime_fog: true }),
            51 => Some(Self::Drizzle(Intensity::Light)),
            53 => Some(Self::Drizzle(Intensity::Moderate)),
            55 => Some(Self::Drizzle(Intensity::Heavy)),
            56 => Some(Self::FreezingDrizzle(SimpleIntensity::Light)),
            57 => Some(Self::FreezingDrizzle(SimpleIntensity::Heavy)),
            61 => Some(Self::Rain(Intensity::Light)),
            63 => Some(Self::Rain(Intensity::Moderate)),
            65 => Some(Self::Rain(Intensity::Heavy)),
            66 => Some(Self::FreezingRain(SimpleIntensity::Light)),
            67 => Some(Self::FreezingRain(SimpleIntensity::Heavy)),
            71 => Some(Self::SnowFall(Intensity::Light)),
            73 => Some(Self::SnowFall(Intensity::Moderate)),
            75 => Some(Self::SnowFall(Intensity::Heavy)),
            77 => Some(Self::SnowGrains),
            80 => Some(Self::RainShowers(Intensity::Light)),
            81 => Some(Self::RainShowers(Intensity::Moderate)),
            82 => Some(Self::RainShowers(Intensity::Heavy)),
            85 => Some(Self::SnowShowers(SimpleIntensity::Light)),
            86 => Some(Self::SnowShowers(SimpleIntensity::Heavy)),
            95 => Some(Self::Thunderstorm),
            96 => Some(Self::ThunderstormWithHail(SimpleIntensity::Light)),
            99 => Some(Self::ThunderstormWithHail(SimpleIntensity::Heavy)),
            _ => None,
        }
    }

    /// The rendering `to_string` returns, as a sequence of characters.
    pub open spec fn spec_to_string(&self) -> Seq<char> {
        match self {
            WeatherCode::Clear => "Clear sky"@,
            WeatherCode::Cloudy(cover) => match cover {
                CloudCover::MainlyClear => "Mainly clear"@,
                CloudCover::Partial => "Partly cloudy"@,
                CloudCover::Overcast => "Overcast"@,
            },
            WeatherCode::Fog { is_rime_fog } => if *is_rime_fog {
                "Rime fog"@
            } else {
                "Fog"@
            },
            WeatherCode::Drizzle(i) => match i {
                Intensity::Light => "Light drizzle"@,
                Intensity::Moderate => "Moderate drizzle"@,
                Intensity::Heavy => "Dense drizzle"@,
            },
            WeatherCode::FreezingDrizzle(i) => match i {
                SimpleIntensity::Light => "Light freezing drizzle"@,
                SimpleIntensity::Heavy => "Dense freezing drizzle"@,
            },
            WeatherCode::Rain(i) => match i {
                Intensity::Light => "Light rain"@,
                Intensity::Moderate => "Moderate rain"@,
                Intensity::Heavy => "Heavy rain"@,
            },
            WeatherCode::FreezingRain(i) => match i {
                SimpleIntensity::Light => "Light freezing rain"@,
                SimpleIntensity::Heavy => "Heavy freezing rain"@,
            },
            WeatherCode::SnowFall(i) => match i {
                Intensity::Light => "Light snowfall"@,
                Intensity::Moderate => "Moderate snowfall"@,
                Intensity::Heavy => "Heavy snowfall"@,
            },
            WeatherCode::SnowGrains => "Snow grains"@,
            WeatherCode::RainShowers(i) => match i {
                Intensity::Light => "Light rain showers"@,
                Intensity::Moderate => "Moderate rain showers"@,
                Intensity::Heavy => "Violent rain showers"@,
            },
            WeatherCode::SnowShowers(i) => match i {
                SimpleIntensity::Light => "Light snow showers"@,
                SimpleIntensity::Heavy => "Heavy snow showers"@,
            },
            WeatherCode::Thunderstorm => "Thunderstorm"@,
            WeatherCode::ThunderstormWithHail(i) => match i {
                SimpleIntensity::Light => "Thunderstorm with slight hail"@,
                SimpleIntensity::Heavy => "Thunderstorm with heavy hail"@,
            },
        }
    }

    /// Converts a weather condition to a human-readable string.
    pub fn to_string(&self) -> (r: String)
        ensures
            r@ == self.spec_to_string(),
    {
        match self {
            Self::Clear => String::from_str("Clear sky"),
            Self::Cloudy(cover) => match cover {
                CloudCover::MainlyClear => String::from_str("Mainly clear"),
                CloudCover::Partial => String::from_str("Partly cloudy"),
                CloudCover::Overcast => String::from_str("Overcast"),
            },
            Self::Fog { is_rime_fog } => if *is_rime_fog {
                String::from_str("Rime fog")
            } else {
                String::from_str("Fog")
            },
            Self::Drizzle(i) => match i {
                Intensity::Light => String::from_str("Light drizzle"),
                Intensity::Moderate => String::from_str("Moderate drizzle"),
                Intensity::Heavy => String::from_str("Dense drizzle"),
            },
            Self::FreezingDrizzle(i) => match i {
                SimpleIntensity::Light => String::from_str("Light freezing drizzle"),
                SimpleIntensity::Heavy => String::from_str("Dense freezing drizzle"),
            },
            Self::Rain(i) => match i {
                Intensity::Light => String::from_str("Light rain"),
                Intensity::Moderate => String::from_str("Moderate rain"),
                Intensity::Heavy => String::from_str("Heavy rain"),
            },
            Self::FreezingRain(i) => match i {
                SimpleIntensity::Light => String::from_str("Light freezing rain"),
                SimpleIntensity::Heavy => String::from_str("Heavy freezing rain"),
            },
            Self::SnowFall(i) => match i {
                Intensity::Light => String::from_str("Light snowfall"),
                Intensity::Moderate => String::from_str("Moderate snowfall"),
                Intensity::Heavy => String::from_str("Heavy snowfall"),
            },
            Self::SnowGrains => String::from_str("Snow grains"),
            Self::RainShowers(i) => match i {
                Intensity::Light => String::from_str("Light rain showers"),
                Intensity::Moderate => String::from_str("Moderate rain showers"),
                Intensity::Heavy => String::from_str("Violent rain showers"),
            },
            Self::SnowShowers(i) => match i {
                SimpleIntensity::Light => String::from_str("Light snow showers"),
                SimpleIntensity::Heavy => String::from_str("Heavy snow showers"),
            },
            Self::Thunderstorm => String::from_str("Thunderstorm"),
            Self::ThunderstormWithHail(i) => match i {
                SimpleIntensity::Light => String::from_str("Thunderstorm with slight hail"),
                SimpleIntensity::Heavy => String::from_str("Thunderstorm with heavy hail"),
            },
        }
    }

    /// The rendering `to_emoji` returns, as a sequence of characters.
    pub open spec fn spec_to_emoji(&self, is_night: bool) -> Seq<char> {
        match self {
            WeatherCode::Clear => if is_night {
                "☀️"@
            } else {
                "🌙"@
            },
            WeatherCode::Cloudy(cover) => match cover {
                CloudCover::MainlyClear => "🌤️"@,
                CloudCover::Partial => "🌥️"@,
                CloudCover::Overcast => "🌥️"@,
            },
            WeatherCode::Fog { .. } => "🌫️"@,
            WeatherCode::Drizzle(_) => "🌦️"@,
            WeatherCode::Rain(_) => "🌧️"@,
            WeatherCode::FreezingRain(_) => "🌧️"@,
            WeatherCode::RainShowers(_) => "🌧️"@,
            WeatherCode::SnowFall(_) => "️🌨️"@,
            WeatherCode::SnowShowers(_) => "️🌨️"@,
            WeatherCode::FreezingDrizzle(_) => "️🌨️"@,
            WeatherCode::SnowGrains => "❄️"@,
            WeatherCode::Thunderstorm => "⛈️"@,
            WeatherCode::ThunderstormWithHail(_) => "⛈️"@,
        }
    }

    /// Converts a weather condition to an emoji representing it.
    pub fn to_emoji(&self, is_night: bool) -> (r: String)
        ensures
            r@ == self.spec_to_emoji(is_night),
    {
        match self {
            Self::Clear => if is_night {
                String::from_str("☀️")
            } else {
                String::from_str("🌙")
            },
            Self::Cloudy(cover) => match cover {
                CloudCover::MainlyClear => String::from_str("🌤️"),
                _ => String::from_str("🌥️"),
            },
            Self::Fog { is_rime_fog: _ } => String::from_str("🌫️"),
            Self::Drizzle(_) => String::from_str("🌦️"),
            Self::Rain(_) | Self::FreezingRain(_) | Self::RainShowers(_) => String::from_str(
                "🌧️",
            ),
            Self::SnowFall(_) | Self::SnowShowers(_) | Self::FreezingDrizzle(_) => String::from_str(
                "️🌨️",
            ),
            Self::SnowGrains => String::from_str("❄️"),
            Self::Thunderstorm | Self::ThunderstormWithHail(_) => String::from_str("⛈️"),
        }
    }
}

} // verus!
