//! The weather report: one decoded answer of the weather service.
//!
//! Quantities that the service gives with a fraction are exact decimals held
//! as whole numbers: temperatures and speeds in hundredths, coordinates in
//! millionths of a degree.

use crate::clock::{can_format, is_formattable};
use vstd::prelude::*;

verus! {

/// A place on the globe, in millionths of a degree.
#[derive(Clone, Copy, Debug, PartialEq, Eq, Structural)]
pub struct Coord {
    pub lon: i32,
    pub lat: i32,
}

/// One weather condition of a report.
#[derive(Clone, Debug, PartialEq, Eq)]
pub struct Weather {
    pub id: i32,
    /// The short label, such as `Rain`.
    pub main: String,
    /// The long description, such as `light rain`.
    pub description: String,
    pub icon: String,
}

/// The model of a condition.
pub struct WeatherView {
    pub id: i32,
    pub main: Seq<char>,
    pub description: Seq<char>,
    pub icon: Seq<char>,
}

impl View for Weather {
    type V = WeatherView;

    open spec fn view(&self) -> WeatherView {
        WeatherView {
            id: self.id,
            main: self.main@,
            description: self.description@,
            icon: self.icon@,
        }
    }
}

/// The main measurements. Temperatures are in hundredths of a degree
/// Celsius, pressures in hectopascal, humidity in percent.
#[derive(Clone, Copy, Debug, PartialEq, Eq, Structural)]
pub struct Main {
    pub temp: i32,
    pub feels_like: i32,
    pub temp_min: i32,
    pub temp_max: i32,
    pub pressure: i32,
    pub humidity: i32,
    pub sea_level: Option<i32>,
    pub grnd_level: Option<i32>,
}

/// The wind: speed and gusts in hundredths of a metre per second, direction
/// in degrees.
#[derive(Clone, Copy, Debug, PartialEq, Eq, Structural)]
pub struct Wind {
    pub speed: i32,
    pub deg: i32,
    pub gust: Option<i32>,
}

/// Cloud cover in percent.
#[derive(Clone, Copy, Debug, PartialEq, Eq, Structural)]
pub struct Clouds {
    pub all: i32,
}

/// Country and the times of sunrise and sunset, in Unix seconds.
#[derive(Clone, Debug, PartialEq, Eq)]
pub struct Sys {
    pub country: String,
    pub sunrise: i64,
    pub sunset: i64,
}

/// The model of [`Sys`].
pub struct SysView {
    pub country: Seq<char>,
    pub sunrise: i64,
    pub sunset: i64,
}

impl View for Sys {
    type V = SysView;

    open spec fn view(&self) -> SysView {
        SysView { country: self.country@, sunrise: self.sunrise, sunset: self.sunset }
    }
}

/// A weather report for one place at one time.
#[derive(Clone, Debug, PartialEq, Eq)]
pub struct WeatherData {
    pub coord: Coord,
    /// The conditions, the primary one first.
    pub weather: Vec<Weather>,
    pub base: String,
    pub main: Main,
    /// Visibility in metres.
    pub visibility: i32,
    pub wind: Wind,
    pub clouds: Clouds,
    /// Time of the observation, in Unix seconds.
    pub dt: i64,
    pub sys: Sys,
    /// Offset of local time from UTC, in seconds.
    pub timezone: i32,
    pub id: i64,
    /// Name of the place.
    pub name: String,
    pub cod: i32,
}

/// The model of a report.
pub struct WeatherDataView {
    pub coord: Coord,
    pub weather: Seq<WeatherView>,
    pub base: Seq<char>,
    pub main: Main,
    pub visibility: i32,
    pub wind: Wind,
    pub clouds: Clouds,
    pub dt: i64,
    pub sys: SysView,
    pub timezone: i32,
    pub id: i64,
    pub name: Seq<char>,
    pub cod: i32,
}

impl View for WeatherData {
    type V = WeatherDataView;

    open spec fn view(&self) -> WeatherDataView {
        WeatherDataView {
            coord: self.coord,
            weather: self.weather@.map_values(|w: Weather| w@),
            base: self.base@,
            main: self.main,
            visibility: self.visibility,
            wind: self.wind,
            clouds: self.clouds,
            dt: self.dt,
            sys: self.sys@,
            timezone: self.timezone,
            id: self.id,
            name: self.name@,
            cod: self.cod,
        }
    }
}

impl WeatherDataView {
    /// A report can be displayed when it has a primary condition and its
    /// sunrise and sunset can be rendered as local clock time.
    pub open spec fn displayable(self) -> bool {
        &&& self.weather.len() > 0
        &&& can_format(self.sys.sunrise as int, self.timezone as int)
        &&& can_format(self.sys.sunset as int, self.timezone as int)
    }
}

impl WeatherData {
    /// Whether the report can be displayed.
    pub fn is_displayable(&self) -> (ok: bool)
        ensures
            ok == self@.displayable(),
    {
        self.weather.len() > 0 && is_formattable(self.sys.sunrise, self.timezone)
            && is_formattable(self.sys.sunset, self.timezone)
    }
}

} // verus!
