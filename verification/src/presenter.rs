//! The report as lines of styled text.

use crate::clock::{clock_text, format_timestamp, seconds_of_day};
use crate::conditions::{get_weather_emoji, weather_emoji};
use crate::decimal::{integer_string, integer_text};
use crate::report::{Main, Weather, WeatherData, WeatherDataView, WeatherView, Wind};
use crate::style::{lines_view, plain, styled, Line, SpanView, Style};
use crate::units::{
    kilometers, speed_string, speed_text, temperature_string, temperature_text, visibility_km,
};
use vstd::prelude::*;
use vstd::string::*;

verus! {

/// The rule that frames a report: 41 double horizontal bars.
pub const DIVIDER: &'static str = "═════════════════════════════════════════";

/// The rule before and after a report.
pub open spec fn divider_line() -> Seq<SpanView> {
    seq![styled(DIVIDER@, Style::BrightYellow)]
}

/// The place: its name and country.
pub open spec fn header_line(report: WeatherDataView) -> Seq<SpanView> {
    seq![
        plain("\u{1f30d} "@),
        styled("Weather in"@, Style::BrightGreen),
        plain(" "@),
        styled(report.name, Style::Bold),
        plain(", "@),
        styled(report.sys.country, Style::Bold),
    ]
}

/// The condition: its emoji, its label and its description.
pub open spec fn condition_line(condition: WeatherView) -> Seq<SpanView> {
    seq![
        plain(weather_emoji(condition.main) + " "@),
        styled(condition.main, Style::Bold),
        plain(" ("@ + condition.description + ")"@),
    ]
}

/// The temperature and what it feels like.
pub open spec fn temperature_line(main: Main, use_fahrenheit: bool) -> Seq<SpanView> {
    seq![
        plain("\u{1f321}\u{fe0f} Temperature: "@),
        styled(temperature_text(main.temp as int, use_fahrenheit), Style::BrightYellow),
        plain(
            " (feels like "@ + temperature_text(main.feels_like as int, use_fahrenheit) + ")"@,
        ),
    ]
}

/// The lowest and the highest temperature.
pub open spec fn range_line(main: Main, use_fahrenheit: bool) -> Seq<SpanView> {
    seq![
        plain(
            "\u{1f4ca} Min/Max: "@ + temperature_text(main.temp_min as int, use_fahrenheit) + "/"@
                + temperature_text(main.temp_max as int, use_fahrenheit),
        ),
    ]
}

/// The humidity in percent.
pub open spec fn humidity_line(main: Main) -> Seq<SpanView> {
    seq![plain("\u{1f4a7} Humidity: "@ + integer_text(main.humidity as int) + "%"@)]
}

/// The pressure in hectopascal.
pub open spec fn pressure_line(main: Main) -> Seq<SpanView> {
    seq![plain("\u{1f504} Pressure: "@ + integer_text(main.pressure as int) + " hPa"@)]
}

/// The wind: its speed and its direction.
pub open spec fn wind_line(wind: Wind) -> Seq<SpanView> {
    seq![
        plain(
            "\u{1f4a8} Wind: "@ + speed_text(wind.speed as int) + " m/s, Direction: "@
                + integer_text(wind.deg as int) + "\u{b0}"@,
        ),
    ]
}

/// The speed of gusts.
pub open spec fn gust_line(gust: int) -> Seq<SpanView> {
    seq![plain("\u{1f32c}\u{fe0f} Gusts: "@ + speed_text(gust) + " m/s"@)]
}

/// The gust line where the report has gusts, and nothing where it has none.
pub open spec fn gust_lines(wind: Wind) -> Seq<Seq<SpanView>> {
    match wind.gust {
        Some(gust) => seq![gust_line(gust as int)],
        None => Seq::empty(),
    }
}

/// The visibility in whole kilometres.
pub open spec fn visibility_line(meters: int) -> Seq<SpanView> {
    seq![plain("\u{1f441}\u{fe0f} Visibility: "@ + integer_text(kilometers(meters)) + " km"@)]
}

/// The cloud cover in percent.
pub open spec fn cloudiness_line(percent: int) -> Seq<SpanView> {
    seq![plain("\u{2601}\u{fe0f} Cloudiness: "@ + integer_text(percent) + "%"@)]
}

/// The local clock time of sunrise.
pub open spec fn sunrise_line(report: WeatherDataView) -> Seq<SpanView> {
    seq![
        plain(
            "\u{1f305} Sunrise: "@ + clock_text(
                seconds_of_day(report.sys.sunrise as int, report.timezone as int),
            ),
        ),
    ]
}

/// The local clock time of sunset.
pub open spec fn sunset_line(report: WeatherDataView) -> Seq<SpanView> {
    seq![
        plain(
            "\u{1f307} Sunset: "@ + clock_text(
                seconds_of_day(report.sys.sunset as int, report.timezone as int),
            ),
        ),
    ]
}

/// The lines from the top of a report down to the wind.
pub open spec fn leading_lines(report: WeatherDataView, use_fahrenheit: bool) -> Seq<Seq<SpanView>>
    recommends
        report.displayable(),
{
    seq![
        Seq::empty(),
        divider_line(),
        header_line(report),
        condition_line(report.weather[0]),
        temperature_line(report.main, use_fahrenheit),
        range_line(report.main, use_fahrenheit),
        humidity_line(report.main),
        pressure_line(report.main),
        wind_line(report.wind),
    ]
}

/// The lines from the visibility down to the end of a report.
pub open spec fn closing_lines(report: WeatherDataView) -> Seq<Seq<SpanView>> {
    seq![
        visibility_line(report.visibility as int),
        cloudiness_line(report.clouds.all as int),
        sunrise_line(report),
        sunset_line(report),
        divider_line(),
    ]
}

/// The lines of a report, top to bottom: a blank line, the rule, the place,
/// the primary condition, the temperatures, humidity, pressure, wind, gusts
/// where there are any, visibility, cloud cover, sunrise, sunset, the rule.
pub open spec fn report_lines(report: WeatherDataView, use_fahrenheit: bool) -> Seq<Seq<SpanView>>
    recommends
        report.displayable(),
{
    leading_lines(report, use_fahrenheit) + gust_lines(report.wind) + closing_lines(report)
}

/// The rule is 41 characters wide, each of them a double horizontal bar.
pub proof fn lemma_divider_width()
    ensures
        DIVIDER@.len() == 41,
        forall|i: int| 0 <= i < 41 ==> DIVIDER@[i] == '\u{2550}',
{
    reveal_strlit("═════════════════════════════════════════");
}

/// A report is framed: it opens with a blank line and the rule, and it ends
/// with the rule. Between them stand thirteen lines where the report has
/// gusts and twelve where it has none.
pub proof fn lemma_report_is_framed(report: WeatherDataView, use_fahrenheit: bool)
    ensures
        report_lines(report, use_fahrenheit).len() == if report.wind.gust is Some {
            15int
        } else {
            14int
        },
        report_lines(report, use_fahrenheit)[0] == Seq::<SpanView>::empty(),
        report_lines(report, use_fahrenheit)[1] == divider_line(),
        report_lines(report, use_fahrenheit).last() == divider_line(),
{
}

/// The order of the lines is fixed. The gust line, where there is one,
/// stands between wind and visibility and moves the lines after it down by
/// one.
pub proof fn lemma_report_order(report: WeatherDataView, use_fahrenheit: bool)
    ensures
        ({
            let lines = report_lines(report, use_fahrenheit);
            let shift: int = if report.wind.gust is Some { 1 } else { 0 };
            &&& lines[2] == header_line(report)
            &&& lines[3] == condition_line(report.weather[0])
            &&& lines[4] == temperature_line(report.main, use_fahrenheit)
            &&& lines[5] == range_line(report.main, use_fahrenheit)
            &&& lines[6] == humidity_line(report.main)
            &&& lines[7] == pressure_line(report.main)
            &&& lines[8] == wind_line(report.wind)
            &&& report.wind.gust matches Some(gust) ==> lines[9] == gust_line(gust as int)
            &&& lines[9 + shift] == visibility_line(report.visibility as int)
            &&& lines[10 + shift] == cloudiness_line(report.clouds.all as int)
            &&& lines[11 + shift] == sunrise_line(report)
            &&& lines[12 + shift] == sunset_line(report)
        }),
{
}

/// The unit changes the two lines of temperatures and nothing else.
pub proof fn lemma_unit_changes_temperatures_only(report: WeatherDataView, i: int)
    requires
        0 <= i < report_lines(report, true).len(),
        i != 4,
        i != 5,
    ensures
        report_lines(report, true).len() == report_lines(report, false).len(),
        report_lines(report, true)[i] == report_lines(report, false)[i],
{
}

/// A line of one unstyled span.
fn plain_line(text: String) -> (line: Line)
    ensures
        line@ == seq![plain(text@)],
{
    let mut line = Line::new();
    line.push(text, Style::Plain);
    assert(line@ =~= seq![plain(text@)]);
    line
}

/// A line that is a label, a number and a suffix.
fn labelled(label: &str, value: &str, suffix: &str) -> (line: Line)
    ensures
        line@ == seq![plain(label@ + value@ + suffix@)],
{
    let mut text = String::from_str(label);
    text.append(value);
    text.append(suffix);
    plain_line(text)
}

fn divider() -> (line: Line)
    ensures
        line@ == divider_line(),
{
    let mut line = Line::new();
    line.push(String::from_str(DIVIDER), Style::BrightYellow);
    assert(line@ =~= divider_line());
    line
}

fn header(report: &WeatherData) -> (line: Line)
    ensures
        line@ == header_line(report@),
{
    let mut line = Line::new();
    line.push(String::from_str("\u{1f30d} "), Style::Plain);
    line.push(String::from_str("Weather in"), Style::BrightGreen);
    line.push(String::from_str(" "), Style::Plain);
    line.push(report.name.clone(), Style::Bold);
    line.push(String::from_str(", "), Style::Plain);
    line.push(report.sys.country.clone(), Style::Bold);
    assert(line@ =~= header_line(report@));
    line
}

fn condition(primary: &Weather) -> (line: Line)
    ensures
        line@ == condition_line(primary@),
{
    let mut icon = String::from_str(get_weather_emoji(primary.main.as_str()));
    icon.append(" ");
    let mut described = String::from_str(" (");
    described.append(primary.description.as_str());
    described.append(")");
    let mut line = Line::new();
    line.push(icon, Style::Plain);
    line.push(primary.main.clone(), Style::Bold);
    line.push(described, Style::Plain);
    assert(line@ =~= condition_line(primary@));
    line
}

fn temperature(main: &Main, use_fahrenheit: bool) -> (line: Line)
    ensures
        line@ == temperature_line(*main, use_fahrenheit),
{
    let mut felt = String::from_str(" (feels like ");
    felt.append(temperature_string(main.feels_like, use_fahrenheit).as_str());
    felt.append(")");
    let mut line = Line::new();
    line.push(String::from_str("\u{1f321}\u{fe0f} Temperature: "), Style::Plain);
    line.push(temperature_string(main.temp, use_fahrenheit), Style::BrightYellow);
    line.push(felt, Style::Plain);
    assert(line@ =~= temperature_line(*main, use_fahrenheit));
    line
}

fn range(main: &Main, use_fahrenheit: bool) -> (line: Line)
    ensures
        line@ == range_line(*main, use_fahrenheit),
{
    let mut text = String::from_str("\u{1f4ca} Min/Max: ");
    text.append(temperature_string(main.temp_min, use_fahrenheit).as_str());
    text.append("/");
    text.append(temperature_string(main.temp_max, use_fahrenheit).as_str());
    plain_line(text)
}

fn wind(air: &Wind) -> (line: Line)
    ensures
        line@ == wind_line(*air),
{
    let mut text = String::from_str("\u{1f4a8} Wind: ");
    text.append(speed_string(air.speed).as_str());
    text.append(" m/s, Direction: ");
    text.append(integer_string(air.deg as i64).as_str());
    text.append("\u{b0}");
    plain_line(text)
}

/// Lays a report out as lines of styled text, in the unit asked for.
pub fn display_weather(weather: &WeatherData, use_fahrenheit: bool) -> (lines: Vec<Line>)
    requires
        weather@.displayable(),
    ensures
        lines_view(lines@) == report_lines(weather@, use_fahrenheit),
{
    let mut lines: Vec<Line> = Vec::new();
    lines.push(Line::new());
    lines.push(divider());
    lines.push(header(weather));
    lines.push(condition(&weather.weather[0]));
    lines.push(temperature(&weather.main, use_fahrenheit));
    lines.push(range(&weather.main, use_fahrenheit));
    lines.push(
        labelled(
            "\u{1f4a7} Humidity: ",
            integer_string(weather.main.humidity as i64).as_str(),
            "%",
        ),
    );
    lines.push(
        labelled(
            "\u{1f504} Pressure: ",
            integer_string(weather.main.pressure as i64).as_str(),
            " hPa",
        ),
    );
    lines.push(wind(&weather.wind));
    assert(lines_view(lines@) =~= leading_lines(weather@, use_fahrenheit));
    if let Some(gust) = weather.wind.gust {
        lines.push(labelled("\u{1f32c}\u{fe0f} Gusts: ", speed_string(gust).as_str(), " m/s"));
    }
    assert(lines_view(lines@) =~= leading_lines(weather@, use_fahrenheit) + gust_lines(
        weather.wind,
    ));
    lines.push(
        labelled(
            "\u{1f441}\u{fe0f} Visibility: ",
            integer_string(visibility_km(weather.visibility) as i64).as_str(),
            " km",
        ),
    );
    lines.push(
        labelled(
            "\u{2601}\u{fe0f} Cloudiness: ",
            integer_string(weather.clouds.all as i64).as_str(),
            "%",
        ),
    );
    lines.push(
        labelled(
            "\u{1f305} Sunrise: ",
            format_timestamp(weather.sys.sunrise, weather.timezone).as_str(),
            "",
        ),
    );
    lines.push(
        labelled(
            "\u{1f307} Sunset: ",
            format_timestamp(weather.sys.sunset, weather.timezone).as_str(),
            "",
        ),
    );
    lines.push(divider());
    proof {
        reveal_strlit("");
        assert(lines_view(lines@) =~= report_lines(weather@, use_fahrenheit));
    }
    lines
}

} // verus!
