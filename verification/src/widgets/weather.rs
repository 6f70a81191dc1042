//! A weather widget: a temperature and an icon.
//!
//! Temperatures are held in tenths of a degree Celsius, so the value the
//! display layer prints with one decimal digit is represented exactly.
//! Fetching live weather is an HTTP concern and stays with the application
//! around this library, which hands the measured values in.

use vstd::prelude::*;

verus! {

/// The pictogram drawn beside the temperature.
#[derive(Clone, Copy, Debug, PartialEq, Eq, Structural)]
pub enum WeatherIcon {
    Sun,
    Cloudy,
    Rainy,
    Snowy,
}

impl View for WeatherIcon {
    type V = WeatherIcon;

    open spec fn view(&self) -> WeatherIcon {
        *self
    }
}

impl WeatherIcon {
    /// The ASCII-art lines of each icon.
    pub open spec fn spec_ascii(&self) -> Seq<Seq<char>> {
        match self {
            WeatherIcon::Sun => seq![
                "  \\   |   /  "@,
                "     .-'-.    "@,
                " -   (   )   - "@,
                "      '- '    "@,
                "   /   |   \\  "@,
            ],
            WeatherIcon::Cloudy => seq![
                "     .--.     "@,
                "  .-(    )-.  "@,
                " (__  .  __)  "@,
                "  `--` `--`   "@,
            ],
            WeatherIcon::Rainy => seq![
                "    .--.     "@,
                "  .-(    )-.  "@,
                " (  .  .  )   "@,
                "  `--|--`     "@,
                "  |  / \\  |  "@,
            ],
            WeatherIcon::Snowy => seq![
                "    .-^-._    "@,
                "   (     )    "@,
                "  . `-^-`*    "@,
                "   * . * .    "@,
            ],
        }
    }

    /// The icon as lines of ASCII art.
    pub fn to_ascii(&self) -> (r: Vec<&'static str>)
        ensures
            r.deep_view() == self.spec_ascii(),
    {
        let r: Vec<&'static str> = match self {
            WeatherIcon::Sun => vec![
                "  \\   |   /  ",
                "     .-'-.    ",
                " -   (   )   - ",
                "      '- '    ",
                "   /   |   \\  ",
            ],
            WeatherIcon::Cloudy => vec![
                "     .--.     ",
                "  .-(    )-.  ",
                " (__  .  __)  ",
                "  `--` `--`   ",
            ],
            WeatherIcon::Rainy => vec![
                "    .--.     ",
                "  .-(    )-.  ",
                " (  .  .  )   ",
                "  `--|--`     ",
                "  |  / \\  |  ",
            ],
            WeatherIcon::Snowy => vec![
                "    .-^-._    ",
                "   (     )    ",
                "  . `-^-`*    ",
                "   * . * .    ",
            ],
        };
        proof {
            assert(r.deep_view() =~= self.spec_ascii());
        }
        r
    }
}

/// A weather reading.
#[derive(Clone, Copy, Debug, PartialEq, Eq, Structural)]
pub struct Weather {
    /// Temperature in tenths of a degree Celsius.
    pub temp_deci: i32,
    pub icon: WeatherIcon,
}

impl View for Weather {
    type V = Weather;

    open spec fn view(&self) -> Weather {
        *self
    }
}

impl Weather {
    pub fn new(temp_deci: i32, icon: WeatherIcon) -> (r: Weather)
        ensures
            r == (Weather { temp_deci, icon }),
    {
        Weather { temp_deci, icon }
    }

    /// Fresh readings arrive through the transport, not locally.
    pub fn update(&mut self)
        ensures
            *final(self) == *old(self),
    {
    }
}

} // verus!
