//! The weather at the start of a game.

use vstd::prelude::*;
use vstd::string::*;
use crate::error::{ClassificationError, Field, Scalar};
use crate::record::{agrees, WeatherRecord, WeatherRecordModel};
use crate::text::{digits_end, lemma_digits_end_bounds, numeral_value, read_numeral};

verus! {

/// The sky, the temperature and the speed of the wind.
#[derive(Clone, Debug, PartialEq, Eq)]
pub struct Weather {
    pub condition: String,
    pub temperature: u8,
    pub wind_speed: u8,
}

/// The weather as a mathematical value.
pub struct WeatherModel {
    pub condition: Seq<char>,
    pub temperature: u8,
    pub wind_speed: u8,
}

impl DeepView for Weather {
    type V = WeatherModel;

    open spec fn deep_view(&self) -> WeatherModel {
        WeatherModel {
            condition: self.condition@,
            temperature: self.temperature,
            wind_speed: self.wind_speed,
        }
    }
}

impl View for Weather {
    type V = WeatherModel;

    open spec fn view(&self) -> WeatherModel {
        self.deep_view()
    }
}

/// The number that a text writes, if the text is nothing but digits, at
/// least one, and the number is at most 255.
pub open spec fn whole_number(s: Seq<char>) -> Option<u8> {
    match numeral_value(s, 0, 0xff) {
        Some(v) => if digits_end(s, 0) == s.len() {
            Some(v as u8)
        } else {
            None
        },
        None => None,
    }
}

/// The number that the first word of a text writes, where the words are
/// parted by single spaces: the word must be digits only, at least one, and
/// write at most 255.
pub open spec fn leading_number(s: Seq<char>) -> Option<u8> {
    let end = digits_end(s, 0);
    match numeral_value(s, 0, 0xff) {
        Some(v) => if end == s.len() || s[end] == ' ' {
            Some(v as u8)
        } else {
            None
        },
        None => None,
    }
}

/// The weather that a weather record describes. The condition is taken as
/// it stands, the temperature is a whole number, and the wind speed is the
/// first word of the wind text. The first defect decides the error.
pub open spec fn weather_of(rec: WeatherRecordModel) -> Result<WeatherModel, ClassificationError> {
    match rec.condition {
        None => Err(ClassificationError::MissingRequiredField(Field::Condition)),
        Some(condition) => match rec.temp {
            None => Err(ClassificationError::MissingRequiredField(Field::Temperature)),
            Some(temp) => match whole_number(temp) {
                None => Err(ClassificationError::MalformedScalar(Scalar::Temperature)),
                Some(temperature) => match rec.wind {
                    None => Err(ClassificationError::MissingRequiredField(Field::Wind)),
                    Some(wind) => match leading_number(wind) {
                        None => Err(ClassificationError::MalformedScalar(Scalar::WindSpeed)),
                        Some(wind_speed) => Ok(
                            WeatherModel { condition, temperature, wind_speed },
                        ),
                    },
                },
            },
        },
    }
}

/// Reads a text that is a whole number of at most 255.
pub fn read_whole_number(s: &str) -> (r: Option<u8>)
    ensures
        r == whole_number(s@),
{
    let n = read_numeral(s, 0, 0xff);
    let len = s.unicode_len();
    match n.value {
        Some(v) => if n.end == len {
            Some(v as u8)
        } else {
            None
        },
        None => None,
    }
}

/// Reads the number that the first word of a text writes.
pub fn read_leading_number(s: &str) -> (r: Option<u8>)
    ensures
        r == leading_number(s@),
{
    let n = read_numeral(s, 0, 0xff);
    let len = s.unicode_len();
    proof {
        lemma_digits_end_bounds(s@, 0);
    }
    match n.value {
        Some(v) => if n.end == len || s.get_char(n.end) == ' ' {
            Some(v as u8)
        } else {
            None
        },
        None => None,
    }
}

impl Weather {
    /// The weather that a weather record describes.
    pub fn from_record(rec: &WeatherRecord) -> (r: Result<Weather, ClassificationError>)
        ensures
            agrees(r, weather_of(rec@)),
    {
        let condition = match &rec.condition {
            Some(c) => c.clone(),
            None => {
                return Err(ClassificationError::MissingRequiredField(Field::Condition));
            },
        };
        let temp = match &rec.temp {
            Some(t) => t,
            None => {
                return Err(ClassificationError::MissingRequiredField(Field::Temperature));
            },
        };
        let temperature = match read_whole_number(temp.as_str()) {
            Some(t) => t,
            None => {
                return Err(ClassificationError::MalformedScalar(Scalar::Temperature));
            },
        };
        let wind = match &rec.wind {
            Some(w) => w,
            None => {
                return Err(ClassificationError::MissingRequiredField(Field::Wind));
            },
        };
        let wind_speed = match read_leading_number(wind.as_str()) {
            Some(w) => w,
            None => {
                return Err(ClassificationError::MalformedScalar(Scalar::WindSpeed));
            },
        };
        Ok(Weather { condition, temperature, wind_speed })
    }
}

} // verus!
