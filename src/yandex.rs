//! The vendor provider: the request it sends and how its answer becomes a
//! `WeatherInfo`. The network exchange itself is the caller's.

use vstd::prelude::*;

use crate::config::ConfigYandex;
use crate::error::Error;
use crate::temperature::{Temperature, Unit};
use crate::time::Timestamp;
use crate::weather::{Condition, Forecast, ForecastPart, WeatherInfo};

verus! {

/// The informers endpoint; the query string follows the `?`.
pub const API_URL: &'static str = "https://api.weather.yandex.ru/v2/informers?";

#[verifier::external_type_specification]
#[verifier::external_body]
pub struct ExValue(serde_json::Value);

/// A JSON document as plain values. A number keeps what serde_json's
/// `as_i64` and `as_u64` read from it: neither for a fraction or an exponent.
#[derive(Debug)]
pub enum Json {
    Null,
    Bool(bool),
    Number { signed: Option<i64>, unsigned: Option<u64> },
    Str(String),
    Array(Vec<Json>),
    /// An object's member names and, at the same positions, their values.
    Object { keys: Vec<String>, values: Vec<Json> },
}

/// What serde_json reads from `text` as a `serde_json::Value`, variant for
/// variant as a `Json` (an object's members in the map's order); none where
/// serde_json rejects the text.
pub uninterp spec fn json_of(text: Seq<char>) -> Option<Json>;

/// The UTF-8 bytes of a character.
pub open spec fn utf8_bytes(c: char) -> Seq<u8> {
    let n = c as int;
    if n < 0x80 {
        seq![n as u8]
    } else if n < 0x800 {
        seq![(0xC0 + n / 0x40) as u8, (0x80 + n % 0x40) as u8]
    } else if n < 0x10000 {
        seq![(0xE0 + n / 0x1000) as u8, (0x80 + (n / 0x40) % 0x40) as u8, (0x80 + n % 0x40) as u8]
    } else {
        seq![
            (0xF0 + n / 0x40000) as u8,
            (0x80 + (n / 0x1000) % 0x40) as u8,
            (0x80 + (n / 0x40) % 0x40) as u8,
            (0x80 + n % 0x40) as u8,
        ]
    }
}

/// An upper-case hexadecimal digit.
pub open spec fn hex_digit(d: int) -> char {
    if d < 10 { (('0' as int) + d) as char } else { (('A' as int) + d - 10) as char }
}

/// The bytes that serde_qs writes as they are: ASCII letters and digits, and
/// `*`, `-`, `.`, `_`.
pub open spec fn kept_byte(b: u8) -> bool {
    (0x30 <= b <= 0x39) || (0x41 <= b <= 0x5A) || (0x61 <= b <= 0x7A) || b == 0x2A || b == 0x2D
        || b == 0x2E || b == 0x5F
}

/// How serde_qs writes one byte of a value: kept bytes as they are, a space
/// as `+`, any other byte as `%` and two upper-case hexadecimal digits.
pub open spec fn query_byte(b: u8) -> Seq<char> {
    if kept_byte(b) {
        seq![b as char]
    } else if b == 0x20 {
        seq!['+']
    } else {
        seq!['%', hex_digit(b as int / 16), hex_digit(b as int % 16)]
    }
}

/// The bytes `bs` as serde_qs writes them.
pub open spec fn query_bytes(bs: Seq<u8>) -> Seq<char>
    decreases bs.len(),
{
    if bs.len() == 0 {
        seq![]
    } else {
        query_bytes(bs.drop_last()) + query_byte(bs.last())
    }
}

/// The text `s` as serde_qs writes a value: its UTF-8 bytes, each written
/// as `query_byte` says.
pub open spec fn query_value(s: Seq<char>) -> Seq<char>
    decreases s.len(),
{
    if s.len() == 0 {
        seq![]
    } else {
        query_value(s.drop_last()) + query_bytes(utf8_bytes(s.last()))
    }
}

/// The informers query: `lat=<lat>&lon=<lon>`, the values written as
/// serde_qs writes them.
pub open spec fn informers_query(lat: Seq<char>, lon: Seq<char>) -> Seq<char> {
    "lat="@ + query_value(lat) + "&lon="@ + query_value(lon)
}

/// Relies on `serde_qs::to_string`, given a map of the keys `lat` and `lon`
/// (`lat` sorts first) to their values: each entry is written `key=value`,
/// joined by `&`, with the bytes of key and value percent-encoded outside
/// `QS_ENCODE_SET`'s kept set and spaces turned into `+`. A map of strings
/// always serialises: writing into a `Vec` does not fail and the output is
/// ASCII.
#[verifier::external_body]
fn encode_query(lat: &str, lon: &str) -> (r: Option<String>)
    ensures
        r is Some,
        r matches Some(q) ==> q@ == informers_query(lat@, lon@),
{
    let params = std::collections::BTreeMap::from([("lat", lat), ("lon", lon)]);
    serde_qs::to_string(&params).ok()
}

/// Relies on serde_json's `Value` variants: converts one for one, numbers to
/// what `Number::as_i64` and `Number::as_u64` return.
#[verifier::external_body]
fn json_from_value(v: serde_json::Value) -> Json {
    match v {
        serde_json::Value::Null => Json::Null,
        serde_json::Value::Bool(b) => Json::Bool(b),
        serde_json::Value::Number(n) => Json::Number { signed: n.as_i64(), unsigned: n.as_u64() },
        serde_json::Value::String(s) => Json::Str(s),
        serde_json::Value::Array(items) => Json::Array(items.into_iter().map(json_from_value).collect()),
        serde_json::Value::Object(m) => Json::Object {
            keys: m.keys().cloned().collect(),
            values: m.into_iter().map(|(_, v)| json_from_value(v)).collect(),
        },
    }
}

/// Relies on `serde_json::from_str` into a `serde_json::Value`, converted by
/// `json_from_value`; an error comes back as its `Display` text.
#[verifier::external_body]
fn parse_json(text: &str) -> (r: Result<Json, String>)
    ensures
        r is Ok <==> json_of(text@) is Some,
        r matches Ok(j) ==> j == json_of(text@)->0,
{
    serde_json::from_str::<serde_json::Value>(text).map(json_from_value).map_err(|e| e.to_string())
}

/// Unicode `White_Space`: the characters that `str::trim` removes.
pub open spec fn is_white_space(c: char) -> bool {
    ('\u{9}' <= c <= '\u{d}') || c == ' ' || c == '\u{85}' || c == '\u{a0}' || c == '\u{1680}'
        || ('\u{2000}' <= c <= '\u{200a}') || c == '\u{2028}' || c == '\u{2029}' || c == '\u{202f}'
        || c == '\u{205f}' || c == '\u{3000}'
}

/// `s` without its leading white space.
pub open spec fn trim_start(s: Seq<char>) -> Seq<char>
    decreases s.len(),
{
    if s.len() > 0 && is_white_space(s[0]) {
        trim_start(s.drop_first())
    } else {
        s
    }
}

/// `s` without its trailing white space.
pub open spec fn trim_end(s: Seq<char>) -> Seq<char>
    decreases s.len(),
{
    if s.len() > 0 && is_white_space(s.last()) {
        trim_end(s.drop_last())
    } else {
        s
    }
}

/// `s` without leading and trailing white space.
pub open spec fn trimmed(s: Seq<char>) -> Seq<char> {
    trim_end(trim_start(s))
}

/// Relies on `str::trim`: leading and trailing `White_Space` removed.
#[verifier::external_body]
fn trim<'a>(s: &'a str) -> (r: &'a str)
    ensures
        r@ == trimmed(s@),
{
    s.trim()
}

/// The hyphenated name the vendor gives a condition.
pub open spec fn wire_name(c: Condition) -> Seq<char> {
    match c {
        Condition::Clear => "clear"@,
        Condition::PartlyCloudy => "partly-cloudy"@,
        Condition::Cloudy => "cloudy"@,
        Condition::Overcast => "overcast"@,
        Condition::Drizzle => "drizzle"@,
        Condition::LightRain => "light-rain"@,
        Condition::Rain => "rain"@,
        Condition::ModerateRain => "moderate-rain"@,
        Condition::HeavyRain => "heavy-rain"@,
        Condition::ContinuousHeavyRain => "continuous-heavy-rain"@,
        Condition::Showers => "showers"@,
        Condition::WetSnow => "wet-snow"@,
        Condition::LightSnow => "light-snow"@,
        Condition::Snow => "snow"@,
        Condition::SnowShowers => "snow-showers"@,
        Condition::Hail => "hail"@,
        Condition::Thunderstorm => "thunderstorm"@,
        Condition::ThunderstormWithRain => "thunderstorm-with-rain"@,
        Condition::ThunderstormWithHail => "thunderstorm-with-hail"@,
    }
}

/// The condition whose hyphenated name is `s`, if any.
pub open spec fn condition_from_wire(s: Seq<char>) -> Option<Condition> {
    if s == "clear"@ { Some(Condition::Clear) }
    else if s == "partly-cloudy"@ { Some(Condition::PartlyCloudy) }
    else if s == "cloudy"@ { Some(Condition::Cloudy) }
    else if s == "overcast"@ { Some(Condition::Overcast) }
    else if s == "drizzle"@ { Some(Condition::Drizzle) }
    else if s == "light-rain"@ { Some(Condition::LightRain) }
    else if s == "rain"@ { Some(Condition::Rain) }
    else if s == "moderate-rain"@ { Some(Condition::ModerateRain) }
    else if s == "heavy-rain"@ { Some(Condition::HeavyRain) }
    else if s == "continuous-heavy-rain"@ { Some(Condition::ContinuousHeavyRain) }
    else if s == "showers"@ { Some(Condition::Showers) }
    else if s == "wet-snow"@ { Some(Condition::WetSnow) }
    else if s == "light-snow"@ { Some(Condition::LightSnow) }
    else if s == "snow"@ { Some(Condition::Snow) }
    else if s == "snow-showers"@ { Some(Condition::SnowShowers) }
    else if s == "hail"@ { Some(Condition::Hail) }
    else if s == "thunderstorm"@ { Some(Condition::Thunderstorm) }
    else if s == "thunderstorm-with-rain"@ { Some(Condition::ThunderstormWithRain) }
    else if s == "thunderstorm-with-hail"@ { Some(Condition::ThunderstormWithHail) }
    else { None }
}

fn is_text(s: &String, lit: &str) -> (r: bool)
    ensures
        r == (s@ == lit@),
{
    *s == lit.to_owned()
}

/// The condition a hyphenated name stands for; absent for a missing or an
/// unknown name.
pub fn parse_condition(s: Option<&str>) -> (r: Option<Condition>)
    ensures
        r == match s {
            Some(t) => condition_from_wire(t@),
            None => None,
        },
{
    let t = match s {
        Some(t) => t.to_owned(),
        None => return None,
    };
    if is_text(&t, "clear") { Some(Condition::Clear) }
    else if is_text(&t, "partly-cloudy") { Some(Condition::PartlyCloudy) }
    else if is_text(&t, "cloudy") { Some(Condition::Cloudy) }
    else if is_text(&t, "overcast") { Some(Condition::Overcast) }
    else if is_text(&t, "drizzle") { Some(Condition::Drizzle) }
    else if is_text(&t, "light-rain") { Some(Condition::LightRain) }
    else if is_text(&t, "rain") { Some(Condition::Rain) }
    else if is_text(&t, "moderate-rain") { Some(Condition::ModerateRain) }
    else if is_text(&t, "heavy-rain") { Some(Condition::HeavyRain) }
    else if is_text(&t, "continuous-heavy-rain") { Some(Condition::ContinuousHeavyRain) }
    else if is_text(&t, "showers") { Some(Condition::Showers) }
    else if is_text(&t, "wet-snow") { Some(Condition::WetSnow) }
    else if is_text(&t, "light-snow") { Some(Condition::LightSnow) }
    else if is_text(&t, "snow") { Some(Condition::Snow) }
    else if is_text(&t, "snow-showers") { Some(Condition::SnowShowers) }
    else if is_text(&t, "hail") { Some(Condition::Hail) }
    else if is_text(&t, "thunderstorm") { Some(Condition::Thunderstorm) }
    else if is_text(&t, "thunderstorm-with-rain") { Some(Condition::ThunderstormWithRain) }
    else if is_text(&t, "thunderstorm-with-hail") { Some(Condition::ThunderstormWithHail) }
    else { None }
}

/// Every condition comes back from its hyphenated name, and a name that is
/// no condition's gives none.
pub proof fn law_condition_wire_round_trip(c: Condition, s: Seq<char>)
    ensures
        condition_from_wire(wire_name(c)) == Some(c),
        (forall|d: Condition| wire_name(d) != s) ==> condition_from_wire(s) is None,
{
    reveal_strlit("clear");
    reveal_strlit("partly-cloudy");
    reveal_strlit("cloudy");
    reveal_strlit("overcast");
    reveal_strlit("drizzle");
    reveal_strlit("light-rain");
    reveal_strlit("rain");
    reveal_strlit("moderate-rain");
    reveal_strlit("heavy-rain");
    reveal_strlit("continuous-heavy-rain");
    reveal_strlit("showers");
    reveal_strlit("wet-snow");
    reveal_strlit("light-snow");
    reveal_strlit("snow");
    reveal_strlit("snow-showers");
    reveal_strlit("hail");
    reveal_strlit("thunderstorm");
    reveal_strlit("thunderstorm-with-rain");
    reveal_strlit("thunderstorm-with-hail");
    if forall|d: Condition| wire_name(d) != s {
        assert(wire_name(Condition::Clear) != s);
        assert(wire_name(Condition::PartlyCloudy) != s);
        assert(wire_name(Condition::Cloudy) != s);
        assert(wire_name(Condition::Overcast) != s);
        assert(wire_name(Condition::Drizzle) != s);
        assert(wire_name(Condition::LightRain) != s);
        assert(wire_name(Condition::Rain) != s);
        assert(wire_name(Condition::ModerateRain) != s);
        assert(wire_name(Condition::HeavyRain) != s);
        assert(wire_name(Condition::ContinuousHeavyRain) != s);
        assert(wire_name(Condition::Showers) != s);
        assert(wire_name(Condition::WetSnow) != s);
        assert(wire_name(Condition::LightSnow) != s);
        assert(wire_name(Condition::Snow) != s);
        assert(wire_name(Condition::SnowShowers) != s);
        assert(wire_name(Condition::Hail) != s);
        assert(wire_name(Condition::Thunderstorm) != s);
        assert(wire_name(Condition::ThunderstormWithRain) != s);
        assert(wire_name(Condition::ThunderstormWithHail) != s);
    }
    // Names of equal length differ in their first or last letter; naming
    // both letters lets the solver tell every pair apart.
    let w = wire_name(c);
    assert(w.len() > 0);
    assert(w[0] == wire_name(c)[0]);
    assert(w[w.len() - 1] == wire_name(c)[w.len() - 1]);
}

/// The fields of one forecast part as the vendor's JSON gave them.
#[derive(Debug, Clone)]
pub struct PartReading {
    pub name: Option<String>,
    pub temp_avg: Option<i64>,
    pub feels_like: Option<i64>,
    pub humidity: Option<u64>,
    pub condition: Option<String>,
    pub icon: Option<String>,
}

/// The fields of an informers answer as the vendor's JSON gave them; `parts`
/// is absent where the answer has no `forecast.parts` array.
#[derive(Debug, Clone)]
pub struct Reading {
    pub temp: Option<i64>,
    pub feels_like: Option<i64>,
    pub humidity: Option<u64>,
    pub icon: Option<String>,
    pub condition: Option<String>,
    pub parts: Option<Vec<PartReading>>,
}

/// A vendor temperature in degrees Celsius; used where it fits in 16 bits.
pub open spec fn celsius(t: i64) -> Temperature {
    Temperature(t as i16, Unit::Celsius)
}

/// A vendor temperature that may be absent.
pub open spec fn optional_celsius(t: Option<i64>) -> Option<Temperature> {
    match t {
        Some(v) => Some(celsius(v)),
        None => None,
    }
}

/// The condition a vendor name stands for, if any.
pub open spec fn condition_of(s: Option<String>) -> Option<Condition> {
    match s {
        Some(t) => condition_from_wire(t@),
        None => None,
    }
}

/// A vendor temperature fits the 16 bits of a `Temperature`.
pub open spec fn fits_i16(t: i64) -> bool {
    i16::MIN <= t <= i16::MAX
}

/// A vendor temperature that may be absent is absent or fits.
pub open spec fn optional_fits(t: Option<i64>) -> bool {
    t matches Some(v) ==> fits_i16(v)
}

/// The part has what a forecast part needs: a name and a temperature, and
/// every temperature it gives fits.
pub open spec fn part_complete(p: PartReading) -> bool {
    &&& p.name is Some
    &&& p.temp_avg matches Some(t) && fits_i16(t)
    &&& optional_fits(p.feels_like)
}

/// Every part is complete.
pub open spec fn parts_complete(ps: Seq<PartReading>) -> bool {
    forall|i: int| 0 <= i < ps.len() ==> part_complete(#[trigger] ps[i])
}

/// `f` is the forecast part that the complete reading `p` describes.
pub open spec fn part_matches(p: PartReading, f: ForecastPart) -> bool {
    &&& f.name == p.name->0
    &&& f.temp == celsius(p.temp_avg->0)
    &&& f.feels_like == optional_celsius(p.feels_like)
    &&& f.humidity == p.humidity
    &&& f.condition == condition_of(p.condition)
    &&& f.icon == p.icon
    &&& f.daytime is None
}

/// `f` holds one part for each reading, in the same order.
pub open spec fn forecast_matches(ps: Seq<PartReading>, f: Forecast) -> bool {
    &&& f.parts@.len() == ps.len()
    &&& forall|i: int| 0 <= i < ps.len() ==> part_matches(ps[i], #[trigger] f.parts@[i])
}

/// The reading has what a `WeatherInfo` needs: the current temperature, every
/// temperature given fitting in 16 bits, and complete parts where there are
/// parts.
pub open spec fn reading_complete(r: Reading) -> bool {
    &&& r.temp matches Some(t) && fits_i16(t)
    &&& optional_fits(r.feels_like)
    &&& r.parts matches Some(ps) ==> parts_complete(ps@)
}

/// `w` is the fresh value that the complete reading `r` describes at `now`.
pub open spec fn weather_matches(r: Reading, now: Timestamp, w: WeatherInfo) -> bool {
    &&& !w.is_cached
    &&& w.created_at == now
    &&& w.temp == celsius(r.temp->0)
    &&& w.feels_like == optional_celsius(r.feels_like)
    &&& w.humidity == r.humidity
    &&& w.icon == r.icon
    &&& w.condition == condition_of(r.condition)
    &&& w.daytime is None
    &&& match r.parts {
        Some(ps) => w.forecasts matches Some(f) && forecast_matches(ps@, f),
        None => w.forecasts is None,
    }
}

fn fits(t: i64) -> (r: bool)
    ensures
        r == fits_i16(t),
{
    i16::MIN as i64 <= t && t <= i16::MAX as i64
}

fn to_celsius(t: i64) -> (r: Temperature)
    requires
        fits_i16(t),
    ensures
        r == celsius(t),
{
    Temperature::new(t as i16, Unit::Celsius)
}

fn to_optional_celsius(t: Option<i64>) -> (r: Option<Option<Temperature>>)
    ensures
        r is Some <==> optional_fits(t),
        r matches Some(v) ==> v == optional_celsius(t),
{
    match t {
        Some(v) => {
            if fits(v) {
                Some(Some(to_celsius(v)))
            } else {
                None
            }
        },
        None => Some(None),
    }
}

fn copy_text(s: &Option<String>) -> (r: Option<String>)
    ensures
        r == *s,
{
    match s {
        Some(t) => Some(t.clone()),
        None => None,
    }
}

fn condition_named(s: &Option<String>) -> (r: Option<Condition>)
    ensures
        r == condition_of(*s),
{
    match s {
        Some(t) => parse_condition(Some(t.as_str())),
        None => None,
    }
}

/// The forecast part a reading describes; absent where it lacks its name or
/// its temperature, or gives a temperature beyond 16 bits.
pub fn parse_part(p: &PartReading) -> (r: Option<ForecastPart>)
    ensures
        r is Some <==> part_complete(*p),
        r matches Some(f) ==> part_matches(*p, f),
{
    let name = match &p.name {
        Some(n) => n.clone(),
        None => return None,
    };
    let temp = match p.temp_avg {
        Some(t) => {
            if !fits(t) {
                return None;
            }
            to_celsius(t)
        },
        None => return None,
    };
    let feels_like = match to_optional_celsius(p.feels_like) {
        Some(f) => f,
        None => return None,
    };
    Some(ForecastPart {
        name,
        temp,
        humidity: p.humidity,
        icon: copy_text(&p.icon),
        condition: condition_named(&p.condition),
        feels_like,
        daytime: None,
    })
}

/// The forecast the readings describe, parts in their order; absent where
/// any part is incomplete.
pub fn parse_forecast(parts: &Vec<PartReading>) -> (r: Option<Forecast>)
    ensures
        r is Some <==> parts_complete(parts@),
        r matches Some(f) ==> forecast_matches(parts@, f),
{
    let mut out: Vec<ForecastPart> = Vec::new();
    let mut i: usize = 0;
    while i < parts.len()
        invariant
            i <= parts@.len(),
            out@.len() == i,
            forall|j: int| 0 <= j < i ==> part_complete(#[trigger] parts@[j]),
            forall|j: int| 0 <= j < i ==> part_matches(parts@[j], #[trigger] out@[j]),
        decreases parts@.len() - i,
    {
        match parse_part(&parts[i]) {
            Some(f) => out.push(f),
            None => {
                assert(!part_complete(parts@[i as int]));
                return None;
            },
        }
        i = i + 1;
    }
    Some(Forecast { parts: out })
}

/// The fresh `WeatherInfo` that a reading describes at `now`; absent where
/// the reading is incomplete.
pub fn weather_from_reading(r: &Reading, now: Timestamp) -> (w: Option<WeatherInfo>)
    ensures
        w is Some <==> reading_complete(*r),
        w matches Some(w) ==> weather_matches(*r, now, w),
{
    let temp = match r.temp {
        Some(t) => {
            if !fits(t) {
                return None;
            }
            to_celsius(t)
        },
        None => return None,
    };
    let feels_like = match to_optional_celsius(r.feels_like) {
        Some(f) => f,
        None => return None,
    };
    let forecasts = match &r.parts {
        Some(ps) => match parse_forecast(ps) {
            Some(f) => Some(f),
            None => return None,
        },
        None => None,
    };
    Some(WeatherInfo {
        is_cached: false,
        created_at: now,
        temp,
        feels_like,
        humidity: r.humidity,
        icon: copy_text(&r.icon),
        condition: condition_named(&r.condition),
        forecasts,
        daytime: None,
    })
}

/// The value behind a reference that may be absent.
pub open spec fn deref(j: Option<&Json>) -> Option<Json> {
    match j {
        Some(v) => Some(*v),
        None => None,
    }
}

/// The value of the first member named `key`, looking from position `i` on.
pub open spec fn entry_from(keys: Seq<String>, values: Seq<Json>, key: Seq<char>, i: int) -> Option<Json>
    decreases keys.len() - i,
{
    if i < 0 || i >= keys.len() || i >= values.len() {
        None
    } else if keys[i]@ == key {
        Some(values[i])
    } else {
        entry_from(keys, values, key, i + 1)
    }
}

/// The member `key` of an object; none for a missing key or a value that is
/// no object.
pub open spec fn member_of(j: Option<Json>, key: Seq<char>) -> Option<Json> {
    match j {
        Some(Json::Object { keys, values }) => entry_from(keys@, values@, key, 0),
        _ => None,
    }
}

/// An integer that fits in `i64`.
pub open spec fn int_of(j: Option<Json>) -> Option<i64> {
    match j {
        Some(Json::Number { signed, .. }) => signed,
        _ => None,
    }
}

/// A non-negative integer that fits in `u64`.
pub open spec fn unsigned_of(j: Option<Json>) -> Option<u64> {
    match j {
        Some(Json::Number { unsigned, .. }) => unsigned,
        _ => None,
    }
}

/// A string.
pub open spec fn text_of(j: Option<Json>) -> Option<String> {
    match j {
        Some(Json::Str(s)) => Some(s),
        _ => None,
    }
}

/// The elements of an array.
pub open spec fn items_of(j: Option<Json>) -> Option<Seq<Json>> {
    match j {
        Some(Json::Array(items)) => Some(items@),
        _ => None,
    }
}

/// The fields of a forecast part: `part_name`, `temp_avg`, `feels_like`,
/// `humidity`, `condition` and `icon`.
pub open spec fn part_reading_of(j: Json) -> PartReading {
    PartReading {
        name: text_of(member_of(Some(j), "part_name"@)),
        temp_avg: int_of(member_of(Some(j), "temp_avg"@)),
        feels_like: int_of(member_of(Some(j), "feels_like"@)),
        humidity: unsigned_of(member_of(Some(j), "humidity"@)),
        condition: text_of(member_of(Some(j), "condition"@)),
        icon: text_of(member_of(Some(j), "icon"@)),
    }
}

/// The parts array of an informers answer: `forecast.parts`.
pub open spec fn parts_of(j: Json) -> Option<Seq<Json>> {
    items_of(member_of(member_of(Some(j), "forecast"@), "parts"@))
}

/// `r` holds the fields of the informers answer `j`: `fact.temp`,
/// `fact.feels_like`, `fact.humidity`, `fact.icon`, `fact.condition`, and one
/// part reading for each element of `forecast.parts` where that is an array.
pub open spec fn is_reading_of(r: Reading, j: Json) -> bool {
    let fact = member_of(Some(j), "fact"@);
    &&& r.temp == int_of(member_of(fact, "temp"@))
    &&& r.feels_like == int_of(member_of(fact, "feels_like"@))
    &&& r.humidity == unsigned_of(member_of(fact, "humidity"@))
    &&& r.icon == text_of(member_of(fact, "icon"@))
    &&& r.condition == text_of(member_of(fact, "condition"@))
    &&& match parts_of(j) {
        Some(items) => r.parts matches Some(ps) && ps@.len() == items.len()
            && forall|i: int| 0 <= i < items.len() ==> #[trigger] ps@[i] == part_reading_of(items[i]),
        None => r.parts is None,
    }
}

fn member<'a>(j: Option<&'a Json>, key: &str) -> (r: Option<&'a Json>)
    ensures
        deref(r) == member_of(deref(j), key@),
{
    let v = match j {
        Some(v) => v,
        None => return None,
    };
    match v {
        Json::Object { keys, values } => {
            let mut i: usize = 0;
            while i < keys.len() && i < values.len()
                invariant
                    i <= keys@.len(),
                    deref(j) == Some(Json::Object { keys: *keys, values: *values }),
                    entry_from(keys@, values@, key@, 0) == entry_from(keys@, values@, key@, i as int),
                decreases keys@.len() - i,
            {
                if is_text(&keys[i], key) {
                    return Some(&values[i]);
                }
                i = i + 1;
            }
            None
        },
        _ => None,
    }
}

fn int_at(j: Option<&Json>) -> (r: Option<i64>)
    ensures
        r == int_of(deref(j)),
{
    match j {
        Some(v) => match v {
            Json::Number { signed, .. } => *signed,
            _ => None,
        },
        None => None,
    }
}

fn count_at(j: Option<&Json>) -> (r: Option<u64>)
    ensures
        r == unsigned_of(deref(j)),
{
    match j {
        Some(v) => match v {
            Json::Number { unsigned, .. } => *unsigned,
            _ => None,
        },
        None => None,
    }
}

fn text_at(j: Option<&Json>) -> (r: Option<String>)
    ensures
        r == text_of(deref(j)),
{
    match j {
        Some(v) => match v {
            Json::Str(s) => Some(s.clone()),
            _ => None,
        },
        None => None,
    }
}

fn read_part(j: &Json) -> (r: PartReading)
    ensures
        r == part_reading_of(*j),
{
    PartReading {
        name: text_at(member(Some(j), "part_name")),
        temp_avg: int_at(member(Some(j), "temp_avg")),
        feels_like: int_at(member(Some(j), "feels_like")),
        humidity: count_at(member(Some(j), "humidity")),
        condition: text_at(member(Some(j), "condition")),
        icon: text_at(member(Some(j), "icon")),
    }
}

/// The fields of an informers answer.
pub fn read_informers(j: &Json) -> (r: Reading)
    ensures
        is_reading_of(r, *j),
{
    let fact = member(Some(j), "fact");
    let parts = match member(member(Some(j), "forecast"), "parts") {
        Some(v) => match v {
            Json::Array(items) => {
                let mut out: Vec<PartReading> = Vec::new();
                let mut i: usize = 0;
                while i < items.len()
                    invariant
                        i <= items@.len(),
                        out@.len() == i,
                        forall|k: int| 0 <= k < i ==> #[trigger] out@[k] == part_reading_of(items@[k]),
                    decreases items@.len() - i,
                {
                    out.push(read_part(&items[i]));
                    i = i + 1;
                }
                Some(out)
            },
            _ => None,
        },
        None => None,
    };
    Reading {
        temp: int_at(member(fact, "temp")),
        feels_like: int_at(member(fact, "feels_like")),
        humidity: count_at(member(fact, "humidity")),
        icon: text_at(member(fact, "icon")),
        condition: text_at(member(fact, "condition")),
        parts,
    }
}

/// `w` is what the informers answer `j` gives at `now`: present exactly where
/// its reading is complete, and then the value that reading describes.
pub open spec fn parsed_from(j: Json, now: Timestamp, w: Option<WeatherInfo>) -> bool {
    forall|r: Reading| #[trigger] is_reading_of(r, j) ==> {
        &&& (w is Some <==> reading_complete(r))
        &&& (w matches Some(x) ==> weather_matches(r, now, x))
    }
}

proof fn lemma_readings_agree(r: Reading, r0: Reading, j: Json)
    requires
        is_reading_of(r, j),
        is_reading_of(r0, j),
    ensures
        r.temp == r0.temp,
        r.parts is Some <==> r0.parts is Some,
        r.parts is Some ==> r.parts->0@ == r0.parts->0@,
{
    if r.parts is Some {
        assert(r.parts->0@ =~= r0.parts->0@);
    }
}

/// The fresh `WeatherInfo` in an informers answer; absent where the answer
/// lacks a required field or gives a temperature beyond 16 bits.
pub fn parse(j: &Json, now: Timestamp) -> (w: Option<WeatherInfo>)
    ensures
        parsed_from(*j, now, w),
{
    let r0 = read_informers(j);
    let w = weather_from_reading(&r0, now);
    assert forall|r: Reading| #[trigger] is_reading_of(r, *j) implies {
        &&& (w is Some <==> reading_complete(r))
        &&& (w matches Some(x) ==> weather_matches(r, now, x))
    } by {
        lemma_readings_agree(r, r0, *j);
    }
    w
}

/// What an HTTP request is made of.
#[derive(Debug, Clone)]
pub struct HttpRequest {
    pub url: String,
    pub headers: Vec<(String, String)>,
}

/// The vendor provider.
#[derive(Debug, Clone)]
pub struct Yandex {
    pub config: ConfigYandex,
}

impl Yandex {
    pub fn new(config: ConfigYandex) -> (r: Self)
        ensures
            r.config == config,
    {
        Yandex { config }
    }

    /// The GET request for the informers endpoint: the URL with the
    /// encoded `lat` and `lon`, the API key header and the user agent.
    /// Absent where the query does not encode.
    pub fn request(&self) -> (r: HttpRequest)
        ensures
            r.url@ == API_URL@ + informers_query(self.config.lat@, self.config.lon@),
            r.headers@.len() == 2,
            r.headers@[0].0@ == "X-Yandex-API-Key"@,
            r.headers@[0].1 == self.config.api_key,
            r.headers@[1].0@ == "User-Agent"@,
            r.headers@[1].1 == self.config.user_agent,
    {
        let query = encode_query(self.config.lat.as_str(), self.config.lon.as_str()).unwrap();
        let mut url = API_URL.to_owned();
        url.append(query.as_str());
        let mut headers: Vec<(String, String)> = Vec::new();
        headers.push(("X-Yandex-API-Key".to_owned(), self.config.api_key.clone()));
        headers.push(("User-Agent".to_owned(), self.config.user_agent.clone()));
        HttpRequest { url, headers }
    }

    /// What the answer to the request means: a status outside 2xx is an
    /// `InvalidRequest` with that status and the trimmed body; a body that is
    /// no JSON is a `Parse` error; JSON whose reading is incomplete is an
    /// `InvalidResponse`; else the fresh weather that reading describes,
    /// stamped with `now`.
    pub fn weather_from_response(status: u16, body: &str, now: Timestamp) -> (r: Result<WeatherInfo, Error>)
        ensures
            !(200 <= status < 300) ==> (r matches Err(Error::InvalidRequest { text, code })
                && code == status && text@ == trimmed(body@)),
            200 <= status < 300 ==> ((r matches Err(Error::Parse(_))) <==> json_of(body@) is None),
            200 <= status < 300 && json_of(body@) is Some ==> {
                &&& r matches Err(e) ==> e == Error::InvalidResponse
                &&& parsed_from(json_of(body@)->0, now, match r {
                    Ok(w) => Some(w),
                    Err(_) => None,
                })
            },
    {
        if status < 200 || status >= 300 {
            return Err(Error::InvalidRequest { text: trim(body).to_owned(), code: status });
        }
        match parse_json(body) {
            Err(message) => Err(Error::Parse(message)),
            Ok(v) => match parse(&v, now) {
                Some(w) => Ok(w),
                None => Err(Error::InvalidResponse),
            },
        }
    }
}

} // verus!
