use forecast::template::{bindings, created_format, created_text, Binding, Template, Variable, TEMPLATE_DEBUG};
use forecast::temperature::Temperature;
use forecast::temperature::Unit::{Celsius, Fahrenheit};
use forecast::time::Timestamp;
use forecast::weather::{Condition, Forecast, ForecastPart, WeatherInfo};
use handlebars::{Context, Handlebars, Helper, HelperResult, Output, RenderContext};
use serde_json::Value;

// 2021-06-15T12:00:00Z: the same year in every time zone.
const T: Timestamp = Timestamp { secs: 1_623_758_400, nanos: 0 };

fn base() -> WeatherInfo {
    WeatherInfo {
        is_cached: false,
        created_at: T,
        temp: Temperature::new(18, Celsius),
        feels_like: Some(Temperature::new(16, Celsius)),
        humidity: Some(42),
        icon: None,
        condition: Some(Condition::PartlyCloudy),
        forecasts: None,
        daytime: None,
    }
}

fn part(name: &str, t: i16) -> ForecastPart {
    ForecastPart {
        name: name.to_string(),
        temp: Temperature::new(t, Celsius),
        humidity: None,
        icon: None,
        condition: Some(Condition::Rain),
        feels_like: None,
        daytime: None,
    }
}

fn with_parts() -> WeatherInfo {
    let mut w = base();
    w.forecasts = Some(Forecast { parts: vec![part("day", 20), part("night", 12)] });
    w
}

fn value_of<'a>(vars: &'a [Variable], name: &str) -> Option<&'a Binding> {
    vars.iter().rev().find(|v| v.name == name).map(|v| &v.value)
}

fn text(s: &str) -> Option<Binding> {
    Some(Binding::Text(s.to_string()))
}

fn data(vars: Vec<Variable>) -> Value {
    let mut map = serde_json::Map::new();
    for v in vars {
        let value = match v.value {
            Binding::Text(s) => Value::from(s),
            Binding::Int(i) => Value::from(i),
            Binding::Unsigned(u) => Value::from(u),
            Binding::Instant(t) => {
                let mut m = serde_json::Map::new();
                m.insert("secs".to_string(), Value::from(t.secs));
                m.insert("nanos".to_string(), Value::from(t.nanos));
                Value::Object(m)
            }
        };
        map.insert(v.name, value);
    }
    Value::Object(map)
}

fn created(h: &Helper, _: &Handlebars, ctx: &Context, _: &mut RenderContext, out: &mut dyn Output) -> HelperResult {
    let given = h.hash_get("format").and_then(|v| v.value().as_str());
    let date = &ctx.data()["date"];
    let t = Timestamp { secs: date["secs"].as_u64().unwrap(), nanos: date["nanos"].as_u64().unwrap() as u32 };
    out.write(&created_text(t, given).unwrap())?;
    Ok(())
}

fn render(template: &str, w: &WeatherInfo, debug: bool) -> String {
    let mut reg = Handlebars::new();
    reg.register_helper("created", Box::new(created));
    reg.render_template(Template::new(template).source(debug), &data(bindings(w))).unwrap()
}

#[test]
fn celsius_and_humidity_render() {
    assert_eq!(render("{{ temperature_celsius_full }} h:{{ humidity }}%", &base(), false), "18°C h:42%");
}

#[test]
fn feel_temperature_in_fahrenheit_renders() {
    assert_eq!(render("{{ feel_temperature_fahrenheit }}", &base(), false), "60");
}

#[test]
fn forecast_parts_render_by_name() {
    let out = render(
        "d:{{ forecast_day_temperature_celsius }} n:{{ forecast_night_temperature_celsius }}",
        &with_parts(),
        false,
    );
    assert_eq!(out, "d:20 n:12");
}

#[test]
fn created_renders_the_local_year() {
    assert_eq!(render("{{ created format=\"%Y\" }}", &base(), false), "2021");
    assert_eq!(created_text(T, Some("%Y")).as_deref(), Some("2021"));
}

#[test]
fn debug_template_lists_variables() {
    let out = render("ignored {{ humidity }}", &with_parts(), true);
    assert!(out.contains("cache:"));
    assert!(out.contains("temperature_celsius:"));
    assert!(out.contains("humidity:"));
    assert!(!out.contains("ignored"));
}

#[test]
fn template_source_picks_debug_text() {
    let t = Template::new("{{ cache }}");
    assert_eq!(t.source(false), "{{ cache }}");
    assert_eq!(t.source(true), TEMPLATE_DEBUG);
}

#[test]
fn created_format_defaults() {
    assert_eq!(created_format(None), "%D %T");
    assert_eq!(created_format(Some("%H:%M")), "%H:%M");
    assert!(created_text(T, Some("%Q")).is_none());
    assert_eq!(created_text(T, None).map(|s| s.len()), Some(17));
}

#[test]
fn bindings_of_current_conditions() {
    let vars = bindings(&base());
    assert_eq!(value_of(&vars, "cache").cloned(), text("false"));
    assert_eq!(value_of(&vars, "date").cloned(), Some(Binding::Instant(T)));
    assert_eq!(value_of(&vars, "temperature_celsius").cloned(), Some(Binding::Int(18)));
    assert_eq!(value_of(&vars, "temperature_kelvin_full").cloned(), text("291K"));
    assert_eq!(value_of(&vars, "temperature_fahrenheit").cloned(), Some(Binding::Int(64)));
    assert_eq!(value_of(&vars, "feel_temperature_fahrenheit_full").cloned(), text("60°F"));
    assert_eq!(value_of(&vars, "humidity").cloned(), Some(Binding::Unsigned(42)));
    assert_eq!(value_of(&vars, "condition").cloned(), text("partly cloudy"));
    assert_eq!(value_of(&vars, "condition_code").cloned(), text("PartlyCloudy"));
    assert_eq!(value_of(&vars, "forecast_count").cloned(), Some(Binding::Unsigned(0)));
}

#[test]
fn bindings_of_forecast_parts() {
    let vars = bindings(&with_parts());
    assert_eq!(value_of(&vars, "forecast_count").cloned(), Some(Binding::Unsigned(2)));
    assert_eq!(value_of(&vars, "forecast_0_name").cloned(), text("day"));
    assert_eq!(value_of(&vars, "forecast_1_temperature_celsius_full").cloned(), text("12°C"));
    assert_eq!(value_of(&vars, "forecast_night_temperature_kelvin").cloned(), Some(Binding::Int(285)));
    assert_eq!(value_of(&vars, "forecast_0_condition").cloned(), text("rain"));
    assert_eq!(value_of(&vars, "forecast_day_condition_code").cloned(), text("Rain"));
    assert!(value_of(&vars, "forecast_0_humidity").is_none());
    assert!(value_of(&vars, "forecast_day_feel_temperature_celsius").is_none());
}

#[test]
fn absent_fields_bind_nothing() {
    let mut w = base();
    w.feels_like = None;
    w.humidity = None;
    w.condition = None;
    w.is_cached = true;
    w.temp = Temperature::new(50, Fahrenheit);
    let vars = bindings(&w);
    assert_eq!(value_of(&vars, "cache").cloned(), text("true"));
    assert_eq!(value_of(&vars, "temperature_celsius_full").cloned(), text("10°C"));
    assert!(value_of(&vars, "feel_temperature_celsius").is_none());
    assert!(value_of(&vars, "humidity").is_none());
    assert!(value_of(&vars, "condition").is_none());
    assert_eq!(vars.len(), 9);
}
