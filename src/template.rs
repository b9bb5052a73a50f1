//! The variables a display template sees: the weather laid out as a flat list
//! of named values, under both positional and named keys for forecast parts.

use std::fmt::Write;
use vstd::prelude::*;

use crate::temperature::{converted, unit_symbol, Temperature, Unit};
use crate::text::{decimal, push_decimal, push_natural};
use crate::time::Timestamp;
use crate::weather::{condition_code, condition_name, Condition, ForecastPart, WeatherInfo};

verus! {

/// The value of a template variable.
#[derive(Debug, Clone, PartialEq, Eq)]
pub enum Binding {
    Text(String),
    Int(i64),
    Unsigned(u64),
    Instant(Timestamp),
}

/// What a `Binding` holds, as mathematical values.
pub enum BindingView {
    Text(Seq<char>),
    Int(int),
    Unsigned(int),
    Instant(Timestamp),
}

impl View for Binding {
    type V = BindingView;

    open spec fn view(&self) -> BindingView {
        match self {
            Binding::Text(s) => BindingView::Text(s@),
            Binding::Int(v) => BindingView::Int(*v as int),
            Binding::Unsigned(v) => BindingView::Unsigned(*v as int),
            Binding::Instant(t) => BindingView::Instant(*t),
        }
    }
}

/// A named template variable.
#[derive(Debug, Clone, PartialEq, Eq)]
pub struct Variable {
    pub name: String,
    pub value: Binding,
}

impl View for Variable {
    type V = (Seq<char>, BindingView);

    open spec fn view(&self) -> (Seq<char>, BindingView) {
        (self.name@, self.value@)
    }
}

/// The names and values of a list of variables.
pub open spec fn variables_view(vs: Seq<Variable>) -> Seq<(Seq<char>, BindingView)> {
    vs.map_values(|v: Variable| v@)
}

/// The word that names a unit inside a variable name.
pub open spec fn unit_label(u: Unit) -> Seq<char> {
    match u {
        Unit::Celsius => "celsius"@,
        Unit::Fahrenheit => "fahrenheit"@,
        Unit::Kelvin => "kelvin"@,
    }
}

/// `<prefix><unit>`, the value of `t` in `u`, and `<prefix><unit>_full`, that
/// value followed by the unit's symbol.
pub open spec fn unit_vars(prefix: Seq<char>, t: Temperature, u: Unit) -> Seq<(Seq<char>, BindingView)> {
    let v = converted(t.0 as int, t.1, u);
    seq![
        (prefix + unit_label(u), BindingView::Int(v)),
        (prefix + unit_label(u) + "_full"@, BindingView::Text(decimal(v) + unit_symbol(u))),
    ]
}

/// The variables of `t` in Celsius, Kelvin and Fahrenheit, in that order.
pub open spec fn temperature_vars(prefix: Seq<char>, t: Temperature) -> Seq<(Seq<char>, BindingView)> {
    unit_vars(prefix, t, Unit::Celsius) + unit_vars(prefix, t, Unit::Kelvin) + unit_vars(prefix, t, Unit::Fahrenheit)
}

/// The variables of a temperature that may be absent.
pub open spec fn optional_temperature_vars(prefix: Seq<char>, t: Option<Temperature>) -> Seq<(Seq<char>, BindingView)> {
    match t {
        Some(t) => temperature_vars(prefix, t),
        None => seq![],
    }
}

/// `name` bound to a count that may be absent.
pub open spec fn count_vars(name: Seq<char>, n: Option<u64>) -> Seq<(Seq<char>, BindingView)> {
    match n {
        Some(n) => seq![(name, BindingView::Unsigned(n as int))],
        None => seq![],
    }
}

/// `<base>_code`, the tag of a condition, and `<base>`, its display name.
pub open spec fn condition_vars(base: Seq<char>, c: Option<Condition>) -> Seq<(Seq<char>, BindingView)> {
    match c {
        Some(c) => seq![
            (base + "_code"@, BindingView::Text(condition_code(c))),
            (base, BindingView::Text(condition_name(c))),
        ],
        None => seq![],
    }
}

/// The variables of the forecast part `p` at position `i`: each under
/// `forecast_<i>_` and again under `forecast_<name>_`.
pub open spec fn part_vars(i: int, p: ForecastPart) -> Seq<(Seq<char>, BindingView)> {
    let at = "forecast_"@ + decimal(i) + "_"@;
    let named = "forecast_"@ + p.name@ + "_"@;
    seq![(at + "name"@, BindingView::Text(p.name@))]
        + temperature_vars(at + "temperature_"@, p.temp)
        + temperature_vars(named + "temperature_"@, p.temp)
        + optional_temperature_vars(at + "feel_temperature_"@, p.feels_like)
        + optional_temperature_vars(named + "feel_temperature_"@, p.feels_like)
        + count_vars(at + "humidity"@, p.humidity)
        + count_vars(named + "humidity"@, p.humidity)
        + condition_vars(at + "condition"@, p.condition)
        + condition_vars(named + "condition"@, p.condition)
}

/// The variables of all forecast parts, in their order.
pub open spec fn forecast_vars(parts: Seq<ForecastPart>) -> Seq<(Seq<char>, BindingView)>
    decreases parts.len(),
{
    if parts.len() == 0 {
        seq![]
    } else {
        forecast_vars(parts.drop_last()) + part_vars(parts.len() - 1, parts.last())
    }
}

/// The forecast parts of a reading; none where it has no forecast.
pub open spec fn forecast_parts(w: WeatherInfo) -> Seq<ForecastPart> {
    match w.forecasts {
        Some(f) => f.parts@,
        None => seq![],
    }
}

/// Every variable a template sees for `w`, in order. Where two share a name,
/// the later one is the one a template sees.
pub open spec fn weather_vars(w: WeatherInfo) -> Seq<(Seq<char>, BindingView)> {
    seq![
        ("cache"@, BindingView::Text(if w.is_cached { "true"@ } else { "false"@ })),
        ("date"@, BindingView::Instant(w.created_at)),
    ]
        + temperature_vars("temperature_"@, w.temp)
        + optional_temperature_vars("feel_temperature_"@, w.feels_like)
        + count_vars("humidity"@, w.humidity)
        + condition_vars("condition"@, w.condition)
        + seq![("forecast_count"@, BindingView::Unsigned(forecast_parts(w).len() as int))]
        + forecast_vars(forecast_parts(w))
}

proof fn lemma_view_push(vs: Seq<Variable>, v: Variable)
    ensures
        variables_view(vs.push(v)) == variables_view(vs).push(v@),
{
    assert(variables_view(vs.push(v)) =~= variables_view(vs).push(v@));
}

fn concat(a: &str, b: &str) -> (r: String)
    ensures
        r@ == a@ + b@,
{
    let mut s = a.to_owned();
    s.append(b);
    s
}

fn push_var(out: &mut Vec<Variable>, name: String, value: Binding)
    ensures
        variables_view(final(out)@) == variables_view(old(out)@).push((name@, value@)),
{
    let v = Variable { name, value };
    proof {
        lemma_view_push(out@, v);
    }
    out.push(v);
}

fn unit_name(u: Unit) -> (r: &'static str)
    ensures
        r@ == unit_label(u),
{
    match u {
        Unit::Celsius => "celsius",
        Unit::Fahrenheit => "fahrenheit",
        Unit::Kelvin => "kelvin",
    }
}

fn push_unit(out: &mut Vec<Variable>, prefix: &str, t: &Temperature, u: Unit)
    ensures
        variables_view(final(out)@) == variables_view(old(out)@) + unit_vars(prefix@, *t, u),
{
    let v = t.value_in(u);
    let name = concat(prefix, unit_name(u));
    let full_name = concat(name.as_str(), "_full");
    let mut full = String::new();
    push_decimal(&mut full, v as i64);
    let symbol = u.to_string();
    full.append(symbol.as_str());
    push_var(out, name, Binding::Int(v as i64));
    push_var(out, full_name, Binding::Text(full));
    assert(variables_view(out@) =~= variables_view(old(out)@) + unit_vars(prefix@, *t, u));
}

fn push_temperature(out: &mut Vec<Variable>, prefix: &str, t: &Temperature)
    ensures
        variables_view(final(out)@) == variables_view(old(out)@) + temperature_vars(prefix@, *t),
{
    push_unit(out, prefix, t, Unit::Celsius);
    push_unit(out, prefix, t, Unit::Kelvin);
    push_unit(out, prefix, t, Unit::Fahrenheit);
    assert(variables_view(out@) =~= variables_view(old(out)@) + temperature_vars(prefix@, *t));
}

fn push_optional_temperature(out: &mut Vec<Variable>, prefix: &str, t: &Option<Temperature>)
    ensures
        variables_view(final(out)@) == variables_view(old(out)@) + optional_temperature_vars(prefix@, *t),
{
    match t {
        Some(t) => push_temperature(out, prefix, t),
        None => {
            assert(variables_view(out@) =~= variables_view(out@) + optional_temperature_vars(prefix@, None));
        },
    }
}

fn push_count(out: &mut Vec<Variable>, name: &str, n: Option<u64>)
    ensures
        variables_view(final(out)@) == variables_view(old(out)@) + count_vars(name@, n),
{
    match n {
        Some(n) => {
            push_var(out, name.to_owned(), Binding::Unsigned(n));
            assert(variables_view(out@) =~= variables_view(old(out)@) + count_vars(name@, Some(n)));
        },
        None => {
            assert(variables_view(out@) =~= variables_view(out@) + count_vars(name@, None));
        },
    }
}

fn push_condition(out: &mut Vec<Variable>, base: &str, c: Option<Condition>)
    ensures
        variables_view(final(out)@) == variables_view(old(out)@) + condition_vars(base@, c),
{
    match c {
        Some(c) => {
            push_var(out, concat(base, "_code"), Binding::Text(c.code()));
            push_var(out, base.to_owned(), Binding::Text(c.name()));
            assert(variables_view(out@) =~= variables_view(old(out)@) + condition_vars(base@, Some(c)));
        },
        None => {
            assert(variables_view(out@) =~= variables_view(out@) + condition_vars(base@, None));
        },
    }
}

fn push_part(out: &mut Vec<Variable>, i: usize, p: &ForecastPart)
    ensures
        variables_view(final(out)@) == variables_view(old(out)@) + part_vars(i as int, *p),
{
    let mut at = "forecast_".to_owned();
    push_natural(&mut at, i as u64);
    at.append("_");
    let mut named = "forecast_".to_owned();
    named.append(p.name.as_str());
    named.append("_");
    let ghost start = variables_view(out@);
    let ghost at_v = "forecast_"@ + decimal(i as int) + "_"@;
    let ghost named_v = "forecast_"@ + p.name@ + "_"@;
    assert(at@ == at_v);
    assert(named@ == named_v);
    let a = at.as_str();
    let n = named.as_str();

    push_var(out, concat(a, "name"), Binding::Text(p.name.clone()));
    let ghost s1 = variables_view(out@);
    push_temperature(out, concat(a, "temperature_").as_str(), &p.temp);
    push_temperature(out, concat(n, "temperature_").as_str(), &p.temp);
    let ghost s2 = variables_view(out@);
    push_optional_temperature(out, concat(a, "feel_temperature_").as_str(), &p.feels_like);
    push_optional_temperature(out, concat(n, "feel_temperature_").as_str(), &p.feels_like);
    let ghost s3 = variables_view(out@);
    push_count(out, concat(a, "humidity").as_str(), p.humidity);
    push_count(out, concat(n, "humidity").as_str(), p.humidity);
    let ghost s4 = variables_view(out@);
    push_condition(out, concat(a, "condition").as_str(), p.condition);
    push_condition(out, concat(n, "condition").as_str(), p.condition);
    assert(s1 =~= start + seq![(at_v + "name"@, BindingView::Text(p.name@))]);
    assert(s2 =~= s1 + temperature_vars(at_v + "temperature_"@, p.temp) + temperature_vars(named_v + "temperature_"@, p.temp));
    assert(s3 =~= s2 + optional_temperature_vars(at_v + "feel_temperature_"@, p.feels_like)
        + optional_temperature_vars(named_v + "feel_temperature_"@, p.feels_like));
    assert(s4 =~= s3 + count_vars(at_v + "humidity"@, p.humidity) + count_vars(named_v + "humidity"@, p.humidity));
    assert(variables_view(out@) =~= s4 + condition_vars(at_v + "condition"@, p.condition)
        + condition_vars(named_v + "condition"@, p.condition));
    assert(variables_view(out@) =~= start + part_vars(i as int, *p));
}

/// The variables a template sees for `w`.
pub fn bindings(w: &WeatherInfo) -> (r: Vec<Variable>)
    ensures
        variables_view(r@) == weather_vars(*w),
{
    let mut out: Vec<Variable> = Vec::new();
    let cache = if w.is_cached { "true" } else { "false" };
    push_var(&mut out, "cache".to_owned(), Binding::Text(cache.to_owned()));
    push_var(&mut out, "date".to_owned(), Binding::Instant(w.created_at));
    push_temperature(&mut out, "temperature_", &w.temp);
    push_optional_temperature(&mut out, "feel_temperature_", &w.feels_like);
    push_count(&mut out, "humidity", w.humidity);
    push_condition(&mut out, "condition", w.condition);
    let ghost head = variables_view(out@);
    let count: usize = match &w.forecasts {
        Some(f) => f.parts.len(),
        None => 0,
    };
    push_var(&mut out, "forecast_count".to_owned(), Binding::Unsigned(count as u64));
    let ghost base = variables_view(out@);
    match &w.forecasts {
        Some(f) => {
            let parts = &f.parts;
            let mut i: usize = 0;
            while i < parts.len()
                invariant
                    i <= parts@.len(),
                    variables_view(out@) == base + forecast_vars(parts@.subrange(0, i as int)),
                decreases parts@.len() - i,
            {
                let ghost before = variables_view(out@);
                push_part(&mut out, i, &parts[i]);
                proof {
                    let next = parts@.subrange(0, i + 1);
                    assert(next.drop_last() =~= parts@.subrange(0, i as int));
                    assert(next.last() == parts@[i as int]);
                    assert(variables_view(out@) =~= base + forecast_vars(next));
                }
                i = i + 1;
            }
            assert(parts@.subrange(0, parts@.len() as int) =~= parts@);
        },
        None => {
            assert(forecast_vars(seq![]) =~= seq![]);
            assert(variables_view(out@) =~= base + forecast_vars(seq![]));
        },
    }
    assert(variables_view(out@) =~= weather_vars(*w));
    out
}

/// The diagnostic template: every variable name, each beside its value.
pub const TEMPLATE_DEBUG: &'static str = r#"
Weather template variables:

    cache: {{ cache }}

    created format="%H:%M": {{ created format="%H:%M "}}
    created: {{ created }}

    temperature_celsius: {{ temperature_celsius }}
    temperature_celsius_full: {{ temperature_celsius_full }}
    temperature_kelvin: {{ temperature_kelvin }}
    temperature_kelvin_full: {{ temperature_kelvin_full }}
    temperature_fahrenheit: {{ temperature_fahrenheit }}
    temperature_fahrenheit_full: {{ temperature_fahrenheit_full }}
    humidity: {{ humidity }}
    feel_temperature_celsius: {{ feel_temperature_celsius }}
    feel_temperature_celsius_full: {{ feel_temperature_celsius_full }}
    feel_temperature_kelvin: {{ feel_temperature_kelvin }}
    feel_temperature_kelvin_full: {{ feel_temperature_kelvin_full }}
    feel_temperature_fahrenheit: {{ feel_temperature_fahrenheit }}
    feel_temperature_fahrenheit_full: {{ feel_temperature_fahrenheit_full }}
    condition: {{ condition }}
    condition_code: {{ condition_code }}


    forecast_count: {{ forecast_count }}
    
    forecast_0_name: {{ forecast_0_name }}
    forecast_0_temperature_celsius: {{ forecast_0_temperature_celsius }}
    forecast_0_temperature_celsius_full: {{ forecast_0_temperature_celsius_full }}
    forecast_0_temperature_kelvin: {{ forecast_0_temperature_kelvin }}
    forecast_0_temperature_kelvin_full: {{ forecast_0_temperature_kelvin_full }}
    forecast_0_temperature_fahrenheit: {{ forecast_0_temperature_fahrenheit }}
    forecast_0_temperature_fahrenheit_full: {{ forecast_0_temperature_fahrenheit_full }}
    forecast_0_humidity: {{ forecast_0_humidity }}
    forecast_0_feel_temperature_celsius: {{ forecast_0_feel_temperature_celsius }}
    forecast_0_feel_temperature_celsius_full: {{ forecast_0_feel_temperature_celsius_full }}
    forecast_0_feel_temperature_kelvin: {{ forecast_0_feel_temperature_kelvin }}
    forecast_0_feel_temperature_kelvin_full: {{ forecast_0_feel_temperature_kelvin_full }}
    forecast_0_feel_temperature_fahrenheit: {{ forecast_0_feel_temperature_fahrenheit }}
    forecast_0_feel_temperature_fahrenheit_full: {{ forecast_0_feel_temperature_fahrenheit_full }}
    forecast_0_condition: {{ forecast_0_condition }}
    forecast_0_condition_code: {{ forecast_0_condition_code }}
    
    forecast_1_name: {{ forecast_1_name }}
    forecast_1_temperature_celsius: {{ forecast_1_temperature_celsius }}
    forecast_1_temperature_celsius_full: {{ forecast_1_temperature_celsius_full }}
    forecast_1_temperature_kelvin: {{ forecast_1_temperature_kelvin }}
    forecast_1_temperature_kelvin_full: {{ forecast_1_temperature_kelvin_full }}
    forecast_1_temperature_fahrenheit: {{ forecast_1_temperature_fahrenheit }}
    forecast_1_temperature_fahrenheit_full: {{ forecast_1_temperature_fahrenheit_full }}
    forecast_1_humidity: {{ forecast_1_humidity }}
    forecast_1_feel_temperature_celsius: {{ forecast_1_feel_temperature_celsius }}
    forecast_1_feel_temperature_celsius_full: {{ forecast_1_feel_temperature_celsius_full }}
    forecast_1_feel_temperature_kelvin: {{ forecast_1_feel_temperature_kelvin }}
    forecast_1_feel_temperature_kelvin_full: {{ forecast_1_feel_temperature_kelvin_full }}
    forecast_1_feel_temperature_fahrenheit: {{ forecast_1_feel_temperature_fahrenheit }}
    forecast_1_feel_temperature_fahrenheit_full: {{ forecast_1_feel_temperature_fahrenheit_full }}
    forecast_1_condition: {{ forecast_1_condition }}
    forecast_1_condition_code: {{ forecast_1_condition_code }}

     "#;

/// The format of `{{ created }}` when the template gives none.
pub const DEFAULT_CREATED_FORMAT: &'static str = "%D %T";

/// A display template.
pub struct Template<'a> {
    pub template: &'a str,
}

impl<'a> Template<'a> {
    pub fn new(template: &'a str) -> (r: Self)
        ensures
            r.template == template,
    {
        Template { template }
    }

    /// The text to render: the diagnostic template in debug mode, else the
    /// template itself.
    pub fn source(&self, debug: bool) -> (r: &'a str)
        ensures
            debug ==> r == TEMPLATE_DEBUG,
            !debug ==> r == self.template,
    {
        if debug {
            TEMPLATE_DEBUG
        } else {
            self.template
        }
    }
}

/// The format that `{{ created }}` applies: the one given with `format=`, else
/// `%D %T`.
pub open spec fn format_for(given: Option<&str>) -> Seq<char> {
    match given {
        Some(f) => f@,
        None => DEFAULT_CREATED_FORMAT@,
    }
}

/// Whether chrono's `DateTime::<Utc>::from_timestamp` accepts these seconds
/// and nanoseconds since the epoch.
pub uninterp spec fn timestamp_accepted(secs: int, nanos: int) -> bool;

/// Whether chrono's strftime parser reads `format` without an error item.
pub uninterp spec fn strftime_accepts(format: Seq<char>) -> bool;

/// The format that `{{ created }}` applies.
pub fn created_format(given: Option<&str>) -> (r: &str)
    ensures
        r@ == format_for(given),
{
    match given {
        Some(f) => f,
        None => DEFAULT_CREATED_FORMAT,
    }
}

/// Relies on chrono: `DateTime::<Utc>::from_timestamp` places the instant
/// (`None` out of its range), `with_timezone(&Local)` moves it into the
/// machine's time zone and `format` writes it with strftime-style
/// specifiers, where an error item makes the write fail. Whether it succeeds
/// does not depend on the zone.
#[verifier::external_body]
fn local_time_text(t: Timestamp, format: &str) -> (r: Option<String>)
    ensures
        r is Some <==> (t.secs <= i64::MAX && timestamp_accepted(t.secs as int, t.nanos as int)
            && strftime_accepts(format@)),
{
    let secs = i64::try_from(t.secs).ok()?;
    let utc = chrono::DateTime::<chrono::Utc>::from_timestamp(secs, t.nanos)?;
    let local = utc.with_timezone(&chrono::Local);
    let mut out = String::new();
    write!(out, "{}", local.format(format)).ok()?;
    Some(out)
}

/// What `{{ created }}` expands to: the instant `created` in local time,
/// written with the format given to the helper or the default one. It is
/// there exactly where chrono takes both the instant and the format.
pub fn created_text(created: Timestamp, given: Option<&str>) -> (r: Option<String>)
    ensures
        r is Some <==> (created.secs <= i64::MAX && timestamp_accepted(created.secs as int, created.nanos as int)
            && strftime_accepts(format_for(given))),
{
    local_time_text(created, created_format(given))
}

} // verus!
