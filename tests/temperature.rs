use forecast::temperature::Temperature;
use forecast::temperature::Unit;
use forecast::temperature::Unit::{Celsius, Fahrenheit, Kelvin};

#[test]
fn unit_converter() {
    assert_eq!(
        Temperature(0, Celsius).as_unit(Fahrenheit),
        Temperature(32, Fahrenheit)
    );

    assert_eq!(
        Temperature(-50, Celsius).as_unit(Kelvin),
        Temperature(223.15 as i16, Kelvin)
    );

    assert_eq!(
        Temperature(32, Fahrenheit).as_unit(Celsius),
        Temperature(0, Celsius)
    );

    assert_eq!(
        Temperature(-459.67 as i16, Fahrenheit).as_unit(Kelvin),
        Temperature(0, Kelvin)
    );

    assert_eq!(
        Temperature(223.15 as i16, Kelvin).as_unit(Celsius),
        Temperature(-50, Celsius)
    );

    assert_eq!(
        Temperature(0, Kelvin).as_unit(Fahrenheit),
        Temperature(-459.67 as i16, Fahrenheit)
    );

    assert_ne!(
        Temperature(5, Celsius),
        Temperature(4, Celsius)
    )
}

#[test]
fn unit_cmp() {
    assert!(Temperature(0, Celsius) <= Temperature(0, Celsius));
    assert!(!(Temperature(0, Celsius) < Temperature(0, Celsius)));

    assert!(Temperature(1, Celsius) > Temperature(30, Fahrenheit));
    assert!(Temperature(100, Kelvin) < Temperature(25, Celsius));
}

#[test]
fn unit_display() {
    assert_eq!(format!("10{}", Celsius.to_string()), "10°C");
    assert_eq!(format!("1{}", Fahrenheit.to_string()), "1°F");
    assert_eq!(format!("100{}", Kelvin.to_string()), "100K");
}

#[test]
fn temp_display() {
    assert_eq!(format!("{}", Temperature::new(10, Celsius).to_string()), "10°C");
    assert_eq!(format!("{}", Temperature::new(247, Fahrenheit).to_string()), "247°F");
    assert_eq!(format!("{}", Temperature::new(90, Kelvin).to_string()), "90K");
}

const UNITS: [Unit; 3] = [Celsius, Fahrenheit, Kelvin];

#[test]
fn round_trip_stays_within_two_degrees() {
    for v in -100i16..=100 {
        for u1 in UNITS {
            for u2 in UNITS {
                let back = Temperature::new(v, u1).as_unit(u2).as_unit(u1);
                assert_eq!(back.unit(), u1);
                let diff = (back.val() - v).abs();
                assert!(diff <= 2, "{} {:?} -> {:?} -> {}", v, u1, u2, back.val());
            }
        }
    }
}

#[test]
fn known_conversion_points() {
    let f = Temperature::new(0, Celsius).as_unit(Fahrenheit);
    assert_eq!((f.val(), f.unit()), (32, Fahrenheit));
    let k = Temperature::new(-50, Celsius).as_unit(Kelvin);
    assert_eq!((k.val(), k.unit()), (223, Kelvin));
    let c = Temperature::new(32, Fahrenheit).as_unit(Celsius);
    assert_eq!((c.val(), c.unit()), (0, Celsius));
    let f = Temperature::new(0, Kelvin).as_unit(Fahrenheit);
    assert_eq!((f.val(), f.unit()), (-459, Fahrenheit));
}

#[test]
fn conversion_formulas_round_toward_zero() {
    assert_eq!(Temperature::new(300, Kelvin).as_unit(Celsius).val(), 27);
    assert_eq!(Temperature::new(27, Celsius).as_unit(Kelvin).val(), 300);
    assert_eq!(Temperature::new(-7, Celsius).as_unit(Fahrenheit).val(), 20);
    assert_eq!(Temperature::new(1, Fahrenheit).as_unit(Celsius).val(), -17);
    assert_eq!(Temperature::new(301, Kelvin).as_unit(Fahrenheit).val(), 82);
    assert_eq!(Temperature::new(100, Fahrenheit).as_unit(Kelvin).val(), 310);
    assert_eq!(Temperature::new(17, Celsius).as_unit(Celsius).val(), 17);
}

#[test]
fn value_in_reaches_beyond_sixteen_bits() {
    assert_eq!(Temperature::new(i16::MAX, Celsius).value_in(Fahrenheit), 59012);
    assert_eq!(Temperature::new(i16::MIN, Fahrenheit).value_in(Kelvin), -17949);
}

#[test]
fn exactly_one_order_holds_across_units() {
    let samples = [
        Temperature::new(1, Celsius),
        Temperature::new(33, Fahrenheit),
        Temperature::new(274, Kelvin),
        Temperature::new(-40, Fahrenheit),
        Temperature::new(-40, Celsius),
        Temperature::new(0, Kelvin),
    ];
    for a in samples {
        for b in samples {
            let held = [a < b, a == b, a > b].iter().filter(|x| **x).count();
            assert_eq!(held, 1, "{:?} {:?}", a, b);
        }
    }
    assert!(Temperature::new(-40, Fahrenheit) == Temperature::new(-40, Celsius));
    assert!(Temperature::new(1, Celsius) > Temperature::new(33, Fahrenheit));
    assert!(Temperature::new(33, Fahrenheit) == Temperature::new(1, Celsius));
}

#[test]
fn display_of_negative_and_zero() {
    assert_eq!(Temperature::new(-12, Celsius).to_string(), "-12°C");
    assert_eq!(Temperature::new(0, Kelvin).to_string(), "0K");
    assert_eq!(Temperature::new(i16::MIN, Fahrenheit).to_string(), "-32768°F");
}
