use dinfo::{Precipitation, Speed, Temperature, Units};

#[test]
fn speed_stringify_renders_every_unit() {
    assert_eq!(Speed::Kmh.stringify(), "km/h");
    assert_eq!(Speed::Ms.stringify(), "m/s");
    assert_eq!(Speed::Mph.stringify(), "mp/h");
    assert_eq!(Speed::Knots.stringify(), "kn");
}

#[test]
fn speed_to_string_renders_every_unit() {
    assert_eq!(Speed::Kmh.to_string(), "kmh");
    assert_eq!(Speed::Ms.to_string(), "ms");
    assert_eq!(Speed::Mph.to_string(), "mph");
    assert_eq!(Speed::Knots.to_string(), "kn");
}

#[test]
fn temperature_to_string_renders_both_units() {
    assert_eq!(Temperature::Celsius.to_string(), "°C");
    assert_eq!(Temperature::Fahrenheit.to_string(), "°F");
}

#[test]
fn precipitation_to_string_renders_both_units() {
    assert_eq!(Precipitation::Mm.to_string(), "mm");
    assert_eq!(Precipitation::Inch.to_string(), "inch");
}

#[test]
fn units_new_keeps_the_choices() {
    let units = Units::new(Speed::Knots, Temperature::Fahrenheit, Precipitation::Inch);
    assert_eq!(units.speed.to_string(), "kn");
    assert_eq!(units.temperature.to_string(), "°F");
    assert_eq!(units.precipitation.to_string(), "inch");
}
