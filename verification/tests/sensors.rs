use sensor_things::sensors::make_hum_sensor;
use sensor_things::sensors::make_temp_sensor;

#[test]
fn humidity_sensor_is_described_as_a_level_sensor() {
    let thing = make_hum_sensor();
    assert_eq!(thing.get_title(), "My Humidity Sensor");
    assert_eq!(thing.get_type(), &vec!["MultiLevelSensor".to_owned()]);
    assert_eq!(thing.get_description(), "A web connected humidity sensor");
    assert_eq!(thing.property_names(), vec!["level".to_owned()]);
    let level = thing.find_property("level").unwrap();
    assert_eq!(level.get_value(), 0);
    let schema = level.get_metadata();
    assert_eq!(schema.minimum(), 0);
    assert_eq!(schema.maximum(), 100_000);
    assert_eq!(schema.unit(), "percent");
    assert!(schema.is_read_only());
}

#[test]
fn temperature_sensor_is_described_as_a_level_sensor() {
    let thing = make_temp_sensor();
    assert_eq!(thing.get_title(), "Tempearure Sensor");
    let level = thing.find_property("level").unwrap();
    let schema = level.get_metadata();
    assert_eq!(schema.minimum(), -40_000);
    assert_eq!(schema.maximum(), 85_000);
    assert_eq!(schema.unit(), "Celcius");
}
