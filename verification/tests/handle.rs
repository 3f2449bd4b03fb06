use sensor_things::handle::commit_known;
use sensor_things::handle::read_known;
use sensor_things::handle::write_known;
use sensor_things::handle::LockPoisoned;
use sensor_things::handle::SharedHandle;
use sensor_things::handle::WriteError;
use sensor_things::property::Property;
use sensor_things::property::Schema;
use sensor_things::property::ValueType;
use sensor_things::sensors::make_hum_sensor;
use sensor_things::thing::Thing;

fn thermostat() -> Thing {
    let mut thing = Thing::new("Thermostat".to_owned(), None, None);
    let measured = Schema::new(
        "LevelProperty".to_owned(),
        "Measured".to_owned(),
        ValueType::Number,
        "".to_owned(),
        -40_000,
        85_000,
        "degree celsius".to_owned(),
        true,
    );
    let wanted = Schema::new(
        "LevelProperty".to_owned(),
        "Wanted".to_owned(),
        ValueType::Number,
        "".to_owned(),
        5_000,
        30_000,
        "degree celsius".to_owned(),
        false,
    );
    thing.add_property(Property::new("measured".to_owned(), 21_000, measured)).unwrap();
    thing.add_property(Property::new("wanted".to_owned(), 20_000, wanted)).unwrap();
    thing
}

#[test]
fn handle_reads_what_the_thing_holds() {
    let handle = SharedHandle::new(thermostat());
    assert_eq!(handle.get_title(), Ok("Thermostat".to_owned()));
    assert_eq!(handle.property_names(), Ok(vec!["measured".to_owned(), "wanted".to_owned()]));
    assert_eq!(handle.get_property("measured"), Ok(Some(21_000)));
    assert_eq!(handle.get_property("wanted"), Ok(Some(20_000)));
    assert_eq!(handle.get_property("absent"), Ok(None));
}

#[test]
fn commit_through_handle_round_trips() {
    let handle = SharedHandle::new(thermostat());
    assert_eq!(handle.commit("measured", 22_500), Ok(Some(21_000)));
    assert_eq!(handle.get_property("measured"), Ok(Some(22_500)));
    assert_eq!(handle.get_property("wanted"), Ok(Some(20_000)));
}

#[test]
fn commit_to_missing_property_through_handle_is_not_found() {
    let handle = SharedHandle::new(thermostat());
    assert_eq!(handle.commit("absent", 1), Ok(None));
    assert_eq!(handle.property_names(), Ok(vec!["measured".to_owned(), "wanted".to_owned()]));
}

#[test]
fn shared_handles_see_the_same_thing() {
    let registry_side = SharedHandle::new(make_hum_sensor());
    let loop_side = registry_side.share();
    let reader_side = loop_side.share();
    assert_eq!(loop_side.commit("level", 45_123), Ok(Some(0)));
    assert_eq!(registry_side.get_property("level"), Ok(Some(45_123)));
    assert_eq!(reader_side.get_property("level"), Ok(Some(45_123)));
    drop(loop_side);
    assert_eq!(reader_side.get_property("level"), Ok(Some(45_123)));
}

#[test]
fn reads_around_one_commit_see_before_or_after() {
    let writer = SharedHandle::new(make_hum_sensor());
    let reader = writer.share();
    let mut seen: Vec<i64> = Vec::new();
    for _ in 0..3 {
        seen.push(reader.get_property("level").unwrap().unwrap());
    }
    assert_eq!(writer.commit("level", 45_123), Ok(Some(0)));
    for _ in 0..3 {
        seen.push(reader.get_property("level").unwrap().unwrap());
    }
    assert_eq!(seen, vec![0, 0, 0, 45_123, 45_123, 45_123]);
}

#[test]
fn external_write_through_handle_to_read_only_property_is_rejected() {
    let handle = SharedHandle::new(thermostat());
    assert_eq!(handle.set_property("measured", 1), Err(WriteError::ReadOnlyViolation));
    assert_eq!(handle.get_property("measured"), Ok(Some(21_000)));
}

#[test]
fn external_write_through_handle_to_writable_property_goes_through() {
    let handle = SharedHandle::new(thermostat());
    assert_eq!(handle.set_property("wanted", 23_000), Ok(Some(20_000)));
    assert_eq!(handle.get_property("wanted"), Ok(Some(23_000)));
    assert_eq!(handle.set_property("absent", 23_000), Ok(None));
}

#[test]
fn title_and_names_stay_as_made_whatever_is_written() {
    let handle = SharedHandle::new(thermostat());
    assert_eq!(handle.commit("measured", 22_500), Ok(Some(21_000)));
    assert_eq!(handle.set_property("wanted", 18_000), Ok(Some(20_000)));
    assert_eq!(handle.get_title(), Ok("Thermostat".to_owned()));
    assert_eq!(handle.property_names(), Ok(vec!["measured".to_owned(), "wanted".to_owned()]));
    assert_eq!(handle.share().get_title(), Ok("Thermostat".to_owned()));
}

#[test]
fn update_loop_write_through_handle_ignores_read_only() {
    let handle = SharedHandle::new(thermostat());
    assert_eq!(handle.set_property("measured", 1), Err(WriteError::ReadOnlyViolation));
    assert_eq!(handle.commit("measured", 1), Ok(Some(21_000)));
    assert_eq!(handle.get_property("measured"), Ok(Some(1)));
}

#[test]
fn read_known_gives_the_value_or_distrusts_the_thing() {
    let thing = thermostat();
    assert_eq!(read_known(&thing, "measured"), Ok(Some(21_000)));
    assert_eq!(read_known(&thing, "wanted"), Ok(Some(20_000)));
    assert_eq!(read_known(&thing, "lost"), Err(LockPoisoned));
}

#[test]
fn commit_known_writes_or_distrusts_the_thing() {
    let mut thing = thermostat();
    assert_eq!(commit_known(&mut thing, "measured", 22_500), Ok(Some(21_000)));
    assert_eq!(thing.get_property("measured"), Some(22_500));
    assert_eq!(commit_known(&mut thing, "lost", 1), Err(LockPoisoned));
    assert_eq!(thing.get_property("measured"), Some(22_500));
    assert_eq!(thing.get_property("wanted"), Some(20_000));
    assert_eq!(thing.property_names().len(), 2);
}

#[test]
fn write_known_writes_or_distrusts_the_thing() {
    let mut thing = thermostat();
    assert_eq!(write_known(&mut thing, "wanted", 23_000), Ok(Some(20_000)));
    assert_eq!(thing.get_property("wanted"), Some(23_000));
    // A thing that refuses a write that the handle knows to be allowed, or
    // that has lost the property, is not the thing that the handle was made
    // for.
    assert_eq!(write_known(&mut thing, "measured", 1), Err(WriteError::LockPoisoned));
    assert_eq!(write_known(&mut thing, "lost", 1), Err(WriteError::LockPoisoned));
    assert_eq!(thing.get_property("measured"), Some(21_000));
    assert_eq!(thing.get_property("wanted"), Some(23_000));
}
