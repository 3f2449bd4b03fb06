//! The two things of the sensor board: a thermometer and a hygrometer.

use vstd::prelude::*;
use crate::property::Property;
use crate::property::PropertyView;
use crate::property::Schema;
use crate::property::SchemaView;
use crate::property::ValueType;
use crate::thing::Thing;
use crate::thing::ThingView;

verus! {

/// What a level property looks like: a read-only number called `level` that
/// starts at zero and lies between `minimum` and `maximum` thousandths of
/// `unit`.
pub open spec fn level_property(
    title: Seq<char>,
    description: Seq<char>,
    minimum: int,
    maximum: int,
    unit: Seq<char>,
) -> PropertyView {
    PropertyView {
        name: "level"@,
        value: 0,
        schema: SchemaView {
            semantic_type: "LevelProperty"@,
            title,
            value_type: ValueType::Number,
            description,
            minimum,
            maximum,
            unit,
            read_only: true,
        },
    }
}

/// What a level sensor looks like: one level property, and the capability of
/// a multi-level sensor.
pub open spec fn level_sensor(
    title: Seq<char>,
    description: Seq<char>,
    level: PropertyView,
) -> ThingView {
    ThingView {
        title,
        type_tags: seq!["MultiLevelSensor"@],
        description,
        properties: seq![level],
    }
}

/// The thermometer: -40 to 85 degrees.
pub open spec fn temp_sensor() -> ThingView {
    level_sensor(
        "Tempearure Sensor"@,
        "A web connected temperature sensor"@,
        level_property(
            "Temperature"@,
            "The current temperature in %"@,
            -40_000,
            85_000,
            "Celcius"@,
        ),
    )
}

/// The hygrometer: 0 to 100 percent.
pub open spec fn hum_sensor() -> ThingView {
    level_sensor(
        "My Humidity Sensor"@,
        "A web connected humidity sensor"@,
        level_property("Humidity"@, "The current humidity in %"@, 0, 100_000, "percent"@),
    )
}

/// A thing with one level property.
fn make_level_sensor(
    title: &str,
    description: &str,
    level_title: &str,
    level_description: &str,
    minimum: i64,
    maximum: i64,
    unit: &str,
) -> (thing: Thing)
    requires
        minimum <= maximum,
    ensures
        thing@ == level_sensor(
            title@,
            description@,
            level_property(
                level_title@,
                level_description@,
                minimum as int,
                maximum as int,
                unit@,
            ),
        ),
{
    let mut thing = Thing::new(
        title.to_owned(),
        Some(vec!["MultiLevelSensor".to_owned()]),
        Some(description.to_owned()),
    );
    let level_description = Schema::new(
        "LevelProperty".to_owned(),
        level_title.to_owned(),
        ValueType::Number,
        level_description.to_owned(),
        minimum,
        maximum,
        unit.to_owned(),
        true,
    );
    let level = Property::new("level".to_owned(), 0, level_description);
    let _ = thing.add_property(level);
    assert(thing@.type_tags =~= seq!["MultiLevelSensor"@]);
    thing
}

/// The temperature sensor of the board.
pub fn make_temp_sensor() -> (thing: Thing)
    ensures
        thing@ == temp_sensor(),
{
    make_level_sensor(
        "Tempearure Sensor",
        "A web connected temperature sensor",
        "Temperature",
        "The current temperature in %",
        -40_000,
        85_000,
        "Celcius",
    )
}

/// The humidity sensor of the board.
pub fn make_hum_sensor() -> (thing: Thing)
    ensures
        thing@ == hum_sensor(),
{
    make_level_sensor(
        "My Humidity Sensor",
        "A web connected humidity sensor",
        "Humidity",
        "The current humidity in %",
        0,
        100_000,
        "percent",
    )
}

} // verus!
