use sensor_things::dispatch::Generator;
use sensor_things::handle::SharedHandle;
use sensor_things::sensors::make_hum_sensor;

fn fade_payload() -> serde_json::Value {
    let mut members = serde_json::Map::new();
    members.insert("brightness".to_owned(), serde_json::Value::from(50));
    members.insert("duration".to_owned(), serde_json::Value::from(2000));
    serde_json::Value::Object(members)
}

#[test]
fn default_generator_recognises_no_action() {
    let generator = Generator::new();
    let thing = SharedHandle::new(make_hum_sensor());
    assert!(!generator.supports("fade"));
    assert!(!generator.supports(""));
    assert!(generator.generate(&thing, "fade".to_owned(), None).is_none());
    assert!(generator.generate(&thing, "fade".to_owned(), Some(&fade_payload())).is_none());
    assert!(generator.generate(&thing, "".to_owned(), Some(&serde_json::Value::Null)).is_none());
}

#[test]
fn generator_recognises_exactly_the_actions_it_was_made_with() {
    let generator = Generator::with_actions(vec!["fade".to_owned(), "toggle".to_owned()]);
    assert!(generator.supports("fade"));
    assert!(generator.supports("toggle"));
    assert!(!generator.supports("Fade"));
    assert!(!generator.supports("fad"));
    assert!(!generator.supports("reboot"));
}

#[test]
fn generate_keeps_the_members_of_an_object_payload() {
    let generator = Generator::with_actions(vec!["fade".to_owned()]);
    let thing = SharedHandle::new(make_hum_sensor());
    let payload = fade_payload();
    let request = generator.generate(&thing, "fade".to_owned(), Some(&payload)).unwrap();
    assert_eq!(request.name, "fade");
    let input = request.input.unwrap();
    assert_eq!(input.len(), 2);
    assert_eq!(input.get("brightness"), Some(&serde_json::Value::from(50)));
    assert_eq!(input.get("duration"), Some(&serde_json::Value::from(2000)));
}

#[test]
fn generate_drops_a_payload_that_is_no_object() {
    let generator = Generator::with_actions(vec!["fade".to_owned()]);
    let thing = SharedHandle::new(make_hum_sensor());
    for payload in [
        serde_json::Value::Null,
        serde_json::Value::Bool(true),
        serde_json::Value::from(50),
        serde_json::Value::from("fifty"),
        serde_json::Value::Array(vec![fade_payload()]),
    ] {
        let request = generator.generate(&thing, "fade".to_owned(), Some(&payload)).unwrap();
        assert!(request.input.is_none());
    }
    let request = generator.generate(&thing, "fade".to_owned(), None).unwrap();
    assert!(request.input.is_none());
}

#[test]
fn generated_request_refers_to_the_thing_it_was_asked_for() {
    let generator = Generator::with_actions(vec!["fade".to_owned()]);
    let thing = SharedHandle::new(make_hum_sensor());
    let request = generator.generate(&thing, "fade".to_owned(), None).unwrap();
    assert_eq!(request.thing.commit("level", 45_123), Ok(Some(0)));
    assert_eq!(thing.get_property("level"), Ok(Some(45_123)));
}

#[test]
fn dispatch_hands_the_payload_on_as_given() {
    let generator = Generator::with_actions(vec!["fade".to_owned()]);
    let thing = SharedHandle::new(make_hum_sensor());
    let mut members = serde_json::Map::new();
    members.insert("brightness".to_owned(), serde_json::Value::from(50));
    let request = generator.dispatch(&thing, "fade".to_owned(), Some(members.clone())).unwrap();
    assert_eq!(request.name, "fade");
    assert_eq!(request.input, Some(members.clone()));
    assert!(generator.dispatch(&thing, "reboot".to_owned(), Some(members)).is_none());
}
