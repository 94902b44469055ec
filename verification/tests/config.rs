use can_to_mqtt::config::{
    default_config_paths, load_configuration, Settings, DEFAULT_MQTT_PORT,
};
use can_to_mqtt::obd::registry::{high_frequency_ids, regular_ids};
use can_to_mqtt::scheduler::{Action, Event, Scheduler, SchedulerConfig};

#[test]
fn a_source_without_settings_gives_the_defaults() {
    let config = load_configuration(Ok(Settings::empty())).unwrap();
    assert_eq!(config.can_interface, "can0");
    assert_eq!(config.mqtt_host, "default_host");
    assert_eq!(config.mqtt_port, 1883);
    assert_eq!(config.mqtt_base_topic, "default_topic");
    assert_eq!(config.cycle_deadline_ms, 20);
    assert_eq!(config.regular_divisor, 10);
    assert_eq!(DEFAULT_MQTT_PORT, 1883);
}

#[test]
fn settings_of_the_source_are_kept() {
    let settings = Settings {
        can_interface: Some("vcan1".to_string()),
        mqtt_host: Some("broker.local".to_string()),
        mqtt_port: Some(8883),
        mqtt_base_topic: Some("garage/car".to_string()),
        cycle_deadline_ms: Some(50),
        regular_divisor: Some(4),
    };
    let config = load_configuration(Ok(settings)).unwrap();
    assert_eq!(config.cycle_deadline_ms, 50);
    assert_eq!(config.regular_divisor, 4);
    assert_eq!(config.can_interface, "vcan1");
    assert_eq!(config.mqtt_host, "broker.local");
    assert_eq!(config.mqtt_port, 8883);
    assert_eq!(config.mqtt_base_topic, "garage/car");
}

#[test]
fn each_setting_falls_back_on_its_own() {
    let mut settings = Settings::empty();
    settings.mqtt_port = Some(-1);
    settings.mqtt_host = Some(String::new());
    let config = load_configuration(Ok(settings)).unwrap();
    assert_eq!(config.can_interface, "can0");
    assert_eq!(config.mqtt_host, "");
    assert_eq!(config.mqtt_port, -1);
    assert_eq!(config.mqtt_base_topic, "default_topic");
}

#[test]
fn a_source_that_failed_gives_its_error() {
    let result = load_configuration(Err("configuration file \"x.toml\" not found".to_string()));
    assert_eq!(result.err(), Some("configuration file \"x.toml\" not found".to_string()));
    assert_eq!(load_configuration(Err(String::new())).err(), Some(String::new()));
}

#[test]
fn default_places_in_the_order_of_trying() {
    assert_eq!(
        default_config_paths(Some("/opt/telemetry/bin")),
        vec![
            "/opt/telemetry/bin/settings.toml".to_string(),
            "/usr/etc/g86-car-telemetry/can-to-mqtt.toml".to_string(),
            "/etc/g86-car-telemetry/can-to-mqtt.toml".to_string(),
        ]
    );
    assert_eq!(
        default_config_paths(None),
        vec![
            "/usr/etc/g86-car-telemetry/can-to-mqtt.toml".to_string(),
            "/etc/g86-car-telemetry/can-to-mqtt.toml".to_string(),
        ]
    );
}

fn loaded(deadline: Option<i64>, divisor: Option<i64>) -> (u64, u32) {
    let mut settings = Settings::empty();
    settings.cycle_deadline_ms = deadline;
    settings.regular_divisor = divisor;
    let config = load_configuration(Ok(settings)).unwrap();
    (config.cycle_deadline_ms, config.regular_divisor)
}

#[test]
fn the_deadline_and_the_divisor_of_the_source_are_kept() {
    assert_eq!(loaded(Some(0), Some(1)), (0, 1));
    assert_eq!(loaded(Some(35), None), (35, 10));
    assert_eq!(loaded(None, Some(3)), (20, 3));
    assert_eq!(loaded(Some(i64::MAX), Some(4294967295)), (i64::MAX as u64, u32::MAX));
}

#[test]
fn a_deadline_or_divisor_that_cannot_be_used_takes_the_default() {
    assert_eq!(loaded(Some(-1), Some(0)), (20, 10));
    assert_eq!(loaded(Some(i64::MIN), Some(-7)), (20, 10));
    assert_eq!(loaded(Some(5), Some(4294967296)), (5, 10));
}

#[test]
fn the_scheduler_runs_with_the_configured_deadline_and_divisor() {
    let mut settings = Settings::empty();
    settings.cycle_deadline_ms = Some(35);
    settings.regular_divisor = Some(3);
    let config = load_configuration(Ok(settings)).unwrap();
    let scheduling = SchedulerConfig::from_app(&config);
    assert_eq!(scheduling.deadline_ms, 35);
    assert_eq!(scheduling.divisor, 3);
    assert_eq!(scheduling.high_frequency, high_frequency_ids());
    assert_eq!(scheduling.regular, regular_ids());
    let mut scheduler = Scheduler::new(scheduling).unwrap();
    let mut action = scheduler.step(Event::CycleStart, 100);
    let mut asked = 0;
    while let Action::Send(_) = action {
        asked += 1;
        action = scheduler.step(Event::Sent, 100);
    }
    assert_eq!(asked, 56);
    assert_eq!(action, Action::Receive { deadline: 135 });
    assert_eq!(scheduler.step(Event::Timeout, 135), Action::Publish);
    assert_eq!(scheduler.step(Event::Published, 135), Action::Rest);
    for _ in 0..2 {
        let mut action = scheduler.step(Event::CycleStart, 200);
        let mut asked = 0;
        while let Action::Send(_) = action {
            asked += 1;
            action = scheduler.step(Event::Sent, 200);
        }
        assert_eq!(asked, 5);
        scheduler.step(Event::Timeout, 235);
        scheduler.step(Event::Published, 235);
    }
    assert_eq!(scheduler.cycle(), 0);
}

#[test]
fn the_scheduler_of_an_empty_source_runs_with_the_defaults() {
    let config = load_configuration(Ok(Settings::empty())).unwrap();
    let scheduling = SchedulerConfig::from_app(&config);
    let standard = SchedulerConfig::standard();
    assert_eq!(scheduling.deadline_ms, 20);
    assert_eq!(scheduling.divisor, 10);
    assert_eq!(scheduling.deadline_ms, standard.deadline_ms);
    assert_eq!(scheduling.divisor, standard.divisor);
    assert_eq!(scheduling.high_frequency, standard.high_frequency);
    assert_eq!(scheduling.regular, standard.regular);
}
