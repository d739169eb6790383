use lp_pro_gamecontroller::DeviceNameRetrieve;
use lp_pro_gamecontroller::config::Config;
use lp_pro_gamecontroller::config::DeviceConfig;
use lp_pro_gamecontroller::config::Integration;
use lp_pro_gamecontroller::mapping::MappingTable;
use lp_pro_gamecontroller::output::OutputDeviceNameRetrieve;

#[test]
fn device_config_names_and_lights() {
    let device = DeviceConfig {
        input: Some(String::from("Launchpad In")),
        output: None,
        lights: true,
    };
    assert_eq!(device.get_input_name(), Some(String::from("Launchpad In")));
    assert_eq!(device.get_output_name(), None);
    assert!(device.get_light_status());
}

#[test]
fn integration_names_are_always_present() {
    let integration = Integration {
        input: String::from("Deck In"),
        output: String::from("Deck Out"),
    };
    assert_eq!(integration.get_input_name(), Some(String::from("Deck In")));
    assert_eq!(integration.get_output_name(), Some(String::from("Deck Out")));
}

#[test]
fn config_exposes_device_names() {
    let config = Config {
        mapping: MappingTable::new(),
        integration: Integration { input: String::from("a"), output: String::from("b") },
        device: DeviceConfig {
            input: Some(String::from("pad")),
            output: Some(String::from("pad out")),
            lights: false,
        },
    };
    assert_eq!(config.get_input_name(), Some(String::from("pad")));
    assert_eq!(config.get_output_name(), Some(String::from("pad out")));
}
