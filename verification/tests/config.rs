use inverter_control::errors::ConfigError;
use inverter_control::modbus_client::{ModbusClient, ModbusClientConfig};

#[test]
fn accepts_the_default_port() {
    let config = ModbusClientConfig::new("192.168.195.3".to_string(), 502, 3).unwrap();
    assert_eq!(config.host(), "192.168.195.3");
    assert_eq!(config.port(), 502);
    assert_eq!(config.unit_id(), 3);
}

#[test]
fn accepts_the_installer_range() {
    assert!(ModbusClientConfig::new("host".to_string(), 49152, 3).is_ok());
    assert!(ModbusClientConfig::new("host".to_string(), 65535, 3).is_ok());
}

#[test]
fn rejects_an_empty_host() {
    assert_eq!(
        ModbusClientConfig::new(String::new(), 502, 3).unwrap_err(),
        ConfigError::EmptyHost
    );
}

#[test]
fn rejects_a_port_outside_the_ranges() {
    assert_eq!(
        ModbusClientConfig::new("host".to_string(), 501, 3).unwrap_err(),
        ConfigError::InvalidPort
    );
    assert_eq!(
        ModbusClientConfig::new("host".to_string(), 49151, 3).unwrap_err(),
        ConfigError::InvalidPort
    );
    assert_eq!(
        ModbusClientConfig::new("host".to_string(), 0, 3).unwrap_err(),
        ConfigError::InvalidPort
    );
}

#[test]
fn empty_host_is_reported_before_a_bad_port() {
    assert_eq!(
        ModbusClientConfig::new(String::new(), 7, 3).unwrap_err(),
        ConfigError::EmptyHost
    );
}

#[test]
fn client_keeps_its_configuration() {
    let config = ModbusClientConfig::new("inverter.local".to_string(), 502, 126).unwrap();
    let client = ModbusClient::new(config);
    assert_eq!(client.config().host(), "inverter.local");
    assert_eq!(client.config().port(), 502);
    assert_eq!(client.config().unit_id(), 126);
}
