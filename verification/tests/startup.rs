use wifi_supervisor::bootstrap::{stack_timestamp_micros, InterfaceSetup, MICROS_PER_SECOND};
use wifi_supervisor::config::{AuthMethod, ClientSettings, ConfigError, PowerSave};

#[test]
fn usable_credentials_are_kept() {
    let settings = ClientSettings::new("attic", "correct horse").unwrap();
    assert_eq!(settings.network_name(), "attic");
    assert_eq!(settings.passphrase(), "correct horse");
    assert_eq!(settings.auth_method(), AuthMethod::Wpa2Personal);
    assert_eq!(settings.power_save(), PowerSave::Disabled);
}

#[test]
fn empty_network_name_is_rejected() {
    assert_eq!(ClientSettings::new("", "secret").unwrap_err(), ConfigError::EmptyNetworkName);
}

#[test]
fn empty_passphrase_is_rejected() {
    assert_eq!(ClientSettings::new("attic", "").unwrap_err(), ConfigError::EmptyPassphrase);
}

#[test]
fn empty_network_name_is_named_first() {
    assert_eq!(ClientSettings::new("", "").unwrap_err(), ConfigError::EmptyNetworkName);
}

#[test]
fn credentials_are_not_trimmed() {
    let settings = ClientSettings::new(" ", "\u{e9}").unwrap();
    assert_eq!(settings.network_name(), " ");
    assert_eq!(settings.passphrase(), "\u{e9}");
}

#[test]
fn timestamp_keeps_the_bits_of_the_clock_reading() {
    assert_eq!(stack_timestamp_micros(0), 0);
    assert_eq!(stack_timestamp_micros(1_500_000), 1_500_000);
    assert_eq!(stack_timestamp_micros(i64::MAX as u64), i64::MAX);
    assert_eq!(stack_timestamp_micros(1 << 63), i64::MIN);
    assert_eq!(stack_timestamp_micros(u64::MAX), -1);
    for reading in [0u64, 1, 999_999, 1 << 62, (1 << 63) - 1, 1 << 63, (1 << 63) + 5, u64::MAX] {
        assert_eq!(stack_timestamp_micros(reading), reading as i64);
    }
}

#[test]
fn interface_setup_takes_the_seed_from_whole_seconds() {
    let mac = [0x24, 0x6f, 0x28, 0x01, 0x02, 0x03];
    let setup = InterfaceSetup::new(mac, 12_345_678);
    assert_eq!(setup.hardware_address, mac);
    assert_eq!(setup.random_seed, 12);
    assert_eq!(setup.created_at_micros, 12_345_678);
    assert_eq!(MICROS_PER_SECOND, 1_000_000);

    let early = InterfaceSetup::new(mac, 999_999);
    assert_eq!(early.random_seed, 0);
    assert_eq!(early.created_at_micros, 999_999);
}
