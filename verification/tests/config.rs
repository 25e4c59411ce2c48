use tunrelay::addr::Ipv4Address;
use tunrelay::host::{profile_for, HostOs, HostProfile};
use tunrelay::dial::BindingMethod;
use tunrelay::iface::{
    max_mtu, netmask_prefix_len, ConfigError, Platform, VirtualInterfaceConfig, MAX_NAME_LEN,
};
use tunrelay::route::CaptureStrategy;

fn config(name: &str, netmask: [u8; 4], mtu: u16) -> VirtualInterfaceConfig {
    VirtualInterfaceConfig {
        name: name.to_string(),
        address: Ipv4Address::from_octets(10, 0, 0, 1),
        destination: Ipv4Address::from_octets(10, 0, 0, 9),
        netmask: Ipv4Address::from_octets(netmask[0], netmask[1], netmask[2], netmask[3]),
        mtu,
        up: true,
    }
}

#[test]
fn standard_configuration_has_the_usual_values() {
    let c = VirtualInterfaceConfig::standard(Platform::Posix);
    assert_eq!(c.name, "utun6");
    assert_eq!(c.address.octets(), [10, 0, 0, 1]);
    assert_eq!(c.destination.octets(), [10, 0, 0, 9]);
    assert_eq!(c.netmask.octets(), [255, 255, 255, 0]);
    assert_eq!(c.mtu, 1500);
    assert!(c.up);
    assert_eq!(VirtualInterfaceConfig::standard(Platform::Windows).mtu, 65535);
}

#[test]
fn standard_configuration_is_valid_on_its_platform() {
    for platform in [Platform::Posix, Platform::Windows] {
        assert_eq!(VirtualInterfaceConfig::standard(platform).validate(platform), Ok(()));
    }
}

#[test]
fn windows_standard_mtu_is_too_large_for_posix() {
    let c = VirtualInterfaceConfig::standard(Platform::Windows);
    assert_eq!(c.validate(Platform::Posix), Err(ConfigError::MtuTooLarge));
}

#[test]
fn mtu_is_bounded_by_the_platform() {
    assert_eq!(max_mtu(Platform::Posix), 1500);
    assert_eq!(max_mtu(Platform::Windows), 65535);
    let mask = [255, 255, 255, 0];
    assert_eq!(config("tun0", mask, 1500).validate(Platform::Posix), Ok(()));
    assert_eq!(config("tun0", mask, 1501).validate(Platform::Posix), Err(ConfigError::MtuTooLarge));
    assert_eq!(config("tun0", mask, 1501).validate(Platform::Windows), Ok(()));
    assert_eq!(config("tun0", mask, 0).validate(Platform::Posix), Ok(()));
}

#[test]
fn names_are_checked_for_length_and_characters() {
    let mask = [255, 255, 255, 0];
    assert_eq!(config("", mask, 1500).validate(Platform::Posix), Err(ConfigError::EmptyName));
    let longest = "a".repeat(MAX_NAME_LEN);
    assert_eq!(config(&longest, mask, 1500).validate(Platform::Posix), Ok(()));
    let too_long = "a".repeat(MAX_NAME_LEN + 1);
    assert_eq!(
        config(&too_long, mask, 1500).validate(Platform::Posix),
        Err(ConfigError::NameTooLong)
    );
    for bad in ["tun 0", "tun/0", "tun\t0", "t\u{fc}n", "tun\0"] {
        assert_eq!(
            config(bad, mask, 1500).validate(Platform::Posix),
            Err(ConfigError::NameCharacter)
        );
    }
    for good in ["utun6", "tun0", "wg-relay.1", "a", "~!"] {
        assert_eq!(config(good, mask, 1500).validate(Platform::Posix), Ok(()));
    }
}

#[test]
fn the_first_broken_rule_is_reported() {
    // Everything is wrong here: the name comes first.
    assert_eq!(
        config("", [255, 0, 255, 0], 9000).validate(Platform::Posix),
        Err(ConfigError::EmptyName)
    );
    assert_eq!(
        config("tun 0", [255, 0, 255, 0], 9000).validate(Platform::Posix),
        Err(ConfigError::NameCharacter)
    );
    assert_eq!(
        config("tun0", [255, 0, 255, 0], 9000).validate(Platform::Posix),
        Err(ConfigError::Netmask)
    );
    assert_eq!(
        config("tun0", [255, 255, 0, 0], 9000).validate(Platform::Posix),
        Err(ConfigError::MtuTooLarge)
    );
}

#[test]
fn netmasks_are_runs_of_leading_ones() {
    let len = |a, b, c, d| netmask_prefix_len(Ipv4Address::from_octets(a, b, c, d));
    assert_eq!(len(0, 0, 0, 0), Some(0));
    assert_eq!(len(128, 0, 0, 0), Some(1));
    assert_eq!(len(255, 0, 0, 0), Some(8));
    assert_eq!(len(255, 255, 255, 0), Some(24));
    assert_eq!(len(255, 255, 255, 252), Some(30));
    assert_eq!(len(255, 255, 255, 255), Some(32));
    assert_eq!(len(255, 0, 255, 0), None);
    assert_eq!(len(0, 0, 0, 1), None);
    assert_eq!(len(127, 255, 255, 255), None);
    assert_eq!(len(255, 255, 255, 253), None);
}

#[test]
fn each_operating_system_has_its_profile() {
    assert_eq!(
        profile_for(HostOs::Linux),
        HostProfile {
            platform: Platform::Posix,
            strategy: CaptureStrategy::HalfPair,
            binding: BindingMethod::DeviceName,
        }
    );
    assert_eq!(
        profile_for(HostOs::MacOs),
        HostProfile {
            platform: Platform::Posix,
            strategy: CaptureStrategy::Ladder,
            binding: BindingMethod::DeviceIndex,
        }
    );
    assert_eq!(
        profile_for(HostOs::Windows),
        HostProfile {
            platform: Platform::Windows,
            strategy: CaptureStrategy::Disabled,
            binding: BindingMethod::UnicastOption,
        }
    );
}
