//! The configuration of the virtual interface and the rules it must meet
//! before the interface is created.

use vstd::prelude::*;
use vstd::string::*;
use crate::addr::Ipv4Address;

verus! {

/// The longest interface name the kernel takes, in characters.
pub const MAX_NAME_LEN: usize = 15;

/// The largest MTU on a POSIX-like host.
pub const POSIX_MAX_MTU: u16 = 1500;

/// The largest MTU on a Windows host.
pub const WINDOWS_MAX_MTU: u16 = 65535;

/// The family of the host's operating system, as far as the interface
/// limits depend on it.
#[derive(Clone, Copy, Debug, PartialEq, Eq, Structural)]
pub enum Platform {
    Posix,
    Windows,
}

/// Why a configuration is refused.
#[derive(Clone, Copy, Debug, PartialEq, Eq, Structural)]
pub enum ConfigError {
    /// The name is empty.
    EmptyName,
    /// The name has more than `MAX_NAME_LEN` characters.
    NameTooLong,
    /// The name holds a character that an interface name cannot have.
    NameCharacter,
    /// The netmask is not a run of one bits followed by zero bits.
    Netmask,
    /// The MTU is above the platform's maximum.
    MtuTooLarge,
}

/// What the virtual interface is created with. It is fixed at startup.
#[derive(Clone, Debug, PartialEq, Eq)]
pub struct VirtualInterfaceConfig {
    pub name: String,
    pub address: Ipv4Address,
    pub destination: Ipv4Address,
    pub netmask: Ipv4Address,
    pub mtu: u16,
    pub up: bool,
}

/// The largest MTU that `platform` takes.
pub open spec fn max_mtu_spec(platform: Platform) -> u16 {
    match platform {
        Platform::Posix => POSIX_MAX_MTU,
        Platform::Windows => WINDOWS_MAX_MTU,
    }
}

/// A character that may stand in an interface name: printable ASCII other
/// than the space and the slash.
pub open spec fn name_char(c: char) -> bool {
    '!' <= c <= '~' && c != '/'
}

/// The netmask with `n` leading one bits.
pub open spec fn prefix_mask(n: int) -> u32 {
    if n <= 0 {
        0
    } else if n >= 32 {
        0xffff_ffff
    } else {
        0xffff_ffffu32 << ((32 - n) as u32)
    }
}

/// Whether `bits` is a netmask: some number of one bits, then zero bits.
pub open spec fn is_netmask(bits: u32) -> bool {
    exists|n: int| 0 <= n <= 32 && bits == #[trigger] prefix_mask(n)
}

/// The first rule that a configuration breaks, if it breaks any. The rules
/// are looked at in the order of the variants of `ConfigError`.
pub open spec fn config_error(
    name: Seq<char>,
    netmask: u32,
    mtu: u16,
    platform: Platform,
) -> Option<ConfigError> {
    if name.len() == 0 {
        Some(ConfigError::EmptyName)
    } else if name.len() > MAX_NAME_LEN {
        Some(ConfigError::NameTooLong)
    } else if exists|i: int| 0 <= i < name.len() && !name_char(#[trigger] name[i]) {
        Some(ConfigError::NameCharacter)
    } else if !is_netmask(netmask) {
        Some(ConfigError::Netmask)
    } else if mtu > max_mtu_spec(platform) {
        Some(ConfigError::MtuTooLarge)
    } else {
        None
    }
}

/// The largest MTU that `platform` takes.
pub fn max_mtu(platform: Platform) -> (mtu: u16)
    ensures
        mtu == max_mtu_spec(platform),
{
    match platform {
        Platform::Posix => POSIX_MAX_MTU,
        Platform::Windows => WINDOWS_MAX_MTU,
    }
}

/// The number of leading one bits of a netmask, or `None` for a number that
/// is no netmask.
pub fn netmask_prefix_len(mask: Ipv4Address) -> (len: Option<u8>)
    ensures
        len is Some <==> is_netmask(mask.bits),
        len matches Some(n) ==> n <= 32 && mask.bits == prefix_mask(n as int),
{
    let mut n: u8 = 0;
    while n <= 32
        invariant
            n <= 33,
            forall|k: int| 0 <= k < n ==> mask.bits != #[trigger] prefix_mask(k),
        decreases 33 - n,
    {
        let candidate: u32 = if n == 0 {
            0
        } else if n == 32 {
            0xffff_ffff
        } else {
            0xffff_ffffu32 << (32 - n as u32)
        };
        assert(candidate == prefix_mask(n as int));
        if mask.bits == candidate {
            return Some(n);
        }
        n = n + 1;
    }
    None
}

fn name_chars_valid(name: &str) -> (r: bool)
    ensures
        r == forall|i: int| 0 <= i < name@.len() ==> name_char(#[trigger] name@[i]),
{
    let n: usize = name.unicode_len();
    let mut i: usize = 0;
    while i < n
        invariant
            i <= n,
            n == name@.len(),
            forall|j: int| 0 <= j < i ==> name_char(#[trigger] name@[j]),
        decreases n - i,
    {
        let c: char = name.get_char(i);
        if !('!' <= c && c <= '~' && c != '/') {
            return false;
        }
        i = i + 1;
    }
    true
}

impl VirtualInterfaceConfig {
    /// The configuration that the redirector has always used: `utun6` at
    /// `10.0.0.1` with peer `10.0.0.9` and netmask `255.255.255.0`, up, with
    /// the platform's largest MTU.
    pub fn standard(platform: Platform) -> (config: Self)
        ensures
            config.name@ == "utun6"@,
            config.address.bits == 0x0a00_0001,
            config.destination.bits == 0x0a00_0009,
            config.netmask.bits == 0xffff_ff00,
            config.mtu == max_mtu_spec(platform),
            config.up,
    {
        VirtualInterfaceConfig {
            name: "utun6".to_owned(),
            address: Ipv4Address { bits: 0x0a00_0001 },
            destination: Ipv4Address { bits: 0x0a00_0009 },
            netmask: Ipv4Address { bits: 0xffff_ff00 },
            mtu: max_mtu(platform),
            up: true,
        }
    }

    /// The first rule that the configuration breaks on `platform`, if any.
    pub open spec fn error_on(&self, platform: Platform) -> Option<ConfigError> {
        config_error(self.name@, self.netmask.bits, self.mtu, platform)
    }

    /// Checks the configuration against the rules of `platform`: a name of
    /// one to fifteen characters that an interface name may hold, a netmask
    /// of leading one bits, and an MTU within the platform's maximum.
    pub fn validate(&self, platform: Platform) -> (r: Result<(), ConfigError>)
        ensures
            match r {
                Ok(()) => self.error_on(platform) is None,
                Err(e) => self.error_on(platform) == Some(e),
            },
    {
        let name: &str = self.name.as_str();
        let n: usize = name.unicode_len();
        if n == 0 {
            return Err(ConfigError::EmptyName);
        }
        if n > MAX_NAME_LEN {
            return Err(ConfigError::NameTooLong);
        }
        if !name_chars_valid(name) {
            return Err(ConfigError::NameCharacter);
        }
        if netmask_prefix_len(self.netmask).is_none() {
            return Err(ConfigError::Netmask);
        }
        if self.mtu > max_mtu(platform) {
            return Err(ConfigError::MtuTooLarge);
        }
        Ok(())
    }
}

/// The standard configuration meets the rules of its platform.
pub proof fn lemma_standard_config_valid(platform: Platform)
    ensures
        config_error("utun6"@, 0xffff_ff00, max_mtu_spec(platform), platform) is None,
{
    reveal_strlit("utun6");
    assert(prefix_mask(24) == 0xffff_ff00u32) by {
        assert(0xffff_ffffu32 << 8u32 == 0xffff_ff00u32) by (bit_vector);
    }
}

} // verus!
