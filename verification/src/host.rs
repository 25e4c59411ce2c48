//! What differs from one host operating system to the next: the limits of
//! the interface, the layout of the capture set, and the way a socket is
//! pinned to an interface.

use vstd::prelude::*;
use crate::dial::BindingMethod;
use crate::iface::Platform;
use crate::route::CaptureStrategy;

verus! {

/// The operating systems that the redirector knows.
#[derive(Clone, Copy, Debug, PartialEq, Eq, Structural)]
pub enum HostOs {
    Linux,
    MacOs,
    Windows,
}

/// The choices that suit one operating system. Each of them can be
/// replaced by the caller: they are a starting point, not a rule.
#[derive(Clone, Copy, Debug, PartialEq, Eq, Structural)]
pub struct HostProfile {
    pub platform: Platform,
    pub strategy: CaptureStrategy,
    pub binding: BindingMethod,
}

/// The profile of an operating system.
///
/// Linux takes the half pair and pins sockets by device name. On macOS a
/// socket pinned by index would be caught again by a `/1` route, so the
/// ladder is used there. On Windows no route is added by the redirector,
/// and a socket is pinned by the unicast interface option.
pub open spec fn profile_spec(os: HostOs) -> HostProfile {
    match os {
        HostOs::Linux => HostProfile {
            platform: Platform::Posix,
            strategy: CaptureStrategy::HalfPair,
            binding: BindingMethod::DeviceName,
        },
        HostOs::MacOs => HostProfile {
            platform: Platform::Posix,
            strategy: CaptureStrategy::Ladder,
            binding: BindingMethod::DeviceIndex,
        },
        HostOs::Windows => HostProfile {
            platform: Platform::Windows,
            strategy: CaptureStrategy::Disabled,
            binding: BindingMethod::UnicastOption,
        },
    }
}

/// The profile of an operating system.
pub fn profile_for(os: HostOs) -> (profile: HostProfile)
    ensures
        profile == profile_spec(os),
{
    match os {
        HostOs::Linux => HostProfile {
            platform: Platform::Posix,
            strategy: CaptureStrategy::HalfPair,
            binding: BindingMethod::DeviceName,
        },
        HostOs::MacOs => HostProfile {
            platform: Platform::Posix,
            strategy: CaptureStrategy::Ladder,
            binding: BindingMethod::DeviceIndex,
        },
        HostOs::Windows => HostProfile {
            platform: Platform::Windows,
            strategy: CaptureStrategy::Disabled,
            binding: BindingMethod::UnicastOption,
        },
    }
}

} // verus!
