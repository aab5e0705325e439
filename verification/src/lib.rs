//! Haptic feedback for macOS trackpads: the rules that decide what the
//! native layer is asked to do, stated and proved.
//!
//! Nothing here touches the operating system. The host tells the library
//! what machine it runs on and hands over the raw arguments of a command;
//! the library answers with the one native request to make, or with the
//! error to report.

use vstd::prelude::*;

pub mod binding_handle;
pub mod chrome;
pub mod commands;
pub mod haptics;
pub mod resource_table;

verus! {

/// The machine the host runs on, as far as haptic feedback is concerned.
#[derive(Clone, Copy, Debug, PartialEq, Eq, Structural)]
pub enum Platform {
    /// macOS, with the whole part of its AppKit version number.
    MacOs { appkit_version: u64 },
    /// Any other operating system.
    Other,
}

/// The AppKit version of OS X El Capitan (10.11), the first release with
/// a haptic feedback manager.
pub const MIN_APPKIT_VERSION: u64 = 1404;

/// Haptic feedback exists on macOS from `MIN_APPKIT_VERSION` on, and
/// nowhere else.
pub open spec fn supports_haptics(platform: Platform) -> bool {
    match platform {
        Platform::MacOs { appkit_version } => appkit_version >= MIN_APPKIT_VERSION,
        Platform::Other => false,
    }
}

/// Whether `platform` offers haptic feedback at all.
#[verifier::when_used_as_spec(supports_haptics)]
pub fn is_supported(platform: Platform) -> (r: bool)
    ensures
        r == supports_haptics(platform),
{
    match platform {
        Platform::MacOs { appkit_version } => appkit_version >= MIN_APPKIT_VERSION,
        Platform::Other => false,
    }
}

/// Below `MIN_APPKIT_VERSION`, and on every system that is not macOS,
/// there is no haptic feedback.
pub proof fn lemma_old_and_foreign_platforms_lack_haptics(appkit_version: u64)
    ensures
        !supports_haptics(Platform::Other),
        supports_haptics(Platform::MacOs { appkit_version }) <==> appkit_version
            >= MIN_APPKIT_VERSION,
{
}

} // verus!
