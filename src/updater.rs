use vstd::prelude::*;

verus! {

/// What the update check does once the release list has been fetched.
#[derive(Clone, Copy, Debug, PartialEq, Eq, Structural)]
pub enum UpdateAction {
    /// Tell the user that no release is published yet.
    ShowNoReleases,
    /// Ask the user whether to install the newer release.
    OfferUpdate,
    /// Tell the user that the installed version is the latest.
    ShowUpToDate,
    /// Stay silent.
    Nothing,
}

/// The self-update flow; its network and dialog work is done by the caller.
pub struct Updater;

impl Updater {
    /// Decides the outcome of an update check. `newer` is whether the latest
    /// release is newer than the running version, `None` when the two could not
    /// be compared (which counts as not newer). A silent check only ever offers
    /// an update.
    pub fn decide(silent: bool, n_releases: usize, newer: Option<bool>) -> (a: UpdateAction)
        ensures
            n_releases == 0 ==> a == (if silent { UpdateAction::Nothing } else { UpdateAction::ShowNoReleases }),
            n_releases > 0 && newer == Some(true) ==> a == UpdateAction::OfferUpdate,
            n_releases > 0 && newer != Some(true) ==> a == (if silent { UpdateAction::Nothing } else { UpdateAction::ShowUpToDate }),
    {
        if n_releases == 0 {
            if silent { UpdateAction::Nothing } else { UpdateAction::ShowNoReleases }
        } else {
            let is_greater = match newer {
                Some(b) => b,
                None => false,
            };
            if is_greater {
                UpdateAction::OfferUpdate
            } else if silent {
                UpdateAction::Nothing
            } else {
                UpdateAction::ShowUpToDate
            }
        }
    }
}

/// What startup does about the Bluetooth registry settings.
#[derive(Clone, Copy, Debug, PartialEq, Eq, Structural)]
pub enum RegistryAction {
    /// The settings are already as required.
    Nothing,
    /// Running elevated: write the settings.
    ApplyFix,
    /// Restart elevated to write the settings, then exit.
    Elevate,
}

/// A registry value as read: `None` when its key could not be opened, a missing
/// value reading as 0.
pub open spec fn is_one(v: Option<u32>) -> bool {
    v == Some(1u32)
}

/// Decides whether the settings need a fix and how: they are right only when
/// the sink's `DisableSnoop` and `DisableOffload` and the controller's
/// `SystemRemoteWakeSupported` all read 1. A process started with the fix flag
/// applies the fix; any other elevates.
pub fn registry_action(snoop: Option<u32>, offload: Option<u32>, wake: Option<u32>, fix_flag: bool) -> (a: RegistryAction)
    ensures
        (is_one(snoop) && is_one(offload) && is_one(wake)) ==> a == RegistryAction::Nothing,
        !(is_one(snoop) && is_one(offload) && is_one(wake)) ==>
            a == (if fix_flag { RegistryAction::ApplyFix } else { RegistryAction::Elevate }),
{
    let ok = match (snoop, offload, wake) {
        (Some(s), Some(o), Some(w)) => s == 1 && o == 1 && w == 1,
        _ => false,
    };
    if ok {
        RegistryAction::Nothing
    } else if fix_flag {
        RegistryAction::ApplyFix
    } else {
        RegistryAction::Elevate
    }
}

} // verus!
