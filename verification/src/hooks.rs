use vstd::prelude::*;
use crate::plan::Profile;

verus! {

/// Why a launch is abandoned. Startup has exactly one failure path of its
/// own: URL-scheme registration can fail, and nothing recovers from it.
#[derive(Clone, Copy, Debug, PartialEq, Eq, Structural)]
pub enum StartupError {
    DeepLinkRegistration,
}

/// A failed URL-scheme registration fails the startup hook; a successful
/// one lets the launch continue. There is no retry and no fallback.
pub fn registration_outcome(registered: bool) -> (r: Result<(), StartupError>)
    ensures
        r is Ok <==> registered,
        !registered ==> (r matches Err(e) && e == StartupError::DeepLinkRegistration),
{
    if registered {
        Ok(())
    } else {
        Err(StartupError::DeepLinkRegistration)
    }
}

/// The developer-tools panel is opened exactly when the host is a debug
/// build and a main window exists at the moment the hook runs.
pub fn should_open_devtools(profile: Profile, has_main_window: bool) -> (r: bool)
    ensures
        r == (profile is Debug && has_main_window),
{
    profile == Profile::Debug && has_main_window
}

} // verus!
