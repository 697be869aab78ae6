//! Safe value types for the data that crosses the host boundary: the
//! information the host supplies at initialization, the plugin's table of
//! optional callbacks, and the outcome code of an initialization call.

use crate::text::decode_utf8_lossy;
use crate::text::lossy_decode;
use vstd::prelude::*;

verus! {

/// Information the host supplies when it initializes the plugin, copied into
/// owned values before the host-owned memory may be invalidated.
pub struct OpenTTDInfo {
    /// Version of the host, decoded from its null-terminated byte string.
    pub openttd_version: String,
}

impl OpenTTDInfo {
    /// Builds the owned record from the bytes of the host's version string
    /// (terminator excluded).  Decoding never fails: ill-formed bytes come
    /// out as replacement characters.
    pub fn from_host_bytes(version_bytes: &Vec<u8>) -> (info: OpenTTDInfo)
        ensures
            info.openttd_version@ == lossy_decode(version_bytes@),
    {
        OpenTTDInfo { openttd_version: decode_utf8_lossy(version_bytes) }
    }
}

/// Identifies one user-supplied callback implementation.  The boundary layer
/// keeps the actual function under this token and runs it when dispatch
/// names the token.
#[derive(Clone, Copy, Debug, PartialEq, Eq, Structural)]
pub struct CallbackHandle {
    /// Token under which the boundary layer registered the function.
    pub token: usize,
}

/// Callbacks supplied by the plugin for the host to use.  Each slot is
/// present or absent on its own; an absent slot is a capability the plugin
/// does not implement, and the host must not be told it exists.
#[derive(Clone, Copy, Debug)]
pub struct PluginApi {
    /// The host tells the plugin to shut down.
    pub shutdown: Option<CallbackHandle>,
    /// The host calls this at regular intervals; the callback answers `true`
    /// to be called again and `false` to be unloaded.
    pub run_callbacks: Option<CallbackHandle>,
    /// The player has entered the main menu.
    pub event_enter_main_menu: Option<CallbackHandle>,
    /// The player has entered the scenario editor, with the map size in
    /// tiles.
    pub event_enter_scenario_editor: Option<CallbackHandle>,
    /// The player has entered a singleplayer game, with the map size in
    /// tiles.
    pub event_enter_singleplayer: Option<CallbackHandle>,
    /// The player has entered a multiplayer game, with the map size in
    /// tiles.
    pub event_enter_multiplayer: Option<CallbackHandle>,
    /// The player is joining a multiplayer game.
    pub event_joining_multiplayer: Option<CallbackHandle>,
}

/// Outcome code of an initialization call, as reported to the host.
#[derive(Clone, Copy, Debug, PartialEq, Eq, Structural)]
pub enum InitResult {
    /// The plugin initialized and its callback table is active.
    Success,
    /// The target social platform is not running; not an error.
    PlatformNotRunning,
    /// The plugin failed to initialize.
    Failed,
}

} // verus!
