//! Routing of host invocations: each trampoline the host may call maps to
//! one event, and dispatch decides whether a registered callback serves it
//! and with which arguments, or whether the host invoked a capability that
//! was never advertised.

use crate::api::CallbackHandle;
use crate::api::PluginApi;
use crate::plugin::ActivePlugin;
use vstd::prelude::*;

verus! {

/// One host invocation of a trampoline, with the arguments the host passed.
#[derive(Clone, Copy, Debug, PartialEq, Eq, Structural)]
pub enum HostEvent {
    /// The host tells the plugin to shut down.
    Shutdown,
    /// The host polls the plugin's callbacks.
    RunCallbacks,
    /// The player has entered the main menu.
    EnterMainMenu,
    /// The player has entered the scenario editor (map width and height in
    /// tiles).
    EnterScenarioEditor(u32, u32),
    /// The player has entered a singleplayer game (map width and height in
    /// tiles).
    EnterSingleplayer(u32, u32),
    /// The player has entered a multiplayer game (map width and height in
    /// tiles).
    EnterMultiplayer(u32, u32),
    /// The player is joining a multiplayer game.
    JoiningMultiplayer,
}

/// What a trampoline must do for one host invocation.
#[derive(Clone, Copy, Debug)]
pub enum DispatchOutcome {
    /// Run the callback registered under `handle`, passing the map size
    /// through unchanged where the event carries one, and hand its result
    /// back to the host unchanged.
    Invoke {
        /// Token of the registered callback to run.
        handle: CallbackHandle,
        /// The map size the host passed, if the event carries one.
        size: Option<(u32, u32)>,
    },
    /// The host invoked a capability that was never advertised: a protocol
    /// violation the boundary must turn into an inert no-op rather than let
    /// it unwind into the host.
    Violation,
}

/// The slot of `api` that serves `event`.
pub open spec fn slot_for(api: PluginApi, event: HostEvent) -> Option<CallbackHandle> {
    match event {
        HostEvent::Shutdown => api.shutdown,
        HostEvent::RunCallbacks => api.run_callbacks,
        HostEvent::EnterMainMenu => api.event_enter_main_menu,
        HostEvent::EnterScenarioEditor(w, h) => api.event_enter_scenario_editor,
        HostEvent::EnterSingleplayer(w, h) => api.event_enter_singleplayer,
        HostEvent::EnterMultiplayer(w, h) => api.event_enter_multiplayer,
        HostEvent::JoiningMultiplayer => api.event_joining_multiplayer,
    }
}

/// The map size the host passed with `event`, if the event carries one.
pub open spec fn size_of_event(event: HostEvent) -> Option<(u32, u32)> {
    match event {
        HostEvent::EnterScenarioEditor(w, h) => Some((w, h)),
        HostEvent::EnterSingleplayer(w, h) => Some((w, h)),
        HostEvent::EnterMultiplayer(w, h) => Some((w, h)),
        _ => None,
    }
}

/// Decides one trampoline invocation: when the active table has a callback
/// registered for the event's slot, that callback is invoked with the host's
/// arguments unchanged; when no table is active or the slot was never
/// supplied, the invocation is a protocol violation.
pub fn dispatch(state: &ActivePlugin, event: HostEvent) -> (r: DispatchOutcome)
    ensures
        match state.spec_table() {
            Some(api) => match slot_for(api, event) {
                Some(h) => r matches DispatchOutcome::Invoke { handle, size } && handle == h
                    && size == size_of_event(event),
                None => r is Violation,
            },
            None => r is Violation,
        },
{
    match state.table() {
        Some(api) => {
            let slot = match event {
                HostEvent::Shutdown => api.shutdown,
                HostEvent::RunCallbacks => api.run_callbacks,
                HostEvent::EnterMainMenu => api.event_enter_main_menu,
                HostEvent::EnterScenarioEditor(_, _) => api.event_enter_scenario_editor,
                HostEvent::EnterSingleplayer(_, _) => api.event_enter_singleplayer,
                HostEvent::EnterMultiplayer(_, _) => api.event_enter_multiplayer,
                HostEvent::JoiningMultiplayer => api.event_joining_multiplayer,
            };
            let size = match event {
                HostEvent::EnterScenarioEditor(w, h) => Some((w, h)),
                HostEvent::EnterSingleplayer(w, h) => Some((w, h)),
                HostEvent::EnterMultiplayer(w, h) => Some((w, h)),
                _ => None,
            };
            match slot {
                Some(handle) => DispatchOutcome::Invoke { handle, size },
                None => DispatchOutcome::Violation,
            }
        },
        None => DispatchOutcome::Violation,
    }
}

} // verus!
