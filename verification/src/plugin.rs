//! The active-plugin singleton and the decision core of an initialization
//! call: which outcome code the host is told, when the callback table is
//! stored, and which trampoline slots are armed in the table the host gets.

use crate::api::InitResult;
use crate::api::OpenTTDInfo;
use crate::api::PluginApi;
use vstd::prelude::*;

verus! {

/// The armed state of each trampoline pointer in the table handed to the
/// host; `true` stands for a non-null trampoline pointer.
#[derive(Clone, Copy, Debug, PartialEq, Eq, Structural)]
pub struct ArmedTable {
    /// Whether the shutdown trampoline is armed.
    pub shutdown: bool,
    /// Whether the run-callbacks trampoline is armed.
    pub run_callbacks: bool,
    /// Whether the main-menu trampoline is armed.
    pub event_enter_main_menu: bool,
    /// Whether the scenario-editor trampoline is armed.
    pub event_enter_scenario_editor: bool,
    /// Whether the singleplayer trampoline is armed.
    pub event_enter_singleplayer: bool,
    /// Whether the multiplayer trampoline is armed.
    pub event_enter_multiplayer: bool,
    /// Whether the joining-multiplayer trampoline is armed.
    pub event_joining_multiplayer: bool,
}

/// The table the host must be handed for `api`: a slot is armed exactly
/// when the plugin supplied the callback.
pub open spec fn armed_table_of(api: PluginApi) -> ArmedTable {
    ArmedTable {
        shutdown: api.shutdown is Some,
        run_callbacks: api.run_callbacks is Some,
        event_enter_main_menu: api.event_enter_main_menu is Some,
        event_enter_scenario_editor: api.event_enter_scenario_editor is Some,
        event_enter_singleplayer: api.event_enter_singleplayer is Some,
        event_enter_multiplayer: api.event_enter_multiplayer is Some,
        event_joining_multiplayer: api.event_joining_multiplayer is Some,
    }
}

/// A capability the plugin left absent is never advertised: slot by slot,
/// the table handed to the host is armed exactly where a callback is
/// present, so no trampoline for an unsupplied callback is ever exposed.
pub proof fn lemma_absent_slot_never_armed(api: PluginApi)
    ensures
        armed_table_of(api).shutdown <==> api.shutdown is Some,
        armed_table_of(api).run_callbacks <==> api.run_callbacks is Some,
        armed_table_of(api).event_enter_main_menu <==> api.event_enter_main_menu is Some,
        armed_table_of(api).event_enter_scenario_editor <==> api.event_enter_scenario_editor
            is Some,
        armed_table_of(api).event_enter_singleplayer <==> api.event_enter_singleplayer is Some,
        armed_table_of(api).event_enter_multiplayer <==> api.event_enter_multiplayer is Some,
        armed_table_of(api).event_joining_multiplayer <==> api.event_joining_multiplayer is Some,
{
}

/// Produces the host-facing table for `api`, arming exactly the slots the
/// plugin supplied and leaving the rest disarmed.
pub fn build_abi_table(api: &PluginApi) -> (t: ArmedTable)
    ensures
        t == armed_table_of(*api),
{
    ArmedTable {
        shutdown: api.shutdown.is_some(),
        run_callbacks: api.run_callbacks.is_some(),
        event_enter_main_menu: api.event_enter_main_menu.is_some(),
        event_enter_scenario_editor: api.event_enter_scenario_editor.is_some(),
        event_enter_singleplayer: api.event_enter_singleplayer.is_some(),
        event_enter_multiplayer: api.event_enter_multiplayer.is_some(),
        event_joining_multiplayer: api.event_joining_multiplayer.is_some(),
    }
}

/// Process-wide holder of the active plugin's callback table: empty until an
/// initialization call succeeds, then holding the one active table until the
/// module is unloaded.
pub struct ActivePlugin {
    table: Option<PluginApi>,
}

impl ActivePlugin {
    /// The callback table currently held, if any.
    pub closed spec fn spec_table(&self) -> Option<PluginApi> {
        self.table
    }

    /// Starts with no active table.
    pub fn new() -> (s: ActivePlugin)
        ensures
            s.spec_table() is None,
    {
        ActivePlugin { table: None }
    }

    /// The callback table currently held, if any.
    pub fn table(&self) -> (t: Option<PluginApi>)
        ensures
            t == self.spec_table(),
    {
        self.table
    }

    /// Stores the table of a successful initialization, replacing any
    /// previous one.
    pub fn activate(&mut self, api: PluginApi)
        ensures
            final(self).spec_table() == Some(api),
    {
        self.table = Some(api);
    }
}

/// How one initialization outcome maps to the holder's new state and to what
/// the host is handed: the table is stored and its slots armed exactly on
/// success, and on any other outcome the holder keeps its old state, nothing
/// is handed back for the host's table, and the code matches the outcome.
pub open spec fn init_transition(
    pre: ActivePlugin,
    post: ActivePlugin,
    out: Result<Option<PluginApi>, ()>,
    r: (Option<ArmedTable>, InitResult),
) -> bool {
    match out {
        Ok(Some(api)) => {
            &&& post.spec_table() == Some(api)
            &&& r.0 == Some(armed_table_of(api))
            &&& r.1 == InitResult::Success
        },
        Ok(None) => {
            &&& post == pre
            &&& r.0 is None
            &&& r.1 == InitResult::PlatformNotRunning
        },
        Err(e) => {
            &&& post == pre
            &&& r.0 is None
            &&& r.1 == InitResult::Failed
        },
    }
}

/// Runs the plugin's init function on the host's information and decides the
/// whole initialization call: some outcome the init function may produce on
/// this input was followed by the matching transition of the holder, of the
/// table handed back for the host, and of the reported code.
pub fn call_init<F: FnOnce(OpenTTDInfo) -> Result<Option<PluginApi>, ()>>(
    state: &mut ActivePlugin,
    init: F,
    info: OpenTTDInfo,
) -> (r: (Option<ArmedTable>, InitResult))
    requires
        call_requires(init, (info,)),
    ensures
        exists|out: Result<Option<PluginApi>, ()>|
            {
                &&& #[trigger] call_ensures(init, (info,), out)
                &&& init_transition(*old(state), *final(state), out, r)
            },
{
    let out = init(info);
    match out {
        Ok(Some(api)) => {
            state.activate(api);
            let t = build_abi_table(&api);
            (Some(t), InitResult::Success)
        },
        Ok(None) => (None, InitResult::PlatformNotRunning),
        Err(()) => (None, InitResult::Failed),
    }
}

} // verus!
