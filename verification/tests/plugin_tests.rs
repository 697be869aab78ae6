use openttd_social_integration_api::api::CallbackHandle;
use openttd_social_integration_api::api::InitResult;
use openttd_social_integration_api::api::OpenTTDInfo;
use openttd_social_integration_api::api::PluginApi;
use openttd_social_integration_api::dispatch::dispatch;
use openttd_social_integration_api::dispatch::DispatchOutcome;
use openttd_social_integration_api::dispatch::HostEvent;
use openttd_social_integration_api::plugin::build_abi_table;
use openttd_social_integration_api::plugin::call_init;
use openttd_social_integration_api::plugin::ActivePlugin;

fn handle(token: usize) -> Option<CallbackHandle> {
    Some(CallbackHandle { token })
}

fn partial_api() -> PluginApi {
    PluginApi {
        shutdown: handle(1),
        run_callbacks: handle(2),
        event_enter_main_menu: None,
        event_enter_scenario_editor: None,
        event_enter_singleplayer: handle(5),
        event_enter_multiplayer: None,
        event_joining_multiplayer: None,
    }
}

fn host_info() -> OpenTTDInfo {
    OpenTTDInfo { openttd_version: "14.1".to_string() }
}

#[test]
fn abi_table_armed_exactly_for_present_slots() {
    let table = build_abi_table(&partial_api());
    assert!(table.shutdown);
    assert!(table.run_callbacks);
    assert!(!table.event_enter_main_menu);
    assert!(!table.event_enter_scenario_editor);
    assert!(table.event_enter_singleplayer);
    assert!(!table.event_enter_multiplayer);
    assert!(!table.event_joining_multiplayer);
}

#[test]
fn init_success_stores_table_and_arms_slots() {
    let mut state = ActivePlugin::new();
    let (armed, code) = call_init(&mut state, |_info| Ok(Some(partial_api())), host_info());
    assert_eq!(code, InitResult::Success);
    let armed = armed.unwrap();
    assert_eq!(armed, build_abi_table(&partial_api()));
    let stored = state.table().unwrap();
    assert_eq!(stored.shutdown, handle(1));
    assert_eq!(stored.run_callbacks, handle(2));
    assert_eq!(stored.event_enter_main_menu, None);
    assert_eq!(stored.event_enter_singleplayer, handle(5));
}

#[test]
fn init_platform_not_running_leaves_state_untouched() {
    let mut state = ActivePlugin::new();
    let (armed, code) = call_init(&mut state, |_info| Ok(None), host_info());
    assert_eq!(code, InitResult::PlatformNotRunning);
    assert!(armed.is_none());
    assert!(state.table().is_none());
}

#[test]
fn init_failure_leaves_state_untouched() {
    let mut state = ActivePlugin::new();
    let (armed, code) = call_init(&mut state, |_info| Err(()), host_info());
    assert_eq!(code, InitResult::Failed);
    assert!(armed.is_none());
    assert!(state.table().is_none());
}

#[test]
fn init_reads_host_version() {
    let mut state = ActivePlugin::new();
    let (_, code) = call_init(
        &mut state,
        |info| {
            assert_eq!(info.openttd_version, "14.1");
            Ok(None)
        },
        host_info(),
    );
    assert_eq!(code, InitResult::PlatformNotRunning);
}

#[test]
fn dispatch_forwards_arguments_to_present_slot() {
    let mut state = ActivePlugin::new();
    state.activate(partial_api());
    match dispatch(&state, HostEvent::EnterSingleplayer(800, 600)) {
        DispatchOutcome::Invoke { handle, size } => {
            assert_eq!(handle, CallbackHandle { token: 5 });
            assert_eq!(size, Some((800, 600)));
        }
        DispatchOutcome::Violation => panic!("armed slot must be invoked"),
    }
    match dispatch(&state, HostEvent::RunCallbacks) {
        DispatchOutcome::Invoke { handle, size } => {
            assert_eq!(handle, CallbackHandle { token: 2 });
            assert_eq!(size, None);
        }
        DispatchOutcome::Violation => panic!("armed slot must be invoked"),
    }
}

#[test]
fn dispatch_reports_violation_for_absent_slot() {
    let mut state = ActivePlugin::new();
    state.activate(partial_api());
    assert!(matches!(
        dispatch(&state, HostEvent::EnterMainMenu),
        DispatchOutcome::Violation
    ));
    assert!(matches!(
        dispatch(&state, HostEvent::EnterMultiplayer(64, 64)),
        DispatchOutcome::Violation
    ));
}

#[test]
fn dispatch_reports_violation_before_activation() {
    let state = ActivePlugin::new();
    assert!(matches!(
        dispatch(&state, HostEvent::Shutdown),
        DispatchOutcome::Violation
    ));
}
