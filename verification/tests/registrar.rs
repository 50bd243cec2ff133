use katika::startup::{capability_plugins, invoke_handlers, startup_outcome, Command, Plugin};

#[test]
fn release_build_registers_five_plugins_in_order() {
    let plugins = capability_plugins(false);
    assert_eq!(
        plugins,
        vec![Plugin::Opener, Plugin::Http, Plugin::Shell, Plugin::Fs, Plugin::Notification]
    );
}

#[test]
fn dev_build_appends_the_log_sink() {
    let plugins = capability_plugins(true);
    assert_eq!(plugins.len(), 6);
    assert_eq!(plugins[5], Plugin::Log);
    assert!(!capability_plugins(false).contains(&Plugin::Log));
}

#[test]
fn exactly_two_operations_are_exposed() {
    assert_eq!(invoke_handlers(), vec![Command::GetPlatformInfo, Command::OpenExternalUrl]);
}

#[test]
fn startup_completes_with_a_valid_plugin_set() {
    let attached = vec![true; capability_plugins(true).len()];
    assert_eq!(
        startup_outcome(true, &attached),
        Ok(vec![Command::GetPlatformInfo, Command::OpenExternalUrl])
    );
}

#[test]
fn startup_aborts_when_a_plugin_fails_to_attach() {
    let mut attached = vec![true; capability_plugins(false).len()];
    attached[2] = false;
    assert_eq!(startup_outcome(false, &attached), Err(2));
}

#[test]
fn startup_reports_the_first_failed_plugin() {
    let attached = vec![true, false, true, false, true];
    assert_eq!(startup_outcome(false, &attached), Err(1));
}
