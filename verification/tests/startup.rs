use launch_plan::hooks::{registration_outcome, should_open_devtools, StartupError};
use launch_plan::plan::{
    plugins_for, setup_actions_for, startup_plan, Platform, Plugin, Profile, SetupAction, Target,
};

fn target(platform: Platform, profile: Profile) -> Target {
    Target { platform, profile }
}

#[test]
fn desktop_platforms_attach_all_three_plugins() {
    for platform in [Platform::MacOs, Platform::Windows, Platform::Linux] {
        for profile in [Profile::Debug, Profile::Release] {
            let plugins = plugins_for(&target(platform, profile));
            assert_eq!(
                plugins,
                vec![Plugin::SingleInstance, Plugin::Shell, Plugin::DeepLink]
            );
        }
    }
}

#[test]
fn mobile_attaches_shell_and_deep_link_only() {
    for profile in [Profile::Debug, Profile::Release] {
        let plugins = plugins_for(&target(Platform::Mobile, profile));
        assert_eq!(plugins, vec![Plugin::Shell, Plugin::DeepLink]);
    }
}

#[test]
fn linux_registers_schemes_in_both_profiles() {
    let debug = setup_actions_for(&target(Platform::Linux, Profile::Debug));
    assert_eq!(
        debug,
        vec![SetupAction::RegisterDeepLinks, SetupAction::OpenDevtools]
    );
    let release = setup_actions_for(&target(Platform::Linux, Profile::Release));
    assert_eq!(release, vec![SetupAction::RegisterDeepLinks]);
}

#[test]
fn windows_registers_schemes_only_in_debug() {
    let debug = setup_actions_for(&target(Platform::Windows, Profile::Debug));
    assert_eq!(
        debug,
        vec![SetupAction::RegisterDeepLinks, SetupAction::OpenDevtools]
    );
    let release = setup_actions_for(&target(Platform::Windows, Profile::Release));
    assert_eq!(release, vec![]);
}

#[test]
fn macos_never_registers_schemes() {
    let debug = setup_actions_for(&target(Platform::MacOs, Profile::Debug));
    assert_eq!(debug, vec![SetupAction::OpenDevtools]);
    let release = setup_actions_for(&target(Platform::MacOs, Profile::Release));
    assert_eq!(release, vec![]);
}

#[test]
fn mobile_runs_no_registration_step() {
    let debug = setup_actions_for(&target(Platform::Mobile, Profile::Debug));
    assert_eq!(debug, vec![SetupAction::OpenDevtools]);
    let release = setup_actions_for(&target(Platform::Mobile, Profile::Release));
    assert_eq!(release, vec![]);
}

#[test]
fn plan_combines_plugins_and_actions() {
    let t = target(Platform::Linux, Profile::Debug);
    let plan = startup_plan(&t);
    assert_eq!(plan.plugins, plugins_for(&t));
    assert_eq!(plan.actions, setup_actions_for(&t));
}

#[test]
fn devtools_open_only_in_debug_with_a_main_window() {
    assert!(should_open_devtools(Profile::Debug, true));
    assert!(!should_open_devtools(Profile::Debug, false));
    assert!(!should_open_devtools(Profile::Release, true));
    assert!(!should_open_devtools(Profile::Release, false));
}

#[test]
fn failed_registration_aborts_startup() {
    assert_eq!(
        registration_outcome(false),
        Err(StartupError::DeepLinkRegistration)
    );
    assert_eq!(registration_outcome(true), Ok(()));
}

#[test]
fn is_desktop_matches_the_platform_family() {
    assert!(Platform::MacOs.is_desktop());
    assert!(Platform::Windows.is_desktop());
    assert!(Platform::Linux.is_desktop());
    assert!(!Platform::Mobile.is_desktop());
}
