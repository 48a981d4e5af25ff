use engage_tweaks::config::{ConfigLoad, DeploymentConfig};
use engage_tweaks::menu::{DeploymentMod, EmblemMod, MenuResult, TimerMod};

#[test]
fn default_settings() {
    let c = DeploymentConfig::default();
    assert_eq!(c.deployment_type, 0);
    assert!(!c.random_emblems);
}

#[test]
fn load_outcomes() {
    let parsed = DeploymentConfig { deployment_type: 2, random_emblems: true };
    assert_eq!(DeploymentConfig::new(ConfigLoad::Parsed(parsed)), (parsed, false));
    assert_eq!(DeploymentConfig::new(ConfigLoad::Malformed), (DeploymentConfig::default(), true));
    assert_eq!(DeploymentConfig::new(ConfigLoad::Unreadable), (DeploymentConfig::default(), true));
}

#[test]
fn deployment_entry_changes_mode() {
    let mut c = DeploymentConfig { deployment_type: 0, random_emblems: true };
    assert_eq!(DeploymentMod::custom_call(&mut c, 1), MenuResult::SeCursor);
    assert_eq!(c, DeploymentConfig { deployment_type: 1, random_emblems: true });
    assert_eq!(DeploymentMod::custom_call(&mut c, 1), MenuResult::Unchanged);
    assert_eq!(c.deployment_type, 1);
}

#[test]
fn emblem_entry_switches() {
    let mut c = DeploymentConfig { deployment_type: 2, random_emblems: false };
    assert_eq!(EmblemMod::custom_call(&mut c, true), MenuResult::SeCursor);
    assert_eq!(c, DeploymentConfig { deployment_type: 2, random_emblems: true });
    assert_eq!(EmblemMod::custom_call(&mut c, true), MenuResult::Unchanged);
}

#[test]
fn deployment_entry_texts() {
    assert_eq!(DeploymentMod::help_text(1), "Lowest rating units will be deployed.");
    assert_eq!(DeploymentMod::help_text(2), "Units will be deployed at random.");
    assert_eq!(DeploymentMod::help_text(0), "Normal Deployment");
    assert_eq!(DeploymentMod::help_text(7), "Normal Deployment");
    assert_eq!(DeploymentMod::command_text(1), "Lowest Rating");
    assert_eq!(DeploymentMod::command_text(2), "Random");
    assert_eq!(DeploymentMod::command_text(-3), "Default");
}

#[test]
fn emblem_entry_texts() {
    assert_eq!(EmblemMod::help_text(true), "Emblems will be randomized onto deployed units.");
    assert_eq!(EmblemMod::help_text(false), "Emblems are not randomized onto deployed units.");
    assert_eq!(EmblemMod::command_text(true), "On");
    assert_eq!(EmblemMod::command_text(false), "Off");
}

#[test]
fn timer_entry() {
    assert_eq!(TimerMod::INITIAL_SETTING, 0);
    assert_eq!(TimerMod::custom_call(3, 4), MenuResult::SeCursor);
    assert_eq!(TimerMod::custom_call(4, 4), MenuResult::Unchanged);
    assert_eq!(TimerMod::help_text(0), Some("Player phase will not end automatically based on time."));
    assert_eq!(TimerMod::help_text(5), Some("Player phase will automatically end after 30 seconds per unit."));
    assert_eq!(TimerMod::help_text(7), None);
    assert_eq!(TimerMod::command_text(1), Some("1 Minute Timer"));
    assert_eq!(TimerMod::command_text(6), Some("45 sec/unit"));
    assert_eq!(TimerMod::command_text(-1), None);
}
