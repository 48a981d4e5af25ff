//! The settings menu entries of the plugins: what a change of an entry
//! does, and the texts that each entry shows.
use vstd::prelude::*;
use crate::config::DeploymentConfig;

verus! {

/// What a menu entry answers to the menu after a key press.
#[derive(Clone, Copy, Debug, PartialEq, Eq)]
pub enum MenuResult {
    /// The setting changed: play the cursor sound and redraw the entry.
    SeCursor,
    /// Nothing changed.
    Unchanged,
}

pub open spec fn spec_menu_result(changed: bool) -> MenuResult {
    if changed { MenuResult::SeCursor } else { MenuResult::Unchanged }
}

/// The menu entry "Deployment Mode".
pub struct DeploymentMod;

impl DeploymentMod {
    /// The player moved the entry to `chosen` (a key press gives the current
    /// mode stepped within 0 to 2). The settings take it; the answer tells
    /// whether it differs from the mode before.
    pub fn custom_call(config: &mut DeploymentConfig, chosen: i32) -> (r: MenuResult)
        ensures
            final(config).deployment_type == chosen,
            final(config).random_emblems == old(config).random_emblems,
            r == spec_menu_result(old(config).deployment_type != chosen),
    {
        if config.deployment_type != chosen {
            config.deployment_type = chosen;
            MenuResult::SeCursor
        } else {
            MenuResult::Unchanged
        }
    }

    /// The help text of the entry for the deployment mode.
    pub fn help_text(deployment_type: i32) -> (t: &'static str)
        ensures
            deployment_type == 1 ==> t@ == "Lowest rating units will be deployed."@,
            deployment_type == 2 ==> t@ == "Units will be deployed at random."@,
            deployment_type != 1 && deployment_type != 2 ==> t@ == "Normal Deployment"@,
    {
        match deployment_type {
            1 => "Lowest rating units will be deployed.",
            2 => "Units will be deployed at random.",
            _ => "Normal Deployment",
        }
    }

    /// The value text of the entry for the deployment mode.
    pub fn command_text(deployment_type: i32) -> (t: &'static str)
        ensures
            deployment_type == 1 ==> t@ == "Lowest Rating"@,
            deployment_type == 2 ==> t@ == "Random"@,
            deployment_type != 1 && deployment_type != 2 ==> t@ == "Default"@,
    {
        match deployment_type {
            1 => "Lowest Rating",
            2 => "Random",
            _ => "Default",
        }
    }
}

/// The menu entry "Random Emblems".
pub struct EmblemMod;

impl EmblemMod {
    /// The player switched the entry to `chosen`. The settings take it; the
    /// answer tells whether it differs from the setting before.
    pub fn custom_call(config: &mut DeploymentConfig, chosen: bool) -> (r: MenuResult)
        ensures
            final(config).random_emblems == chosen,
            final(config).deployment_type == old(config).deployment_type,
            r == spec_menu_result(old(config).random_emblems != chosen),
    {
        if config.random_emblems != chosen {
            config.random_emblems = chosen;
            MenuResult::SeCursor
        } else {
            MenuResult::Unchanged
        }
    }

    /// The help text of the entry.
    pub fn help_text(random_emblems: bool) -> (t: &'static str)
        ensures
            random_emblems ==> t@ == "Emblems will be randomized onto deployed units."@,
            !random_emblems ==> t@ == "Emblems are not randomized onto deployed units."@,
    {
        if random_emblems {
            "Emblems will be randomized onto deployed units."
        } else {
            "Emblems are not randomized onto deployed units."
        }
    }

    /// The value text of the entry.
    pub fn command_text(random_emblems: bool) -> (t: &'static str)
        ensures
            random_emblems ==> t@ == "On"@,
            !random_emblems ==> t@ == "Off"@,
    {
        if random_emblems {
            "On"
        } else {
            "Off"
        }
    }
}

/// The menu entry "Timer".
pub struct TimerMod;

/// The help text of the timer entry for each setting.
pub open spec fn spec_timer_help_text(toggle: int) -> Option<Seq<char>> {
    if toggle == 0 { Some("Player phase will not end automatically based on time."@) }
    else if toggle == 1 { Some("Player phase will automatically end after one minute."@) }
    else if toggle == 2 { Some("Player phase will automatically end after two minutes."@) }
    else if toggle == 3 { Some("Player phase will automatically end after three minutes."@) }
    else if toggle == 4 { Some("Player phase will automatically end after 15 seconds per unit."@) }
    else if toggle == 5 { Some("Player phase will automatically end after 30 seconds per unit."@) }
    else if toggle == 6 { Some("Player phase will automatically end after 45 seconds per unit."@) }
    else { None }
}

/// The value text of the timer entry for each setting.
pub open spec fn spec_timer_command_text(toggle: int) -> Option<Seq<char>> {
    if toggle == 0 { Some("No Turn Timer"@) }
    else if toggle == 1 { Some("1 Minute Timer"@) }
    else if toggle == 2 { Some("2 Minute Timer"@) }
    else if toggle == 3 { Some("3 Minute Timer"@) }
    else if toggle == 4 { Some("15 sec/unit"@) }
    else if toggle == 5 { Some("30 sec/unit"@) }
    else if toggle == 6 { Some("45 sec/unit"@) }
    else { None }
}

pub open spec fn spec_text_matches(t: Option<&'static str>, s: Option<Seq<char>>) -> bool {
    match t {
        Some(t) => s == Some(t@),
        None => s is None,
    }
}

impl TimerMod {
    /// The setting that the timer variable is created with: no timer.
    pub const INITIAL_SETTING: i32 = 0;

    /// The player moved the entry from `toggle` to `chosen` (a key press gives
    /// the setting stepped within 0 to 6): whether the timer variable is to
    /// be set to `chosen` and the entry redrawn.
    pub fn custom_call(toggle: i32, chosen: i32) -> (r: MenuResult)
        ensures
            r == spec_menu_result(toggle != chosen),
    {
        if toggle != chosen {
            MenuResult::SeCursor
        } else {
            MenuResult::Unchanged
        }
    }

    /// The help text of the entry for the setting `toggle`; `None` (the text
    /// is left as it is) for a setting outside 0 to 6.
    pub fn help_text(toggle: i32) -> (t: Option<&'static str>)
        ensures
            spec_text_matches(t, spec_timer_help_text(toggle as int)),
    {
        if toggle == 0 { Some("Player phase will not end automatically based on time.") }
        else if toggle == 1 { Some("Player phase will automatically end after one minute.") }
        else if toggle == 2 { Some("Player phase will automatically end after two minutes.") }
        else if toggle == 3 { Some("Player phase will automatically end after three minutes.") }
        else if toggle == 4 { Some("Player phase will automatically end after 15 seconds per unit.") }
        else if toggle == 5 { Some("Player phase will automatically end after 30 seconds per unit.") }
        else if toggle == 6 { Some("Player phase will automatically end after 45 seconds per unit.") }
        else { None }
    }

    /// The value text of the entry for the setting `toggle`; `None` (the text
    /// is left as it is) for a setting outside 0 to 6.
    pub fn command_text(toggle: i32) -> (t: Option<&'static str>)
        ensures
            spec_text_matches(t, spec_timer_command_text(toggle as int)),
    {
        if toggle == 0 { Some("No Turn Timer") }
        else if toggle == 1 { Some("1 Minute Timer") }
        else if toggle == 2 { Some("2 Minute Timer") }
        else if toggle == 3 { Some("3 Minute Timer") }
        else if toggle == 4 { Some("15 sec/unit") }
        else if toggle == 5 { Some("30 sec/unit") }
        else if toggle == 6 { Some("45 sec/unit") }
        else { None }
    }
}

/// The timer entry's texts for each setting from 0 to 6, and none outside.
pub proof fn lemma_timer_texts(toggle: int)
    ensures
        spec_timer_help_text(0) == Some("Player phase will not end automatically based on time."@),
        spec_timer_help_text(1) == Some("Player phase will automatically end after one minute."@),
        spec_timer_help_text(2) == Some("Player phase will automatically end after two minutes."@),
        spec_timer_help_text(3) == Some("Player phase will automatically end after three minutes."@),
        spec_timer_help_text(4) == Some("Player phase will automatically end after 15 seconds per unit."@),
        spec_timer_help_text(5) == Some("Player phase will automatically end after 30 seconds per unit."@),
        spec_timer_help_text(6) == Some("Player phase will automatically end after 45 seconds per unit."@),
        spec_timer_command_text(0) == Some("No Turn Timer"@),
        spec_timer_command_text(1) == Some("1 Minute Timer"@),
        spec_timer_command_text(2) == Some("2 Minute Timer"@),
        spec_timer_command_text(3) == Some("3 Minute Timer"@),
        spec_timer_command_text(4) == Some("15 sec/unit"@),
        spec_timer_command_text(5) == Some("30 sec/unit"@),
        spec_timer_command_text(6) == Some("45 sec/unit"@),
        (toggle < 0 || toggle > 6) ==> spec_timer_help_text(toggle) is None && spec_timer_command_text(toggle) is None,
        spec_menu_result(true) == MenuResult::SeCursor,
        spec_menu_result(false) == MenuResult::Unchanged,
{
}

} // verus!
