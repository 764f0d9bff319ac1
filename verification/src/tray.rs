//! What the system tray's menu entries do.

use vstd::prelude::*;

use crate::effects::{mode_name, mode_named, EffectMode};
use crate::text::str_is;

verus! {

/// The action behind a tray menu entry.
#[derive(Clone, Copy, PartialEq, Eq, Debug, Structural)]
pub enum TrayAction {
    /// Flip the backlight power.
    TogglePower,
    /// Switch to a mode.
    SetMode(EffectMode),
    /// Bring the main window forward.
    Show,
    /// Leave the application.
    Quit,
}

/// The action a menu entry id stands for: "power", "show", "quit", and
/// "mode_" followed by the name of one of the tray's eight modes.
pub open spec fn tray_action(id: Seq<char>) -> Option<TrayAction> {
    if id == "power"@ {
        Some(TrayAction::TogglePower)
    } else if id == "mode_static"@ {
        Some(TrayAction::SetMode(EffectMode::Static))
    } else if id == "mode_breathing"@ {
        Some(TrayAction::SetMode(EffectMode::Breathing))
    } else if id == "mode_strobing"@ {
        Some(TrayAction::SetMode(EffectMode::Strobing))
    } else if id == "mode_audio"@ {
        Some(TrayAction::SetMode(EffectMode::Audio))
    } else if id == "mode_battery"@ {
        Some(TrayAction::SetMode(EffectMode::Battery))
    } else if id == "mode_storm"@ {
        Some(TrayAction::SetMode(EffectMode::Storm))
    } else if id == "mode_ripple"@ {
        Some(TrayAction::SetMode(EffectMode::Ripple))
    } else if id == "mode_morse"@ {
        Some(TrayAction::SetMode(EffectMode::Morse))
    } else if id == "show"@ {
        Some(TrayAction::Show)
    } else if id == "quit"@ {
        Some(TrayAction::Quit)
    } else {
        None
    }
}

/// The mode switch a tray entry makes: the mode the name denotes, if any.
fn st_set_mode(name: &str) -> (r: Option<TrayAction>)
    ensures
        r == match mode_named(name@) {
            Some(m) => Some(TrayAction::SetMode(m)),
            None => None,
        },
{
    match EffectMode::from_name(name) {
        Some(mode) => Some(TrayAction::SetMode(mode)),
        None => None,
    }
}

/// Look up the action of a tray menu entry.
pub fn menu_action(id: &str) -> (r: Option<TrayAction>)
    ensures
        r == tray_action(id@),
{
    proof {
        reveal_strlit("static");
        reveal_strlit("breathing");
        reveal_strlit("strobing");
        reveal_strlit("audio");
        reveal_strlit("battery");
        reveal_strlit("storm");
        reveal_strlit("ripple");
        reveal_strlit("morse");
        crate::effects::lemma_mode_names_round_trip(EffectMode::Static, "static"@);
        crate::effects::lemma_mode_names_round_trip(EffectMode::Breathing, "breathing"@);
        crate::effects::lemma_mode_names_round_trip(EffectMode::Strobing, "strobing"@);
        crate::effects::lemma_mode_names_round_trip(EffectMode::Audio, "audio"@);
        crate::effects::lemma_mode_names_round_trip(EffectMode::Battery, "battery"@);
        crate::effects::lemma_mode_names_round_trip(EffectMode::Storm, "storm"@);
        crate::effects::lemma_mode_names_round_trip(EffectMode::Ripple, "ripple"@);
        crate::effects::lemma_mode_names_round_trip(EffectMode::Morse, "morse"@);
    }
    if str_is(id, "power") {
        Some(TrayAction::TogglePower)
    } else if str_is(id, "mode_static") {
        st_set_mode("static")
    } else if str_is(id, "mode_breathing") {
        st_set_mode("breathing")
    } else if str_is(id, "mode_strobing") {
        st_set_mode("strobing")
    } else if str_is(id, "mode_audio") {
        st_set_mode("audio")
    } else if str_is(id, "mode_battery") {
        st_set_mode("battery")
    } else if str_is(id, "mode_storm") {
        st_set_mode("storm")
    } else if str_is(id, "mode_ripple") {
        st_set_mode("ripple")
    } else if str_is(id, "mode_morse") {
        st_set_mode("morse")
    } else if str_is(id, "show") {
        Some(TrayAction::Show)
    } else if str_is(id, "quit") {
        Some(TrayAction::Quit)
    } else {
        None
    }
}


/// Each tray mode entry, "mode_" followed by a mode's name, switches to that
/// mode; "power", "show" and "quit" toggle the power, show the window and
/// quit.
pub proof fn lemma_tray_entries_select_their_mode()
    ensures
        tray_action("mode_"@ + mode_name(EffectMode::Static)) == Some(TrayAction::SetMode(EffectMode::Static)),
        tray_action("mode_"@ + mode_name(EffectMode::Breathing)) == Some(TrayAction::SetMode(EffectMode::Breathing)),
        tray_action("mode_"@ + mode_name(EffectMode::Strobing)) == Some(TrayAction::SetMode(EffectMode::Strobing)),
        tray_action("mode_"@ + mode_name(EffectMode::Audio)) == Some(TrayAction::SetMode(EffectMode::Audio)),
        tray_action("mode_"@ + mode_name(EffectMode::Battery)) == Some(TrayAction::SetMode(EffectMode::Battery)),
        tray_action("mode_"@ + mode_name(EffectMode::Storm)) == Some(TrayAction::SetMode(EffectMode::Storm)),
        tray_action("mode_"@ + mode_name(EffectMode::Ripple)) == Some(TrayAction::SetMode(EffectMode::Ripple)),
        tray_action("mode_"@ + mode_name(EffectMode::Morse)) == Some(TrayAction::SetMode(EffectMode::Morse)),
        tray_action("power"@) == Some(TrayAction::TogglePower),
        tray_action("show"@) == Some(TrayAction::Show),
        tray_action("quit"@) == Some(TrayAction::Quit),
{
    crate::effects::lemma_mode_name_table();
    // The entry ids are told apart by their length and one character.
    reveal_strlit("mode_");
    reveal_strlit("power");
    reveal_strlit("show");
    reveal_strlit("quit");
    reveal_strlit("static");
    reveal_strlit("mode_static");
    assert("mode_"@ + "static"@ =~= "mode_static"@);
    reveal_strlit("breathing");
    reveal_strlit("mode_breathing");
    assert("mode_"@ + "breathing"@ =~= "mode_breathing"@);
    reveal_strlit("strobing");
    reveal_strlit("mode_strobing");
    assert("mode_"@ + "strobing"@ =~= "mode_strobing"@);
    reveal_strlit("audio");
    reveal_strlit("mode_audio");
    assert("mode_"@ + "audio"@ =~= "mode_audio"@);
    reveal_strlit("battery");
    reveal_strlit("mode_battery");
    assert("mode_"@ + "battery"@ =~= "mode_battery"@);
    reveal_strlit("storm");
    reveal_strlit("mode_storm");
    assert("mode_"@ + "storm"@ =~= "mode_storm"@);
    reveal_strlit("ripple");
    reveal_strlit("mode_ripple");
    assert("mode_"@ + "ripple"@ =~= "mode_ripple"@);
    reveal_strlit("morse");
    reveal_strlit("mode_morse");
    assert("mode_"@ + "morse"@ =~= "mode_morse"@);
    assert("power"@.len() == 5 && "power"@[0] == 'p');
    assert("show"@.len() == 4 && "show"@[0] == 's');
    assert("quit"@.len() == 4 && "quit"@[0] == 'q');
    assert("mode_static"@.len() == 11 && "mode_static"@[5] == 's');
    assert("mode_breathing"@.len() == 14 && "mode_breathing"@[5] == 'b');
    assert("mode_strobing"@.len() == 13 && "mode_strobing"@[5] == 's');
    assert("mode_audio"@.len() == 10 && "mode_audio"@[5] == 'a');
    assert("mode_battery"@.len() == 12 && "mode_battery"@[5] == 'b');
    assert("mode_storm"@.len() == 10 && "mode_storm"@[5] == 's');
    assert("mode_ripple"@.len() == 11 && "mode_ripple"@[5] == 'r');
    assert("mode_morse"@.len() == 10 && "mode_morse"@[5] == 'm');
}

} // verus!
