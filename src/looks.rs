use vstd::prelude::*;

use crate::state::PlayerState;
use crate::surface::InteractionState;

verus! {

/// How a control is drawn: its label, whether its border is thick, whether
/// its label is bold.
#[derive(Clone, Copy, Debug)]
pub struct Look {
    pub label: &'static str,
    pub thick_border: bool,
    pub bold: bool,
}

/// Every control thickens its border while hovered.
pub open spec fn thick_when_hovered(r: Look, s: InteractionState) -> bool {
    r.thick_border == (s == InteractionState::Hovered)
}

/// Play/pause button: a pause sign while playing, a play sign otherwise; a
/// press shows the sign it will switch to.
pub fn play_button_look(s: InteractionState, player: PlayerState) -> (r: Look)
    ensures
        thick_when_hovered(r, s),
        !r.bold,
        r.label@ == match (s, player) {
            (InteractionState::Hovered, PlayerState::Playing) => "‖"@,
            (InteractionState::Hovered, _) => "▶"@,
            (InteractionState::Pressed, PlayerState::Playing) => "▸"@,
            (InteractionState::Pressed, _) => "∥"@,
            (_, PlayerState::Playing) => "‖"@,
            _ => "▷"@,
        },
{
    let playing = match player {
        PlayerState::Playing => true,
        _ => false,
    };
    match s {
        InteractionState::Hovered => Look { label: if playing { "‖" } else { "▶" }, thick_border: true, bold: false },
        InteractionState::Pressed => Look { label: if playing { "▸" } else { "∥" }, thick_border: false, bold: false },
        InteractionState::Default => Look { label: if playing { "‖" } else { "▷" }, thick_border: false, bold: false },
    }
}

/// A button whose label only follows its interaction state.
fn plain_look(s: InteractionState, default: &'static str, hovered: &'static str, pressed: &'static str) -> (r: Look)
    ensures
        thick_when_hovered(r, s),
        !r.bold,
        r.label@ == match s {
            InteractionState::Hovered => hovered@,
            InteractionState::Pressed => pressed@,
            InteractionState::Default => default@,
        },
{
    match s {
        InteractionState::Hovered => Look { label: hovered, thick_border: true, bold: false },
        InteractionState::Pressed => Look { label: pressed, thick_border: false, bold: false },
        InteractionState::Default => Look { label: default, thick_border: false, bold: false },
    }
}

pub fn stop_button_look(s: InteractionState) -> (r: Look)
    ensures
        thick_when_hovered(r, s),
        !r.bold,
        r.label@ == match s {
            InteractionState::Hovered => "■"@,
            InteractionState::Pressed => "▪"@,
            InteractionState::Default => "▢"@,
        },
{
    plain_look(s, "▢", "■", "▪")
}

pub fn last_track_button_look(s: InteractionState) -> (r: Look)
    ensures
        thick_when_hovered(r, s),
        !r.bold,
        r.label@ == match s {
            InteractionState::Hovered => "|◀◀"@,
            InteractionState::Pressed => "|◂◂"@,
            InteractionState::Default => "|◁◁"@,
        },
{
    plain_look(s, "|◁◁", "|◀◀", "|◂◂")
}

pub fn next_track_button_look(s: InteractionState) -> (r: Look)
    ensures
        thick_when_hovered(r, s),
        !r.bold,
        r.label@ == match s {
            InteractionState::Hovered => "▶▶|"@,
            InteractionState::Pressed => "▸▸|"@,
            InteractionState::Default => "▷▷|"@,
        },
{
    plain_look(s, "▷▷|", "▶▶|", "▸▸|")
}

/// Shuffle toggle: filled arrows while hovered or switched on.
pub fn shuffle_toggle_look(s: InteractionState, on: bool) -> (r: Look)
    ensures
        thick_when_hovered(r, s),
        !r.bold,
        r.label@ == match s {
            InteractionState::Hovered => "▲▼"@,
            InteractionState::Pressed => "▴▾"@,
            InteractionState::Default => if on { "▲▼"@ } else { "△▽"@ },
        },
{
    match s {
        InteractionState::Hovered => Look { label: "▲▼", thick_border: true, bold: false },
        InteractionState::Pressed => Look { label: "▴▾", thick_border: false, bold: false },
        InteractionState::Default => Look { label: if on { "▲▼" } else { "△▽" }, thick_border: false, bold: false },
    }
}

/// Repeat toggle: one label, bold unless idle and switched off.
pub fn repeat_toggle_look(s: InteractionState, on: bool) -> (r: Look)
    ensures
        thick_when_hovered(r, s),
        r.bold == (s != InteractionState::Default || on),
        r.label@ == "⮎⮌"@,
{
    match s {
        InteractionState::Hovered => Look { label: "⮎⮌", thick_border: true, bold: true },
        InteractionState::Pressed => Look { label: "⮎⮌", thick_border: false, bold: true },
        InteractionState::Default => Look { label: "⮎⮌", thick_border: false, bold: on },
    }
}

/// Volume control frame: thick border and bold title while hovered. Its
/// title is [`crate::display::volume_label`].
pub fn volume_control_look(s: InteractionState) -> (r: (bool, bool))
    ensures
        r.0 == (s == InteractionState::Hovered),
        r.1 == (s == InteractionState::Hovered),
{
    let hovered = match s {
        InteractionState::Hovered => true,
        _ => false,
    };
    (hovered, hovered)
}

} // verus!
