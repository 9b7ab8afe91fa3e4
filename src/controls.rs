use vstd::prelude::*;

use crate::dispatch::{Invocation, Trigger};
use crate::engine::{engine_after, scaled, sink_ops, EngineModel, PlayerCommand, Ratio, SinkOp, SourceInfo};
use crate::state::{lowered, raised, AppModel, AppState, PlayerState, MAX_VOLUME, VOLUME_STEP};
use crate::surface::{blank_widget, InteractiveWidget, WidgetModel};

verus! {

/// What a surface does when one of its handlers fires; the owner of the
/// surfaces carries it out with [`perform`].
#[derive(Clone, Copy, PartialEq, Eq, Structural, Debug)]
pub enum Action {
    PlayPause,
    Stop,
    PreviousTrack,
    NextTrack,
    Seek,
    SetVolume,
    VolumeUp,
    VolumeDown,
    ToggleShuffle,
    ToggleRepeat,
    AddTracks,
}

/// What is left to do after an action has updated the state.
#[derive(Clone, Debug)]
pub enum Effect {
    Nothing,
    /// Submit this command to the audio engine.
    Command(PlayerCommand),
    /// List the tracks at this path (a file, or a directory's entries) and
    /// add them to the playlist.
    ScanPath(String),
}

/// Columns of the progress bar's frame that take no clicks: a border cell
/// and a padding cell on each side.
pub const PROGRESS_BAR_INSET: u16 = 4;

/// Columns of the volume control's frame that take no clicks.
pub const VOLUME_CONTROL_INSET: u16 = 3;

/// Where a click at local column `x` falls on a slider drawn `width` columns
/// wide with `inset` columns of frame: the clicked cell (one padding column
/// in from the left, clamped to the track) over the track's length. `None`
/// when the frame leaves no track.
pub open spec fn slider_position(x: u16, width: u16, inset: u16) -> Option<(nat, nat)> {
    let track = if width > inset { width - inset } else { 0 };
    let cell = if x > 0 { x - 1 } else { 0 };
    if track == 0 {
        None
    } else {
        Some((if cell > track { track as nat } else { cell as nat }, track as nat))
    }
}

/// The volume, in percent, that a slider position selects (rounded down).
pub open spec fn volume_at(pos: (nat, nat)) -> nat {
    pos.0 * (MAX_VOLUME as nat) / pos.1
}

/// The view of an optional ratio.
pub open spec fn opt_ratio(r: Option<Ratio>) -> Option<(nat, nat)> {
    match r {
        Some(q) => Some(q@),
        None => None,
    }
}

/// The fraction of a slider that a click at local column `x` selects.
pub fn slider_ratio(x: u16, width: u16, inset: u16) -> (r: Option<Ratio>)
    ensures
        opt_ratio(r) == slider_position(x, width, inset),
{
    let track = width.saturating_sub(inset);
    let cell = x.saturating_sub(1);
    if track == 0 {
        None
    } else {
        let pos = if cell > track { track } else { cell };
        Ratio::new(pos, track)
    }
}

fn volume_of(r: &Ratio) -> (v: u32)
    ensures
        v == volume_at(r@),
        v <= MAX_VOLUME,
{
    let n = r.numerator() as u32;
    let d = r.denominator() as u32;
    proof {
        let ni = n as int;
        let di = d as int;
        assert(ni * 100 <= di * 100) by (nonlinear_arith)
            requires
                ni <= di,
        ;
        assert((ni * 100) / di <= 100) by (nonlinear_arith)
            requires
                0 < di,
                0 <= ni,
                ni * 100 <= di * 100,
        ;
    }
    n * MAX_VOLUME / d
}

/// A click anywhere on the volume control selects a level within
/// `[0, MAX_VOLUME]`.
pub proof fn lemma_click_volume_in_range(x: u16, width: u16)
    ensures
        slider_position(x, width, VOLUME_CONTROL_INSET) matches Some(pos) ==> volume_at(pos) <= MAX_VOLUME,
{
    if let Some(pos) = slider_position(x, width, VOLUME_CONTROL_INSET) {
        let n = pos.0 as int;
        let d = pos.1 as int;
        assert(n * 100 <= d * 100) by (nonlinear_arith)
            requires
                n <= d,
        ;
        assert((n * 100) / d <= 100) by (nonlinear_arith)
            requires
                0 < d,
                0 <= n,
                n * 100 <= d * 100,
        ;
    }
}

/// Seeking to a fraction `pos` of a track `duration` seconds long: the
/// elapsed time the interface shows, `duration × pos` rounded down, lies
/// within the track, and it is the offset at which the engine restarts the
/// source, when the reopened file reports the same length.
pub proof fn lemma_seek_lands_at_fraction(
    pos: (nat, nat),
    duration: u64,
    m: EngineModel,
    q: Ratio,
    info: SourceInfo,
)
    requires
        0 < pos.1,
        pos.0 <= pos.1,
        q@ == pos,
        m.source is Some,
        info.duration == Some(duration),
    ensures
        scaled(pos, duration as nat) <= duration,
        sink_ops(m, PlayerCommand::Seek(q), Some(info))[1] == SinkOp::Append(scaled(pos, duration as nat) as u64),
        engine_after(m, PlayerCommand::Seek(q), Some(info)).mode == m.mode,
{
    let d = duration as int;
    let n = pos.0 as int;
    let k = pos.1 as int;
    assert(d * n <= d * k) by (nonlinear_arith)
        requires
            0 <= d,
            n <= k,
    ;
    assert((d * n) / k <= d) by (nonlinear_arith)
        requires
            0 <= d,
            0 <= n,
            0 < k,
            d * n <= d * k,
    ;
}

/// The local point of a pointer trigger.
pub open spec fn pointer_of(t: Trigger) -> Option<crate::geometry::Point> {
    match t {
        Trigger::Pointer(p) => Some(p),
        _ => None,
    }
}

/// Carries out the action of a handler that fired:
/// - play/pause pauses while playing, resumes while paused, and while
///   stopped plays the first playlist entry (nothing happens on an empty
///   playlist);
/// - stop sets the stopped mode, clears the track and stops the engine;
/// - a click on the progress bar moves the elapsed time to the clicked
///   fraction of the track and seeks the engine there (nothing without a
///   track);
/// - a click on the volume control, or the wheel over it, sets the volume,
///   always within `[0, MAX_VOLUME]`, and passes it to the engine;
/// - the toggles flip their flag; a paste asks for the pasted path to be
///   scanned for tracks; the track-skip buttons change nothing.
pub fn perform(state: &mut AppState, inv: &Invocation) -> (r: Effect)
    ensures
        inv.action == Action::PlayPause ==> match old(state)@.player_state {
            PlayerState::Playing => final(state)@ == (AppModel { player_state: PlayerState::Paused, ..old(state)@ })
                && r == Effect::Command(PlayerCommand::Pause),
            PlayerState::Paused => final(state)@ == (AppModel { player_state: PlayerState::Playing, ..old(state)@ })
                && r == Effect::Command(PlayerCommand::Resume),
            PlayerState::Stopped => if old(state)@.playlist.len() > 0 {
                &&& final(state)@ == (AppModel { player_state: PlayerState::Playing, ..old(state)@ })
                &&& r matches Effect::Command(PlayerCommand::Play(path))
                &&& path@ == old(state)@.playlist[0]@
            } else {
                final(state)@ == old(state)@ && r is Nothing
            },
        },
        inv.action == Action::Stop ==> {
            &&& final(state)@ == (AppModel {
                player_state: PlayerState::Stopped,
                current_track: None,
                ..old(state)@
            })
            &&& r == Effect::Command(PlayerCommand::Stop)
        },
        inv.action == Action::PreviousTrack || inv.action == Action::NextTrack ==> {
            final(state)@ == old(state)@ && r is Nothing
        },
        inv.action == Action::Seek ==> match (old(state)@.current_track, pointer_of(inv.trigger)) {
            (Some(t), Some(p)) => match slider_position(p.x, inv.area.width, PROGRESS_BAR_INSET) {
                Some(pos) => {
                    &&& final(state)@ == (AppModel {
                        current_track: Some(t.with_played(scaled(pos, t.duration as nat) as u64)),
                        ..old(state)@
                    })
                    &&& r matches Effect::Command(PlayerCommand::Seek(q))
                    &&& q@ == pos
                },
                None => final(state)@ == old(state)@ && r is Nothing,
            },
            _ => final(state)@ == old(state)@ && r is Nothing,
        },
        inv.action == Action::SetVolume ==> match pointer_of(inv.trigger) {
            Some(p) => match slider_position(p.x, inv.area.width, VOLUME_CONTROL_INSET) {
                Some(pos) => {
                    &&& final(state)@ == (AppModel { volume: volume_at(pos), ..old(state)@ })
                    &&& r == Effect::Command(PlayerCommand::SetVolume(volume_at(pos) as u32))
                },
                None => final(state)@ == old(state)@ && r is Nothing,
            },
            None => final(state)@ == old(state)@ && r is Nothing,
        },
        inv.action == Action::VolumeUp ==> {
            let v = raised(old(state)@.volume, VOLUME_STEP as nat);
            &&& final(state)@ == (AppModel { volume: v, ..old(state)@ })
            &&& r == Effect::Command(PlayerCommand::SetVolume(v as u32))
        },
        inv.action == Action::VolumeDown ==> {
            let v = lowered(old(state)@.volume, VOLUME_STEP as nat);
            &&& final(state)@ == (AppModel { volume: v, ..old(state)@ })
            &&& r == Effect::Command(PlayerCommand::SetVolume(v as u32))
        },
        inv.action == Action::ToggleShuffle ==> {
            &&& final(state)@ == (AppModel { shuffle_state: !old(state)@.shuffle_state, ..old(state)@ })
            &&& r is Nothing
        },
        inv.action == Action::ToggleRepeat ==> {
            &&& final(state)@ == (AppModel { repeat_state: !old(state)@.repeat_state, ..old(state)@ })
            &&& r is Nothing
        },
        inv.action == Action::AddTracks ==> {
            &&& final(state)@ == old(state)@
            &&& match inv.trigger {
                Trigger::Paste(text) => r matches Effect::ScanPath(path) && path@ == text@,
                _ => r is Nothing,
            }
        },
{
    match inv.action {
        Action::PlayPause => match state.player_state() {
            PlayerState::Playing => {
                state.set_player_state(PlayerState::Paused);
                Effect::Command(PlayerCommand::Pause)
            },
            PlayerState::Paused => {
                state.set_player_state(PlayerState::Playing);
                Effect::Command(PlayerCommand::Resume)
            },
            PlayerState::Stopped => {
                let playlist = state.playlist();
                if playlist.len() > 0 {
                    let first = playlist[0].clone();
                    state.set_player_state(PlayerState::Playing);
                    Effect::Command(PlayerCommand::Play(first))
                } else {
                    Effect::Nothing
                }
            },
        },
        Action::Stop => {
            state.set_player_state(PlayerState::Stopped);
            state.set_current_track_info(None);
            Effect::Command(PlayerCommand::Stop)
        },
        Action::PreviousTrack | Action::NextTrack => Effect::Nothing,
        Action::Seek => {
            let track = state.current_track_info();
            match (track, &inv.trigger) {
                (Some(t), Trigger::Pointer(p)) => match slider_ratio(p.x, inv.area.width, PROGRESS_BAR_INSET) {
                    Some(ratio) => {
                        let played = ratio.scale(t.duration);
                        state.set_current_track_info(Some(t.at_position(played)));
                        Effect::Command(PlayerCommand::Seek(ratio))
                    },
                    None => Effect::Nothing,
                },
                _ => Effect::Nothing,
            }
        },
        Action::SetVolume => match &inv.trigger {
            Trigger::Pointer(p) => match slider_ratio(p.x, inv.area.width, VOLUME_CONTROL_INSET) {
                Some(ratio) => {
                    let v = volume_of(&ratio);
                    state.set_volume(v);
                    Effect::Command(PlayerCommand::SetVolume(v))
                },
                None => Effect::Nothing,
            },
            _ => Effect::Nothing,
        },
        Action::VolumeUp => {
            let v = state.increase_volume();
            Effect::Command(PlayerCommand::SetVolume(v))
        },
        Action::VolumeDown => {
            let v = state.decrease_volume();
            Effect::Command(PlayerCommand::SetVolume(v))
        },
        Action::ToggleShuffle => {
            let flag = state.shuffle_state();
            state.set_shuffle_state(!flag);
            Effect::Nothing
        },
        Action::ToggleRepeat => {
            let flag = state.repeat_state();
            state.set_repeat_state(!flag);
            Effect::Nothing
        },
        Action::AddTracks => match &inv.trigger {
            Trigger::Paste(text) => Effect::ScanPath(text.clone()),
            _ => Effect::Nothing,
        },
    }
}

/// The play/pause button.
pub fn play_button() -> (r: InteractiveWidget)
    ensures
        r@ == (WidgetModel { on_mouse_down: Some(Action::PlayPause), ..blank_widget() }),
{
    InteractiveWidget::new().on_mouse_down(Action::PlayPause)
}

/// The button that skips back a track.
pub fn last_track_button() -> (r: InteractiveWidget)
    ensures
        r@ == (WidgetModel { on_mouse_down: Some(Action::PreviousTrack), ..blank_widget() }),
{
    InteractiveWidget::new().on_mouse_down(Action::PreviousTrack)
}

/// The button that skips ahead a track.
pub fn next_track_button() -> (r: InteractiveWidget)
    ensures
        r@ == (WidgetModel { on_mouse_down: Some(Action::NextTrack), ..blank_widget() }),
{
    InteractiveWidget::new().on_mouse_down(Action::NextTrack)
}

/// The stop button.
pub fn stop_button() -> (r: InteractiveWidget)
    ensures
        r@ == (WidgetModel { on_mouse_down: Some(Action::Stop), ..blank_widget() }),
{
    InteractiveWidget::new().on_mouse_down(Action::Stop)
}

/// The shuffle toggle.
pub fn shuffle_toggle() -> (r: InteractiveWidget)
    ensures
        r@ == (WidgetModel { on_mouse_down: Some(Action::ToggleShuffle), ..blank_widget() }),
{
    InteractiveWidget::new().on_mouse_down(Action::ToggleShuffle)
}

/// The repeat toggle.
pub fn repeat_toggle() -> (r: InteractiveWidget)
    ensures
        r@ == (WidgetModel { on_mouse_down: Some(Action::ToggleRepeat), ..blank_widget() }),
{
    InteractiveWidget::new().on_mouse_down(Action::ToggleRepeat)
}

/// The progress bar: a press or a drag seeks.
pub fn progress_bar() -> (r: InteractiveWidget)
    ensures
        r@ == (WidgetModel {
            on_mouse_down: Some(Action::Seek),
            on_mouse_drag: Some(Action::Seek),
            ..blank_widget()
        }),
{
    InteractiveWidget::new().on_mouse_down(Action::Seek).on_mouse_drag(Action::Seek)
}

/// The volume control: a press or a drag sets the level, the wheel steps it.
pub fn volume_control() -> (r: InteractiveWidget)
    ensures
        r@ == (WidgetModel {
            on_mouse_down: Some(Action::SetVolume),
            on_mouse_drag: Some(Action::SetVolume),
            on_mouse_scroll_up: Some(Action::VolumeUp),
            on_mouse_scroll_down: Some(Action::VolumeDown),
            ..blank_widget()
        }),
{
    InteractiveWidget::new()
        .on_mouse_down(Action::SetVolume)
        .on_mouse_drag(Action::SetVolume)
        .on_mouse_scroll_up(Action::VolumeUp)
        .on_mouse_scroll_down(Action::VolumeDown)
}

/// The playlist: pasted paths are scanned for tracks.
pub fn playlist_widget() -> (r: InteractiveWidget)
    ensures
        r@ == (WidgetModel { on_paste: Some(Action::AddTracks), ..blank_widget() }),
{
    InteractiveWidget::new().on_paste(Action::AddTracks)
}

} // verus!
