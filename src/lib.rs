//! A terminal media player's core: interactive surfaces and the dispatcher
//! that routes pointer, key and paste input to them, the shared application
//! state, the audio command engine that serialises playback requests, and
//! the text the controls show.

pub mod controls;
pub mod dispatch;
pub mod display;
pub mod engine;
pub mod geometry;
pub mod looks;
pub mod manager;
pub mod state;
pub mod surface;
pub mod text;
pub mod tracks;
pub mod visualizer;

pub use controls::{
    last_track_button, next_track_button, perform, play_button, playlist_widget, progress_bar,
    repeat_toggle, shuffle_toggle, slider_ratio, stop_button, volume_control, Action, Effect,
};
pub use dispatch::{
    EventHandler, InputEvent, Invocation, MouseButton, MouseEvent, MouseEventKind, Trigger,
};
pub use display::{
    format_duration, get_volume_string, progress_bar_title, progress_gauge, volume_label,
};
pub use engine::{AudioEngine, EngineMode, PlayerCommand, Ratio, SinkOp, SourceInfo};
pub use geometry::{Area, Point};
pub use looks::Look;
pub use manager::StateManager;
pub use state::{AppState, CurrentTrackInfo, PlayerState, Volume, MAX_VOLUME, VOLUME_STEP};
pub use surface::{InteractionState, InteractiveWidget, Key, MouseEventType};
pub use tracks::{add_tracks, is_file_type_correct, is_track_extension};
pub use visualizer::{random_bar_heights, render_visualizer, visualizer_lines};
