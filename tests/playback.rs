use tui_player::{
    perform, progress_bar, stop_button, volume_control, Action, AppState, Area, AudioEngine,
    CurrentTrackInfo, Effect, EngineMode, Invocation, PlayerCommand, PlayerState, Point, Ratio,
    SinkOp, SourceInfo, Trigger,
};

fn opened(duration: Option<u64>, title: Option<&str>) -> Option<SourceInfo> {
    Some(SourceInfo {
        duration,
        title: title.map(|t| t.to_string()),
        artist: Some("Band".to_string()),
        album: None,
    })
}

fn press(action: Action, area: Area, x: u16) -> Invocation {
    Invocation { surface: 0, action, area, trigger: Trigger::Pointer(Point::new(x, 1)) }
}

fn command(effect: Effect) -> PlayerCommand {
    match effect {
        Effect::Command(c) => c,
        other => panic!("expected a command, got {:?}", other),
    }
}

fn elapsed(state: &AppState) -> u64 {
    state.current_track_info().expect("a track").played_duration
}

#[test]
fn play_pause_resume_scenario() {
    let mut state = AppState::new();
    state.add_track("a.mp3".to_string());
    let mut engine = AudioEngine::new();
    let button = press(Action::PlayPause, Area::new(0, 0, 9, 3), 1);

    let cmd = command(perform(&mut state, &button));
    assert_eq!(state.player_state(), PlayerState::Playing);
    let path = match &cmd {
        PlayerCommand::Play(p) => p.clone(),
        other => panic!("expected play, got {:?}", other),
    };
    assert_eq!(path, "a.mp3");
    assert_eq!(engine.source_to_open(&cmd), Some("a.mp3".to_string()));
    let ops = engine.step(&mut state, cmd, opened(Some(200), Some("Song")));
    assert_eq!(ops, vec![SinkOp::Halt, SinkOp::Append(0), SinkOp::Resume, SinkOp::WatchEnd(1)]);
    assert_eq!(engine.mode(), EngineMode::Playing);
    let track = state.current_track_info().expect("a track");
    assert_eq!(track.title, "Song");
    assert_eq!(track.artist, "Band");
    assert_eq!(track.album, "Unknown");
    assert_eq!(track.duration, 200);
    assert_eq!(track.played_duration, 0);

    state.tick();
    assert_eq!(elapsed(&state), 1);

    let cmd = command(perform(&mut state, &button));
    assert_eq!(state.player_state(), PlayerState::Paused);
    assert_eq!(engine.step(&mut state, cmd, None), vec![SinkOp::Pause]);
    assert_eq!(engine.mode(), EngineMode::Paused);
    state.tick();
    state.tick();
    assert_eq!(elapsed(&state), 1);

    let cmd = command(perform(&mut state, &button));
    assert_eq!(state.player_state(), PlayerState::Playing);
    assert_eq!(engine.step(&mut state, cmd, None), vec![SinkOp::Resume]);
    assert_eq!(engine.mode(), EngineMode::Playing);
    state.tick();
    assert_eq!(elapsed(&state), 2);
}

#[test]
fn play_on_empty_playlist_does_nothing() {
    let mut state = AppState::new();
    let effect = perform(&mut state, &press(Action::PlayPause, Area::new(0, 0, 9, 3), 1));
    assert!(matches!(effect, Effect::Nothing));
    assert_eq!(state.player_state(), PlayerState::Stopped);
}

#[test]
fn failed_open_changes_nothing() {
    let mut state = AppState::new();
    let mut engine = AudioEngine::new();
    let ops = engine.step(&mut state, PlayerCommand::Play("missing.mp3".to_string()), None);
    assert!(ops.is_empty());
    assert_eq!(engine.mode(), EngineMode::Idle);
    assert_eq!(engine.session(), 0);
    assert!(state.current_track_info().is_none());
}

#[test]
fn engine_follows_state_machine() {
    let mut state = AppState::new();
    let mut engine = AudioEngine::new();
    assert!(engine.step(&mut state, PlayerCommand::Pause, None).is_empty());
    assert_eq!(engine.mode(), EngineMode::Idle);
    assert!(engine.step(&mut state, PlayerCommand::Resume, None).is_empty());
    assert_eq!(engine.mode(), EngineMode::Idle);
    engine.step(&mut state, PlayerCommand::Play("a.mp3".to_string()), opened(Some(10), None));
    assert_eq!(engine.mode(), EngineMode::Playing);
    assert!(engine.step(&mut state, PlayerCommand::Resume, None).is_empty());
    assert_eq!(engine.mode(), EngineMode::Playing);
    engine.step(&mut state, PlayerCommand::Pause, None);
    assert_eq!(engine.mode(), EngineMode::Paused);
    assert!(engine.step(&mut state, PlayerCommand::Pause, None).is_empty());
    assert_eq!(engine.mode(), EngineMode::Paused);
    assert_eq!(engine.step(&mut state, PlayerCommand::Stop, None), vec![SinkOp::Halt]);
    assert_eq!(engine.mode(), EngineMode::Idle);
    assert_eq!(engine.step(&mut state, PlayerCommand::SetVolume(40), None), vec![SinkOp::SetVolume(40)]);
    assert_eq!(engine.mode(), EngineMode::Idle);
}

#[test]
fn stale_end_of_track_is_ignored() {
    let mut state = AppState::new();
    let mut engine = AudioEngine::new();
    engine.step(&mut state, PlayerCommand::Play("a.mp3".to_string()), opened(Some(10), Some("A")));
    let first = engine.session();
    engine.step(&mut state, PlayerCommand::Play("b.mp3".to_string()), opened(Some(20), Some("B")));
    state.set_player_state(PlayerState::Playing);
    assert!(!engine.track_ended(&mut state, first));
    assert_eq!(engine.mode(), EngineMode::Playing);
    assert_eq!(state.current_track_info().expect("a track").title, "B");

    let current = engine.session();
    assert!(engine.track_ended(&mut state, current));
    assert_eq!(engine.mode(), EngineMode::Idle);
    assert!(state.current_track_info().is_none());
    assert_eq!(state.player_state(), PlayerState::Stopped);
    assert!(!engine.track_ended(&mut state, current));
}

#[test]
fn stop_supersedes_session() {
    let mut state = AppState::new();
    let mut engine = AudioEngine::new();
    engine.step(&mut state, PlayerCommand::Play("a.mp3".to_string()), opened(Some(10), None));
    let playing = engine.session();
    engine.step(&mut state, PlayerCommand::Stop, None);
    assert_ne!(engine.session(), playing);
    assert!(!engine.track_ended(&mut state, playing));
}

#[test]
fn stop_button_clears_track() {
    let mut state = AppState::new();
    state.set_player_state(PlayerState::Playing);
    state.set_current_track_info(Some(CurrentTrackInfo::new(
        "T".to_string(),
        "A".to_string(),
        "B".to_string(),
        100,
        42,
    )));
    let effect = perform(&mut state, &press(Action::Stop, Area::new(0, 0, 9, 3), 2));
    assert!(matches!(command(effect), PlayerCommand::Stop));
    assert_eq!(state.player_state(), PlayerState::Stopped);
    assert!(state.current_track_info().is_none());
    state.tick();
    assert!(state.current_track_info().is_none());
    let _ = stop_button();
}

#[test]
fn seek_sets_elapsed_to_fraction() {
    let mut state = AppState::new();
    state.set_current_track_info(Some(CurrentTrackInfo::new(
        "T".to_string(),
        "A".to_string(),
        "B".to_string(),
        200,
        5,
    )));
    // 24 columns wide: 20 cells of bar; a click at local column 6 is cell 5.
    let effect = perform(&mut state, &press(Action::Seek, Area::new(0, 5, 24, 3), 6));
    assert_eq!(elapsed(&state), 50);
    let ratio = match command(effect) {
        PlayerCommand::Seek(r) => r,
        other => panic!("expected seek, got {:?}", other),
    };
    assert_eq!((ratio.numerator(), ratio.denominator()), (5, 20));

    let mut engine = AudioEngine::new();
    let mut other = AppState::new();
    engine.step(&mut other, PlayerCommand::Play("a.mp3".to_string()), opened(Some(200), None));
    let cmd = PlayerCommand::Seek(ratio);
    assert_eq!(engine.source_to_open(&cmd), Some("a.mp3".to_string()));
    let ops = engine.step(&mut other, cmd, opened(Some(200), None));
    assert_eq!(ops, vec![SinkOp::Halt, SinkOp::Append(50), SinkOp::WatchEnd(2)]);
    assert_eq!(engine.mode(), EngineMode::Playing);
    let _ = progress_bar();
}

#[test]
fn seek_clamps_to_bar_ends() {
    let track = CurrentTrackInfo::new("T".to_string(), "A".to_string(), "B".to_string(), 90, 30);
    let mut state = AppState::new();
    state.set_current_track_info(Some(track.clone()));
    perform(&mut state, &press(Action::Seek, Area::new(0, 0, 14, 3), 0));
    assert_eq!(elapsed(&state), 0);
    perform(&mut state, &press(Action::Seek, Area::new(0, 0, 14, 3), 13));
    assert_eq!(elapsed(&state), 90);
}

#[test]
fn seek_without_track_or_room_does_nothing() {
    let mut state = AppState::new();
    let effect = perform(&mut state, &press(Action::Seek, Area::new(0, 0, 24, 3), 6));
    assert!(matches!(effect, Effect::Nothing));
    state.set_current_track_info(Some(CurrentTrackInfo::new(
        "T".to_string(),
        "A".to_string(),
        "B".to_string(),
        90,
        30,
    )));
    let effect = perform(&mut state, &press(Action::Seek, Area::new(0, 0, 4, 3), 2));
    assert!(matches!(effect, Effect::Nothing));
    assert_eq!(elapsed(&state), 30);
}

#[test]
fn seek_when_idle_opens_nothing() {
    let mut state = AppState::new();
    let mut engine = AudioEngine::new();
    let cmd = PlayerCommand::Seek(Ratio::new(1, 2).expect("a ratio"));
    assert_eq!(engine.source_to_open(&cmd), None);
    assert!(engine.step(&mut state, cmd, None).is_empty());
    assert_eq!(engine.session(), 0);
}

#[test]
fn ticks_advance_only_while_playing() {
    let mut state = AppState::new();
    state.tick();
    assert!(state.current_track_info().is_none());
    state.set_current_track_info(Some(CurrentTrackInfo::new(
        "T".to_string(),
        "A".to_string(),
        "B".to_string(),
        100,
        7,
    )));
    state.tick();
    assert_eq!(elapsed(&state), 7);
    state.set_player_state(PlayerState::Playing);
    for _ in 0..5 {
        state.tick();
    }
    assert_eq!(elapsed(&state), 12);
    state.set_player_state(PlayerState::Paused);
    state.tick();
    assert_eq!(elapsed(&state), 12);
}

#[test]
fn ratio_rejects_improper_fractions() {
    assert!(Ratio::new(3, 2).is_none());
    assert!(Ratio::new(0, 0).is_none());
    let r = Ratio::new(1, 3).expect("a ratio");
    assert_eq!(r.scale(100), 33);
    assert_eq!(r.scale(u64::MAX), u64::MAX / 3);
    assert_eq!(Ratio::new(7, 7).expect("a ratio").scale(u64::MAX), u64::MAX);
}

#[test]
fn volume_click_sets_level() {
    let mut state = AppState::new();
    // 13 columns wide: 10 cells of slider; local column 6 is cell 5.
    let effect = perform(&mut state, &press(Action::SetVolume, Area::new(0, 0, 13, 3), 6));
    assert_eq!(state.volume(), 50);
    assert!(matches!(command(effect), PlayerCommand::SetVolume(50)));
    perform(&mut state, &press(Action::SetVolume, Area::new(0, 0, 13, 3), 200));
    assert_eq!(state.volume(), 100);
    perform(&mut state, &press(Action::SetVolume, Area::new(0, 0, 13, 3), 0));
    assert_eq!(state.volume(), 0);
    let _ = volume_control();
}
