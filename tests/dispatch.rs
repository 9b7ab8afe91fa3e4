use tui_player::{
    last_track_button, play_button, playlist_widget, stop_button, volume_control, Action, AppState,
    Area, EventHandler, InputEvent, InteractionState, InteractiveWidget, Key, MouseButton,
    MouseEvent, MouseEventKind, MouseEventType, Point, Trigger,
};

fn mouse(kind: MouseEventKind, column: u16, row: u16) -> MouseEvent {
    MouseEvent { kind, column, row }
}

fn two_buttons() -> (EventHandler, usize, usize) {
    let mut handler = EventHandler::new();
    let play = handler.register_component(play_button());
    let stop = handler.register_component(stop_button());
    handler.set_area(play, Area::new(0, 0, 9, 3));
    handler.set_area(stop, Area::new(9, 0, 9, 3));
    (handler, play, stop)
}

#[test]
fn area_contains_its_edges() {
    let a = Area::new(1, 2, 3, 4);
    assert!(a.contains(Point::new(1, 2)));
    assert!(a.contains(Point::new(3, 5)));
    assert!(!a.contains(Point::new(4, 2)));
    assert!(!a.contains(Point::new(1, 6)));
    assert!(!a.contains(Point::new(0, 2)));
    assert_eq!(a.relative(Point::new(3, 5)), Point::new(2, 3));
}

#[test]
fn area_reaches_last_screen_cell() {
    let a = Area::new(65530, 0, 10, 1);
    assert!(a.contains(Point::new(65535, 0)));
    let corner = Area::new(65535, 65535, 1, 1);
    assert!(corner.contains(Point::new(65535, 65535)));
    assert!(!corner.contains(Point::new(65534, 65535)));
    assert!(!Area::new(3, 3, 0, 5).contains(Point::new(3, 3)));
}

#[test]
fn pointer_on_last_column_reaches_surface() {
    let mut handler = EventHandler::new();
    let edge = handler.register_component(play_button());
    handler.set_area(edge, Area::new(65535, 0, 1, 1));
    let fired = handler.handle_mouse_event(mouse(MouseEventKind::Down(MouseButton::Left), 65535, 0));
    assert_eq!(fired.len(), 1);
    assert_eq!(handler.state(edge), InteractionState::Pressed);
}

#[test]
fn press_then_leave_resets_and_fires_once() {
    let (mut handler, play, stop) = two_buttons();
    assert_eq!(handler.state(play), InteractionState::Default);

    let fired = handler.handle_mouse_event(mouse(MouseEventKind::Down(MouseButton::Left), 3, 1));
    assert_eq!(handler.state(play), InteractionState::Pressed);
    assert_eq!(fired.len(), 1);
    assert_eq!(fired[0].surface, play);
    assert_eq!(fired[0].action, Action::PlayPause);
    match &fired[0].trigger {
        Trigger::Pointer(p) => assert_eq!(*p, Point::new(3, 1)),
        other => panic!("unexpected trigger {:?}", other),
    }

    let fired = handler.handle_mouse_event(mouse(MouseEventKind::Moved, 40, 1));
    assert!(fired.is_empty());
    assert_eq!(handler.state(play), InteractionState::Default);
    assert_eq!(handler.state(stop), InteractionState::Default);

    let fired = handler.handle_mouse_event(mouse(MouseEventKind::Up(MouseButton::Left), 40, 1));
    assert!(fired.is_empty());
    assert_eq!(handler.state(play), InteractionState::Default);
}

#[test]
fn at_most_one_surface_active() {
    let (mut handler, play, stop) = two_buttons();
    handler.handle_mouse_event(mouse(MouseEventKind::Moved, 2, 1));
    assert_eq!(handler.state(play), InteractionState::Hovered);
    assert_eq!(handler.state(stop), InteractionState::Default);

    handler.handle_mouse_event(mouse(MouseEventKind::Down(MouseButton::Left), 12, 1));
    assert_eq!(handler.state(play), InteractionState::Default);
    assert_eq!(handler.state(stop), InteractionState::Pressed);

    handler.handle_mouse_event(mouse(MouseEventKind::ScrollUp, 30, 30));
    assert_eq!(handler.state(play), InteractionState::Default);
    assert_eq!(handler.state(stop), InteractionState::Default);
}

#[test]
fn pointer_coordinates_are_local() {
    let (mut handler, _, stop) = two_buttons();
    let fired = handler.handle_mouse_event(mouse(MouseEventKind::Down(MouseButton::Left), 11, 2));
    assert_eq!(fired.len(), 1);
    assert_eq!(fired[0].surface, stop);
    assert_eq!(fired[0].area, Area::new(9, 0, 9, 3));
    match &fired[0].trigger {
        Trigger::Pointer(p) => assert_eq!(*p, Point::new(2, 2)),
        other => panic!("unexpected trigger {:?}", other),
    }
}

#[test]
fn scroll_keeps_state_and_fires_wheel_handler() {
    let mut handler = EventHandler::new();
    let volume = handler.register_component(volume_control());
    handler.set_area(volume, Area::new(0, 0, 12, 3));
    handler.handle_mouse_event(mouse(MouseEventKind::Moved, 4, 1));
    assert_eq!(handler.state(volume), InteractionState::Hovered);

    let fired = handler.handle_mouse_event(mouse(MouseEventKind::ScrollUp, 4, 1));
    assert_eq!(handler.state(volume), InteractionState::Hovered);
    assert_eq!(fired.len(), 1);
    assert_eq!(fired[0].action, Action::VolumeUp);

    let fired = handler.handle_mouse_event(mouse(MouseEventKind::ScrollDown, 4, 1));
    assert_eq!(fired[0].action, Action::VolumeDown);

    let fired = handler.handle_mouse_event(mouse(MouseEventKind::Drag(MouseButton::Left), 5, 1));
    assert_eq!(handler.state(volume), InteractionState::Pressed);
    assert_eq!(fired[0].action, Action::SetVolume);
}

#[test]
fn press_without_handler_presses_and_fires_nothing() {
    let mut handler = EventHandler::new();
    let plain = handler.register_component(InteractiveWidget::new());
    handler.set_area(plain, Area::new(0, 0, 5, 5));
    handler.handle_mouse_event(mouse(MouseEventKind::Moved, 1, 1));
    let fired = handler.handle_mouse_event(mouse(MouseEventKind::Down(MouseButton::Left), 1, 1));
    assert!(fired.is_empty());
    assert_eq!(handler.state(plain), InteractionState::Pressed);
    let fired = handler.handle_mouse_event(mouse(MouseEventKind::Up(MouseButton::Left), 1, 1));
    assert!(fired.is_empty());
    assert_eq!(handler.state(plain), InteractionState::Hovered);
}

#[test]
fn rebinding_a_key_replaces_it() {
    let w = InteractiveWidget::new()
        .on_key_down(Key::Char('p'), Action::PlayPause)
        .on_key_down(Key::Enter, Action::Stop)
        .on_key_down(Key::Char('p'), Action::ToggleShuffle);
    assert_eq!(w.handle_key_event(Key::Char('p')), Some(Action::ToggleShuffle));
    assert_eq!(w.handle_key_event(Key::Enter), Some(Action::Stop));
    assert_eq!(w.handle_key_event(Key::Esc), None);
}

#[test]
fn right_button_press_is_ignored_inside() {
    let (mut handler, play, _) = two_buttons();
    let fired = handler.handle_mouse_event(mouse(MouseEventKind::Down(MouseButton::Right), 1, 1));
    assert!(fired.is_empty());
    assert_eq!(handler.state(play), InteractionState::Default);
}

#[test]
fn quit_key_sets_exit_flag() {
    let (mut handler, _, _) = two_buttons();
    let mut state = AppState::new();
    let fired = handler.handle_event(&mut state, &InputEvent::Key(Key::Esc));
    assert!(fired.is_empty());
    assert!(state.should_exit());
}

#[test]
fn key_reaches_only_bound_surfaces() {
    let mut handler = EventHandler::new();
    let a = handler.register_component(
        InteractiveWidget::new().on_key_down(Key::Char(' '), Action::PlayPause),
    );
    let _b = handler.register_component(InteractiveWidget::new().on_key_down(Key::Char('s'), Action::Stop));
    let c = handler.register_component(
        InteractiveWidget::new()
            .on_key_down(Key::Char(' '), Action::Stop)
            .on_key_down(Key::Char(' '), Action::ToggleRepeat),
    );
    let mut state = AppState::new();
    let fired = handler.handle_key_event(&mut state, Key::Char(' '));
    assert!(!state.should_exit());
    assert_eq!(fired.len(), 2);
    assert_eq!((fired[0].surface, fired[0].action), (a, Action::PlayPause));
    assert_eq!((fired[1].surface, fired[1].action), (c, Action::ToggleRepeat));
    assert!(handler.handle_key_event(&mut state, Key::Enter).is_empty());
}

#[test]
fn paste_is_broadcast_regardless_of_pointer() {
    let mut handler = EventHandler::new();
    let list = handler.register_component(playlist_widget());
    let _skip = handler.register_component(last_track_button());
    let second = handler.register_component(InteractiveWidget::new().on_paste(Action::AddTracks));
    let text = String::from("/music/album");
    let fired = handler.handle_paste_event(&text);
    assert_eq!(fired.len(), 2);
    assert_eq!(fired[0].surface, list);
    assert_eq!(fired[1].surface, second);
    match &fired[0].trigger {
        Trigger::Paste(t) => assert_eq!(t, "/music/album"),
        other => panic!("unexpected trigger {:?}", other),
    }
}

#[test]
fn surface_state_machine_transitions() {
    let mut w = play_button();
    assert_eq!(w.handle_mouse_event(MouseEventType::Over), None);
    assert_eq!(w.state(), InteractionState::Hovered);
    assert_eq!(w.handle_mouse_event(MouseEventType::Down), Some(Action::PlayPause));
    assert_eq!(w.state(), InteractionState::Pressed);
    assert_eq!(w.handle_mouse_event(MouseEventType::ScrollUp), None);
    assert_eq!(w.state(), InteractionState::Pressed);
    assert_eq!(w.handle_mouse_event(MouseEventType::Out), None);
    assert_eq!(w.state(), InteractionState::Default);
    assert_eq!(w.handle_key_event(Key::Enter), None);
    assert_eq!(w.handle_paste_event(), None);
}
