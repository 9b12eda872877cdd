use macro_rs::{
    button_for, command_for, remap, Button, CaptureEvent, Command, DecodeError, Field, KeyAction,
    Macro, MacroAction, MacroGuard, MacroMetadata, MouseButtonAction, MouseMoveAction, PlaybackStep,
    Player, SimKey, UserAction,
};

fn key_action(key: &str, pressed: bool, offset: u64) -> MacroAction {
    MacroAction { action: UserAction::Key(KeyAction { key: key.to_string(), pressed }), offset }
}

fn run_playback(m: &Macro, clock: &[u64]) -> (Vec<Command>, bool) {
    let mut player = Player::new();
    let mut out = Vec::new();
    let mut finished = false;
    for &t in clock {
        match m.playback(&mut player, t) {
            PlaybackStep::Run(cmds) => out.extend(cmds),
            PlaybackStep::Finished => {
                finished = true;
                break;
            }
        }
    }
    (out, finished)
}

#[test]
fn create_macro() {
    let mut towa = Macro::new();
    let _guard = towa.record((10, 20));
    assert!(towa.is_recording());
    towa.on_event(CaptureEvent::KeyDown("A".to_string()), 0);
    towa.on_event(CaptureEvent::KeyUp("A".to_string()), 2);
    towa.on_event(CaptureEvent::Move(12, 25), 3);
    towa.stop_recording(5);
    assert!(!towa.is_recording());
    assert_eq!(towa.metadata().end, 5);

    let (cmds, finished) = run_playback(&towa, &[0, 0, 1, 2, 3, 4, 5, 6]);
    assert!(finished);
    assert_eq!(
        cmds,
        vec![
            Command::MoveTo { x: 10, y: 20 },
            Command::Key { key: SimKey::A, pressed: true },
            Command::Key { key: SimKey::A, pressed: false },
            Command::MoveBy { dx: 2, dy: 5 },
        ]
    );
}

#[test]
fn serialize_macro() {
    let mut towa = Macro::new();
    let _guard = towa.record((1, 2));
    towa.on_event(CaptureEvent::ButtonDown(1), 4);
    towa.on_event(CaptureEvent::KeyDown("Space".to_string()), 4);
    towa.stop_recording(9);

    let fields = towa.into_fields();
    assert_eq!(fields.len(), 2);
    let back = Macro::from_fields(fields).expect("failed to read back the macro");
    assert_eq!(back.actions().len(), 2);
    assert_eq!(back.metadata().end, 9);
    assert_eq!(back.metadata().cursor_pos, (1, 2));
    assert!(!back.is_recording());
    match &back.actions()[0].action {
        UserAction::MouseButton(b) => assert_eq!(*b, MouseButtonAction { button: 1, pressed: true }),
        other => panic!("unexpected action {:?}", other),
    }
    match &back.actions()[1].action {
        UserAction::Key(k) => {
            assert_eq!(k.key, "Space");
            assert!(k.pressed);
        }
        other => panic!("unexpected action {:?}", other),
    }
    assert_eq!(back.actions()[1].offset, 4);
}

#[test]
fn log_length_and_order_follow_the_events() {
    let mut m = Macro::new();
    let _guard = m.record((0, 0));
    let events = vec![
        (CaptureEvent::KeyDown("B".to_string()), 1),
        (CaptureEvent::ButtonDown(2), 1),
        (CaptureEvent::Move(3, 4), 2),
        (CaptureEvent::ButtonUp(2), 5),
        (CaptureEvent::KeyUp("B".to_string()), 7),
    ];
    m.capture_all(events.clone());
    let log = m.actions();
    assert_eq!(log.len(), events.len());
    let offsets: Vec<u64> = log.iter().map(|a| a.offset).collect();
    assert_eq!(offsets, vec![1, 1, 2, 5, 7]);
    assert!(matches!(&log[0].action, UserAction::Key(k) if k.key == "B" && k.pressed));
    assert!(matches!(&log[1].action, UserAction::MouseButton(b) if b.button == 2 && b.pressed));
    assert!(matches!(&log[2].action, UserAction::MouseMove(_)));
    assert!(matches!(&log[3].action, UserAction::MouseButton(b) if b.button == 2 && !b.pressed));
    assert!(matches!(&log[4].action, UserAction::Key(k) if k.key == "B" && !k.pressed));
}

#[test]
fn new_recording_resets_log_and_cursor() {
    let mut m = Macro::new();
    let _first = m.record((5, 5));
    m.on_event(CaptureEvent::KeyDown("C".to_string()), 0);
    m.on_event(CaptureEvent::Move(6, 6), 1);
    m.stop_recording(3);
    let _second = m.record((40, 50));
    assert!(m.actions().is_empty());
    assert_eq!(m.metadata().cursor_pos, (40, 50));
    m.on_event(CaptureEvent::Move(41, 48), 0);
    match &m.actions()[0].action {
        UserAction::MouseMove(mv) => assert_eq!(*mv, MouseMoveAction { delta_x: 1, delta_y: -2 }),
        other => panic!("unexpected action {:?}", other),
    }
}

#[test]
fn stop_end_covers_every_offset() {
    let mut m = Macro::new();
    let _guard = m.record((0, 0));
    m.on_event(CaptureEvent::KeyDown("D".to_string()), 12);
    m.on_event(CaptureEvent::KeyUp("D".to_string()), 30);
    m.stop_recording(20);
    assert_eq!(m.metadata().end, 30);
    m.stop_recording(45);
    assert_eq!(m.metadata().end, 45);

    let mut empty = Macro::new();
    let _g = empty.record((0, 0));
    empty.stop_recording(0);
    assert_eq!(empty.metadata().end, 0);
}

#[test]
fn round_trip_keeps_actions_and_metadata() {
    let actions = vec![
        key_action("E", true, 0),
        MacroAction {
            action: UserAction::MouseMove(MouseMoveAction { delta_x: -3, delta_y: 7 }),
            offset: 0,
        },
        key_action("E", false, 11),
    ];
    let meta = MacroMetadata { end: 11, cursor_pos: (-1, 640) };
    let m = Macro::from_parts(actions.clone(), meta);
    let back = Macro::from_fields(m.into_fields()).unwrap();
    assert_eq!(back.actions().len(), 3);
    assert_eq!(format!("{:?}", back.actions()), format!("{:?}", actions));
    assert_eq!(back.metadata().end, 11);
    assert_eq!(back.metadata().cursor_pos, (-1, 640));
}

#[test]
fn pointer_deltas_follow_samples() {
    let mut m = Macro::new();
    let _guard = m.record((0, 0));
    m.capture_all(vec![(CaptureEvent::Move(5, 3), 1), (CaptureEvent::Move(5, 1), 2)]);
    let deltas: Vec<MouseMoveAction> = m
        .actions()
        .iter()
        .map(|a| match &a.action {
            UserAction::MouseMove(mv) => *mv,
            other => panic!("unexpected action {:?}", other),
        })
        .collect();
    assert_eq!(
        deltas,
        vec![
            MouseMoveAction { delta_x: 5, delta_y: 3 },
            MouseMoveAction { delta_x: 0, delta_y: -2 },
        ]
    );
}

#[test]
fn unknown_button_does_not_stop_playback() {
    let actions = vec![
        key_action("F", true, 1),
        MacroAction {
            action: UserAction::MouseButton(MouseButtonAction { button: 9, pressed: true }),
            offset: 1,
        },
        MacroAction {
            action: UserAction::MouseMove(MouseMoveAction { delta_x: 4, delta_y: 4 }),
            offset: 1,
        },
        key_action("NoSuchKey", true, 2),
        key_action("G", true, 2),
    ];
    let m = Macro::from_parts(actions, MacroMetadata { end: 3, cursor_pos: (0, 0) });
    assert_eq!(
        m.commands_between(0, 3),
        vec![
            Command::Key { key: SimKey::F, pressed: true },
            Command::UnknownButton { number: 9 },
            Command::MoveBy { dx: 4, dy: 4 },
            Command::Key { key: SimKey::G, pressed: true },
        ]
    );
}

#[test]
fn missing_metadata_is_an_error() {
    let fields = vec![Field::Actions(vec![key_action("H", true, 0)])];
    assert_eq!(Macro::from_fields(fields).err(), Some(DecodeError::MissingMetadata));
}

#[test]
fn missing_actions_is_an_error() {
    let fields = vec![Field::Metadata(MacroMetadata { end: 1, cursor_pos: (0, 0) })];
    assert_eq!(Macro::from_fields(fields).err(), Some(DecodeError::MissingActions));
    assert_eq!(Macro::from_fields(Vec::new()).err(), Some(DecodeError::MissingActions));
}

#[test]
fn unknown_field_is_an_error() {
    let fields = vec![
        Field::Actions(Vec::new()),
        Field::Unknown("speed".to_string()),
        Field::Metadata(MacroMetadata { end: 1, cursor_pos: (0, 0) }),
        Field::Unknown("colour".to_string()),
    ];
    assert_eq!(
        Macro::from_fields(fields).err(),
        Some(DecodeError::UnknownField("speed".to_string()))
    );
}

#[test]
fn later_field_wins() {
    let fields = vec![
        Field::Metadata(MacroMetadata { end: 1, cursor_pos: (0, 0) }),
        Field::Actions(Vec::new()),
        Field::Metadata(MacroMetadata { end: 8, cursor_pos: (2, 2) }),
    ];
    let m = Macro::from_fields(fields).unwrap();
    assert_eq!(m.metadata().end, 8);
    assert_eq!(m.metadata().cursor_pos, (2, 2));
}

#[test]
fn is_recording_follows_the_lifecycle() {
    let mut m = Macro::new();
    assert!(!m.is_recording());
    let _guard = m.record((0, 0));
    assert!(m.is_recording());
    m.on_event(CaptureEvent::ButtonDown(1), 0);
    assert!(m.is_recording());
    m.stop_recording(1);
    assert!(!m.is_recording());
}

#[test]
fn playback_catches_actions_between_polls() {
    let actions = vec![key_action("A", true, 3), key_action("A", false, 7)];
    let m = Macro::from_parts(actions, MacroMetadata { end: 10, cursor_pos: (3, 4) });
    // Polls that never land on offsets 3 or 7 still dispatch both actions.
    let (cmds, finished) = run_playback(&m, &[0, 0, 5, 9, 12, 13]);
    assert!(finished);
    assert_eq!(
        cmds,
        vec![
            Command::MoveTo { x: 3, y: 4 },
            Command::Key { key: SimKey::A, pressed: true },
            Command::Key { key: SimKey::A, pressed: false },
        ]
    );
}

#[test]
fn playback_polls_going_back_dispatch_nothing() {
    let actions = vec![key_action("A", true, 2)];
    let m = Macro::from_parts(actions, MacroMetadata { end: 10, cursor_pos: (0, 0) });
    let mut player = Player::new();
    assert!(matches!(m.playback(&mut player, 0), PlaybackStep::Run(_)));
    assert!(matches!(m.playback(&mut player, 4), PlaybackStep::Run(c) if c.len() == 1));
    assert_eq!(player.next, 5);
    assert!(matches!(m.playback(&mut player, 3), PlaybackStep::Run(c) if c.is_empty()));
    assert!(matches!(m.playback(&mut player, 10), PlaybackStep::Run(c) if c.is_empty()));
    assert!(player.finished);
    assert!(matches!(m.playback(&mut player, 11), PlaybackStep::Finished));
    assert!(matches!(m.playback(&mut player, 2), PlaybackStep::Finished));
}

#[test]
fn playback_dispatches_actions_just_before_the_end() {
    let actions = vec![key_action("B", true, 4)];
    let m = Macro::from_parts(actions, MacroMetadata { end: 5, cursor_pos: (0, 0) });
    let mut player = Player::new();
    assert!(matches!(m.playback(&mut player, 0), PlaybackStep::Run(c) if c.len() == 1));
    assert!(matches!(m.playback(&mut player, 3), PlaybackStep::Run(c) if c.is_empty()));
    match m.playback(&mut player, 5) {
        PlaybackStep::Run(c) => assert_eq!(c, vec![Command::Key { key: SimKey::B, pressed: true }]),
        PlaybackStep::Finished => panic!("the last action was not dispatched"),
    }
    assert!(matches!(m.playback(&mut player, 6), PlaybackStep::Finished));
}

#[test]
fn actions_at_or_past_the_end_are_not_dispatched() {
    let actions = vec![key_action("C", true, 1), key_action("C", false, 3)];
    let m = Macro::from_parts(actions, MacroMetadata { end: 3, cursor_pos: (0, 0) });
    let (cmds, finished) = run_playback(&m, &[0, 7, 8]);
    assert!(finished);
    assert_eq!(
        cmds,
        vec![Command::MoveTo { x: 0, y: 0 }, Command::Key { key: SimKey::C, pressed: true }]
    );
}

#[test]
fn buttons_map_by_number() {
    assert_eq!(button_for(1), Some(Button::Left));
    assert_eq!(button_for(2), Some(Button::Right));
    assert_eq!(button_for(3), Some(Button::Middle));
    assert_eq!(button_for(4), Some(Button::Back));
    assert_eq!(button_for(5), Some(Button::Forward));
    assert_eq!(button_for(0), None);
    assert_eq!(button_for(6), None);
    let release = UserAction::MouseButton(MouseButtonAction { button: 3, pressed: false });
    assert_eq!(command_for(&release), Some(Command::Press { button: Button::Middle, pressed: false }));
    let unknown = UserAction::MouseButton(MouseButtonAction { button: 7, pressed: true });
    assert_eq!(command_for(&unknown), Some(Command::UnknownButton { number: 7 }));
    let unmapped = UserAction::Key(KeyAction { key: "Insert".to_string(), pressed: true });
    assert_eq!(command_for(&unmapped), None);
}

#[test]
fn key_names_map_to_simulator_keys() {
    assert_eq!(remap(&"A".to_string()), Some(SimKey::A));
    assert_eq!(remap(&"Key7".to_string()), Some(SimKey::Num7));
    assert_eq!(remap(&"F12".to_string()), Some(SimKey::F12));
    assert_eq!(remap(&"LShift".to_string()), Some(SimKey::Shift));
    assert_eq!(remap(&"RShift".to_string()), Some(SimKey::Shift));
    assert_eq!(remap(&"Enter".to_string()), Some(SimKey::Return));
    assert_eq!(remap(&"Grave".to_string()), Some(SimKey::Unicode('`')));
    assert_eq!(remap(&"BackSlash".to_string()), Some(SimKey::Unicode('\\')));
    assert_eq!(remap(&"NumpadDivide".to_string()), Some(SimKey::Divide));
    assert_eq!(remap(&"Numpad3".to_string()), Some(SimKey::Numpad3));
    assert_eq!(remap(&"Insert".to_string()), None);
    assert_eq!(remap(&"NoSuchKey".to_string()), None);
    assert_eq!(remap(&"".to_string()), None);
}

#[test]
fn guard_keeps_tokens() {
    let guard = MacroGuard::new();
    assert_eq!(guard.len(), 0);
    let guard = guard.keep_alive(1u8).keep_alive("token".to_string());
    assert_eq!(guard.len(), 2);
    drop(guard);
}
