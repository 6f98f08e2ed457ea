use render::window::translate_events;
use render::{ElementState, Event, KeyCode, KeyboardInput, PlatformEvent, WindowEvent};

fn key(code: Option<KeyCode>, state: ElementState) -> PlatformEvent {
    PlatformEvent::WindowEvent(WindowEvent::KeyboardInput(KeyboardInput { virtual_keycode: code, state }))
}

fn close() -> PlatformEvent {
    PlatformEvent::WindowEvent(WindowEvent::CloseRequested)
}

#[test]
fn key_press_gives_key_pressed() {
    let e = Event::from(key(Some(KeyCode::A), ElementState::Pressed));
    assert_eq!(e, Event::KeyPressed(KeyCode::A));
}

#[test]
fn key_release_gives_key_released() {
    let e = Event::from(key(Some(KeyCode::Escape), ElementState::Released));
    assert_eq!(e, Event::KeyReleased(KeyCode::Escape));
}

#[test]
fn close_request_gives_close() {
    assert_eq!(Event::from(close()), Event::Close);
}

#[test]
fn key_without_code_gives_unknown() {
    assert_eq!(Event::from(key(None, ElementState::Pressed)), Event::Unknown);
    assert_eq!(Event::from(key(None, ElementState::Released)), Event::Unknown);
}

#[test]
fn other_events_give_unknown() {
    let others = vec![
        PlatformEvent::WindowEvent(WindowEvent::Resized),
        PlatformEvent::WindowEvent(WindowEvent::CursorMoved),
        PlatformEvent::WindowEvent(WindowEvent::Other),
        PlatformEvent::DeviceEvent,
        PlatformEvent::UserEvent,
        PlatformEvent::Suspended,
        PlatformEvent::Resumed,
    ];
    let out = translate_events(&others);
    assert_eq!(out.len(), others.len());
    for e in out {
        assert_eq!(e, Event::Unknown);
    }
}

#[test]
fn empty_queue_delivers_nothing() {
    let out = translate_events(&Vec::new());
    assert!(out.is_empty());
}

#[test]
fn order_and_count_are_kept() {
    let queue = vec![
        key(Some(KeyCode::W), ElementState::Pressed),
        PlatformEvent::WindowEvent(WindowEvent::CursorMoved),
        key(Some(KeyCode::W), ElementState::Released),
        key(None, ElementState::Pressed),
        close(),
        key(Some(KeyCode::Cut), ElementState::Pressed),
    ];
    let out = translate_events(&queue);
    assert_eq!(
        out,
        vec![
            Event::KeyPressed(KeyCode::W),
            Event::Unknown,
            Event::KeyReleased(KeyCode::W),
            Event::Unknown,
            Event::Close,
            Event::KeyPressed(KeyCode::Cut),
        ]
    );
}

#[test]
fn repeated_events_are_each_delivered() {
    let queue = vec![close(), close(), key(Some(KeyCode::Key1), ElementState::Pressed)];
    let out = translate_events(&queue);
    assert_eq!(out, vec![Event::Close, Event::Close, Event::KeyPressed(KeyCode::Key1)]);
}

#[test]
fn two_polls_deliver_as_one() {
    let first = vec![key(Some(KeyCode::B), ElementState::Pressed), close()];
    let second = vec![PlatformEvent::Resumed, key(Some(KeyCode::B), ElementState::Released)];
    let mut both = first.clone();
    both.extend(second.iter().copied());
    let mut split = translate_events(&first);
    split.extend(translate_events(&second));
    assert_eq!(split, translate_events(&both));
}
