use vstd::prelude::*;

use crate::key::KeyCode;

verus! {

/// Whether a key went down or came up.
#[derive(Debug, Clone, Copy, PartialEq, Eq, Structural)]
pub enum ElementState {
    Pressed,
    Released,
}

/// A keyboard input as the platform reports it: the key code, when the
/// platform recognised one, and the transition.
#[derive(Debug, Clone, Copy, PartialEq, Eq, Structural)]
pub struct KeyboardInput {
    pub virtual_keycode: Option<KeyCode>,
    pub state: ElementState,
}

/// An event addressed to the window.
#[derive(Debug, Clone, Copy, PartialEq, Eq, Structural)]
pub enum WindowEvent {
    KeyboardInput(KeyboardInput),
    CloseRequested,
    Resized,
    CursorMoved,
    /// Any other window event; its payload plays no part here.
    Other,
}

/// An event taken from the platform's event queue.
#[derive(Debug, Clone, Copy, PartialEq, Eq, Structural)]
pub enum PlatformEvent {
    WindowEvent(WindowEvent),
    DeviceEvent,
    UserEvent,
    Suspended,
    Resumed,
}

/// The vocabulary the application sees; no platform shape passes this point.
#[derive(Debug, Clone, Copy, PartialEq, Eq, Structural)]
pub enum Event {
    KeyPressed(KeyCode),
    KeyReleased(KeyCode),
    Close,
    Unknown,
}

/// The unified event that stands for one platform event.
pub open spec fn translate(e: PlatformEvent) -> Event {
    match e {
        PlatformEvent::WindowEvent(WindowEvent::KeyboardInput(input)) => match input.virtual_keycode {
            Some(code) => match input.state {
                ElementState::Pressed => Event::KeyPressed(code),
                ElementState::Released => Event::KeyReleased(code),
            },
            None => Event::Unknown,
        },
        PlatformEvent::WindowEvent(WindowEvent::CloseRequested) => Event::Close,
        _ => Event::Unknown,
    }
}

/// What one poll hands to the caller for the events queued at that moment.
pub open spec fn delivered(queue: Seq<PlatformEvent>) -> Seq<Event> {
    queue.map_values(|e: PlatformEvent| translate(e))
}

/// A key press with a recognised code.
pub open spec fn key_pressed(k: KeyCode) -> PlatformEvent {
    PlatformEvent::WindowEvent(
        WindowEvent::KeyboardInput(KeyboardInput { virtual_keycode: Some(k), state: ElementState::Pressed }),
    )
}

/// A key release with a recognised code.
pub open spec fn key_released(k: KeyCode) -> PlatformEvent {
    PlatformEvent::WindowEvent(
        WindowEvent::KeyboardInput(KeyboardInput { virtual_keycode: Some(k), state: ElementState::Released }),
    )
}

/// A request to close the window.
pub open spec fn close_requested() -> PlatformEvent {
    PlatformEvent::WindowEvent(WindowEvent::CloseRequested)
}

/// A key press, whether or not the platform recognised the key.
pub open spec fn is_key_press(e: PlatformEvent) -> bool {
    e matches PlatformEvent::WindowEvent(WindowEvent::KeyboardInput(input)) && input.state
        == ElementState::Pressed
}

/// Neither a recognised key press or release nor a close request.
pub open spec fn unrecognised(e: PlatformEvent) -> bool {
    &&& forall|k: KeyCode| e != key_pressed(k) && e != key_released(k)
    &&& e != close_requested()
}

impl From<PlatformEvent> for Event {
    fn from(item: PlatformEvent) -> (r: Event)
        ensures
            r == translate(item),
    {
        match item {
            PlatformEvent::WindowEvent(event) => match event {
                WindowEvent::KeyboardInput(KeyboardInput { virtual_keycode: Some(code), state }) => {
                    match state {
                        ElementState::Pressed => Event::KeyPressed(code),
                        ElementState::Released => Event::KeyReleased(code),
                    }
                },
                WindowEvent::CloseRequested => Event::Close,
                _ => Event::Unknown,
            },
            _ => Event::Unknown,
        }
    }
}

impl vstd::std_specs::convert::FromSpecImpl<PlatformEvent> for Event {
    open spec fn obeys_from_spec() -> bool {
        true
    }

    open spec fn from_spec(v: PlatformEvent) -> Event {
        translate(v)
    }
}

/// Translates the events of one poll, one unified event for each, in the
/// order the platform reported them.
pub fn translate_events(queue: &Vec<PlatformEvent>) -> (r: Vec<Event>)
    ensures
        r@ == delivered(queue@),
{
    let mut r: Vec<Event> = Vec::with_capacity(queue.len());
    let mut i: usize = 0;
    while i < queue.len()
        invariant
            i <= queue@.len(),
            r@ == delivered(queue@.subrange(0, i as int)),
        decreases queue@.len() - i,
    {
        r.push(Event::from(queue[i]));
        proof {
            assert(queue@.subrange(0, i + 1) =~= queue@.subrange(0, i as int).push(queue@[i as int]));
        }
        i = i + 1;
    }
    proof {
        assert(queue@.subrange(0, i as int) =~= queue@);
    }
    r
}

/// A recognised key press is delivered as exactly one `KeyPressed` of the
/// same key, at the same place in the poll's output.
pub proof fn lemma_key_press_delivered(queue: Seq<PlatformEvent>, i: int, k: KeyCode)
    requires
        0 <= i < queue.len(),
        queue[i] == key_pressed(k),
    ensures
        delivered(queue).len() == queue.len(),
        delivered(queue)[i] == Event::KeyPressed(k),
{
}

/// A recognised key release is delivered as exactly one `KeyReleased` of the
/// same key, at the same place in the poll's output.
pub proof fn lemma_key_release_delivered(queue: Seq<PlatformEvent>, i: int, k: KeyCode)
    requires
        0 <= i < queue.len(),
        queue[i] == key_released(k),
    ensures
        delivered(queue).len() == queue.len(),
        delivered(queue)[i] == Event::KeyReleased(k),
{
}

/// A close request is delivered as exactly one `Close`, at the same place in
/// the poll's output.
pub proof fn lemma_close_delivered(queue: Seq<PlatformEvent>, i: int)
    requires
        0 <= i < queue.len(),
        queue[i] == close_requested(),
    ensures
        delivered(queue).len() == queue.len(),
        delivered(queue)[i] == Event::Close,
{
}

/// Any other platform event is delivered as exactly one `Unknown`: it is
/// neither dropped nor repeated.
pub proof fn lemma_other_delivered_as_unknown(queue: Seq<PlatformEvent>, i: int)
    requires
        0 <= i < queue.len(),
        unrecognised(queue[i]),
    ensures
        delivered(queue).len() == queue.len(),
        delivered(queue)[i] == Event::Unknown,
{
    let e = queue[i];
    if let PlatformEvent::WindowEvent(WindowEvent::KeyboardInput(input)) = e {
        if let Some(code) = input.virtual_keycode {
            assert(e != key_pressed(code) && e != key_released(code));
        }
    }
}

/// A poll of an empty queue delivers nothing.
pub proof fn lemma_empty_queue_delivers_nothing()
    ensures
        delivered(Seq::<PlatformEvent>::empty()) == Seq::<Event>::empty(),
{
    assert(delivered(Seq::<PlatformEvent>::empty()) =~= Seq::<Event>::empty());
}

/// A poll of `n` queued events delivers `n` events, the `i`-th of them
/// standing for the `i`-th platform event.
pub proof fn lemma_order_kept(queue: Seq<PlatformEvent>)
    ensures
        delivered(queue).len() == queue.len(),
        forall|i: int| 0 <= i < queue.len() ==> #[trigger] delivered(queue)[i] == translate(queue[i]),
{
}

/// Events split across two polls are delivered as if they had been polled
/// at once: the order of arrival is kept.
pub proof fn lemma_polls_concatenate(first: Seq<PlatformEvent>, second: Seq<PlatformEvent>)
    ensures
        delivered(first + second) == delivered(first) + delivered(second),
{
    assert(delivered(first + second) =~= delivered(first) + delivered(second));
}

} // verus!
