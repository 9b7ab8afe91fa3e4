use vstd::prelude::*;

use crate::controls::Action;
use crate::geometry::Area;

verus! {

/// Interaction state of a surface, as its draw routine shows it.
#[derive(Clone, Copy, PartialEq, Eq, Structural, Debug)]
pub enum InteractionState {
    Default,
    Hovered,
    Pressed,
}

/// What a pointer event means to one surface once it has been hit-tested.
#[derive(Clone, Copy, PartialEq, Eq, Structural, Debug)]
pub enum MouseEventType {
    Over,
    Out,
    Down,
    Drag,
    ScrollUp,
    ScrollDown,
}

/// A key of the keyboard.
#[derive(Clone, Copy, PartialEq, Eq, Structural, Debug)]
pub enum Key {
    Char(char),
    F(u8),
    Enter,
    Esc,
    Backspace,
    Tab,
    Delete,
    Insert,
    Left,
    Right,
    Up,
    Down,
    Home,
    End,
    PageUp,
    PageDown,
}

/// A surface, field by field.
pub struct WidgetModel {
    pub area: Area,
    pub state: InteractionState,
    pub on_mouse_down: Option<Action>,
    pub on_mouse_drag: Option<Action>,
    pub on_mouse_scroll_up: Option<Action>,
    pub on_mouse_scroll_down: Option<Action>,
    pub on_paste: Option<Action>,
    pub on_key_down: Seq<(Key, Action)>,
}

/// The action bound to `key`, looked up from the latest binding back. A
/// surface's key map binds each key at most once (see [`keys_unique`]), so
/// this is the action of the one binding of `key`.
pub open spec fn key_action(keys: Seq<(Key, Action)>, key: Key) -> Option<Action>
    decreases keys.len(),
{
    if keys.len() == 0 {
        None
    } else if keys.last().0 == key {
        Some(keys.last().1)
    } else {
        key_action(keys.drop_last(), key)
    }
}

/// No key is bound twice.
pub open spec fn keys_unique(keys: Seq<(Key, Action)>) -> bool {
    forall|i: int, j: int| 0 <= i < j < keys.len() ==> #[trigger] keys[i].0 != #[trigger] keys[j].0
}

/// Whether `key` is bound.
pub open spec fn has_key(keys: Seq<(Key, Action)>, key: Key) -> bool {
    exists|i: int| 0 <= i < keys.len() && #[trigger] keys[i].0 == key
}

/// The key map after binding `key` to `action`: an existing binding of
/// `key` gets the new action in its place; otherwise the binding is added
/// at the end.
pub open spec fn bind_key(keys: Seq<(Key, Action)>, key: Key, action: Action) -> Seq<(Key, Action)> {
    if has_key(keys, key) {
        keys.map_values(|b: (Key, Action)| if b.0 == key { (key, action) } else { b })
    } else {
        keys.push((key, action))
    }
}

/// In a key map without repeated keys, the action bound to a key is that of
/// its binding, and an unbound key has none.
proof fn lemma_key_action_unique(keys: Seq<(Key, Action)>, key: Key)
    requires
        keys_unique(keys),
    ensures
        forall|i: int| 0 <= i < keys.len() && #[trigger] keys[i].0 == key ==> key_action(keys, key) == Some(keys[i].1),
        !has_key(keys, key) ==> key_action(keys, key) is None,
    decreases keys.len(),
{
    if keys.len() > 0 {
        let rest = keys.drop_last();
        assert(keys_unique(rest));
        lemma_key_action_unique(rest, key);
        if keys.last().0 != key && !has_key(keys, key) {
            assert(!has_key(rest, key)) by {
                if has_key(rest, key) {
                    let i = choose|i: int| 0 <= i < rest.len() && #[trigger] rest[i].0 == key;
                    assert(keys[i].0 == key);
                }
            }
        }
        assert forall|i: int| 0 <= i < keys.len() && #[trigger] keys[i].0 == key implies key_action(keys, key)
            == Some(keys[i].1) by {
            if i < keys.len() - 1 {
                assert(rest[i].0 == key);
            }
        }
    }
}

/// The handler that a pointer event of type `e` runs on the surface.
pub open spec fn mouse_handler(w: WidgetModel, e: MouseEventType) -> Option<Action> {
    match e {
        MouseEventType::Down => w.on_mouse_down,
        MouseEventType::Drag => w.on_mouse_drag,
        MouseEventType::ScrollUp => w.on_mouse_scroll_up,
        MouseEventType::ScrollDown => w.on_mouse_scroll_down,
        _ => None,
    }
}

/// The surface's state machine: the pointer entering or moving over it
/// hovers it, leaving resets it, a primary press or drag over it presses it
/// (whether or not a handler takes the event), and scrolling leaves the
/// state alone.
pub open spec fn state_after(w: WidgetModel, e: MouseEventType) -> InteractionState {
    match e {
        MouseEventType::Over => InteractionState::Hovered,
        MouseEventType::Out => InteractionState::Default,
        MouseEventType::Down | MouseEventType::Drag => InteractionState::Pressed,
        _ => w.state,
    }
}

/// The surface after a pointer event of type `e`.
pub open spec fn after_mouse(w: WidgetModel, e: MouseEventType) -> WidgetModel {
    WidgetModel { state: state_after(w, e), ..w }
}

/// A surface with no handlers, in the default state, with empty bounds.
pub open spec fn blank_widget() -> WidgetModel {
    WidgetModel {
        area: Area { x: 0, y: 0, width: 0, height: 0 },
        state: InteractionState::Default,
        on_mouse_down: None,
        on_mouse_drag: None,
        on_mouse_scroll_up: None,
        on_mouse_scroll_down: None,
        on_paste: None,
        on_key_down: Seq::empty(),
    }
}

/// A unit of interactive interface: its bounds on screen, its interaction
/// state, and the action each of its handlers runs.
pub struct InteractiveWidget {
    area: Area,
    state: InteractionState,
    on_mouse_down_fn: Option<Action>,
    on_mouse_drag_fn: Option<Action>,
    on_mouse_scroll_up_fn: Option<Action>,
    on_mouse_scroll_down_fn: Option<Action>,
    on_paste_fn: Option<Action>,
    on_key_down_fns: Vec<(Key, Action)>,
}

impl View for InteractiveWidget {
    type V = WidgetModel;

    closed spec fn view(&self) -> WidgetModel {
        WidgetModel {
            area: self.area,
            state: self.state,
            on_mouse_down: self.on_mouse_down_fn,
            on_mouse_drag: self.on_mouse_drag_fn,
            on_mouse_scroll_up: self.on_mouse_scroll_up_fn,
            on_mouse_scroll_down: self.on_mouse_scroll_down_fn,
            on_paste: self.on_paste_fn,
            on_key_down: self.on_key_down_fns@,
        }
    }
}

impl InteractiveWidget {
    #[verifier::type_invariant]
    spec fn key_map_unique(self) -> bool {
        keys_unique(self.on_key_down_fns@)
    }

    /// A surface with no handlers, in the default state, with empty bounds
    /// until it is first rendered.
    pub fn new() -> (r: Self)
        ensures
            r@ == blank_widget(),
    {
        InteractiveWidget {
            area: Area { x: 0, y: 0, width: 0, height: 0 },
            state: InteractionState::Default,
            on_mouse_down_fn: None,
            on_mouse_drag_fn: None,
            on_mouse_scroll_up_fn: None,
            on_mouse_scroll_down_fn: None,
            on_paste_fn: None,
            on_key_down_fns: Vec::new(),
        }
    }

    pub fn on_mouse_down(self, action: Action) -> (r: Self)
        ensures
            r@ == (WidgetModel { on_mouse_down: Some(action), ..self@ }),
    {
        proof {
            use_type_invariant(&self);
        }
        InteractiveWidget { on_mouse_down_fn: Some(action), ..self }
    }

    pub fn on_mouse_drag(self, action: Action) -> (r: Self)
        ensures
            r@ == (WidgetModel { on_mouse_drag: Some(action), ..self@ }),
    {
        proof {
            use_type_invariant(&self);
        }
        InteractiveWidget { on_mouse_drag_fn: Some(action), ..self }
    }

    pub fn on_mouse_scroll_up(self, action: Action) -> (r: Self)
        ensures
            r@ == (WidgetModel { on_mouse_scroll_up: Some(action), ..self@ }),
    {
        proof {
            use_type_invariant(&self);
        }
        InteractiveWidget { on_mouse_scroll_up_fn: Some(action), ..self }
    }

    pub fn on_mouse_scroll_down(self, action: Action) -> (r: Self)
        ensures
            r@ == (WidgetModel { on_mouse_scroll_down: Some(action), ..self@ }),
    {
        proof {
            use_type_invariant(&self);
        }
        InteractiveWidget { on_mouse_scroll_down_fn: Some(action), ..self }
    }

    pub fn on_paste(self, action: Action) -> (r: Self)
        ensures
            r@ == (WidgetModel { on_paste: Some(action), ..self@ }),
    {
        proof {
            use_type_invariant(&self);
        }
        InteractiveWidget { on_paste_fn: Some(action), ..self }
    }

    /// Binds `key` to `action`, replacing an earlier binding of that key;
    /// the key map never binds a key twice.
    pub fn on_key_down(self, key: Key, action: Action) -> (r: Self)
        ensures
            r@ == (WidgetModel { on_key_down: bind_key(self@.on_key_down, key, action), ..self@ }),
            keys_unique(r@.on_key_down),
            key_action(r@.on_key_down, key) == Some(action),
            forall|k: Key| k != key ==> key_action(r@.on_key_down, k) == key_action(self@.on_key_down, k),
    {
        proof {
            use_type_invariant(&self);
        }
        let ghost before = self@.on_key_down;
        let InteractiveWidget {
            area,
            state,
            on_mouse_down_fn,
            on_mouse_drag_fn,
            on_mouse_scroll_up_fn,
            on_mouse_scroll_down_fn,
            on_paste_fn,
            on_key_down_fns,
        } = self;
        let mut keys = on_key_down_fns;
        let mut i: usize = 0;
        while i < keys.len() && keys[i].0 != key
            invariant
                keys@ == before,
                i <= keys@.len(),
                forall|j: int| 0 <= j < i ==> #[trigger] keys@[j].0 != key,
            decreases keys@.len() - i,
        {
            i = i + 1;
        }
        if i < keys.len() {
            keys[i] = (key, action);
            proof {
                assert(has_key(before, key));
                assert(keys@ =~= bind_key(before, key, action));
            }
        } else {
            keys.push((key, action));
            proof {
                assert(!has_key(before, key));
            }
        }
        proof {
            let after = keys@;
            assert(keys_unique(after));
            lemma_key_action_unique(after, key);
            if i < before.len() {
                assert(after[i as int].0 == key);
            } else {
                assert(after[before.len() as int].0 == key);
            }
            assert forall|k: Key| k != key implies key_action(after, k) == key_action(before, k) by {
                lemma_key_action_unique(after, k);
                lemma_key_action_unique(before, k);
                if has_key(before, k) {
                    let j = choose|j: int| 0 <= j < before.len() && #[trigger] before[j].0 == k;
                    assert(after[j] == before[j]);
                } else {
                    assert(!has_key(after, k)) by {
                        if has_key(after, k) {
                            let j = choose|j: int| 0 <= j < after.len() && #[trigger] after[j].0 == k;
                            assert(before[j].0 == k);
                        }
                    }
                }
            }
        }
        InteractiveWidget {
            area,
            state,
            on_mouse_down_fn,
            on_mouse_drag_fn,
            on_mouse_scroll_up_fn,
            on_mouse_scroll_down_fn,
            on_paste_fn,
            on_key_down_fns: keys,
        }
    }

    pub fn area(&self) -> (r: Area)
        ensures
            r == self@.area,
    {
        self.area
    }

    /// Records the bounds the surface was last drawn at.
    pub fn set_area(&mut self, new_area: Area)
        ensures
            final(self)@ == (WidgetModel { area: new_area, ..old(self)@ }),
    {
        proof {
            use_type_invariant(&*self);
        }
        self.area = new_area;
    }

    pub fn state(&self) -> (r: InteractionState)
        ensures
            r == self@.state,
    {
        self.state
    }

    pub fn set_state(&mut self, new_state: InteractionState)
        ensures
            final(self)@ == (WidgetModel { state: new_state, ..old(self)@ }),
    {
        proof {
            use_type_invariant(&*self);
        }
        self.state = new_state;
    }

    /// Applies a hit-tested pointer event to the surface's state machine and
    /// returns the action of the handler it runs, if any.
    pub fn handle_mouse_event(&mut self, event_type: MouseEventType) -> (r: Option<Action>)
        ensures
            final(self)@ == after_mouse(old(self)@, event_type),
            r == mouse_handler(old(self)@, event_type),
    {
        proof {
            use_type_invariant(&*self);
        }
        match event_type {
            MouseEventType::Over => {
                self.state = InteractionState::Hovered;
                None
            },
            MouseEventType::Out => {
                self.state = InteractionState::Default;
                None
            },
            MouseEventType::Down => {
                self.state = InteractionState::Pressed;
                self.on_mouse_down_fn
            },
            MouseEventType::Drag => {
                self.state = InteractionState::Pressed;
                self.on_mouse_drag_fn
            },
            MouseEventType::ScrollUp => self.on_mouse_scroll_up_fn,
            MouseEventType::ScrollDown => self.on_mouse_scroll_down_fn,
        }
    }

    /// The action bound to `key` on this surface, if any.
    pub fn handle_key_event(&self, key: Key) -> (r: Option<Action>)
        ensures
            r == key_action(self@.on_key_down, key),
    {
        let mut i = self.on_key_down_fns.len();
        assert(self@.on_key_down.subrange(0, i as int) == self@.on_key_down);
        while i > 0
            invariant
                i <= self.on_key_down_fns@.len(),
                key_action(self@.on_key_down, key) == key_action(self@.on_key_down.subrange(0, i as int), key),
            decreases i,
        {
            let entry = self.on_key_down_fns[i - 1];
            proof {
                let part = self@.on_key_down.subrange(0, i as int);
                assert(part.last() == entry);
                assert(part.drop_last() == self@.on_key_down.subrange(0, i - 1));
            }
            if entry.0 == key {
                return Some(entry.1);
            }
            i = i - 1;
        }
        None
    }

    /// The action the surface runs on pasted text, if it takes pastes.
    pub fn handle_paste_event(&self) -> (r: Option<Action>)
        ensures
            r == self@.on_paste,
    {
        self.on_paste_fn
    }
}

} // verus!
