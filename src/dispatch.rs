use vstd::prelude::*;

use crate::controls::Action;
use crate::geometry::{Area, Point};
use crate::state::{AppModel, AppState};
use crate::surface::{
    after_mouse, key_action, mouse_handler, InteractionState, InteractiveWidget, Key,
    MouseEventType, WidgetModel,
};

verus! {

#[derive(Clone, Copy, PartialEq, Eq, Structural, Debug)]
pub enum MouseButton {
    Left,
    Right,
    Middle,
}

/// What the pointer did.
#[derive(Clone, Copy, PartialEq, Eq, Structural, Debug)]
pub enum MouseEventKind {
    Down(MouseButton),
    Up(MouseButton),
    Drag(MouseButton),
    Moved,
    ScrollDown,
    ScrollUp,
    ScrollLeft,
    ScrollRight,
}

/// A raw pointer event at an absolute screen cell.
#[derive(Clone, Copy, PartialEq, Eq, Structural, Debug)]
pub struct MouseEvent {
    pub kind: MouseEventKind,
    pub column: u16,
    pub row: u16,
}

/// One raw input event, as the terminal reports it.
#[derive(Clone, Debug)]
pub enum InputEvent {
    Key(Key),
    Mouse(MouseEvent),
    Paste(String),
}

/// The input that made a handler fire.
#[derive(Clone, Debug)]
pub enum Trigger {
    /// A pointer event, at coordinates local to the surface.
    Pointer(Point),
    Key(Key),
    Paste(String),
}

/// A handler that fired: which surface, its action, the surface's bounds at
/// that moment, and the input that fired it.
#[derive(Clone, Debug)]
pub struct Invocation {
    pub surface: usize,
    pub action: Action,
    pub area: Area,
    pub trigger: Trigger,
}

/// The key that quits the application.
pub open spec fn is_quit_key(key: Key) -> bool {
    key == Key::Esc
}

/// The absolute cell of a pointer event.
pub open spec fn position_of(e: MouseEvent) -> Point {
    Point { x: e.column, y: e.row }
}

/// How a pointer event over a surface reads to that surface: primary press
/// and drag, the wheel, and release or bare motion (hover); other buttons
/// and sideways scrolling mean nothing.
pub open spec fn kind_type(kind: MouseEventKind) -> Option<MouseEventType> {
    match kind {
        MouseEventKind::Down(MouseButton::Left) => Some(MouseEventType::Down),
        MouseEventKind::Drag(MouseButton::Left) => Some(MouseEventType::Drag),
        MouseEventKind::ScrollDown => Some(MouseEventType::ScrollDown),
        MouseEventKind::ScrollUp => Some(MouseEventType::ScrollUp),
        MouseEventKind::Up(_) | MouseEventKind::Moved => Some(MouseEventType::Over),
        _ => None,
    }
}

/// How a pointer event reads to surface `w`: outside its bounds it is always
/// `Out`, whatever the pointer did.
pub open spec fn pointer_type(w: WidgetModel, e: MouseEvent) -> Option<MouseEventType> {
    if !w.area.contains_spec(position_of(e)) {
        Some(MouseEventType::Out)
    } else {
        kind_type(e.kind)
    }
}

/// Surface `w` after the pointer event `e`.
pub open spec fn after_pointer(w: WidgetModel, e: MouseEvent) -> WidgetModel {
    match pointer_type(w, e) {
        Some(t) => after_mouse(w, t),
        None => w,
    }
}

/// The handler, if any, that the pointer event `e` fires on surface `w`
/// (number `i`), as a sequence of at most one invocation.
pub open spec fn pointer_invocation(i: int, w: WidgetModel, e: MouseEvent) -> Seq<Invocation> {
    match pointer_type(w, e) {
        Some(t) => match mouse_handler(w, t) {
            Some(a) => seq![
                Invocation {
                    surface: i as usize,
                    action: a,
                    area: w.area,
                    trigger: Trigger::Pointer(w.area.relative_spec(position_of(e))),
                },
            ],
            None => Seq::empty(),
        },
        None => Seq::empty(),
    }
}

/// The handlers that the pointer event `e` fires, in surface order.
pub open spec fn pointer_invocations(ws: Seq<WidgetModel>, e: MouseEvent) -> Seq<Invocation>
    decreases ws.len(),
{
    if ws.len() == 0 {
        Seq::empty()
    } else {
        pointer_invocations(ws.drop_last(), e) + pointer_invocation(ws.len() - 1, ws.last(), e)
    }
}

/// The key handlers that `key` fires, in surface order.
pub open spec fn key_invocations(ws: Seq<WidgetModel>, key: Key) -> Seq<Invocation>
    decreases ws.len(),
{
    if ws.len() == 0 {
        Seq::empty()
    } else {
        let w = ws.last();
        let tail = match key_action(w.on_key_down, key) {
            Some(a) => seq![
                Invocation {
                    surface: (ws.len() - 1) as usize,
                    action: a,
                    area: w.area,
                    trigger: Trigger::Key(key),
                },
            ],
            None => Seq::empty(),
        };
        key_invocations(ws.drop_last(), key) + tail
    }
}

/// The paste handlers that pasted `text` fires: that of every surface that
/// has one, in surface order.
pub open spec fn paste_invocations(ws: Seq<WidgetModel>, text: String) -> Seq<Invocation>
    decreases ws.len(),
{
    if ws.len() == 0 {
        Seq::empty()
    } else {
        let w = ws.last();
        let tail = match w.on_paste {
            Some(a) => seq![
                Invocation {
                    surface: (ws.len() - 1) as usize,
                    action: a,
                    area: w.area,
                    trigger: Trigger::Paste(text),
                },
            ],
            None => Seq::empty(),
        };
        paste_invocations(ws.drop_last(), text) + tail
    }
}

/// No screen cell lies inside two of the surfaces.
pub open spec fn non_overlapping(ws: Seq<WidgetModel>) -> bool {
    forall|i: int, j: int, p: Point|
        0 <= i < ws.len() && 0 <= j < ws.len() && i != j && #[trigger] ws[i].area.contains_spec(p)
            ==> !#[trigger] ws[j].area.contains_spec(p)
}

/// Under a layout whose surfaces do not overlap, after any pointer event at
/// most one surface is hovered or pressed: every surface other than an
/// active one is in the default state.
pub proof fn lemma_one_active_surface(ws: Seq<WidgetModel>, e: MouseEvent)
    requires
        non_overlapping(ws),
    ensures
        forall|i: int, j: int|
            0 <= i < ws.len() && 0 <= j < ws.len() && i != j
                && #[trigger] after_pointer(ws[i], e).state != InteractionState::Default
                ==> #[trigger] after_pointer(ws[j], e).state == InteractionState::Default,
{
    assert forall|i: int, j: int|
        0 <= i < ws.len() && 0 <= j < ws.len() && i != j
            && #[trigger] after_pointer(ws[i], e).state != InteractionState::Default
        implies #[trigger] after_pointer(ws[j], e).state == InteractionState::Default by {
        let p = position_of(e);
        assert(ws[i].area.contains_spec(p));
        assert(!ws[j].area.contains_spec(p));
    }
}

/// Pasted text reaches every surface that takes pastes, wherever the
/// pointer is: surface `i` with a paste action gets an invocation of that
/// action carrying exactly the pasted text.
pub proof fn lemma_paste_reaches_every_taker(ws: Seq<WidgetModel>, text: String, i: int)
    requires
        0 <= i < ws.len(),
        ws[i].on_paste is Some,
    ensures
        exists|k: int|
            0 <= k < paste_invocations(ws, text).len() && #[trigger] paste_invocations(ws, text)[k] == (
            Invocation {
                surface: i as usize,
                action: ws[i].on_paste->0,
                area: ws[i].area,
                trigger: Trigger::Paste(text),
            }),
    decreases ws.len(),
{
    let all = paste_invocations(ws, text);
    let front = paste_invocations(ws.drop_last(), text);
    let target = Invocation {
        surface: i as usize,
        action: ws[i].on_paste->0,
        area: ws[i].area,
        trigger: Trigger::Paste(text),
    };
    if i == ws.len() - 1 {
        assert(all[front.len() as int] == target);
    } else {
        assert(ws.drop_last()[i] == ws[i]);
        lemma_paste_reaches_every_taker(ws.drop_last(), text, i);
        let k = choose|k: int| 0 <= k < front.len() && #[trigger] front[k] == target;
        assert(all[k] == front[k]);
    }
}

/// Routes raw input to the registered surfaces.
pub struct EventHandler {
    components: Vec<InteractiveWidget>,
}

impl View for EventHandler {
    type V = Seq<WidgetModel>;

    closed spec fn view(&self) -> Seq<WidgetModel> {
        self.components@.map_values(|w: InteractiveWidget| w@)
    }
}

fn pointer_event_type(kind: MouseEventKind) -> (r: Option<MouseEventType>)
    ensures
        r == kind_type(kind),
{
    match kind {
        MouseEventKind::Down(MouseButton::Left) => Some(MouseEventType::Down),
        MouseEventKind::Drag(MouseButton::Left) => Some(MouseEventType::Drag),
        MouseEventKind::ScrollDown => Some(MouseEventType::ScrollDown),
        MouseEventKind::ScrollUp => Some(MouseEventType::ScrollUp),
        MouseEventKind::Up(_) | MouseEventKind::Moved => Some(MouseEventType::Over),
        _ => None,
    }
}

impl EventHandler {
    pub fn new() -> (r: Self)
        ensures
            r@ == Seq::<WidgetModel>::empty(),
    {
        let r = EventHandler { components: Vec::new() };
        assert(r@ =~= Seq::<WidgetModel>::empty());
        r
    }

    /// Adds a surface; the number returned names it from then on.
    pub fn register_component(&mut self, component: InteractiveWidget) -> (id: usize)
        requires
            old(self)@.len() < usize::MAX,
        ensures
            final(self)@ == old(self)@.push(component@),
            id == old(self)@.len(),
    {
        let id = self.components.len();
        let ghost model = component@;
        self.components.push(component);
        assert(self@ =~= old(self)@.push(model));
        id
    }

    pub fn component_count(&self) -> (r: usize)
        ensures
            r == self@.len(),
    {
        self.components.len()
    }

    pub fn area(&self, id: usize) -> (r: Area)
        requires
            id < self@.len(),
        ensures
            r == self@[id as int].area,
    {
        self.components[id].area()
    }

    pub fn state(&self, id: usize) -> (r: InteractionState)
        requires
            id < self@.len(),
        ensures
            r == self@[id as int].state,
    {
        self.components[id].state()
    }

    /// Records the bounds surface `id` was last drawn at.
    pub fn set_area(&mut self, id: usize, area: Area)
        requires
            id < old(self)@.len(),
        ensures
            final(self)@ == old(self)@.update(id as int, WidgetModel { area, ..old(self)@[id as int] }),
    {
        self.components[id].set_area(area);
        assert(self@ =~= old(self)@.update(id as int, WidgetModel { area, ..old(self)@[id as int] }));
    }

    /// A key press: the quit key sets the exit flag and goes no further;
    /// any other key fires the matching key handler of every surface.
    pub fn handle_key_event(&self, state: &mut AppState, key: Key) -> (r: Vec<Invocation>)
        ensures
            is_quit_key(key) ==> final(state)@ == (AppModel { exit: true, ..old(state)@ }) && r@.len() == 0,
            !is_quit_key(key) ==> final(state)@ == old(state)@ && r@ == key_invocations(self@, key),
    {
        let mut out: Vec<Invocation> = Vec::new();
        if key == Key::Esc {
            state.set_exit(true);
            return out;
        }
        let n = self.components.len();
        let mut i: usize = 0;
        while i < n
            invariant
                n == self@.len(),
                i <= n,
                out@ == key_invocations(self@.subrange(0, i as int), key),
            decreases n - i,
        {
            let w = &self.components[i];
            let fired = w.handle_key_event(key);
            proof {
                let next = self@.subrange(0, i + 1);
                assert(next.drop_last() == self@.subrange(0, i as int));
            }
            match fired {
                Some(action) => {
                    out.push(Invocation { surface: i, action, area: w.area(), trigger: Trigger::Key(key) });
                },
                None => {},
            }
            i = i + 1;
        }
        assert(self@.subrange(0, n as int) == self@);
        out
    }

    /// A pointer event: every surface not under the pointer is reset to
    /// `Default`; the one under it (if any) takes the event in its own
    /// coordinates. Returns the handlers that fired.
    pub fn handle_mouse_event(&mut self, event: MouseEvent) -> (r: Vec<Invocation>)
        ensures
            final(self)@.len() == old(self)@.len(),
            forall|j: int|
                0 <= j < old(self)@.len() ==> final(self)@[j] == after_pointer(old(self)@[j], event),
            r@ == pointer_invocations(old(self)@, event),
    {
        let ghost start = self@;
        let position = Point { x: event.column, y: event.row };
        let mut out: Vec<Invocation> = Vec::new();
        let n = self.components.len();
        let mut i: usize = 0;
        while i < n
            invariant
                n == start.len(),
                n == self.components@.len(),
                i <= n,
                position == position_of(event),
                forall|j: int| 0 <= j < i ==> self.components@[j]@ == after_pointer(start[j], event),
                forall|j: int| i <= j < n ==> self.components@[j]@ == start[j],
                out@ == pointer_invocations(start.subrange(0, i as int), event),
            decreases n - i,
        {
            let area = self.components[i].area();
            let kind = if !area.contains(position) {
                Some(MouseEventType::Out)
            } else {
                pointer_event_type(event.kind)
            };
            proof {
                let next = start.subrange(0, i + 1);
                assert(next.drop_last() == start.subrange(0, i as int));
            }
            match kind {
                Some(t) => {
                    let fired = self.components[i].handle_mouse_event(t);
                    match fired {
                        Some(action) => {
                            let local = area.relative(position);
                            out.push(Invocation { surface: i, action, area, trigger: Trigger::Pointer(local) });
                        },
                        None => {},
                    }
                },
                None => {},
            }
            i = i + 1;
        }
        assert(start.subrange(0, n as int) == start);
        assert(self@.len() == n);
        out
    }

    /// Pasted text goes to every surface that takes pastes, wherever the
    /// pointer is.
    pub fn handle_paste_event(&self, text: &String) -> (r: Vec<Invocation>)
        ensures
            r@ == paste_invocations(self@, *text),
    {
        let mut out: Vec<Invocation> = Vec::new();
        let n = self.components.len();
        let mut i: usize = 0;
        while i < n
            invariant
                n == self@.len(),
                i <= n,
                out@ == paste_invocations(self@.subrange(0, i as int), *text),
            decreases n - i,
        {
            let w = &self.components[i];
            let fired = w.handle_paste_event();
            proof {
                let next = self@.subrange(0, i + 1);
                assert(next.drop_last() == self@.subrange(0, i as int));
            }
            match fired {
                Some(action) => {
                    out.push(Invocation { surface: i, action, area: w.area(), trigger: Trigger::Paste(text.clone()) });
                },
                None => {},
            }
            i = i + 1;
        }
        assert(self@.subrange(0, n as int) == self@);
        out
    }

    /// Classifies one raw input event and routes it: keys as by
    /// [`Self::handle_key_event`], pointer events as by
    /// [`Self::handle_mouse_event`], pastes as by
    /// [`Self::handle_paste_event`]. Returns the handlers that fired.
    pub fn handle_event(&mut self, state: &mut AppState, event: &InputEvent) -> (r: Vec<Invocation>)
        ensures
            match *event {
                InputEvent::Key(key) => {
                    &&& final(self)@ == old(self)@
                    &&& is_quit_key(key) ==> final(state)@ == (AppModel { exit: true, ..old(state)@ }) && r@.len() == 0
                    &&& !is_quit_key(key) ==> final(state)@ == old(state)@ && r@ == key_invocations(old(self)@, key)
                },
                InputEvent::Mouse(e) => {
                    &&& final(state)@ == old(state)@
                    &&& final(self)@.len() == old(self)@.len()
                    &&& forall|j: int|
                        0 <= j < old(self)@.len() ==> final(self)@[j] == after_pointer(old(self)@[j], e)
                    &&& r@ == pointer_invocations(old(self)@, e)
                },
                InputEvent::Paste(text) => {
                    &&& final(self)@ == old(self)@
                    &&& final(state)@ == old(state)@
                    &&& r@ == paste_invocations(old(self)@, text)
                },
            },
    {
        match event {
            InputEvent::Key(key) => self.handle_key_event(state, *key),
            InputEvent::Mouse(e) => self.handle_mouse_event(*e),
            InputEvent::Paste(text) => self.handle_paste_event(text),
        }
    }
}

} // verus!
