//! The registry of live windows and the translation of platform events into
//! notifications for the window they target.
//!
//! The registry is never changed structurally while notifications are being
//! delivered: windows spawned by a handler wait in a `PendingCreates` list,
//! destroy requests wait in a `DestroyQueue`, and both are applied by
//! `Registry::drain` at the end of each loop iteration.
use vstd::prelude::*;

use crate::geometry::{Extent, Point};
use crate::input::{key_for, translate_key, ButtonState, MouseButton, VirtualKeyCode};
use crate::window::{no_duplicates, DestroyQueue, WindowId};

verus! {

/// The raw payload of a keyboard event, as the platform reports it. Two
/// key-downs with equal payloads are a key repeat.
#[derive(Clone, Copy, Debug, PartialEq, Eq, Hash, Structural)]
pub struct KeyInput {
    /// Hardware-dependent scan code of the key.
    pub scancode: u32,
    /// Whether the key went down (`true`) or up (`false`).
    pub pressed: bool,
    /// Raw platform key code, when the platform can name the key.
    pub key_code: Option<u32>,
    /// Modifier keys held, as the platform's bit set.
    pub modifiers: u32,
}

/// The key-repeat tracker of a window: the last key-down and how many times
/// it has been repeated since it was first pressed.
#[derive(Clone, Copy, Debug, PartialEq, Eq, Hash, Structural)]
pub struct KeyRepeat {
    pub input: KeyInput,
    pub count: u16,
}

/// A registry entry: a live window, its application state and the input
/// state that the registry tracks for it.
pub struct WindowState<H> {
    pub id: WindowId,
    pub handler: H,
    /// Last size reported for the window.
    pub extent: Extent,
    /// Last cursor position reported within the window.
    pub cursor_position: Point,
    pub repeated_key: Option<KeyRepeat>,
}

impl<H> WindowState<H> {
    /// The entry for a freshly built window: cursor at the origin, no key
    /// held.
    pub fn new(id: WindowId, handler: H, extent: Extent) -> (r: WindowState<H>)
        ensures
            r == (WindowState {
                id,
                handler,
                extent,
                cursor_position: Point { x: 0, y: 0 },
                repeated_key: None,
            }),
    {
        WindowState { id, handler, extent, cursor_position: Point::zero(), repeated_key: None }
    }
}

/// An event that the platform reports for one window.
#[derive(Clone, Copy, Debug, PartialEq, Eq, Hash, Structural)]
pub enum WindowEvent {
    Resized(Extent),
    CloseRequested,
    CursorMoved(Point),
    MouseInput(MouseButton, ButtonState),
    KeyboardInput(KeyInput),
    /// The scale factor changed; the new size of the window is carried, the
    /// factor itself goes to the handler directly.
    ScaleFactorChanged(Extent),
    Other,
}

/// An event of the platform's event loop.
#[derive(Clone, Copy, Debug, PartialEq, Eq, Hash, Structural)]
pub enum Event {
    Window(WindowId, WindowEvent),
    /// No platform event is pending.
    Idle,
    RedrawRequested(WindowId),
    Other,
}

/// A call to make on a window's handler.
#[derive(Clone, Copy, Debug, PartialEq, Eq, Hash, Structural)]
pub enum Notification {
    Resize(Extent),
    CloseRequest,
    CursorMove(Point),
    MouseButton(MouseButton, ButtonState, Point),
    Key(VirtualKeyCode, ButtonState),
    Rescale(Extent),
    Idle,
    Redraw,
}

/// A desynchronization between the registry and the platform. None of these
/// can be repaired in place.
#[derive(Clone, Copy, Debug, PartialEq, Eq, Hash, Structural)]
pub enum ShellError {
    /// The platform asked to redraw a window that is not registered.
    UnknownWindow(WindowId),
    /// A window was destroyed that is no longer registered.
    DestroyedTwice(WindowId),
    /// A window was created with the id of a live window.
    DuplicateWindow(WindowId),
}

/// The ids of `ws`, in order.
pub open spec fn ids<H>(ws: Seq<WindowState<H>>) -> Seq<WindowId> {
    ws.map_values(|w: WindowState<H>| w.id)
}

/// The position of the window `id` in `ws`, which holds it.
pub open spec fn index_of<H>(ws: Seq<WindowState<H>>, id: WindowId) -> int {
    choose|i: int| 0 <= i < ws.len() && ws[i].id == id
}

/// The repeat count that follows `c`; it stays at the largest count.
pub open spec fn next_repeat_count(c: u16) -> u16 {
    if c < u16::MAX {
        (c + 1) as u16
    } else {
        c
    }
}

/// The tracker and the notification after key event `input`, for symbolic
/// key `key`. A key-down equal to the tracked one is a repeat; any other
/// key-down starts a fresh tracker at zero; a key-up clears it.
pub open spec fn key_step(tracker: Option<KeyRepeat>, input: KeyInput, key: VirtualKeyCode) -> (
    Option<KeyRepeat>,
    Notification,
) {
    if input.pressed {
        match tracker {
            Some(t) if t.input == input => {
                let n = next_repeat_count(t.count);
                (Some(KeyRepeat { input, count: n }), Notification::Key(key, ButtonState::Repeated(n)))
            },
            _ => (Some(KeyRepeat { input, count: 0 }), Notification::Key(key, ButtonState::Pressed)),
        }
    } else {
        (None, Notification::Key(key, ButtonState::Released))
    }
}

/// The entry and the notification, if any, after event `e` reaches window `s`.
/// A keyboard event without a raw key code, or whose code has no symbolic
/// name, is dropped and leaves the entry as it was.
pub open spec fn apply_event<H>(s: WindowState<H>, e: WindowEvent) -> (
    WindowState<H>,
    Option<Notification>,
) {
    match e {
        WindowEvent::Resized(x) => {
            if x != s.extent {
                (WindowState { extent: x, ..s }, Some(Notification::Resize(x)))
            } else {
                (s, None)
            }
        },
        WindowEvent::CloseRequested => (s, Some(Notification::CloseRequest)),
        WindowEvent::CursorMoved(p) => (
            WindowState { cursor_position: p, ..s },
            Some(Notification::CursorMove(p)),
        ),
        WindowEvent::MouseInput(b, st) => (
            s,
            Some(Notification::MouseButton(b, st, s.cursor_position)),
        ),
        WindowEvent::KeyboardInput(k) => match k.key_code {
            None => (s, None),
            Some(code) => {
                if key_for(code) == VirtualKeyCode::Invalid {
                    (s, None)
                } else {
                    let (t, n) = key_step(s.repeated_key, k, key_for(code));
                    (WindowState { repeated_key: t, ..s }, Some(n))
                }
            },
        },
        WindowEvent::ScaleFactorChanged(x) => (s, Some(Notification::Rescale(x))),
        WindowEvent::Other => (s, None),
    }
}

/// The notifications for `n` on window `id`: none or one.
pub open spec fn deliveries(id: WindowId, n: Option<Notification>) -> Seq<(WindowId, Notification)> {
    match n {
        Some(n) => seq![(id, n)],
        None => Seq::empty(),
    }
}

/// The registry after event `e`, and what `Registry::dispatch` returns.
pub open spec fn dispatch_spec<H>(ws: Seq<WindowState<H>>, e: Event) -> (
    Seq<WindowState<H>>,
    Result<Seq<(WindowId, Notification)>, ShellError>,
) {
    match e {
        Event::Window(id, we) => {
            if ids(ws).contains(id) {
                let i = index_of(ws, id);
                let (s, n) = apply_event(ws[i], we);
                (ws.update(i, s), Ok(deliveries(id, n)))
            } else {
                (ws, Ok(Seq::empty()))
            }
        },
        Event::Idle => (ws, Ok(ids(ws).map_values(|id: WindowId| (id, Notification::Idle)))),
        Event::RedrawRequested(id) => {
            if ids(ws).contains(id) {
                (ws, Ok(seq![(id, Notification::Redraw)]))
            } else {
                (ws, Err(ShellError::UnknownWindow(id)))
            }
        },
        Event::Other => (ws, Ok(Seq::empty())),
    }
}

/// The tracker and the notification after key event `input` for symbolic
/// key `key`.
fn key_event(tracker: Option<KeyRepeat>, input: KeyInput, key: VirtualKeyCode) -> (r: (
    Option<KeyRepeat>,
    Notification,
))
    ensures
        r == key_step(tracker, input, key),
{
    if input.pressed {
        match tracker {
            Some(t) if t.input == input => {
                let n = t.count.saturating_add(1);
                (Some(KeyRepeat { input, count: n }), Notification::Key(key, ButtonState::Repeated(n)))
            },
            _ => (Some(KeyRepeat { input, count: 0 }), Notification::Key(key, ButtonState::Pressed)),
        }
    } else {
        (None, Notification::Key(key, ButtonState::Released))
    }
}

/// Applies event `e` to the entry of the window it targets.
fn apply<H>(state: &mut WindowState<H>, e: WindowEvent) -> (r: Option<Notification>)
    ensures
        (*final(state), r) == apply_event(*old(state), e),
{
    match e {
        WindowEvent::Resized(x) => {
            if x != state.extent {
                state.extent = x;
                Some(Notification::Resize(x))
            } else {
                None
            }
        },
        WindowEvent::CloseRequested => Some(Notification::CloseRequest),
        WindowEvent::CursorMoved(p) => {
            state.cursor_position = p;
            Some(Notification::CursorMove(p))
        },
        WindowEvent::MouseInput(b, st) => Some(
            Notification::MouseButton(b, st, state.cursor_position),
        ),
        WindowEvent::KeyboardInput(k) => match k.key_code {
            None => None,
            Some(code) => {
                let key = translate_key(code);
                if key == VirtualKeyCode::Invalid {
                    None
                } else {
                    let (t, n) = key_event(state.repeated_key, k, key);
                    state.repeated_key = t;
                    Some(n)
                }
            },
        },
        WindowEvent::ScaleFactorChanged(x) => Some(Notification::Rescale(x)),
        WindowEvent::Other => None,
    }
}

/// Pending window `i` takes an id already registered or already pending
/// before it.
pub open spec fn clashes<H>(ws: Seq<WindowState<H>>, pending: Seq<WindowState<H>>, i: int) -> bool {
    ids(ws).contains(pending[i].id) || ids(pending.take(i)).contains(pending[i].id)
}

/// Every pending window has an id of its own.
pub open spec fn all_fresh<H>(ws: Seq<WindowState<H>>, pending: Seq<WindowState<H>>) -> bool {
    forall|i: int| 0 <= i < pending.len() ==> !clashes(ws, pending, i)
}

/// Window `id` is registered or pending.
pub open spec fn known<H>(ws: Seq<WindowState<H>>, pending: Seq<WindowState<H>>, id: WindowId) -> bool {
    ids(ws).contains(id) || ids(pending).contains(id)
}

/// Every queued id names a registered or a pending window.
pub open spec fn all_live<H>(
    ws: Seq<WindowState<H>>,
    pending: Seq<WindowState<H>>,
    queue: Seq<WindowId>,
) -> bool {
    forall|k: int| 0 <= k < queue.len() ==> known(ws, pending, queue[k])
}

/// `e` is the error that a drain of `pending` and `queue` into `ws` reports:
/// the first pending window whose id is taken, or else the first queued id
/// that names no window.
pub open spec fn drain_error<H>(
    ws: Seq<WindowState<H>>,
    pending: Seq<WindowState<H>>,
    queue: Seq<WindowId>,
    e: ShellError,
) -> bool {
    match e {
        ShellError::DuplicateWindow(id) => exists|i: int|
            0 <= i < pending.len() && clashes(ws, pending, i) && (forall|j: int|
                0 <= j < i ==> !clashes(ws, pending, j)) && id == pending[i].id,
        ShellError::DestroyedTwice(id) => all_fresh(ws, pending) && exists|k: int|
            0 <= k < queue.len() && !known(ws, pending, queue[k]) && (forall|j: int|
                0 <= j < k ==> known(ws, pending, queue[j])) && id == queue[k],
        ShellError::UnknownWindow(_) => false,
    }
}

/// Registering fresh pending windows after `ws` keeps ids unique and adds
/// exactly their ids.
proof fn lemma_append_fresh<H>(ws: Seq<WindowState<H>>, pending: Seq<WindowState<H>>)
    requires
        no_duplicates(ids(ws)),
        all_fresh(ws, pending),
    ensures
        no_duplicates(ids(ws + pending)),
        forall|x: WindowId| #[trigger] ids(ws + pending).contains(x) <==> known(ws, pending, x),
{
    let all = ws + pending;
    assert forall|a: int, b: int| 0 <= a < b < all.len() implies ids(all)[a] != ids(all)[b] by {
        if b >= ws.len() {
            let i = b - ws.len();
            assert(!clashes(ws, pending, i));
            if a < ws.len() {
                assert(ids(ws)[a] == all[a].id);
            } else {
                assert(ids(pending.take(i))[a - ws.len()] == all[a].id);
            }
        } else {
            assert(ids(ws)[a] != ids(ws)[b]);
        }
    }
    assert forall|x: WindowId| #[trigger] ids(all).contains(x) <==> known(ws, pending, x) by {
        if ids(all).contains(x) {
            let i = choose|i: int| 0 <= i < ids(all).len() && ids(all)[i] == x;
            if i < ws.len() {
                assert(ids(ws)[i] == x);
            } else {
                assert(ids(pending)[i - ws.len()] == x);
            }
        }
        if ids(ws).contains(x) {
            let i = choose|i: int| 0 <= i < ids(ws).len() && ids(ws)[i] == x;
            assert(ids(all)[i] == x);
        }
        if ids(pending).contains(x) {
            let i = choose|i: int| 0 <= i < ids(pending).len() && ids(pending)[i] == x;
            assert(ids(all)[ws.len() + i] == x);
        }
    }
}

/// Removing the entry at `i` from a sequence without duplicate ids removes
/// exactly its id and keeps the other entries.
proof fn lemma_remove_unique<H>(ws: Seq<WindowState<H>>, i: int)
    requires
        no_duplicates(ids(ws)),
        0 <= i < ws.len(),
    ensures
        no_duplicates(ids(ws.remove(i))),
        forall|x: WindowId| #[trigger]
            ids(ws.remove(i)).contains(x) <==> (ids(ws).contains(x) && x != ws[i].id),
        forall|w: WindowState<H>| #[trigger] ws.remove(i).contains(w) ==> ws.contains(w),
{
    let r = ws.remove(i);
    assert forall|a: int, b: int| 0 <= a < b < r.len() implies ids(r)[a] != ids(r)[b] by {
        let a2 = if a < i { a } else { a + 1 };
        let b2 = if b < i { b } else { b + 1 };
        assert(r[a] == ws[a2]);
        assert(r[b] == ws[b2]);
        assert(ids(ws)[a2] != ids(ws)[b2]);
    }
    assert forall|x: WindowId| #[trigger]
        ids(r).contains(x) <==> (ids(ws).contains(x) && x != ws[i].id) by {
        if ids(r).contains(x) {
            let a = choose|a: int| 0 <= a < ids(r).len() && ids(r)[a] == x;
            let a2 = if a < i { a } else { a + 1 };
            assert(r[a] == ws[a2]);
            assert(ids(ws)[a2] == x);
            assert(ids(ws)[a2] != ids(ws)[i]);
        }
        if ids(ws).contains(x) && x != ws[i].id {
            let b = choose|b: int| 0 <= b < ids(ws).len() && ids(ws)[b] == x;
            if b < i {
                assert(ids(r)[b] == x);
            } else {
                assert(r[b - 1] == ws[b]);
                assert(ids(r)[b - 1] == x);
            }
        }
    }
    assert forall|w: WindowState<H>| r.contains(w) implies ws.contains(w) by {
        let a = choose|a: int| 0 <= a < r.len() && r[a] == w;
        let a2 = if a < i { a } else { a + 1 };
        assert(r[a] == ws[a2]);
    }
}

/// Whether window `w` survives a drain of `queue`.
pub open spec fn survives<H>(queue: Seq<WindowId>) -> spec_fn(WindowState<H>) -> bool {
    |w: WindowState<H>| !queue.contains(w.id)
}

/// Appending a window with a new id keeps ids unique and adds its id.
proof fn lemma_push_fresh<H>(ws: Seq<WindowState<H>>, w: WindowState<H>)
    requires
        no_duplicates(ids(ws)),
        !ids(ws).contains(w.id),
    ensures
        no_duplicates(ids(ws.push(w))),
        forall|x: WindowId| #[trigger]
            ids(ws.push(w)).contains(x) <==> (ids(ws).contains(x) || x == w.id),
        forall|v: WindowState<H>| #[trigger] ws.push(w).contains(v) <==> (ws.contains(v) || v == w),
{
    let r = ws.push(w);
    assert forall|a: int, b: int| 0 <= a < b < r.len() implies ids(r)[a] != ids(r)[b] by {
        if b == ws.len() {
            assert(ids(ws)[a] == ids(r)[a]);
        } else {
            assert(ids(ws)[a] != ids(ws)[b]);
        }
    }
    assert forall|x: WindowId| #[trigger] ids(r).contains(x) <==> (ids(ws).contains(x) || x == w.id) by {
        if ids(r).contains(x) {
            let a = choose|a: int| 0 <= a < ids(r).len() && ids(r)[a] == x;
            if a < ws.len() {
                assert(ids(ws)[a] == x);
            }
        }
        if ids(ws).contains(x) {
            let a = choose|a: int| 0 <= a < ids(ws).len() && ids(ws)[a] == x;
            assert(ids(r)[a] == x);
        }
        if x == w.id {
            assert(ids(r)[ws.len() as int] == x);
        }
    }
    assert forall|v: WindowState<H>| #[trigger] r.contains(v) <==> (ws.contains(v) || v == w) by {
        if r.contains(v) {
            let a = choose|a: int| 0 <= a < r.len() && r[a] == v;
            if a < ws.len() {
                assert(ws[a] == v);
            }
        }
        if ws.contains(v) {
            let a = choose|a: int| 0 <= a < ws.len() && ws[a] == v;
            assert(r[a] == v);
        }
        if v == w {
            assert(r[ws.len() as int] == v);
        }
    }
}

/// One more entry of a sequence without duplicate ids: its id is new to the
/// prefix before it, and the prefix's ids grow by exactly that id.
proof fn lemma_prefix_step<H>(all: Seq<WindowState<H>>, i: int)
    requires
        no_duplicates(ids(all)),
        0 <= i < all.len(),
    ensures
        no_duplicates(ids(all.take(i))),
        !ids(all.take(i)).contains(all[i].id),
        all.contains(all[i]),
        forall|x: WindowId| #[trigger]
            ids(all.take(i + 1)).contains(x) <==> (ids(all.take(i)).contains(x) || x == all[i].id),
{
    let p = all.take(i);
    assert forall|a: int, b: int| 0 <= a < b < p.len() implies ids(p)[a] != ids(p)[b] by {
        assert(ids(all)[a] != ids(all)[b]);
    }
    if ids(p).contains(all[i].id) {
        let j = choose|j: int| 0 <= j < ids(p).len() && ids(p)[j] == all[i].id;
        assert(ids(all)[j] == ids(all)[i]);
    }
    assert(all.take(i + 1) =~= p.push(all[i]));
    lemma_push_fresh(p, all[i]);
}

/// The position of window `id` among `states`, if it is there.
fn position_of<H>(states: &Vec<WindowState<H>>, id: WindowId) -> (r: Option<usize>)
    ensures
        match r {
            Some(i) => i < states@.len() && states@[i as int].id == id,
            None => !ids(states@).contains(id),
        },
{
    let mut i: usize = 0;
    while i < states.len()
        invariant
            0 <= i <= states@.len(),
            forall|j: int| 0 <= j < i ==> states@[j].id != id,
        decreases states@.len() - i,
    {
        if states[i].id == id {
            return Some(i);
        }
        i = i + 1;
    }
    proof {
        if ids(states@).contains(id) {
            let j = choose|j: int| 0 <= j < ids(states@).len() && ids(states@)[j] == id;
            assert(states@[j].id == id);
        }
    }
    None
}

/// Whether one of the first `end` entries of `states` is window `id`.
fn holds_id<H>(states: &Vec<WindowState<H>>, end: usize, id: WindowId) -> (r: bool)
    requires
        end <= states@.len(),
    ensures
        r == ids(states@.take(end as int)).contains(id),
{
    let mut i: usize = 0;
    while i < end
        invariant
            0 <= i <= end <= states@.len(),
            forall|j: int| 0 <= j < i ==> states@[j].id != id,
        decreases end - i,
    {
        if states[i].id == id {
            assert(ids(states@.take(end as int))[i as int] == id);
            return true;
        }
        i = i + 1;
    }
    proof {
        if ids(states@.take(end as int)).contains(id) {
            let j = choose|j: int|
                0 <= j < ids(states@.take(end as int)).len() && ids(states@.take(end as int))[j] == id;
            assert(states@[j].id == id);
        }
    }
    false
}

/// Windows created during the current loop iteration, in creation order,
/// not yet registered.
pub struct PendingCreates<H> {
    states: Vec<WindowState<H>>,
}

impl<H> View for PendingCreates<H> {
    type V = Seq<WindowState<H>>;

    closed spec fn view(&self) -> Seq<WindowState<H>> {
        self.states@
    }
}

impl<H> PendingCreates<H> {
    pub fn new() -> (r: PendingCreates<H>)
        ensures
            r@ == Seq::<WindowState<H>>::empty(),
    {
        PendingCreates { states: Vec::new() }
    }

    /// Queues a built window for registration at the next drain.
    pub fn push(&mut self, state: WindowState<H>)
        ensures
            final(self)@ == old(self)@.push(state),
    {
        self.states.push(state);
    }

    pub fn len(&self) -> (r: usize)
        ensures
            r == self@.len(),
    {
        self.states.len()
    }
}

/// The live windows, each once, in the order in which they were registered.
pub struct Registry<H> {
    windows: Vec<WindowState<H>>,
}

impl<H> View for Registry<H> {
    type V = Seq<WindowState<H>>;

    closed spec fn view(&self) -> Seq<WindowState<H>> {
        self.windows@
    }
}

impl<H> Registry<H> {
    /// No window is registered twice.
    pub open spec fn wf(&self) -> bool {
        no_duplicates(ids(self@))
    }

    pub fn new() -> (r: Registry<H>)
        ensures
            r.wf(),
            r@ == Seq::<WindowState<H>>::empty(),
    {
        Registry { windows: Vec::new() }
    }

    pub fn len(&self) -> (r: usize)
        ensures
            r == self@.len(),
    {
        self.windows.len()
    }

    /// Whether no window is left; the event loop ends then.
    pub fn is_empty(&self) -> (r: bool)
        ensures
            r == (self@.len() == 0),
    {
        self.windows.len() == 0
    }

    /// The ids of the live windows, in registry order.
    pub fn window_ids(&self) -> (r: Vec<WindowId>)
        ensures
            r@ == ids(self@),
    {
        let mut r: Vec<WindowId> = Vec::new();
        let mut i: usize = 0;
        while i < self.windows.len()
            invariant
                0 <= i <= self@.len(),
                r@ == ids(self@.take(i as int)),
            decreases self@.len() - i,
        {
            proof {
                assert(self@.take(i + 1) =~= self@.take(i as int).push(self@[i as int]));
                assert(ids(self@.take(i + 1)) =~= ids(self@.take(i as int)).push(self@[i as int].id));
            }
            r.push(self.windows[i].id);
            i = i + 1;
        }
        proof {
            assert(self@.take(self@.len() as int) =~= self@);
        }
        r
    }

    /// The position of window `id`, if it is registered.
    fn find(&self, id: WindowId) -> (r: Option<usize>)
        ensures
            match r {
                Some(i) => i < self@.len() && self@[i as int].id == id,
                None => !ids(self@).contains(id),
            },
    {
        position_of(&self.windows, id)
    }

    /// Whether window `id` is registered.
    pub fn contains(&self, id: WindowId) -> (r: bool)
        ensures
            r == ids(self@).contains(id),
    {
        match self.find(id) {
            Some(i) => {
                assert(ids(self@)[i as int] == id);
                true
            },
            None => false,
        }
    }

    /// Handles one platform event: updates the targeted entry and returns
    /// the notifications to deliver, in order. An event for a window that is
    /// not registered is dropped; a redraw request for one is an error.
    pub fn dispatch(&mut self, event: Event) -> (r: Result<Vec<(WindowId, Notification)>, ShellError>)
        requires
            old(self).wf(),
        ensures
            final(self).wf(),
            final(self)@ == dispatch_spec(old(self)@, event).0,
            match r {
                Ok(v) => dispatch_spec(old(self)@, event).1 == Ok::<_, ShellError>(v@),
                Err(e) => dispatch_spec(old(self)@, event).1 == Err::<Seq<(WindowId, Notification)>, _>(e),
            },
    {
        match event {
            Event::Window(id, we) => {
                match self.find(id) {
                    Some(i) => {
                        proof {
                            self.lemma_index_of(i as int);
                            assert(ids(self@).contains(id)) by {
                                assert(ids(self@)[i as int] == id);
                            }
                        }
                        let n = apply(&mut self.windows[i], we);
                        let mut v: Vec<(WindowId, Notification)> = Vec::new();
                        match n {
                            Some(n) => v.push((id, n)),
                            None => {},
                        }
                        proof {
                            assert(v@ =~= deliveries(id, n));
                            assert(ids(self@) =~= ids(old(self)@));
                        }
                        Ok(v)
                    },
                    None => Ok(Vec::new()),
                }
            },
            Event::Idle => {
                let ws = self.window_ids();
                let mut v: Vec<(WindowId, Notification)> = Vec::new();
                let mut i: usize = 0;
                while i < ws.len()
                    invariant
                        0 <= i <= ws@.len(),
                        v@ =~= ws@.take(i as int).map_values(|id: WindowId| (id, Notification::Idle)),
                    decreases ws@.len() - i,
                {
                    v.push((ws[i], Notification::Idle));
                    i = i + 1;
                    proof {
                        assert(ws@.take(i as int) =~= ws@.take(i - 1).push(ws@[i - 1]));
                    }
                }
                proof {
                    assert(ws@.take(ws@.len() as int) =~= ws@);
                }
                Ok(v)
            },
            Event::RedrawRequested(id) => {
                if self.contains(id) {
                    let mut v: Vec<(WindowId, Notification)> = Vec::new();
                    v.push((id, Notification::Redraw));
                    proof {
                        assert(v@ =~= seq![(id, Notification::Redraw)]);
                    }
                    Ok(v)
                } else {
                    Err(ShellError::UnknownWindow(id))
                }
            },
            Event::Other => Ok(Vec::new()),
        }
    }

    /// Applies the changes requested during one loop iteration: registers the
    /// pending windows, in creation order, then removes the windows named in
    /// `queue`, keeping the order of the others, and returns the removed
    /// entries in queue order; each is owed its
    /// last notification. A window created and destroyed in one iteration is
    /// registered and removed here. Nothing changes on an error.
    pub fn drain(&mut self, pending: &mut PendingCreates<H>, queue: &mut DestroyQueue) -> (r: Result<
        Vec<WindowState<H>>,
        ShellError,
    >)
        requires
            old(self).wf(),
            old(queue).wf(),
        ensures
            final(self).wf(),
            final(queue).wf(),
            r is Ok <==> all_fresh(old(self)@, old(pending)@) && all_live(
                old(self)@,
                old(pending)@,
                old(queue)@,
            ),
            match r {
                Ok(gone) => {
                    &&& drained(old(self)@, old(pending)@, old(queue)@, final(self)@, gone@)
                    &&& forall|w: WindowState<H>|
                        #[trigger] final(self)@.contains(w) ==> (old(self)@ + old(pending)@).contains(w)
                    &&& forall|k: int|
                        0 <= k < gone@.len() ==> (old(self)@ + old(pending)@).contains(#[trigger] gone@[k])
                    &&& final(pending)@ == Seq::<WindowState<H>>::empty()
                    &&& final(queue)@ == Seq::<WindowId>::empty()
                },
                Err(e) => {
                    &&& drain_error(old(self)@, old(pending)@, old(queue)@, e)
                    &&& final(self)@ == old(self)@
                    &&& final(pending)@ == old(pending)@
                    &&& final(queue)@ == old(queue)@
                },
            },
    {
        let ghost ws = self@;
        let ghost ps = pending@;
        let ghost qs = queue@;
        let mut i: usize = 0;
        while i < pending.states.len()
            invariant
                self@ == ws,
                pending@ == ps,
                queue@ == qs,
                no_duplicates(ids(ws)),
                no_duplicates(qs),
                0 <= i <= ps.len(),
                forall|j: int| 0 <= j < i ==> !clashes(ws, ps, j),
            decreases ps.len() - i,
        {
            let id = pending.states[i].id;
            if self.contains(id) || holds_id(&pending.states, i, id) {
                proof {
                    assert(clashes(ws, ps, i as int));
                    assert(!all_fresh(ws, ps));
                }
                return Err(ShellError::DuplicateWindow(id));
            }
            i = i + 1;
        }
        let mut k: usize = 0;
        while k < queue.len()
            invariant
                self@ == ws,
                pending@ == ps,
                queue@ == qs,
                no_duplicates(ids(ws)),
                no_duplicates(qs),
                all_fresh(ws, ps),
                0 <= k <= qs.len(),
                forall|j: int| 0 <= j < k ==> known(ws, ps, qs[j]),
            decreases qs.len() - k,
        {
            let q = queue.get(k);
            proof {
                assert(ps.take(ps.len() as int) =~= ps);
            }
            if !self.contains(q) && !holds_id(&pending.states, pending.states.len(), q) {
                proof {
                    assert(!known(ws, ps, qs[k as int]));
                    assert(!all_live(ws, ps, qs));
                }
                return Err(ShellError::DestroyedTwice(q));
            }
            k = k + 1;
        }
        let ghost all = ws + ps;
        proof {
            lemma_append_fresh(ws, ps);
        }
        self.windows.append(&mut pending.states);
        let total: usize = self.windows.len();
        let mut rest: Vec<WindowState<H>> = Vec::new();
        std::mem::swap(&mut self.windows, &mut rest);
        let mut doomed: Vec<WindowState<H>> = Vec::new();
        proof {
            all.take(0).lemma_filter_len(survives(qs));
            assert(all.take(0).filter(survives(qs)) =~= Seq::<WindowState<H>>::empty());
            assert(rest@ =~= all.skip(0));
        }
        let mut i: usize = 0;
        while rest.len() > 0
            invariant
                pending@ == Seq::<WindowState<H>>::empty(),
                queue@ == qs,
                queue.wf(),
                all_live(ws, ps, qs),
                no_duplicates(ids(all)),
                forall|x: WindowId| #[trigger] ids(all).contains(x) <==> known(ws, ps, x),
                0 <= i <= all.len(),
                all.len() == total,
                rest@ == all.skip(i as int),
                self@ == all.take(i as int).filter(survives(qs)),
                no_duplicates(ids(self@)),
                forall|x: WindowId| #[trigger]
                    ids(self@).contains(x) <==> (ids(all.take(i as int)).contains(x) && !qs.contains(x)),
                forall|w: WindowState<H>| #[trigger] self@.contains(w) ==> all.contains(w),
                no_duplicates(ids(doomed@)),
                forall|x: WindowId| #[trigger]
                    ids(doomed@).contains(x) <==> (ids(all.take(i as int)).contains(x) && qs.contains(x)),
                forall|w: WindowState<H>| #[trigger] doomed@.contains(w) ==> all.contains(w),
            decreases rest@.len(),
        {
            let w = rest.remove(0);
            let ghost prefix = all.take(i as int);
            proof {
                assert(w == all[i as int]);
                assert(rest@ =~= all.skip(i + 1));
                assert(all.take(i + 1) =~= prefix.push(w));
                prefix.lemma_filter_push(w, survives(qs));
                lemma_prefix_step(all, i as int);
            }
            if queue.contains(w.id) {
                proof {
                    lemma_push_fresh(doomed@, w);
                }
                doomed.push(w);
            } else {
                proof {
                    lemma_push_fresh(self@, w);
                }
                self.windows.push(w);
            }
            i = i + 1;
        }
        proof {
            assert(all.take(all.len() as int) =~= all);
            assert forall|x: WindowId| #[trigger]
                ids(doomed@).contains(x) <==> (qs.contains(x) && !qs.take(0).contains(x)) by {
                if qs.contains(x) {
                    let k = choose|k: int| 0 <= k < qs.len() && qs[k] == x;
                    assert(known(ws, ps, qs[k]));
                }
            }
        }
        let ghost kept = self@;
        let mut gone: Vec<WindowState<H>> = Vec::new();
        let mut k: usize = 0;
        while k < queue.len()
            invariant
                self@ == kept,
                queue@ == qs,
                no_duplicates(qs),
                0 <= k <= qs.len(),
                no_duplicates(ids(doomed@)),
                forall|x: WindowId| #[trigger]
                    ids(doomed@).contains(x) <==> (qs.contains(x) && !qs.take(k as int).contains(x)),
                forall|w: WindowState<H>| #[trigger] doomed@.contains(w) ==> all.contains(w),
                ids(gone@) == qs.take(k as int),
                forall|j: int| 0 <= j < gone@.len() ==> all.contains(#[trigger] gone@[j]),
            decreases qs.len() - k,
        {
            let q = queue.get(k);
            let ghost before = doomed@;
            proof {
                assert(!qs.take(k as int).contains(q)) by {
                    if qs.take(k as int).contains(q) {
                        let j = choose|j: int| 0 <= j < k && #[trigger] qs.take(k as int)[j] == q;
                        assert(qs[j] == qs[k as int]);
                    }
                }
                assert(qs.contains(q)) by {
                    assert(qs[k as int] == q);
                }
                assert(ids(doomed@).contains(q));
            }
            match position_of(&doomed, q) {
                Some(idx) => {
                    let st = doomed.remove(idx);
                    proof {
                        lemma_remove_unique(before, idx as int);
                        assert(qs.take(k + 1) =~= qs.take(k as int).push(q));
                        assert forall|x: WindowId| #[trigger] ids(doomed@).contains(x) <==> (
                        qs.contains(x) && !qs.take(k + 1).contains(x)) by {
                            if qs.take(k + 1).contains(x) {
                                let j = choose|j: int| 0 <= j < k + 1 && #[trigger] qs.take(k + 1)[j] == x;
                                if j < k {
                                    assert(qs.take(k as int)[j] == x);
                                }
                            }
                            if qs.take(k as int).contains(x) {
                                let j = choose|j: int| 0 <= j < k && #[trigger] qs.take(k as int)[j] == x;
                                assert(qs.take(k + 1)[j] == x);
                            }
                            if x == q {
                                assert(qs.take(k + 1)[k as int] == x);
                            }
                        }
                        assert forall|w: WindowState<H>| #[trigger] doomed@.contains(w) implies all.contains(w) by {
                            assert(before.remove(idx as int).contains(w));
                        }
                        assert(before.contains(st)) by {
                            assert(before[idx as int] == st);
                        }
                    }
                    gone.push(st);
                    proof {
                        assert(ids(gone@) =~= qs.take(k + 1));
                    }
                },
                None => {
                    proof {
                        assert(false);
                    }
                },
            }
            k = k + 1;
        }
        proof {
            assert(qs.take(qs.len() as int) =~= qs);
            assert forall|x: WindowId| #[trigger]
                ids(self@).contains(x) <==> (known(ws, ps, x) && !qs.contains(x)) by {
            }
        }
        queue.clear();
        Ok(gone)
    }

    /// The application state of window `id`, if it is registered, to deliver
    /// a notification to.
    pub fn handler_mut(&mut self, id: WindowId) -> (r: Option<&mut H>)
        requires
            old(self).wf(),
        ensures
            match r {
                Some(h) => {
                    let i = index_of(old(self)@, id);
                    &&& ids(old(self)@).contains(id)
                    &&& *h == old(self)@[i].handler
                    &&& final(self)@ == old(self)@.update(
                        i,
                        WindowState { handler: *final(h), ..old(self)@[i] },
                    )
                },
                None => !ids(old(self)@).contains(id) && final(self)@ == old(self)@,
            },
    {
        match self.find(id) {
            Some(i) => {
                proof {
                    self.lemma_index_of(i as int);
                    assert(ids(self@)[i as int] == id);
                }
                Some(&mut self.windows[i].handler)
            },
            None => None,
        }
    }

    /// In a registry without duplicates, the window at `i` is found at `i`.
    proof fn lemma_index_of(&self, i: int)
        requires
            self.wf(),
            0 <= i < self@.len(),
        ensures
            index_of(self@, self@[i].id) == i,
    {
        let id = self@[i].id;
        assert(0 <= i < self@.len() && self@[i].id == id);
        let j = index_of(self@, id);
        assert(ids(self@)[j] == ids(self@)[i]);
    }
}

/// A key-down starts a tracker at zero unless it repeats the tracked key;
/// the same key-down delivered again right after counts one more repeat.
pub proof fn law_key_repeat_counts_up(tracker: Option<KeyRepeat>, input: KeyInput, key: VirtualKeyCode)
    requires
        input.pressed,
    ensures
        ({
            let (t1, n1) = key_step(tracker, input, key);
            let c = t1.unwrap().count;
            &&& t1 is Some && t1.unwrap().input == input
            &&& (tracker is None ==> c == 0 && n1 == Notification::Key(key, ButtonState::Pressed))
            &&& (c < u16::MAX ==> key_step(t1, input, key) == (
                Some(KeyRepeat { input, count: (c + 1) as u16 }),
                Notification::Key(key, ButtonState::Repeated((c + 1) as u16)),
            ))
        }),
{
}

/// A key-up clears the tracker, so the next key-down is a fresh press with
/// a count of zero.
pub proof fn law_key_up_resets_repeat(
    tracker: Option<KeyRepeat>,
    up: KeyInput,
    down: KeyInput,
    key_up: VirtualKeyCode,
    key_down: VirtualKeyCode,
)
    requires
        !up.pressed,
        down.pressed,
    ensures
        key_step(tracker, up, key_up) == (None::<KeyRepeat>, Notification::Key(key_up, ButtonState::Released)),
        key_step(key_step(tracker, up, key_up).0, down, key_down) == (
            Some(KeyRepeat { input: down, count: 0 }),
            Notification::Key(key_down, ButtonState::Pressed),
        ),
{
}

/// A resize notifies exactly when the size differs from the recorded one,
/// and the same size reported again right after does not notify.
pub proof fn law_resize_only_on_change<H>(s: WindowState<H>, x: Extent)
    ensures
        apply_event(s, WindowEvent::Resized(x)).1 is Some <==> x != s.extent,
        apply_event(s, WindowEvent::Resized(x)).0.extent == x,
        apply_event(apply_event(s, WindowEvent::Resized(x)).0, WindowEvent::Resized(x)).1 is None,
{
}

/// An idle event notifies every registered window exactly once, changes no
/// entry, and notifies no window that is still pending creation.
pub proof fn law_idle_reaches_each_window_once<H>(ws: Seq<WindowState<H>>, pending: Seq<WindowState<H>>)
    requires
        no_duplicates(ids(ws)),
        all_fresh(ws, pending),
    ensures
        ({
            let (after, r) = dispatch_spec(ws, Event::Idle);
            let v = r->Ok_0;
            &&& after == ws
            &&& r is Ok
            &&& v.len() == ws.len()
            &&& forall|i: int| 0 <= i < v.len() ==> v[i] == (ws[i].id, Notification::Idle)
            &&& no_duplicates(v)
            &&& forall|i: int|
                0 <= i < pending.len() ==> !v.contains((#[trigger] pending[i].id, Notification::Idle))
        }),
{
    let v = ids(ws).map_values(|id: WindowId| (id, Notification::Idle));
    assert forall|a: int, b: int| 0 <= a < b < v.len() implies v[a] != v[b] by {
        assert(ids(ws)[a] != ids(ws)[b]);
    }
    assert forall|i: int| 0 <= i < pending.len() implies !v.contains(
        (#[trigger] pending[i].id, Notification::Idle),
    ) by {
        assert(!clashes(ws, pending, i));
        if v.contains((pending[i].id, Notification::Idle)) {
            let j = choose|j: int| 0 <= j < v.len() && v[j] == (pending[i].id, Notification::Idle);
            assert(ids(ws)[j] == pending[i].id);
        }
    }
}

/// A window removed by one drain is gone: naming it again in a later drain,
/// with no new window of that id pending, is the error of a double destroy.
pub proof fn law_destroy_across_drains_fails<H>(
    ws: Seq<WindowState<H>>,
    pending: Seq<WindowState<H>>,
    queue: Seq<WindowId>,
    next: Seq<WindowState<H>>,
    next_pending: Seq<WindowState<H>>,
    next_queue: Seq<WindowId>,
    id: WindowId,
)
    requires
        forall|x: WindowId| #[trigger]
            ids(next).contains(x) <==> (known(ws, pending, x) && !queue.contains(x)),
        queue.contains(id),
        next_queue.contains(id),
        !ids(next_pending).contains(id),
    ensures
        !all_live(next, next_pending, next_queue),
{
    let k = choose|k: int| 0 <= k < next_queue.len() && next_queue[k] == id;
    assert(!known(next, next_pending, next_queue[k]));
}

/// What a successful drain of `pending` and `queue` into `ws` leaves: the
/// registry `after` and the removed entries `gone`, as `Registry::drain`
/// states them.
pub open spec fn drained<H>(
    ws: Seq<WindowState<H>>,
    pending: Seq<WindowState<H>>,
    queue: Seq<WindowId>,
    after: Seq<WindowState<H>>,
    gone: Seq<WindowState<H>>,
) -> bool {
    &&& after == (ws + pending).filter(survives(queue))
    &&& forall|x: WindowId| #[trigger]
        ids(after).contains(x) <==> (known(ws, pending, x) && !queue.contains(x))
    &&& ids(gone) == queue
}

/// A window spawned and asked to be destroyed in the same iteration is
/// registered and removed by the one drain: it is removed exactly once, is
/// not registered afterwards, and so receives no idle notification.
pub proof fn law_spawn_then_destroy_round_trips<H>(
    ws: Seq<WindowState<H>>,
    pending: Seq<WindowState<H>>,
    queue: Seq<WindowId>,
    after: Seq<WindowState<H>>,
    gone: Seq<WindowState<H>>,
    b: WindowId,
)
    requires
        no_duplicates(queue),
        drained(ws, pending, queue, after, gone),
        ids(pending).contains(b),
        queue.contains(b),
    ensures
        !ids(after).contains(b),
        exists|k: int| 0 <= k < gone.len() && gone[k].id == b,
        forall|k: int, j: int|
            0 <= k < gone.len() && 0 <= j < gone.len() && gone[k].id == b && gone[j].id == b ==> k == j,
        !dispatch_spec(after, Event::Idle).1->Ok_0.contains((b, Notification::Idle)),
{
    let k = choose|k: int| 0 <= k < queue.len() && queue[k] == b;
    assert(ids(gone)[k] == b);
    assert forall|k: int, j: int|
        0 <= k < gone.len() && 0 <= j < gone.len() && gone[k].id == b && gone[j].id == b implies k == j by {
        assert(ids(gone)[k] == queue[k]);
        assert(ids(gone)[j] == queue[j]);
    }
    let v = ids(after).map_values(|id: WindowId| (id, Notification::Idle));
    if v.contains((b, Notification::Idle)) {
        let j = choose|j: int| 0 <= j < v.len() && v[j] == (b, Notification::Idle);
        assert(ids(after)[j] == b);
    }
}

/// A denied close request queues nothing, so the window stays registered
/// through the drain and receives the next idle notification.
pub proof fn law_denied_close_keeps_window<H>(
    ws: Seq<WindowState<H>>,
    pending: Seq<WindowState<H>>,
    queue: Seq<WindowId>,
    after: Seq<WindowState<H>>,
    gone: Seq<WindowState<H>>,
    w: WindowId,
)
    requires
        drained(ws, pending, queue, after, gone),
        ids(ws).contains(w),
        !queue.contains(w),
    ensures
        ids(after).contains(w),
        dispatch_spec(after, Event::Idle).1->Ok_0.contains((w, Notification::Idle)),
{
    assert(known(ws, pending, w));
    assert(ids(after).contains(w));
    let j = choose|j: int| 0 <= j < ids(after).len() && ids(after)[j] == w;
    let v = ids(after).map_values(|id: WindowId| (id, Notification::Idle));
    assert(v[j] == (w, Notification::Idle));
}

/// When the last window's close is allowed and nothing else is pending, the
/// drain removes it once and leaves the registry empty: the loop ends and
/// no window is notified again.
pub proof fn law_last_window_closed_ends_loop<H>(
    ws: Seq<WindowState<H>>,
    pending: Seq<WindowState<H>>,
    queue: Seq<WindowId>,
    after: Seq<WindowState<H>>,
    gone: Seq<WindowState<H>>,
)
    requires
        drained(ws, pending, queue, after, gone),
        ws.len() == 1,
        pending.len() == 0,
        queue == seq![ws[0].id],
    ensures
        after.len() == 0,
        gone.len() == 1 && gone[0].id == ws[0].id,
        dispatch_spec(after, Event::Idle).1->Ok_0.len() == 0,
{
    assert(queue[0] == ws[0].id);
    if after.len() > 0 {
        let x = after[0].id;
        assert(ids(after)[0] == x);
        assert(ids(after).contains(x));
        if ids(ws).contains(x) {
            let j = choose|j: int| 0 <= j < ids(ws).len() && ids(ws)[j] == x;
            assert(j == 0);
            assert(queue[0] == x);
            assert(queue.contains(x));
        }
        if ids(pending).contains(x) {
            let j = choose|j: int| 0 <= j < ids(pending).len() && ids(pending)[j] == x;
        }
        assert(false);
    }
    assert(ids(gone).len() == 1);
    assert(ids(gone)[0] == queue[0]);
}

} // verus!
