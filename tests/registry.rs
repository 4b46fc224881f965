use shell::geometry::{Extent, Point};
use shell::input::{ButtonState, MouseButton, VirtualKeyCode};
use shell::registry::{
    Event, KeyInput, Notification, PendingCreates, Registry, ShellError, WindowEvent, WindowState,
};
use shell::window::{DestroyQueue, WindowId};

fn registry_with(ids: &[u64]) -> Registry<u32> {
    let mut reg = Registry::new();
    let mut pending = PendingCreates::new();
    for (n, id) in ids.iter().enumerate() {
        pending.push(WindowState::new(WindowId(*id), n as u32, Extent::new(800, 600)));
    }
    let mut queue = DestroyQueue::new();
    let gone = reg.drain(&mut pending, &mut queue).unwrap();
    assert!(gone.is_empty());
    reg
}

fn key(pressed: bool, code: u32) -> KeyInput {
    KeyInput { scancode: 30, pressed, key_code: Some(code), modifiers: 0 }
}

fn window_event(reg: &mut Registry<u32>, id: u64, e: WindowEvent) -> Vec<(WindowId, Notification)> {
    reg.dispatch(Event::Window(WindowId(id), e)).unwrap()
}

#[test]
fn same_size_resize_is_silent_then_new_size_notifies() {
    let mut reg = registry_with(&[1]);
    assert!(window_event(&mut reg, 1, WindowEvent::Resized(Extent::new(800, 600))).is_empty());
    let n = window_event(&mut reg, 1, WindowEvent::Resized(Extent::new(1024, 600)));
    assert_eq!(n, vec![(WindowId(1), Notification::Resize(Extent::new(1024, 600)))]);
    assert!(window_event(&mut reg, 1, WindowEvent::Resized(Extent::new(1024, 600))).is_empty());
}

#[test]
fn spawned_then_destroyed_window_is_round_tripped() {
    let mut reg = registry_with(&[1]);
    let mut pending = PendingCreates::new();
    let mut queue = DestroyQueue::new();
    // Window 1's idle handler spawns window 2, which asks to be destroyed
    // before the iteration ends.
    let n = reg.dispatch(Event::Idle).unwrap();
    assert_eq!(n, vec![(WindowId(1), Notification::Idle)]);
    pending.push(WindowState::new(WindowId(2), 7, Extent::new(640, 480)));
    queue.push(WindowId(2));
    let gone = reg.drain(&mut pending, &mut queue).unwrap();
    assert_eq!(gone.len(), 1);
    assert_eq!(gone[0].id, WindowId(2));
    assert_eq!(gone[0].handler, 7);
    assert_eq!(reg.window_ids(), vec![WindowId(1)]);
    assert_eq!(reg.dispatch(Event::Idle).unwrap(), vec![(WindowId(1), Notification::Idle)]);
    assert_eq!(pending.len(), 0);
    assert!(queue.is_empty());
}

#[test]
fn denied_close_request_keeps_window() {
    let mut reg = registry_with(&[1]);
    let n = window_event(&mut reg, 1, WindowEvent::CloseRequested);
    assert_eq!(n, vec![(WindowId(1), Notification::CloseRequest)]);
    let mut pending = PendingCreates::new();
    let mut queue = DestroyQueue::new();
    assert!(reg.drain(&mut pending, &mut queue).unwrap().is_empty());
    assert!(reg.contains(WindowId(1)));
    let n = window_event(&mut reg, 1, WindowEvent::CursorMoved(Point::new(3, 4)));
    assert_eq!(n, vec![(WindowId(1), Notification::CursorMove(Point::new(3, 4)))]);
}

#[test]
fn allowed_close_of_last_window_ends_loop() {
    let mut reg = registry_with(&[1]);
    let n = window_event(&mut reg, 1, WindowEvent::CloseRequested);
    assert_eq!(n.len(), 1);
    let mut pending = PendingCreates::new();
    let mut queue = DestroyQueue::new();
    queue.push(WindowId(1));
    let gone = reg.drain(&mut pending, &mut queue).unwrap();
    assert_eq!(gone.len(), 1);
    assert_eq!(gone[0].id, WindowId(1));
    assert!(reg.is_empty());
    assert!(reg.dispatch(Event::Idle).unwrap().is_empty());
    assert!(window_event(&mut reg, 1, WindowEvent::Resized(Extent::new(1, 1))).is_empty());
}

#[test]
fn destroy_twice_before_drain_is_held_once() {
    let mut reg = registry_with(&[1, 2]);
    let mut pending = PendingCreates::new();
    let mut queue = DestroyQueue::new();
    queue.push(WindowId(1));
    queue.push(WindowId(1));
    assert_eq!(queue.len(), 1);
    let gone = reg.drain(&mut pending, &mut queue).unwrap();
    assert_eq!(gone.len(), 1);
    assert_eq!(reg.window_ids(), vec![WindowId(2)]);
}

#[test]
fn destroy_across_two_drains_is_an_error() {
    let mut reg = registry_with(&[1, 2]);
    let mut pending = PendingCreates::new();
    let mut queue = DestroyQueue::new();
    queue.push(WindowId(1));
    reg.drain(&mut pending, &mut queue).unwrap();
    queue.push(WindowId(1));
    let r = reg.drain(&mut pending, &mut queue);
    assert!(matches!(r, Err(ShellError::DestroyedTwice(WindowId(1)))));
    assert_eq!(reg.window_ids(), vec![WindowId(2)]);
    assert_eq!(queue.len(), 1);
}

#[test]
fn duplicate_window_id_is_an_error() {
    let mut reg = registry_with(&[1]);
    let mut pending = PendingCreates::new();
    pending.push(WindowState::new(WindowId(3), 0, Extent::new(1, 1)));
    pending.push(WindowState::new(WindowId(1), 0, Extent::new(1, 1)));
    let mut queue = DestroyQueue::new();
    let r = reg.drain(&mut pending, &mut queue);
    assert!(matches!(r, Err(ShellError::DuplicateWindow(WindowId(1)))));
    assert_eq!(reg.window_ids(), vec![WindowId(1)]);
    assert_eq!(pending.len(), 2);
}

#[test]
fn drain_registers_in_spawn_order_and_removes_destroyed() {
    let mut reg = registry_with(&[1, 2, 3]);
    let mut pending = PendingCreates::new();
    pending.push(WindowState::new(WindowId(5), 0, Extent::new(1, 1)));
    pending.push(WindowState::new(WindowId(4), 0, Extent::new(1, 1)));
    let mut queue = DestroyQueue::new();
    queue.push(WindowId(3));
    queue.push(WindowId(1));
    let gone = reg.drain(&mut pending, &mut queue).unwrap();
    let gone_ids: Vec<WindowId> = gone.iter().map(|w| w.id).collect();
    assert_eq!(gone_ids, vec![WindowId(3), WindowId(1)]);
    assert_eq!(reg.window_ids(), vec![WindowId(2), WindowId(5), WindowId(4)]);
}

#[test]
fn repeated_key_down_counts_up_and_key_up_resets() {
    let mut reg = registry_with(&[1]);
    let a = 10;
    let down = window_event(&mut reg, 1, WindowEvent::KeyboardInput(key(true, a)));
    assert_eq!(down, vec![(WindowId(1), Notification::Key(VirtualKeyCode::A, ButtonState::Pressed))]);
    let again = window_event(&mut reg, 1, WindowEvent::KeyboardInput(key(true, a)));
    assert_eq!(again[0].1, Notification::Key(VirtualKeyCode::A, ButtonState::Repeated(1)));
    let again = window_event(&mut reg, 1, WindowEvent::KeyboardInput(key(true, a)));
    assert_eq!(again[0].1, Notification::Key(VirtualKeyCode::A, ButtonState::Repeated(2)));
    let up = window_event(&mut reg, 1, WindowEvent::KeyboardInput(key(false, a)));
    assert_eq!(up[0].1, Notification::Key(VirtualKeyCode::A, ButtonState::Released));
    let fresh = window_event(&mut reg, 1, WindowEvent::KeyboardInput(key(true, a)));
    assert_eq!(fresh[0].1, Notification::Key(VirtualKeyCode::A, ButtonState::Pressed));
}

#[test]
fn other_key_down_starts_a_fresh_press() {
    let mut reg = registry_with(&[1]);
    window_event(&mut reg, 1, WindowEvent::KeyboardInput(key(true, 10)));
    let b = window_event(&mut reg, 1, WindowEvent::KeyboardInput(key(true, 11)));
    assert_eq!(b[0].1, Notification::Key(VirtualKeyCode::B, ButtonState::Pressed));
}

#[test]
fn key_without_code_is_dropped() {
    let mut reg = registry_with(&[1]);
    let k = KeyInput { scancode: 1, pressed: true, key_code: None, modifiers: 0 };
    assert!(window_event(&mut reg, 1, WindowEvent::KeyboardInput(k)).is_empty());
}

#[test]
fn idle_reaches_every_window_once() {
    let mut reg = registry_with(&[4, 2, 9]);
    let n = reg.dispatch(Event::Idle).unwrap();
    assert_eq!(
        n,
        vec![
            (WindowId(4), Notification::Idle),
            (WindowId(2), Notification::Idle),
            (WindowId(9), Notification::Idle),
        ]
    );
}

#[test]
fn mouse_button_carries_last_cursor_position() {
    let mut reg = registry_with(&[1]);
    let n = window_event(&mut reg, 1, WindowEvent::MouseInput(MouseButton::Left, ButtonState::Pressed));
    assert_eq!(n[0].1, Notification::MouseButton(MouseButton::Left, ButtonState::Pressed, Point::zero()));
    window_event(&mut reg, 1, WindowEvent::CursorMoved(Point::new(-5, 12)));
    let n = window_event(&mut reg, 1, WindowEvent::MouseInput(MouseButton::Other(9), ButtonState::Released));
    assert_eq!(
        n[0].1,
        Notification::MouseButton(MouseButton::Other(9), ButtonState::Released, Point::new(-5, 12))
    );
}

#[test]
fn rescale_and_redraw_are_delivered() {
    let mut reg = registry_with(&[1]);
    let n = window_event(&mut reg, 1, WindowEvent::ScaleFactorChanged(Extent::new(1600, 1200)));
    assert_eq!(n, vec![(WindowId(1), Notification::Rescale(Extent::new(1600, 1200)))]);
    let r = reg.dispatch(Event::RedrawRequested(WindowId(1))).unwrap();
    assert_eq!(r, vec![(WindowId(1), Notification::Redraw)]);
}

#[test]
fn redraw_of_unknown_window_is_an_error() {
    let mut reg = registry_with(&[1]);
    let r = reg.dispatch(Event::RedrawRequested(WindowId(8)));
    assert!(matches!(r, Err(ShellError::UnknownWindow(WindowId(8)))));
}

#[test]
fn event_for_destroyed_window_is_dropped() {
    let mut reg = registry_with(&[1]);
    assert!(window_event(&mut reg, 8, WindowEvent::CloseRequested).is_empty());
    assert!(reg.dispatch(Event::Other).unwrap().is_empty());
}

#[test]
fn handler_mut_reaches_the_window_state() {
    let mut reg = registry_with(&[1, 2]);
    *reg.handler_mut(WindowId(2)).unwrap() = 42;
    assert!(reg.handler_mut(WindowId(3)).is_none());
    let mut pending = PendingCreates::new();
    let mut queue = DestroyQueue::new();
    queue.push(WindowId(2));
    let gone = reg.drain(&mut pending, &mut queue).unwrap();
    assert_eq!(gone[0].handler, 42);
}

#[test]
fn key_without_symbolic_name_is_dropped() {
    let mut reg = registry_with(&[1]);
    window_event(&mut reg, 1, WindowEvent::KeyboardInput(key(true, 10)));
    // Code 77 has no symbolic name, and 200 is beyond the platform's range.
    assert!(window_event(&mut reg, 1, WindowEvent::KeyboardInput(key(true, 77))).is_empty());
    assert!(window_event(&mut reg, 1, WindowEvent::KeyboardInput(key(false, 200))).is_empty());
    // The tracker is untouched, so the same key-down is still a repeat.
    let again = window_event(&mut reg, 1, WindowEvent::KeyboardInput(key(true, 10)));
    assert_eq!(again[0].1, Notification::Key(VirtualKeyCode::A, ButtonState::Repeated(1)));
}

#[test]
fn close_request_answer_decides_the_destroy() {
    let mut queue = DestroyQueue::new();
    queue.close_requested(WindowId(1), false);
    assert!(queue.is_empty());
    queue.close_requested(WindowId(1), true);
    queue.close_requested(WindowId(1), true);
    assert_eq!(queue.len(), 1);
    assert_eq!(queue.get(0), WindowId(1));
}
