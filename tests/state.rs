use iced_experimental::widget::cell::state::{
    look, react, Features, Look, Pointer, Probe, Publish, State,
};

type P = (i32, i32);

const ALL: Features = Features { press: true, resize_horizontal: true, resize_vertical: true };

fn probe(position: Option<P>, h: bool, v: bool, over_bounds: bool) -> Probe<P> {
    Probe {
        position,
        over_horizontal_edge: if h { position } else { None },
        over_vertical_edge: if v { position } else { None },
        over_bounds,
    }
}

#[test]
fn fresh_state_is_idle() {
    let s: State<P> = State::new();
    assert!(!s.is_pressed);
    assert_eq!(s.drag_origin_horizontal, None);
    assert_eq!(s.drag_origin_vertical, None);
    assert!(!s.is_resize_hovered_horizontal);
    assert!(!s.is_resize_hovered_vertical);
}

#[test]
fn click_publishes_press() {
    let s = State::new();
    let over = probe(Some((5, 5)), false, false, true);
    let r = react(s, ALL, false, Pointer::Pressed, over);
    assert!(r.state.is_pressed);
    assert!(r.capture);
    assert!(r.messages.is_empty());

    let r = react(r.state, ALL, false, Pointer::Released, over);
    assert!(!r.state.is_pressed);
    assert!(r.capture);
    assert_eq!(r.messages, vec![Publish::Press]);
}

#[test]
fn release_outside_cancels_press() {
    let s = State::new();
    let r = react(s, ALL, false, Pointer::Pressed, probe(Some((5, 5)), false, false, true));
    let r = react(r.state, ALL, false, Pointer::Released, probe(Some((50, 5)), false, false, false));
    assert!(!r.state.is_pressed);
    assert!(r.capture);
    assert!(r.messages.is_empty());
}

#[test]
fn press_without_message_is_silent() {
    let f = Features { press: false, ..ALL };
    let over = probe(Some((5, 5)), false, false, true);
    let r = react(State::new(), f, false, Pointer::Pressed, over);
    let r = react(r.state, f, false, Pointer::Released, over);
    assert!(r.capture);
    assert!(r.messages.is_empty());
}

#[test]
fn horizontal_drag_cycle() {
    let s = State::new();
    let edge = probe(Some((10, 3)), true, false, true);
    let r = react(s, ALL, false, Pointer::Pressed, edge);
    assert_eq!(r.state.drag_origin_horizontal, Some((10, 3)));
    assert_eq!(r.state.drag_origin_vertical, None);
    assert!(r.state.is_resize_hovered_horizontal);
    assert!(r.capture);

    let r = react(r.state, ALL, false, Pointer::Moved, probe(Some((17, 4)), false, false, true));
    assert_eq!(
        r.messages,
        vec![Publish::DragHorizontal { origin: (10, 3), position: (17, 4) }]
    );
    assert!(r.capture);
    assert!(!r.state.is_resize_hovered_horizontal);
    assert_eq!(r.state.drag_origin_horizontal, Some((10, 3)));

    let r = react(r.state, ALL, false, Pointer::Released, probe(Some((17, 4)), false, false, true));
    assert_eq!(r.messages, vec![Publish::ReleaseHorizontal, Publish::Press]);
    assert_eq!(r.state.drag_origin_horizontal, None);
    assert!(!r.state.is_pressed);
    assert!(r.capture);
}

#[test]
fn corner_drags_both_edges() {
    let corner = probe(Some((10, 10)), true, true, false);
    let r = react(State::new(), ALL, false, Pointer::Pressed, corner);
    assert_eq!(r.state.drag_origin_horizontal, Some((10, 10)));
    assert_eq!(r.state.drag_origin_vertical, Some((10, 10)));
    assert!(!r.state.is_pressed);
    assert!(r.capture);

    let r = react(r.state, ALL, false, Pointer::Moved, probe(Some((12, 15)), false, false, false));
    assert_eq!(
        r.messages,
        vec![
            Publish::DragHorizontal { origin: (10, 10), position: (12, 15) },
            Publish::DragVertical { origin: (10, 10), position: (12, 15) },
        ]
    );

    let r = react(r.state, ALL, false, Pointer::Released, probe(None, false, false, false));
    assert_eq!(r.messages, vec![Publish::ReleaseHorizontal, Publish::ReleaseVertical]);
    assert_eq!(r.state.drag_origin_horizontal, None);
    assert_eq!(r.state.drag_origin_vertical, None);
}

#[test]
fn disabled_resizing_ignores_edges() {
    let f = Features { press: true, resize_horizontal: false, resize_vertical: false };
    let edge = probe(Some((10, 10)), true, true, false);
    let r = react(State::new(), f, false, Pointer::Pressed, edge);
    assert_eq!(r.state.drag_origin_horizontal, None);
    assert_eq!(r.state.drag_origin_vertical, None);
    assert!(!r.state.is_resize_hovered_horizontal);
    assert!(!r.capture);
}

#[test]
fn move_without_drag_does_nothing() {
    let r = react(State::new(), ALL, false, Pointer::Moved, probe(Some((1, 1)), false, true, true));
    assert!(r.messages.is_empty());
    assert!(!r.capture);
    assert!(r.state.is_resize_hovered_vertical);
}

#[test]
fn captured_event_leaves_state() {
    let mut s = State::new();
    s.is_pressed = true;
    let r = react(s, ALL, true, Pointer::Released, probe(Some((1, 1)), true, true, true));
    assert_eq!(r.state, s);
    assert!(r.messages.is_empty());
    assert!(!r.capture);
}

#[test]
fn lost_finger_ends_press() {
    let mut s: State<P> = State::new();
    s.is_pressed = true;
    let r = react(s, ALL, false, Pointer::Lost, probe(None, false, false, false));
    assert!(!r.state.is_pressed);
    assert!(r.messages.is_empty());
    assert!(!r.capture);

    let r = react(s, ALL, false, Pointer::Other, probe(None, false, false, false));
    assert!(r.state.is_pressed);
}

#[test]
fn cursor_looks() {
    let mut s: State<P> = State::new();
    assert_eq!(look(&s, true, true), Look::Pointer);
    assert_eq!(look(&s, true, false), Look::Plain);
    assert_eq!(look(&s, false, true), Look::Content);
    s.is_resize_hovered_vertical = true;
    assert_eq!(look(&s, true, true), Look::ResizingVertically);
    s.drag_origin_horizontal = Some((0, 0));
    assert_eq!(look(&s, true, true), Look::ResizingHorizontally);
}
