//! How a cell reacts to pointer events: presses, and resize drags along its
//! right and bottom edges.
//!
//! The geometry (where the edges and the bounds lie, and whether the cursor
//! is over them) is measured by the caller and handed in as a `Probe`; what
//! the cell decides from it is stated here.
use vstd::prelude::*;

verus! {

/// The state a cell keeps between events. `P` is a pointer position.
#[derive(Debug, Clone, Copy, PartialEq, Eq)]
pub struct State<P> {
    /// A press began over the cell and has not yet been released.
    pub is_pressed: bool,
    /// Where a drag of the right edge began, while it goes on.
    pub drag_origin_horizontal: Option<P>,
    /// The cursor is over the right edge.
    pub is_resize_hovered_horizontal: bool,
    /// Where a drag of the bottom edge began, while it goes on.
    pub drag_origin_vertical: Option<P>,
    /// The cursor is over the bottom edge.
    pub is_resize_hovered_vertical: bool,
}

impl<P> State<P> {
    /// The state of a cell that has seen no event.
    pub fn new() -> (r: Self)
        ensures
            !r.is_pressed,
            r.drag_origin_horizontal is None,
            !r.is_resize_hovered_horizontal,
            r.drag_origin_vertical is None,
            !r.is_resize_hovered_vertical,
    {
        State {
            is_pressed: false,
            drag_origin_horizontal: None,
            is_resize_hovered_horizontal: false,
            drag_origin_vertical: None,
            is_resize_hovered_vertical: false,
        }
    }
}

/// The kinds of event that a cell tells apart.
#[derive(Debug, Clone, Copy, PartialEq, Eq, Structural)]
pub enum Pointer {
    /// The left mouse button went down, or a finger touched.
    Pressed,
    /// The left mouse button went up, or a finger lifted.
    Released,
    /// The mouse cursor moved.
    Moved,
    /// A finger was lost.
    Lost,
    /// Any other event.
    Other,
}

/// What the caller measured of the cursor when the event came.
#[derive(Debug, Clone, Copy, PartialEq, Eq)]
pub struct Probe<P> {
    /// The cursor's position, if it is available.
    pub position: Option<P>,
    /// The cursor's position, if it is over the band around the right edge.
    pub over_horizontal_edge: Option<P>,
    /// The cursor's position, if it is over the band around the bottom edge.
    pub over_vertical_edge: Option<P>,
    /// The cursor is over the cell's bounds.
    pub over_bounds: bool,
}

/// Which of the cell's messages it has, and so which interactions it offers.
#[derive(Debug, Clone, Copy, PartialEq, Eq, Structural)]
pub struct Features {
    /// A message for a press.
    pub press: bool,
    /// Messages for resizing the width.
    pub resize_horizontal: bool,
    /// Messages for resizing the height.
    pub resize_vertical: bool,
}

/// A message that a cell publishes.
#[derive(Debug, Clone, Copy, PartialEq, Eq)]
pub enum Publish<P> {
    /// The drag of the right edge ended.
    ReleaseHorizontal,
    /// The drag of the bottom edge ended.
    ReleaseVertical,
    /// The cell was pressed and released while the cursor was over it.
    Press,
    /// The right edge is being dragged from `origin`; the cursor is at `position`.
    DragHorizontal { origin: P, position: P },
    /// The bottom edge is being dragged from `origin`; the cursor is at `position`.
    DragVertical { origin: P, position: P },
}

/// What a cell does about one event.
#[derive(Debug, Clone, PartialEq, Eq)]
pub struct Reaction<P> {
    /// The cell's state after the event.
    pub state: State<P>,
    /// The messages to publish, in this order.
    pub messages: Vec<Publish<P>>,
    /// The event is captured and goes no further.
    pub capture: bool,
}

/// The one-element sequence of `m` where `b` holds, else the empty sequence.
pub open spec fn when<T>(b: bool, m: T) -> Seq<T> {
    if b {
        seq![m]
    } else {
        Seq::empty()
    }
}

/// The state after hovering is measured: an edge that can be resized is
/// hovered exactly when the cursor is over its band.
pub open spec fn hovered<P>(s: State<P>, f: Features, p: Probe<P>) -> State<P> {
    State {
        is_resize_hovered_horizontal: if f.resize_horizontal {
            p.over_horizontal_edge is Some
        } else {
            s.is_resize_hovered_horizontal
        },
        is_resize_hovered_vertical: if f.resize_vertical {
            p.over_vertical_edge is Some
        } else {
            s.is_resize_hovered_vertical
        },
        ..s
    }
}

/// A press starts a drag of the right edge.
pub open spec fn grabs_horizontal<P>(f: Features, p: Probe<P>) -> bool {
    f.resize_horizontal && p.over_horizontal_edge is Some
}

/// A press starts a drag of the bottom edge.
pub open spec fn grabs_vertical<P>(f: Features, p: Probe<P>) -> bool {
    f.resize_vertical && p.over_vertical_edge is Some
}

/// A release ends a drag of the right edge.
pub open spec fn drops_horizontal<P>(s: State<P>, f: Features) -> bool {
    f.resize_horizontal && s.drag_origin_horizontal is Some
}

/// A release ends a drag of the bottom edge.
pub open spec fn drops_vertical<P>(s: State<P>, f: Features) -> bool {
    f.resize_vertical && s.drag_origin_vertical is Some
}

/// The message that a move publishes for the right edge, if any.
pub open spec fn drag_horizontal<P>(s: State<P>, f: Features, p: Probe<P>) -> Seq<Publish<P>> {
    if f.resize_horizontal && p.position is Some && s.drag_origin_horizontal is Some {
        seq![
            Publish::DragHorizontal {
                origin: s.drag_origin_horizontal->0,
                position: p.position->0,
            },
        ]
    } else {
        Seq::empty()
    }
}

/// The message that a move publishes for the bottom edge, if any.
pub open spec fn drag_vertical<P>(s: State<P>, f: Features, p: Probe<P>) -> Seq<Publish<P>> {
    if f.resize_vertical && p.position is Some && s.drag_origin_vertical is Some {
        seq![
            Publish::DragVertical {
                origin: s.drag_origin_vertical->0,
                position: p.position->0,
            },
        ]
    } else {
        Seq::empty()
    }
}

/// The reaction to an event, as state, messages and capture.
///
/// An event that the content already captured leaves the cell alone.
/// Otherwise hovering is measured first. A press grabs each resizable edge
/// whose band is under the cursor, and presses the cell when the cursor is
/// over it; either captures the event. A release ends each drag that goes
/// on and publishes its release message, then ends a press, publishing the
/// press message when the cursor is still over the cell; each of these
/// captures the event. A move publishes, for each drag that goes on, where
/// it began and where the cursor is, and captures the event. A lost finger
/// ends a press, silently.
pub open spec fn reaction<P>(
    s: State<P>,
    f: Features,
    captured: bool,
    e: Pointer,
    p: Probe<P>,
) -> (State<P>, Seq<Publish<P>>, bool) {
    if captured {
        (s, Seq::empty(), false)
    } else {
        let h = hovered(s, f, p);
        match e {
            Pointer::Pressed => (
                State {
                    drag_origin_horizontal: if grabs_horizontal(f, p) {
                        p.over_horizontal_edge
                    } else {
                        h.drag_origin_horizontal
                    },
                    drag_origin_vertical: if grabs_vertical(f, p) {
                        p.over_vertical_edge
                    } else {
                        h.drag_origin_vertical
                    },
                    is_pressed: h.is_pressed || p.over_bounds,
                    ..h
                },
                Seq::empty(),
                grabs_horizontal(f, p) || grabs_vertical(f, p) || p.over_bounds,
            ),
            Pointer::Released => (
                State {
                    drag_origin_horizontal: if f.resize_horizontal {
                        None
                    } else {
                        h.drag_origin_horizontal
                    },
                    drag_origin_vertical: if f.resize_vertical {
                        None
                    } else {
                        h.drag_origin_vertical
                    },
                    is_pressed: false,
                    ..h
                },
                when(drops_horizontal(s, f), Publish::ReleaseHorizontal) + when(
                    drops_vertical(s, f),
                    Publish::ReleaseVertical,
                ) + when(s.is_pressed && p.over_bounds && f.press, Publish::Press),
                drops_horizontal(s, f) || drops_vertical(s, f) || s.is_pressed,
            ),
            Pointer::Moved => (
                h,
                drag_horizontal(s, f, p) + drag_vertical(s, f, p),
                drag_horizontal(s, f, p).len() > 0 || drag_vertical(s, f, p).len() > 0,
            ),
            Pointer::Lost => (State { is_pressed: false, ..h }, Seq::empty(), false),
            Pointer::Other => (h, Seq::empty(), false),
        }
    }
}

/// Decides what a cell does about an event. `captured` tells whether the
/// cell's content already captured it.
pub fn react<P: Copy>(
    state: State<P>,
    features: Features,
    captured: bool,
    event: Pointer,
    probe: Probe<P>,
) -> (r: Reaction<P>)
    ensures
        (r.state, r.messages@, r.capture) == reaction(state, features, captured, event, probe),
{
    let mut messages: Vec<Publish<P>> = Vec::new();
    if captured {
        return Reaction { state, messages, capture: false };
    }
    let mut next = state;
    let mut capture = false;
    if features.resize_horizontal {
        next.is_resize_hovered_horizontal = probe.over_horizontal_edge.is_some();
    }
    if features.resize_vertical {
        next.is_resize_hovered_vertical = probe.over_vertical_edge.is_some();
    }
    match event {
        Pointer::Pressed => {
            if features.resize_horizontal {
                if let Some(origin) = probe.over_horizontal_edge {
                    next.drag_origin_horizontal = Some(origin);
                    capture = true;
                }
            }
            if features.resize_vertical {
                if let Some(origin) = probe.over_vertical_edge {
                    next.drag_origin_vertical = Some(origin);
                    capture = true;
                }
            }
            if probe.over_bounds {
                next.is_pressed = true;
                capture = true;
            }
        },
        Pointer::Released => {
            if features.resize_horizontal {
                if next.drag_origin_horizontal.is_some() {
                    messages.push(Publish::ReleaseHorizontal);
                    capture = true;
                }
                next.drag_origin_horizontal = None;
            }
            if features.resize_vertical {
                if next.drag_origin_vertical.is_some() {
                    messages.push(Publish::ReleaseVertical);
                    capture = true;
                }
                next.drag_origin_vertical = None;
            }
            if next.is_pressed {
                next.is_pressed = false;
                if probe.over_bounds && features.press {
                    messages.push(Publish::Press);
                }
                capture = true;
            }
        },
        Pointer::Moved => {
            if features.resize_horizontal {
                if let Some(position) = probe.position {
                    if let Some(origin) = next.drag_origin_horizontal {
                        messages.push(Publish::DragHorizontal { origin, position });
                        capture = true;
                    }
                }
            }
            if features.resize_vertical {
                if let Some(position) = probe.position {
                    if let Some(origin) = next.drag_origin_vertical {
                        messages.push(Publish::DragVertical { origin, position });
                        capture = true;
                    }
                }
            }
        },
        Pointer::Lost => {
            next.is_pressed = false;
        },
        Pointer::Other => {},
    }
    Reaction { state: next, messages, capture }
}

/// A click publishes the press message once: pressing over a cell that has
/// one, away from any edge it could resize and with no drag going on, then
/// releasing over it, captures both events, publishes nothing on the press
/// and exactly the press message on the release, and leaves the cell
/// unpressed.
pub proof fn lemma_click_publishes_press<P>(s: State<P>, f: Features, down: Probe<P>, up: Probe<P>)
    requires
        f.press,
        down.over_bounds,
        up.over_bounds,
        !grabs_horizontal(f, down),
        !grabs_vertical(f, down),
        !drops_horizontal(s, f),
        !drops_vertical(s, f),
    ensures
        ({
            let (pressed, m1, c1) = reaction(s, f, false, Pointer::Pressed, down);
            let (released, m2, c2) = reaction(pressed, f, false, Pointer::Released, up);
            &&& pressed.is_pressed
            &&& m1 == Seq::<Publish<P>>::empty()
            &&& c1
            &&& m2 == seq![Publish::<P>::Press]
            &&& c2
            &&& !released.is_pressed
        }),
{
    let (pressed, m1, c1) = reaction(s, f, false, Pointer::Pressed, down);
    let (released, m2, c2) = reaction(pressed, f, false, Pointer::Released, up);
    assert(m2 =~= seq![Publish::<P>::Press]);
}

/// Dragging the right edge reports where it began: a press over the band of
/// a resizable right edge at `origin`, then a move of the cursor to
/// `position`, publishes first the drag from `origin` to `position`; a
/// release after it publishes first the end of the drag, and forgets the
/// origin.
pub proof fn lemma_drag_horizontal<P>(
    s: State<P>,
    f: Features,
    down: Probe<P>,
    moved: Probe<P>,
    up: Probe<P>,
    origin: P,
    position: P,
)
    requires
        f.resize_horizontal,
        down.over_horizontal_edge == Some(origin),
        moved.position == Some(position),
    ensures
        ({
            let (grabbed, _, c1) = reaction(s, f, false, Pointer::Pressed, down);
            let (dragged, m2, c2) = reaction(grabbed, f, false, Pointer::Moved, moved);
            let (dropped, m3, c3) = reaction(dragged, f, false, Pointer::Released, up);
            &&& grabbed.drag_origin_horizontal == Some(origin)
            &&& c1
            &&& m2.len() > 0
            &&& m2[0] == (Publish::DragHorizontal { origin, position })
            &&& c2
            &&& dragged.drag_origin_horizontal == Some(origin)
            &&& m3.len() > 0
            &&& m3[0] == Publish::<P>::ReleaseHorizontal
            &&& c3
            &&& dropped.drag_origin_horizontal is None
        }),
{
}

/// The look of the mouse cursor over a cell.
#[derive(Debug, Clone, Copy, PartialEq, Eq, Structural)]
pub enum Look {
    /// The right edge is hovered or dragged.
    ResizingHorizontally,
    /// The bottom edge is hovered or dragged.
    ResizingVertically,
    /// A clickable cell is under the cursor.
    Pointer,
    /// The cursor keeps its default look.
    Plain,
    /// The content decides.
    Content,
}

/// The look of the cursor: resizing while an edge is dragged or hovered,
/// the right edge first; else, for a clickable cell, a pointer when the
/// cursor is over it and the default look when not; else what the content
/// asks for.
pub open spec fn look_of<P>(s: State<P>, clickable: bool, over_bounds: bool) -> Look {
    if s.drag_origin_horizontal is Some || s.is_resize_hovered_horizontal {
        Look::ResizingHorizontally
    } else if s.drag_origin_vertical is Some || s.is_resize_hovered_vertical {
        Look::ResizingVertically
    } else if clickable {
        if over_bounds {
            Look::Pointer
        } else {
            Look::Plain
        }
    } else {
        Look::Content
    }
}

/// Decides the look of the cursor over a cell.
pub fn look<P>(state: &State<P>, clickable: bool, over_bounds: bool) -> (r: Look)
    ensures
        r == look_of(*state, clickable, over_bounds),
{
    if state.drag_origin_horizontal.is_some() || state.is_resize_hovered_horizontal {
        Look::ResizingHorizontally
    } else if state.drag_origin_vertical.is_some() || state.is_resize_hovered_vertical {
        Look::ResizingVertically
    } else if clickable {
        if over_bounds {
            Look::Pointer
        } else {
            Look::Plain
        }
    } else {
        Look::Content
    }
}

} // verus!
