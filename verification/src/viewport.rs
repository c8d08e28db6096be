//! The 3D viewport's data: the scene snapshot it draws, the number of points
//! it draws, the scissor rectangle of a render pass, and the mouse drag state
//! machine that turns mouse events into camera orbit, pan and zoom.
use vstd::prelude::*;

verus! {

/// Most entity points the viewport draws.
pub const MAX_SPHERE_POINTS: u32 = 256;

/// Application-level viewport state: the number of entities in the scene.
#[derive(Debug)]
pub struct ViewportState {
    pub entity_count: u64,
}

impl Default for ViewportState {
    /// No entities.
    fn default() -> (s: Self)
        ensures
            s.entity_count == 0,
    {
        ViewportState { entity_count: 0 }
    }
}

/// The per-frame viewport program: the number of entities to draw.
#[derive(Debug)]
pub struct ViewportProgram {
    pub entity_count: u64,
}

/// The number of points drawn for `n` entities: `n` taken as a 32-bit number
/// (its low 32 bits), at most `MAX_SPHERE_POINTS`.
pub open spec fn drawn_points(n: u64) -> u32 {
    let low = (n % 0x1_0000_0000) as u32;
    if low < MAX_SPHERE_POINTS {
        low
    } else {
        MAX_SPHERE_POINTS
    }
}

impl ViewportProgram {
    /// The number of entity points this frame draws.
    pub fn point_count(&self) -> (r: u32)
        ensures
            r == drawn_points(self.entity_count),
    {
        let low: u32 = (self.entity_count % 0x1_0000_0000) as u32;
        if low < MAX_SPHERE_POINTS {
            low
        } else {
            MAX_SPHERE_POINTS
        }
    }
}

/// A rectangle in whole pixels.
#[derive(Debug, Clone, Copy, PartialEq, Eq, Structural)]
pub struct ScissorRect {
    pub x: u32,
    pub y: u32,
    pub width: u32,
    pub height: u32,
}

/// The scissor rectangle of a render pass clipped to `clip`: the same corner,
/// and at least one pixel wide and high (a render pass refuses an empty one).
pub fn clip_to_scissor_rect(clip: &ScissorRect) -> (r: ScissorRect)
    ensures
        r.x == clip.x,
        r.y == clip.y,
        r.width == if clip.width < 1 {
            1
        } else {
            clip.width
        },
        r.height == if clip.height < 1 {
            1
        } else {
            clip.height
        },
{
    ScissorRect {
        x: clip.x,
        y: clip.y,
        width: if clip.width < 1 {
            1
        } else {
            clip.width
        },
        height: if clip.height < 1 {
            1
        } else {
            clip.height
        },
    }
}

/// Which mouse button an event is about.
#[derive(Debug, Clone, Copy, PartialEq, Eq, Structural)]
pub enum MouseButton {
    Left,
    Right,
    Other,
}

/// The mouse events the viewport reacts to; `P` is a cursor position.
#[derive(Debug, Clone, Copy)]
pub enum MouseEvent<P> {
    /// A button went down, with the cursor position if the cursor is over the
    /// viewport.
    Pressed(MouseButton, Option<P>),
    /// A button went up.
    Released,
    /// The cursor moved to a position.
    Moved(P),
    /// The wheel turned.
    Wheel,
    /// Anything else.
    Other,
}

/// What a drag is doing, with the cursor position it last saw.
#[derive(Debug, Clone, Copy)]
pub enum DragState<P> {
    Idle,
    Orbiting { last: P },
    Panning { last: P },
}

/// What the camera does in answer to an event; every answer but `Ignore`
/// captures the event.
#[derive(Debug, Clone, Copy)]
pub enum CameraCommand<P> {
    /// The event is not the viewport's.
    Ignore,
    /// The event is taken, the camera stays.
    Capture,
    /// Orbit by the cursor's movement from the first to the second position.
    Orbit(P, P),
    /// Pan by the cursor's movement from the first to the second position.
    Pan(P, P),
    /// Zoom by the wheel's movement.
    Zoom,
}

/// The drag state and camera command after `event` in state `d`.
pub open spec fn drag_step<P>(d: DragState<P>, event: MouseEvent<P>) -> (DragState<P>, CameraCommand<P>) {
    match event {
        MouseEvent::Pressed(MouseButton::Left, Some(p)) => (
            DragState::Orbiting { last: p },
            CameraCommand::Capture,
        ),
        MouseEvent::Pressed(MouseButton::Right, Some(p)) => (
            DragState::Panning { last: p },
            CameraCommand::Capture,
        ),
        MouseEvent::Released => match d {
            DragState::Idle => (d, CameraCommand::Ignore),
            _ => (DragState::Idle, CameraCommand::Capture),
        },
        MouseEvent::Moved(p) => match d {
            DragState::Orbiting { last } => (DragState::Orbiting { last: p }, CameraCommand::Orbit(last, p)),
            DragState::Panning { last } => (DragState::Panning { last: p }, CameraCommand::Pan(last, p)),
            DragState::Idle => (d, CameraCommand::Ignore),
        },
        MouseEvent::Wheel => (d, CameraCommand::Zoom),
        _ => (d, CameraCommand::Ignore),
    }
}

/// Advances the drag state machine by one mouse event.
pub fn drag_update<P: Copy>(drag: &mut DragState<P>, event: MouseEvent<P>) -> (c: CameraCommand<P>)
    ensures
        (*final(drag), c) == drag_step(*old(drag), event),
{
    match event {
        MouseEvent::Pressed(MouseButton::Left, Some(p)) => {
            *drag = DragState::Orbiting { last: p };
            CameraCommand::Capture
        },
        MouseEvent::Pressed(MouseButton::Right, Some(p)) => {
            *drag = DragState::Panning { last: p };
            CameraCommand::Capture
        },
        MouseEvent::Released => match *drag {
            DragState::Idle => CameraCommand::Ignore,
            _ => {
                *drag = DragState::Idle;
                CameraCommand::Capture
            },
        },
        MouseEvent::Moved(p) => match *drag {
            DragState::Orbiting { last } => {
                *drag = DragState::Orbiting { last: p };
                CameraCommand::Orbit(last, p)
            },
            DragState::Panning { last } => {
                *drag = DragState::Panning { last: p };
                CameraCommand::Pan(last, p)
            },
            DragState::Idle => CameraCommand::Ignore,
        },
        MouseEvent::Wheel => CameraCommand::Zoom,
        _ => CameraCommand::Ignore,
    }
}

/// The mouse cursor the viewport shows.
#[derive(Debug, Clone, Copy, PartialEq, Eq, Structural)]
pub enum CursorKind {
    Grab,
    ResizingHorizontally,
    Crosshair,
}

/// The cursor for a drag state: a grab while orbiting, a horizontal resize
/// arrow while panning, a crosshair otherwise.
pub fn mouse_interaction<P>(drag: &DragState<P>) -> (c: CursorKind)
    ensures
        c == match *drag {
            DragState::Orbiting { .. } => CursorKind::Grab,
            DragState::Panning { .. } => CursorKind::ResizingHorizontally,
            DragState::Idle => CursorKind::Crosshair,
        },
{
    match drag {
        DragState::Orbiting { .. } => CursorKind::Grab,
        DragState::Panning { .. } => CursorKind::ResizingHorizontally,
        DragState::Idle => CursorKind::Crosshair,
    }
}

/// Consecutive drag commands chain: when a cursor move orbits (or pans) the
/// camera from `from` to `p`, the drag goes on from `p`, so the next move to
/// `q` orbits (or pans) from `p` to `q`, and never again over the distance
/// already covered. A drag started by pressing at `p` turns its first move to
/// `q` into a command from `p` to `q`; after a release, moves do nothing.
pub proof fn lemma_drag_moves_chain<P>(d: DragState<P>, p: P, q: P)
    ensures
        drag_step(d, MouseEvent::Moved(p)).1 matches CameraCommand::Orbit(from, to) ==> (to == p
            && drag_step(drag_step(d, MouseEvent::Moved(p)).0, MouseEvent::Moved(q)).1
            == CameraCommand::Orbit(p, q)),
        drag_step(d, MouseEvent::Moved(p)).1 matches CameraCommand::Pan(from, to) ==> (to == p
            && drag_step(drag_step(d, MouseEvent::Moved(p)).0, MouseEvent::Moved(q)).1
            == CameraCommand::Pan(p, q)),
        drag_step(
            drag_step(d, MouseEvent::Pressed(MouseButton::Left, Some(p))).0,
            MouseEvent::Moved(q),
        ).1 == CameraCommand::Orbit(p, q),
        drag_step(
            drag_step(d, MouseEvent::Pressed(MouseButton::Right, Some(p))).0,
            MouseEvent::Moved(q),
        ).1 == CameraCommand::Pan(p, q),
        drag_step(drag_step(d, MouseEvent::Released).0, MouseEvent::Moved(q)).1 is Ignore,
{
}

} // verus!
