use vstd::prelude::*;
use crate::pointer::{left_by, shown_by_mouse, shown_by_pen, PointerState};
use crate::sizing::{after_drag, after_end, driven_by, BrushSizing, SizeGesture};
use crate::selector::SelectorInteraction;
use crate::tool::{PointerSource, Tool};

verus! {

/// The mouse buttons in one frame.
#[derive(Clone, Copy, Debug, Default)]
pub struct MouseButtons {
    pub left: bool,
    pub right: bool,
    pub left_just_pressed: bool,
    pub right_just_pressed: bool,
    pub left_just_released: bool,
    pub right_just_released: bool,
}

/// The stroke that the mouse draws, if any (the host's handle `S` on it),
/// and the tool it draws with.
pub struct MouseStroke<S> {
    pub stroke: Option<S>,
    pub tool: Tool,
}

/// How a frame of mouse drawing proceeds: whether a button presses, the
/// tool in use, and whether the colour selector holds the mouse.
#[derive(Clone, Copy, Debug, PartialEq, Eq, Structural)]
pub struct MouseFrame {
    pub down: bool,
    pub tool: Tool,
    pub blocked: bool,
}

/// What one mouse position does in the paint mode.
pub enum MouseMove<P, Z, S> {
    /// Shift-drag: the brush size follows `gesture`; `finished` is the
    /// stroke that this ended, which the host is to finish.
    Resize { gesture: SizeGesture<P, Z>, finished: Option<S> },
    /// The position extends the stroke, or starts one if none is drawn.
    Draw,
    /// No button presses: the pointer only moves.
    Hover,
}

/// How the tablet pen moved in one event.
#[derive(Clone, Copy, Debug, PartialEq, Eq, Structural)]
pub enum PenMotion {
    Entered,
    Moved,
    /// The pen touched (`true`) or left (`false`) the surface.
    Contact(bool),
    Left,
    /// A press or release of another pen button.
    OtherButton,
}

/// One event of a tablet pen: whether it is the primary pen, the tool its
/// tip selects, its position if known, its reading (neutral on entering),
/// how it moved, and whether its position lies outside the colour
/// selector.
pub struct PenEvent<P, R> {
    pub primary: bool,
    pub tool: Tool,
    pub position: Option<P>,
    pub reading: R,
    pub motion: PenMotion,
    pub outside_selector: bool,
}

/// A mouse stroke and a brush-size drag of the mouse never run at once.
pub open spec fn exclusive<S, P, Z>(stroke: Option<S>, gesture: Option<SizeGesture<P, Z>>) -> bool {
    !(stroke is Some && driven_by(gesture, PointerSource::Mouse))
}

/// Whether a mouse button presses.
pub open spec fn is_down(buttons: MouseButtons) -> bool {
    buttons.left || buttons.right
}

/// Whether a mouse button was just pressed.
pub open spec fn is_pressed(buttons: MouseButtons) -> bool {
    buttons.left_just_pressed || buttons.right_just_pressed
}

/// Whether a mouse button was just released.
pub open spec fn is_released(buttons: MouseButtons) -> bool {
    buttons.left_just_released || buttons.right_just_released
}

/// The paint tool of the mouse: the right button erases, the left draws,
/// and with no button the tool stays `current`.
pub open spec fn paint_mouse_tool(buttons: MouseButtons, current: Tool) -> Tool {
    if buttons.right {
        Tool::Eraser
    } else if is_down(buttons) {
        Tool::Pen
    } else {
        current
    }
}

/// The vector tool of the mouse: the right button erases, otherwise the
/// pen.
pub open spec fn vector_mouse_tool_for(buttons: MouseButtons) -> Tool {
    if buttons.right {
        Tool::Eraser
    } else {
        Tool::Pen
    }
}

/// Whether a pen event resizes the brush.
pub open spec fn pen_resizes<P, R>(
    pointer: PointerState<P, R>,
    event: PenEvent<P, R>,
    shift: bool,
    guard_selector: bool,
    selector_busy: bool,
) -> bool {
    &&& event.primary
    &&& event.position is Some
    &&& shift
    &&& event.outside_selector
    &&& match event.motion {
        PenMotion::Moved => pointer.pen_contact && (!guard_selector || !selector_busy),
        PenMotion::Contact(pressed) => pressed,
        _ => false,
    }
}

/// The pointer after a pen event.
pub open spec fn pointer_after_pen<P, R>(pointer: PointerState<P, R>, event: PenEvent<P, R>) -> PointerState<
    P,
    R,
> {
    if !event.primary {
        pointer
    } else {
        match event.motion {
            PenMotion::Entered | PenMotion::Moved => match event.position {
                Some(p) => shown_by_pen(pointer, p, event.reading, event.tool),
                None => pointer,
            },
            PenMotion::Contact(pressed) => {
                let touched = PointerState { pen_contact: pressed, ..pointer };
                match event.position {
                    Some(p) => shown_by_pen(touched, p, event.reading, event.tool),
                    None => touched,
                }
            },
            PenMotion::Left => left_by(PointerState { pen_contact: false, ..pointer }, PointerSource::Tablet),
            PenMotion::OtherButton => pointer,
        }
    }
}

/// The size gesture after a pen event, with the tool at `current_size`.
pub open spec fn sizing_after_pen<P, R, Z>(
    gesture: Option<SizeGesture<P, Z>>,
    pointer: PointerState<P, R>,
    event: PenEvent<P, R>,
    shift: bool,
    guard_selector: bool,
    selector_busy: bool,
    current_size: Z,
) -> Option<SizeGesture<P, Z>> {
    if pen_resizes(pointer, event, shift, guard_selector, selector_busy) {
        Some(after_drag(gesture, PointerSource::Tablet, event.tool, event.position->0, current_size))
    } else if event.primary && (event.motion == PenMotion::Contact(false) || event.motion
        == PenMotion::Left) {
        after_end(gesture, PointerSource::Tablet)
    } else {
        gesture
    }
}

/// The tool that a pen tip selects: the eraser end erases.
pub fn pen_tool(eraser_tip: bool) -> (t: Tool)
    ensures
        t == (if eraser_tip {
            Tool::Eraser
        } else {
            Tool::Pen
        }),
{
    if eraser_tip {
        Tool::Eraser
    } else {
        Tool::Pen
    }
}

/// The tool that the mouse drives in the vector mode.
pub fn vector_mouse_tool(buttons: MouseButtons) -> (t: Tool)
    ensures
        t == vector_mouse_tool_for(buttons),
        (t == Tool::Eraser) == buttons.right,
        (t == Tool::Pen) == !buttons.right,
{
    if buttons.right {
        Tool::Eraser
    } else {
        Tool::Pen
    }
}

impl<S> Default for MouseStroke<S> {
    /// No stroke; the pen tool.
    fn default() -> (m: Self)
        ensures
            m.stroke is None,
            m.tool == Tool::Pen,
    {
        MouseStroke { stroke: None, tool: Tool::Pen }
    }
}

impl<S> MouseStroke<S> {
    /// Takes the stroke being drawn, if any: the host finishes it, or
    /// drops it when the document was cleared or replaced.
    pub fn take_stroke(&mut self) -> (s: Option<S>)
        ensures
            s == old(self).stroke,
            final(self).stroke is None,
            final(self).tool == old(self).tool,
    {
        self.stroke.take()
    }

    /// A stroke with `tool` has begun.
    pub fn begin(&mut self, stroke: S, tool: Tool)
        ensures
            final(self).stroke == Some(stroke),
            final(self).tool == tool,
    {
        self.stroke = Some(stroke);
        self.tool = tool;
    }
}

/// Starts a frame of mouse drawing in the paint mode: works out whether a
/// button presses and the tool; if the colour selector holds the mouse,
/// the frame is blocked, and the stroke and the mouse's size gesture end;
/// otherwise a new press, or a change of tool while pressing, ends the
/// stroke. Returns the frame and the stroke to finish, if any.
pub fn start_mouse_frame<P: Copy, Z: Copy, S>(
    mouse: &mut MouseStroke<S>,
    sizing: &mut BrushSizing<P, Z>,
    buttons: MouseButtons,
    pointer_tool: Tool,
    selector_busy: bool,
) -> (out: (MouseFrame, Option<S>))
    ensures
        out.0 == (MouseFrame {
            down: is_down(buttons),
            tool: paint_mouse_tool(buttons, pointer_tool),
            blocked: selector_busy,
        }),
        out.0.down == (buttons.left || buttons.right),
        buttons.right ==> out.0.tool == Tool::Eraser,
        buttons.left && !buttons.right ==> out.0.tool == Tool::Pen,
        !buttons.left && !buttons.right ==> out.0.tool == pointer_tool,
        final(mouse).tool == old(mouse).tool,
        ({
            let ends = selector_busy || (is_down(buttons) && (is_pressed(buttons) || old(mouse).tool
                != paint_mouse_tool(buttons, pointer_tool)));
            &&& ends ==> out.1 == old(mouse).stroke && final(mouse).stroke is None
            &&& !ends ==> out.1 is None && final(mouse).stroke == old(mouse).stroke
        }),
        final(sizing).gesture == (if selector_busy {
            after_end(old(sizing).gesture, PointerSource::Mouse)
        } else {
            old(sizing).gesture
        }),
        exclusive(old(mouse).stroke, old(sizing).gesture) ==> exclusive(
            final(mouse).stroke,
            final(sizing).gesture,
        ),
{
    let down = buttons.left || buttons.right;
    let tool = if buttons.right {
        Tool::Eraser
    } else if down {
        Tool::Pen
    } else {
        pointer_tool
    };
    let pressed = buttons.left_just_pressed || buttons.right_just_pressed;
    let frame = MouseFrame { down, tool, blocked: selector_busy };
    if selector_busy {
        let finished = mouse.take_stroke();
        sizing.end(PointerSource::Mouse);
        return (frame, finished);
    }
    if down && (pressed || mouse.tool != tool) {
        let finished = mouse.take_stroke();
        (frame, finished)
    } else {
        (frame, None)
    }
}

/// One mouse position of a paint frame: the pointer follows it; with a
/// button and Shift the stroke ends and the brush size follows a mouse
/// gesture; with a button alone the mouse's size gesture ends and the
/// position draws; with no button the pointer only moves.
pub fn mouse_move<P: Copy, R, Z: Copy, S>(
    pointer: &mut PointerState<P, R>,
    sizing: &mut BrushSizing<P, Z>,
    mouse: &mut MouseStroke<S>,
    frame: MouseFrame,
    position: P,
    neutral: R,
    shift: bool,
    current_size: Z,
) -> (m: MouseMove<P, Z, S>)
    ensures
        *final(pointer) == shown_by_mouse(*old(pointer), position, neutral, frame.tool, frame.down),
        final(mouse).tool == old(mouse).tool,
        frame.down && shift ==> {
            let g = after_drag(
                old(sizing).gesture,
                PointerSource::Mouse,
                frame.tool,
                position,
                current_size,
            );
            &&& m matches MouseMove::Resize { gesture, finished } && gesture == g && finished == old(
                mouse,
            ).stroke
            &&& final(sizing).gesture == Some(g)
            &&& final(mouse).stroke is None
        },
        frame.down && !shift ==> {
            &&& m is Draw
            &&& final(sizing).gesture == after_end(old(sizing).gesture, PointerSource::Mouse)
            &&& final(mouse).stroke == old(mouse).stroke
        },
        !frame.down ==> {
            &&& m is Hover
            &&& final(sizing).gesture == old(sizing).gesture
            &&& final(mouse).stroke == old(mouse).stroke
        },
        exclusive(old(mouse).stroke, old(sizing).gesture) ==> exclusive(
            final(mouse).stroke,
            final(sizing).gesture,
        ),
        m is Draw ==> !driven_by(final(sizing).gesture, PointerSource::Mouse),
{
    pointer.show_mouse(position, neutral, frame.tool, frame.down);
    if frame.down && shift {
        let finished = mouse.take_stroke();
        let gesture = sizing.drag(PointerSource::Mouse, frame.tool, position, current_size);
        MouseMove::Resize { gesture, finished }
    } else if frame.down {
        sizing.end(PointerSource::Mouse);
        MouseMove::Draw
    } else {
        MouseMove::Hover
    }
}

/// Ends a frame of paint mouse drawing: once no button presses, or one
/// was just released, the stroke and the mouse's size gesture end and a
/// mouse pointer stops pressing. Returns the stroke to finish, if any.
pub fn finish_mouse_frame<P: Copy, R, Z: Copy, S>(
    pointer: &mut PointerState<P, R>,
    sizing: &mut BrushSizing<P, Z>,
    mouse: &mut MouseStroke<S>,
    buttons: MouseButtons,
) -> (finished: Option<S>)
    ensures
        final(mouse).tool == old(mouse).tool,
        !is_down(buttons) || is_released(buttons) ==> {
            &&& finished == old(mouse).stroke
            &&& final(mouse).stroke is None
            &&& final(sizing).gesture == after_end(old(sizing).gesture, PointerSource::Mouse)
            &&& *final(pointer) == (if old(pointer).source == PointerSource::Mouse {
                (PointerState { down: false, ..*old(pointer) })
            } else {
                *old(pointer)
            })
        },
        is_down(buttons) && !is_released(buttons) ==> {
            &&& finished is None
            &&& final(mouse).stroke == old(mouse).stroke
            &&& final(sizing).gesture == old(sizing).gesture
            &&& *final(pointer) == *old(pointer)
        },
        exclusive(old(mouse).stroke, old(sizing).gesture) ==> exclusive(
            final(mouse).stroke,
            final(sizing).gesture,
        ),
{
    let down = buttons.left || buttons.right;
    let released = buttons.left_just_released || buttons.right_just_released;
    if !down || released {
        let finished = mouse.take_stroke();
        sizing.end(PointerSource::Mouse);
        pointer.lift(PointerSource::Mouse);
        finished
    } else {
        None
    }
}

/// The mouse left the window: its size gesture ends, and a mouse pointer
/// disappears and stops pressing.
pub fn mouse_left_window<P: Copy, R, Z: Copy>(
    pointer: &mut PointerState<P, R>,
    sizing: &mut BrushSizing<P, Z>,
)
    ensures
        *final(pointer) == left_by(*old(pointer), PointerSource::Mouse),
        final(sizing).gesture == after_end(old(sizing).gesture, PointerSource::Mouse),
{
    sizing.end(PointerSource::Mouse);
    pointer.leave(PointerSource::Mouse);
}

/// One cursor position in the vector mode: the pointer follows it, and
/// with a button and Shift held, away from the colour selector, the brush
/// size follows a mouse gesture, which is returned.
pub fn vector_mouse_move<P: Copy, R, Z: Copy>(
    pointer: &mut PointerState<P, R>,
    sizing: &mut BrushSizing<P, Z>,
    position: P,
    neutral: R,
    buttons: MouseButtons,
    shift: bool,
    selector_busy: bool,
    outside_selector: bool,
    current_size: Z,
) -> (g: Option<SizeGesture<P, Z>>)
    ensures
        *final(pointer) == shown_by_mouse(
            *old(pointer),
            position,
            neutral,
            vector_mouse_tool_for(buttons),
            is_down(buttons),
        ),
        final(pointer).tool == (if buttons.right {
            Tool::Eraser
        } else {
            Tool::Pen
        }),
        final(pointer).position == Some(position),
        final(pointer).down == (buttons.left || buttons.right),
        ({
            let resizes = is_down(buttons) && shift && !selector_busy && outside_selector;
            &&& resizes ==> g == Some(
                after_drag(
                    old(sizing).gesture,
                    PointerSource::Mouse,
                    vector_mouse_tool_for(buttons),
                    position,
                    current_size,
                ),
            ) && final(sizing).gesture == g
            &&& !resizes ==> g is None && final(sizing).gesture == old(sizing).gesture
        }),
{
    let down = buttons.left || buttons.right;
    let tool = vector_mouse_tool(buttons);
    pointer.show_mouse(position, neutral, tool, down);
    if down && shift && !selector_busy && outside_selector {
        Some(sizing.drag(PointerSource::Mouse, tool, position, current_size))
    } else {
        None
    }
}

/// After the cursor positions of a vector frame: without a button or
/// without Shift, the mouse's size gesture ends.
pub fn settle_mouse_sizing<P: Copy, Z: Copy>(
    sizing: &mut BrushSizing<P, Z>,
    buttons: MouseButtons,
    shift: bool,
)
    ensures
        final(sizing).gesture == (if !is_down(buttons) || !shift {
            after_end(old(sizing).gesture, PointerSource::Mouse)
        } else {
            old(sizing).gesture
        }),
{
    if !(buttons.left || buttons.right) || !shift {
        sizing.end(PointerSource::Mouse);
    }
}

/// Before the pen events of a frame: without Shift, the tablet's size
/// gesture ends.
pub fn settle_tablet_sizing<P: Copy, Z: Copy>(sizing: &mut BrushSizing<P, Z>, shift: bool)
    ensures
        final(sizing).gesture == (if !shift {
            after_end(old(sizing).gesture, PointerSource::Tablet)
        } else {
            old(sizing).gesture
        }),
{
    if !shift {
        sizing.end(PointerSource::Tablet);
    }
}

/// One event of a tablet pen. Events of other pens than the primary one
/// are ignored. Entering, moving or touching shows the pointer at the
/// pen's position; touching and lifting set whether the pen touches, and
/// lifting ends the tablet's size gesture; leaving ends it, hides a tablet
/// pointer and lifts the pen. With Shift held, away from the colour
/// selector, moving while touching (and, where `guard_selector`, while
/// the selector is idle) or touching resizes the brush: the tablet
/// gesture in force is returned.
pub fn pen_step<P: Copy, R: Copy, Z: Copy>(
    pointer: &mut PointerState<P, R>,
    sizing: &mut BrushSizing<P, Z>,
    event: PenEvent<P, R>,
    shift: bool,
    guard_selector: bool,
    selector_busy: bool,
    current_size: Z,
) -> (g: Option<SizeGesture<P, Z>>)
    ensures
        *final(pointer) == pointer_after_pen(*old(pointer), event),
        final(sizing).gesture == sizing_after_pen(
            old(sizing).gesture,
            *old(pointer),
            event,
            shift,
            guard_selector,
            selector_busy,
            current_size,
        ),
        g == (if pen_resizes(*old(pointer), event, shift, guard_selector, selector_busy) {
            final(sizing).gesture
        } else {
            None
        }),
        event.primary && event.position is Some && (event.motion is Entered || event.motion is Moved
            || event.motion is Contact) ==> {
            &&& final(pointer).tool == event.tool
            &&& final(pointer).position == event.position
            &&& final(pointer).reading == event.reading
            &&& final(pointer).source == PointerSource::Tablet
        },
        !event.primary ==> *final(pointer) == *old(pointer) && final(sizing).gesture == old(
            sizing,
        ).gesture && g is None,
        g matches Some(gesture) ==> gesture.source == PointerSource::Tablet && gesture.tool
            == event.tool,
{
    if !event.primary {
        return None;
    }
    match event.motion {
        PenMotion::Entered => {
            match event.position {
                Some(p) => pointer.show_pen(p, event.reading, event.tool),
                None => {},
            }
            None
        },
        PenMotion::Moved => {
            match event.position {
                Some(p) => {
                    pointer.show_pen(p, event.reading, event.tool);
                    if pointer.pen_contact && shift && (!guard_selector || !selector_busy)
                        && event.outside_selector {
                        Some(sizing.drag(PointerSource::Tablet, event.tool, p, current_size))
                    } else {
                        None
                    }
                },
                None => None,
            }
        },
        PenMotion::Contact(pressed) => {
            pointer.pen_contact = pressed;
            let g = match event.position {
                Some(p) => {
                    pointer.show_pen(p, event.reading, event.tool);
                    if pressed && shift && event.outside_selector {
                        Some(sizing.drag(PointerSource::Tablet, event.tool, p, current_size))
                    } else {
                        None
                    }
                },
                None => None,
            };
            if !pressed {
                sizing.end(PointerSource::Tablet);
            }
            g
        },
        PenMotion::Left => {
            pointer.pen_contact = false;
            sizing.end(PointerSource::Tablet);
            pointer.leave(PointerSource::Tablet);
            None
        },
        PenMotion::OtherButton => None,
    }
}

/// Where the mouse rests when no cursor moved this frame: the pointer's
/// position if the mouse placed it.
pub fn resting_mouse_position<P: Copy, R>(pointer: &PointerState<P, R>) -> (p: Option<P>)
    ensures
        p == (if pointer.source == PointerSource::Mouse {
            pointer.position
        } else {
            None
        }),
{
    if pointer.source == PointerSource::Mouse {
        pointer.position
    } else {
        None
    }
}

/// Whether the brush preview is drawn: where the pointer is, unless it is
/// drawing (pressing without resizing the brush) or the colour selector
/// holds it.
pub fn preview_shown<P: Copy, R, Z: Copy>(
    pointer: &PointerState<P, R>,
    sizing: &BrushSizing<P, Z>,
    selector: &SelectorInteraction,
) -> (b: bool)
    ensures
        b == (pointer.position is Some && !(pointer.down && !driven_by(sizing.gesture, pointer.source))
            && !selector.hovered && selector.drag is None),
{
    if (pointer.down && !sizing.active_for(pointer.source)) || selector.busy() {
        return false;
    }
    pointer.position.is_some()
}

/// The tablet never starts a size gesture of the mouse, so pen events
/// keep a mouse stroke and a mouse size drag apart.
pub proof fn pen_keeps_mouse_exclusive<S, P, R, Z>(
    stroke: Option<S>,
    gesture: Option<SizeGesture<P, Z>>,
    pointer: PointerState<P, R>,
    event: PenEvent<P, R>,
    shift: bool,
    guard_selector: bool,
    selector_busy: bool,
    current_size: Z,
)
    requires
        exclusive(stroke, gesture),
    ensures
        exclusive(
            stroke,
            sizing_after_pen(gesture, pointer, event, shift, guard_selector, selector_busy, current_size),
        ),
{
}

/// A primary pen that reports its position presses exactly while it
/// touches the surface.
pub proof fn pen_presses_while_touching<P, R>(pointer: PointerState<P, R>, event: PenEvent<P, R>)
    requires
        event.primary,
        event.position is Some,
        event.motion is Entered || event.motion is Moved || event.motion is Contact,
    ensures
        pointer_after_pen(pointer, event).down == pointer_after_pen(pointer, event).pen_contact,
        pointer_after_pen(pointer, event).source == PointerSource::Tablet,
        event.motion matches PenMotion::Contact(pressed) ==> pointer_after_pen(pointer, event).down
            == pressed,
{
}

/// Lifting the pen, or leaving the window with it, ends the tablet's size
/// gesture and the pen's contact; leaving also hides a tablet pointer.
pub proof fn lifting_the_pen_ends_its_drag<P, R, Z>(
    gesture: Option<SizeGesture<P, Z>>,
    pointer: PointerState<P, R>,
    event: PenEvent<P, R>,
    shift: bool,
    guard_selector: bool,
    selector_busy: bool,
    current_size: Z,
)
    requires
        event.primary,
        event.motion == PenMotion::Contact(false) || event.motion == PenMotion::Left,
    ensures
        !driven_by(
            sizing_after_pen(gesture, pointer, event, shift, guard_selector, selector_busy, current_size),
            PointerSource::Tablet,
        ),
        !pointer_after_pen(pointer, event).pen_contact,
        event.motion == PenMotion::Left && pointer.source == PointerSource::Tablet ==> {
            &&& pointer_after_pen(pointer, event).position is None
            &&& !pointer_after_pen(pointer, event).down
        },
{
}

/// Only a primary pen held with Shift resizes the brush, and then only
/// while it touches the surface away from the colour selector.
pub proof fn pen_resizes_only_when_touching_with_shift<P, R>(
    pointer: PointerState<P, R>,
    event: PenEvent<P, R>,
    shift: bool,
    guard_selector: bool,
    selector_busy: bool,
)
    requires
        pen_resizes(pointer, event, shift, guard_selector, selector_busy),
    ensures
        event.primary,
        shift,
        event.outside_selector,
        pointer_after_pen(pointer, event).pen_contact,
        pointer_after_pen(pointer, event).down,
{
}

/// The mouse's tool follows its buttons. In the paint mode the right
/// button erases, the left alone draws with the pen, and with neither the
/// tool stays. In the vector mode the tool is the eraser exactly while the
/// right button is held.
pub proof fn the_mouse_tool_follows_its_buttons(buttons: MouseButtons, current: Tool)
    ensures
        is_down(buttons) == (buttons.left || buttons.right),
        is_pressed(buttons) == (buttons.left_just_pressed || buttons.right_just_pressed),
        is_released(buttons) == (buttons.left_just_released || buttons.right_just_released),
        buttons.right ==> paint_mouse_tool(buttons, current) == Tool::Eraser,
        buttons.left && !buttons.right ==> paint_mouse_tool(buttons, current) == Tool::Pen,
        !buttons.left && !buttons.right ==> paint_mouse_tool(buttons, current) == current,
        (vector_mouse_tool_for(buttons) == Tool::Eraser) == buttons.right,
        (vector_mouse_tool_for(buttons) == Tool::Pen) == !buttons.right,
{
}

/// A primary pen that reports its position shows the pointer there, with
/// the tool its tip selects and its reading, as a tablet pointer, when it
/// enters, moves or touches. Events of other pens, and presses of other
/// pen buttons, change nothing.
pub proof fn the_pen_shows_its_tip_where_it_is<P, R, Z>(
    gesture: Option<SizeGesture<P, Z>>,
    pointer: PointerState<P, R>,
    event: PenEvent<P, R>,
    shift: bool,
    guard_selector: bool,
    selector_busy: bool,
    current_size: Z,
)
    ensures
        event.primary && event.position is Some && (event.motion is Entered || event.motion is Moved
            || event.motion is Contact) ==> {
            &&& pointer_after_pen(pointer, event).tool == event.tool
            &&& pointer_after_pen(pointer, event).position == event.position
            &&& pointer_after_pen(pointer, event).reading == event.reading
            &&& pointer_after_pen(pointer, event).source == PointerSource::Tablet
        },
        event.primary ==> (event.motion matches PenMotion::Contact(pressed) ==> pointer_after_pen(
            pointer,
            event,
        ).pen_contact == pressed),
        !event.primary || event.motion is OtherButton ==> {
            &&& pointer_after_pen(pointer, event) == pointer
            &&& sizing_after_pen(gesture, pointer, event, shift, guard_selector, selector_busy, current_size)
                == gesture
        },
{
}

/// Exactly when the pen resizes the brush: a primary pen with a known
/// position, Shift held, away from the colour selector, either touching
/// down or moving while it touches (and, where the selector is guarded,
/// while the selector is idle). A resize drives a tablet gesture of the
/// pen's tool.
pub proof fn when_the_pen_resizes<P, R, Z>(
    gesture: Option<SizeGesture<P, Z>>,
    pointer: PointerState<P, R>,
    event: PenEvent<P, R>,
    shift: bool,
    guard_selector: bool,
    selector_busy: bool,
    current_size: Z,
)
    ensures
        event.motion is Moved ==> (pen_resizes(pointer, event, shift, guard_selector, selector_busy) <==> (
        event.primary && event.position is Some && shift && event.outside_selector && pointer.pen_contact
            && (!guard_selector || !selector_busy))),
        event.motion == PenMotion::Contact(true) ==> (pen_resizes(
            pointer,
            event,
            shift,
            guard_selector,
            selector_busy,
        ) <==> (event.primary && event.position is Some && shift && event.outside_selector)),
        !(event.motion is Moved) && event.motion != PenMotion::Contact(true) ==> !pen_resizes(
            pointer,
            event,
            shift,
            guard_selector,
            selector_busy,
        ),
        pen_resizes(pointer, event, shift, guard_selector, selector_busy) ==> {
            let after = sizing_after_pen(
                gesture,
                pointer,
                event,
                shift,
                guard_selector,
                selector_busy,
                current_size,
            );
            &&& after matches Some(g) && g.source == PointerSource::Tablet && g.tool == event.tool
        },
{
}

} // verus!
