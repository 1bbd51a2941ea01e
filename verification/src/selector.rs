use vstd::prelude::*;

verus! {

/// The part of the colour selector under a pointer: the hue ring or the
/// saturation/value triangle.
#[derive(Clone, Copy, Debug, PartialEq, Eq, Structural)]
pub enum SelectorTarget {
    Hue,
    SaturationValue,
}

/// The device that drags in the colour selector.
#[derive(Clone, Copy, Debug, PartialEq, Eq, Structural)]
pub enum SelectorSource {
    Mouse,
    Pen,
}

/// A drag in the colour selector: what it adjusts and which device drags.
#[derive(Clone, Copy, Debug, PartialEq, Eq, Structural)]
pub struct SelectorDrag {
    pub target: SelectorTarget,
    pub source: SelectorSource,
}

/// The interaction state of the colour selector: the drag underway, if
/// any, and whether the mouse cursor is over it.
pub struct SelectorInteraction {
    pub drag: Option<SelectorDrag>,
    pub hovered: bool,
}

/// The mouse in one frame, as it bears on the selector.
#[derive(Clone, Copy)]
pub struct MouseOverSelector {
    /// The cursor lies over the selector's area.
    pub hovered: bool,
    /// The cursor is inside the window.
    pub cursor_present: bool,
    /// The part of the selector under the cursor, if any.
    pub target_under_cursor: Option<SelectorTarget>,
    pub left_just_pressed: bool,
    pub left_pressed: bool,
    pub left_just_released: bool,
}

/// What one frame of mouse input does to the selector: each target in
/// `applies`, in order, takes the cursor's position; `commit` says that a
/// drag ended and the chosen colour is to be committed.
pub struct MouseSelectorOutcome {
    pub applies: Vec<SelectorTarget>,
    pub commit: bool,
}

/// One event of the primary tablet pen, as it bears on the selector.
#[derive(Clone, Copy, Debug, PartialEq, Eq, Structural)]
pub enum PenOverSelector {
    /// The pen touched the surface; the part of the selector under it.
    ContactPressed(Option<SelectorTarget>),
    /// The pen moved.
    Moved,
    /// The pen lifted off the surface.
    ContactReleased,
    /// The pen left the window.
    Left,
    /// Anything else.
    Other,
}

/// What one pen event does to the selector: `apply` takes the pen's
/// position; `commit` as for the mouse.
#[derive(Clone, Copy, Debug, PartialEq, Eq, Structural)]
pub struct PenSelectorOutcome {
    pub apply: Option<SelectorTarget>,
    pub commit: bool,
}

/// Whether the mouse drags in the selector.
pub open spec fn is_mouse_drag(drag: Option<SelectorDrag>) -> bool {
    drag matches Some(d) && d.source == SelectorSource::Mouse
}

/// Whether the pen drags in the selector.
pub open spec fn is_pen_drag(drag: Option<SelectorDrag>) -> bool {
    drag matches Some(d) && d.source == SelectorSource::Pen
}

/// Whether the mouse grabs the selector this frame, and where.
pub open spec fn mouse_grab(input: MouseOverSelector) -> Option<SelectorTarget> {
    if input.left_just_pressed && input.cursor_present {
        input.target_under_cursor
    } else {
        None
    }
}

/// The drag after the mouse may have grabbed the selector.
pub open spec fn drag_after_grab(drag: Option<SelectorDrag>, input: MouseOverSelector) -> Option<
    SelectorDrag,
> {
    match mouse_grab(input) {
        Some(t) => Some(SelectorDrag { target: t, source: SelectorSource::Mouse }),
        None => drag,
    }
}

/// The targets that take the cursor position this frame, in order: the
/// grabbed part, then the part a held mouse drag adjusts.
pub open spec fn mouse_applies(drag: Option<SelectorDrag>, input: MouseOverSelector) -> Seq<
    SelectorTarget,
> {
    let grabbed = match mouse_grab(input) {
        Some(t) => seq![t],
        None => Seq::empty(),
    };
    let held = drag_after_grab(drag, input);
    let dragged = if is_mouse_drag(held) && input.left_pressed && input.cursor_present {
        seq![held->0.target]
    } else {
        Seq::empty()
    };
    grabbed + dragged
}

/// Whether the mouse ends its drag this frame.
pub open spec fn mouse_commits(drag: Option<SelectorDrag>, input: MouseOverSelector) -> bool {
    input.left_just_released && is_mouse_drag(drag_after_grab(drag, input))
}

/// The drag after one frame of mouse input.
pub open spec fn drag_after_mouse(drag: Option<SelectorDrag>, input: MouseOverSelector) -> Option<
    SelectorDrag,
> {
    if mouse_commits(drag, input) {
        None
    } else {
        drag_after_grab(drag, input)
    }
}

/// What a pen event does, given the drag before it.
pub open spec fn pen_outcome(drag: Option<SelectorDrag>, event: PenOverSelector) -> PenSelectorOutcome {
    match event {
        PenOverSelector::ContactPressed(target) => PenSelectorOutcome { apply: target, commit: false },
        PenOverSelector::Moved => if is_pen_drag(drag) {
            PenSelectorOutcome { apply: Some(drag->0.target), commit: false }
        } else {
            PenSelectorOutcome { apply: None, commit: false }
        },
        PenOverSelector::ContactReleased => if is_pen_drag(drag) {
            PenSelectorOutcome { apply: Some(drag->0.target), commit: true }
        } else {
            PenSelectorOutcome { apply: None, commit: false }
        },
        PenOverSelector::Left => PenSelectorOutcome { apply: None, commit: is_pen_drag(drag) },
        PenOverSelector::Other => PenSelectorOutcome { apply: None, commit: false },
    }
}

/// The drag after a pen event.
pub open spec fn drag_after_pen(drag: Option<SelectorDrag>, event: PenOverSelector) -> Option<
    SelectorDrag,
> {
    match event {
        PenOverSelector::ContactPressed(Some(t)) => Some(
            SelectorDrag { target: t, source: SelectorSource::Pen },
        ),
        PenOverSelector::ContactReleased | PenOverSelector::Left => if is_pen_drag(drag) {
            None
        } else {
            drag
        },
        _ => drag,
    }
}

impl Default for SelectorInteraction {
    /// No drag; not hovered.
    fn default() -> (s: Self)
        ensures
            s.drag is None,
            !s.hovered,
    {
        SelectorInteraction { drag: None, hovered: false }
    }
}

impl SelectorInteraction {
    /// Drops any drag and hover, as when the drawing mode is left.
    pub fn release(&mut self)
        ensures
            final(self).drag is None,
            !final(self).hovered,
    {
        self.drag = None;
        self.hovered = false;
    }

    /// Whether the selector holds the pointer: hovered or dragged. Drawing
    /// pauses meanwhile.
    pub fn busy(&self) -> (b: bool)
        ensures
            b == (self.hovered || self.drag is Some),
    {
        self.hovered || self.drag.is_some()
    }

    /// One frame of mouse input: a left press on a part of the selector
    /// starts a mouse drag of that part, a held left button drags it, and
    /// the release ends it and commits the colour.
    pub fn mouse_step(&mut self, input: MouseOverSelector) -> (out: MouseSelectorOutcome)
        ensures
            final(self).hovered == input.hovered,
            final(self).drag == drag_after_mouse(old(self).drag, input),
            out.applies@ == mouse_applies(old(self).drag, input),
            out.commit == mouse_commits(old(self).drag, input),
            input.left_just_pressed && input.cursor_present && input.target_under_cursor is Some ==> {
                &&& out.applies@.len() >= 1
                &&& out.applies@[0] == input.target_under_cursor->0
                &&& !input.left_just_released ==> final(self).drag == Some(
                    SelectorDrag {
                        target: input.target_under_cursor->0,
                        source: SelectorSource::Mouse,
                    },
                )
                &&& input.left_just_released ==> out.commit && final(self).drag is None
            },
    {
        self.hovered = input.hovered;
        let mut applies: Vec<SelectorTarget> = Vec::new();
        if input.left_just_pressed && input.cursor_present {
            match input.target_under_cursor {
                Some(t) => {
                    self.drag = Some(SelectorDrag { target: t, source: SelectorSource::Mouse });
                    applies.push(t);
                },
                None => {},
            }
        }
        match self.drag {
            Some(d) => {
                if d.source == SelectorSource::Mouse && input.left_pressed && input.cursor_present {
                    applies.push(d.target);
                }
            },
            None => {},
        }
        let mut commit = false;
        if input.left_just_released {
            match self.drag {
                Some(d) => {
                    if d.source == SelectorSource::Mouse {
                        self.drag = None;
                        commit = true;
                    }
                },
                None => {},
            }
        }
        proof {
            assert(applies@ =~= mouse_applies(old(self).drag, input));
        }
        MouseSelectorOutcome { applies, commit }
    }

    /// One event of the primary pen: touching a part of the selector starts
    /// a pen drag of it, moving drags it, lifting applies the last position
    /// and commits, and leaving the window commits.
    pub fn pen_step(&mut self, event: PenOverSelector) -> (out: PenSelectorOutcome)
        ensures
            final(self).hovered == old(self).hovered,
            final(self).drag == drag_after_pen(old(self).drag, event),
            out == pen_outcome(old(self).drag, event),
            event matches PenOverSelector::ContactPressed(Some(t)) ==> final(self).drag == Some(
                SelectorDrag { target: t, source: SelectorSource::Pen },
            ) && out.apply == Some(t) && !out.commit,
    {
        let pen_drag = match self.drag {
            Some(d) => d.source == SelectorSource::Pen,
            None => false,
        };
        match event {
            PenOverSelector::ContactPressed(target) => {
                match target {
                    Some(t) => {
                        self.drag = Some(SelectorDrag { target: t, source: SelectorSource::Pen });
                    },
                    None => {},
                }
                PenSelectorOutcome { apply: target, commit: false }
            },
            PenOverSelector::Moved => {
                if pen_drag {
                    PenSelectorOutcome { apply: Some(self.drag.unwrap().target), commit: false }
                } else {
                    PenSelectorOutcome { apply: None, commit: false }
                }
            },
            PenOverSelector::ContactReleased => {
                if pen_drag {
                    let target = self.drag.unwrap().target;
                    self.drag = None;
                    PenSelectorOutcome { apply: Some(target), commit: true }
                } else {
                    PenSelectorOutcome { apply: None, commit: false }
                }
            },
            PenOverSelector::Left => {
                if pen_drag {
                    self.drag = None;
                }
                PenSelectorOutcome { apply: None, commit: pen_drag }
            },
            PenOverSelector::Other => PenSelectorOutcome { apply: None, commit: false },
        }
    }
}

/// A left press of the mouse, inside the window, on a part of the
/// selector grabs that part: the part takes the cursor's position at once
/// (and once more while the button is held), and the drag continues as a
/// mouse drag of that part, or, if the button was also released this
/// frame, ends and commits.
pub proof fn a_press_grabs_the_part_under_the_cursor(
    drag: Option<SelectorDrag>,
    input: MouseOverSelector,
    t: SelectorTarget,
)
    requires
        input.left_just_pressed,
        input.cursor_present,
        input.target_under_cursor == Some(t),
    ensures
        mouse_applies(drag, input).len() >= 1,
        mouse_applies(drag, input)[0] == t,
        input.left_pressed ==> mouse_applies(drag, input) == seq![t, t],
        !input.left_pressed ==> mouse_applies(drag, input) == seq![t],
        !input.left_just_released ==> drag_after_mouse(drag, input) == Some(
            SelectorDrag { target: t, source: SelectorSource::Mouse },
        ) && !mouse_commits(drag, input),
        input.left_just_released ==> drag_after_mouse(drag, input) is None && mouse_commits(drag, input),
{
    if input.left_pressed {
        assert(mouse_applies(drag, input) =~= seq![t, t]);
    } else {
        assert(mouse_applies(drag, input) =~= seq![t]);
    }
}

/// Without a grab this frame, a mouse drag of a part follows the cursor
/// while the left button is held inside the window, and ends and commits
/// when the button is released; with no drag underway the mouse does
/// nothing to the selector.
pub proof fn a_mouse_drag_follows_until_release(drag: Option<SelectorDrag>, input: MouseOverSelector)
    requires
        !(input.left_just_pressed && input.cursor_present && input.target_under_cursor is Some),
    ensures
        drag matches Some(d) ==> (d.source == SelectorSource::Mouse ==> {
            &&& mouse_applies(drag, input) == (if input.left_pressed && input.cursor_present {
                seq![d.target]
            } else {
                Seq::<SelectorTarget>::empty()
            })
            &&& mouse_commits(drag, input) == input.left_just_released
            &&& drag_after_mouse(drag, input) == (if input.left_just_released {
                None
            } else {
                drag
            })
        }),
        drag is None ==> mouse_applies(drag, input).len() == 0 && !mouse_commits(drag, input)
            && drag_after_mouse(drag, input) is None,
{
    match drag {
        Some(d) => {
            if d.source == SelectorSource::Mouse {
                if input.left_pressed && input.cursor_present {
                    assert(mouse_applies(drag, input) =~= seq![d.target]);
                } else {
                    assert(mouse_applies(drag, input) =~= Seq::<SelectorTarget>::empty());
                }
            }
        },
        None => {
            assert(mouse_applies(drag, input) =~= Seq::<SelectorTarget>::empty());
        },
    }
}

/// The pen's events on the selector: touching a part grabs it and applies
/// the pen's position there; touching elsewhere changes nothing; moving
/// with a pen drag applies the position to the dragged part; lifting
/// applies it, ends the drag and commits; leaving the window ends the drag
/// and commits without applying. Without a pen drag, moving, lifting and
/// leaving do nothing, and so does any other event.
pub proof fn the_pen_drags_until_it_lifts_or_leaves(drag: Option<SelectorDrag>, event: PenOverSelector)
    ensures
        event matches PenOverSelector::ContactPressed(Some(t)) ==> {
            &&& drag_after_pen(drag, event) == Some(SelectorDrag { target: t, source: SelectorSource::Pen })
            &&& pen_outcome(drag, event) == (PenSelectorOutcome { apply: Some(t), commit: false })
        },
        event == PenOverSelector::ContactPressed(None) ==> {
            &&& drag_after_pen(drag, event) == drag
            &&& pen_outcome(drag, event) == (PenSelectorOutcome { apply: None, commit: false })
        },
        drag matches Some(d) ==> (d.source == SelectorSource::Pen ==> {
            &&& event == PenOverSelector::Moved ==> drag_after_pen(drag, event) == drag && pen_outcome(
                drag,
                event,
            ) == (PenSelectorOutcome { apply: Some(d.target), commit: false })
            &&& event == PenOverSelector::ContactReleased ==> drag_after_pen(drag, event) is None
                && pen_outcome(drag, event) == (PenSelectorOutcome { apply: Some(d.target), commit: true })
            &&& event == PenOverSelector::Left ==> drag_after_pen(drag, event) is None && pen_outcome(
                drag,
                event,
            ) == (PenSelectorOutcome { apply: None, commit: true })
        }),
        !(drag matches Some(d) && d.source == SelectorSource::Pen) && (event == PenOverSelector::Moved
            || event == PenOverSelector::ContactReleased || event == PenOverSelector::Left) ==> {
            &&& drag_after_pen(drag, event) == drag
            &&& pen_outcome(drag, event) == (PenSelectorOutcome { apply: None, commit: false })
        },
        event == PenOverSelector::Other ==> drag_after_pen(drag, event) == drag && pen_outcome(
            drag,
            event,
        ) == (PenSelectorOutcome { apply: None, commit: false }),
{
}

/// Committing a colour always ends the drag that chose it.
pub proof fn commit_ends_drag(drag: Option<SelectorDrag>, input: MouseOverSelector, event: PenOverSelector)
    ensures
        mouse_commits(drag, input) ==> drag_after_mouse(drag, input) is None,
        pen_outcome(drag, event).commit ==> drag_after_pen(drag, event) is None,
{
}

/// A colour is committed once per drag: after a commit, no later frame of
/// mouse input commits again unless the mouse grabs the selector anew.
pub proof fn mouse_commits_once(
    drag: Option<SelectorDrag>,
    first: MouseOverSelector,
    second: MouseOverSelector,
)
    requires
        mouse_commits(drag, first),
        mouse_grab(second) is None,
    ensures
        !mouse_commits(drag_after_mouse(drag, first), second),
{
}

/// A colour is committed once per drag: after a commit, no later pen event
/// commits again unless the pen touches the selector anew.
pub proof fn pen_commits_once(drag: Option<SelectorDrag>, first: PenOverSelector, second: PenOverSelector)
    requires
        pen_outcome(drag, first).commit,
        !(second matches PenOverSelector::ContactPressed(Some(_))),
    ensures
        !pen_outcome(drag_after_pen(drag, first), second).commit,
{
}

/// The mouse neither moves, ends nor commits a drag of the pen unless it
/// grabs the selector itself.
pub proof fn mouse_leaves_pen_drag(drag: Option<SelectorDrag>, input: MouseOverSelector)
    requires
        is_pen_drag(drag),
        mouse_grab(input) is None,
    ensures
        drag_after_mouse(drag, input) == drag,
        mouse_applies(drag, input).len() == 0,
        !mouse_commits(drag, input),
{
}

/// The pen neither moves, ends nor commits a drag of the mouse unless it
/// touches a part of the selector itself.
pub proof fn pen_leaves_mouse_drag(drag: Option<SelectorDrag>, event: PenOverSelector)
    requires
        is_mouse_drag(drag),
        !(event matches PenOverSelector::ContactPressed(Some(_))),
    ensures
        drag_after_pen(drag, event) == drag,
        pen_outcome(drag, event).apply is None,
        !pen_outcome(drag, event).commit,
{
}

} // verus!
