use vstd::prelude::*;
use crate::tool::{PointerSource, Tool};

verus! {

/// What the lab knows of the pointer: where it is (the host's position
/// type `P`), what the device reported of pressure and tilt (the host's
/// reading type `R`), the tool it drives, the device, whether it is
/// pressing, and whether the tablet pen touches the surface.
pub struct PointerState<P, R> {
    pub position: Option<P>,
    pub reading: R,
    pub tool: Tool,
    pub source: PointerSource,
    pub down: bool,
    pub pen_contact: bool,
}

/// The state after `position` came from the mouse, driving `tool`.
pub open spec fn shown_by_mouse<P, R>(
    old: PointerState<P, R>,
    position: P,
    neutral: R,
    tool: Tool,
    down: bool,
) -> PointerState<P, R> {
    PointerState {
        position: Some(position),
        reading: neutral,
        tool,
        source: PointerSource::Mouse,
        down,
        pen_contact: old.pen_contact,
    }
}

/// The state after `position` came from the tablet pen, driving `tool`:
/// the pointer presses exactly while the pen touches.
pub open spec fn shown_by_pen<P, R>(
    old: PointerState<P, R>,
    position: P,
    reading: R,
    tool: Tool,
) -> PointerState<P, R> {
    PointerState {
        position: Some(position),
        reading,
        tool,
        source: PointerSource::Tablet,
        down: old.pen_contact,
        pen_contact: old.pen_contact,
    }
}

/// The state after `source` left the window: the pointer is gone if that
/// device placed it last.
pub open spec fn left_by<P, R>(old: PointerState<P, R>, source: PointerSource) -> PointerState<P, R> {
    if old.source == source {
        PointerState { position: None, down: false, ..old }
    } else {
        old
    }
}

impl<P, R> PointerState<P, R> {
    /// No pointer seen yet: the pen tool, from the mouse, not pressing;
    /// `neutral` is the reading of a device that reports no pressure or
    /// tilt.
    pub fn new(neutral: R) -> (s: Self)
        ensures
            s.position is None,
            s.reading == neutral,
            s.tool == Tool::Pen,
            s.source == PointerSource::Mouse,
            !s.down,
            !s.pen_contact,
    {
        PointerState {
            position: None,
            reading: neutral,
            tool: Tool::Pen,
            source: PointerSource::Mouse,
            down: false,
            pen_contact: false,
        }
    }

    /// The mouse moved to `position`, driving `tool`; a mouse reports no
    /// pressure or tilt, so the reading becomes `neutral`.
    pub fn show_mouse(&mut self, position: P, neutral: R, tool: Tool, down: bool)
        ensures
            *final(self) == shown_by_mouse(*old(self), position, neutral, tool, down),
            final(self).position == Some(position),
            final(self).tool == tool,
            final(self).source == PointerSource::Mouse,
            final(self).down == down,
    {
        self.position = Some(position);
        self.reading = neutral;
        self.tool = tool;
        self.source = PointerSource::Mouse;
        self.down = down;
    }

    /// The tablet pen is at `position`, driving `tool`, with `reading`.
    pub fn show_pen(&mut self, position: P, reading: R, tool: Tool)
        ensures
            *final(self) == shown_by_pen(*old(self), position, reading, tool),
            final(self).position == Some(position),
            final(self).reading == reading,
            final(self).tool == tool,
            final(self).source == PointerSource::Tablet,
            final(self).down == old(self).pen_contact,
    {
        self.position = Some(position);
        self.reading = reading;
        self.tool = tool;
        self.source = PointerSource::Tablet;
        self.down = self.pen_contact;
    }

    /// `source` left the window.
    pub fn leave(&mut self, source: PointerSource)
        ensures
            *final(self) == left_by(*old(self), source),
    {
        if self.source == source {
            self.position = None;
            self.down = false;
        }
    }

    /// `source` stopped pressing: the pointer no longer presses if that
    /// device placed it last.
    pub fn lift(&mut self, source: PointerSource)
        ensures
            *final(self) == (if old(self).source == source {
                (PointerState { down: false, ..*old(self) })
            } else {
                *old(self)
            }),
    {
        if self.source == source {
            self.down = false;
        }
    }
}

/// Showing the pointer puts it where the device reported it, with the
/// tool that device drives and the device marked as its source: the pen
/// keeps its reading and presses while it touches, the mouse reports a
/// neutral reading and presses as its buttons say. Whether the pen
/// touches is not changed by either.
pub proof fn a_shown_pointer_follows_its_device<P, R>(
    old: PointerState<P, R>,
    position: P,
    reading: R,
    neutral: R,
    tool: Tool,
    down: bool,
)
    ensures
        shown_by_pen(old, position, reading, tool).position == Some(position),
        shown_by_pen(old, position, reading, tool).reading == reading,
        shown_by_pen(old, position, reading, tool).tool == tool,
        shown_by_pen(old, position, reading, tool).source == PointerSource::Tablet,
        shown_by_pen(old, position, reading, tool).down == old.pen_contact,
        shown_by_pen(old, position, reading, tool).pen_contact == old.pen_contact,
        shown_by_mouse(old, position, neutral, tool, down).position == Some(position),
        shown_by_mouse(old, position, neutral, tool, down).reading == neutral,
        shown_by_mouse(old, position, neutral, tool, down).tool == tool,
        shown_by_mouse(old, position, neutral, tool, down).source == PointerSource::Mouse,
        shown_by_mouse(old, position, neutral, tool, down).down == down,
        shown_by_mouse(old, position, neutral, tool, down).pen_contact == old.pen_contact,
{
}

/// A device leaving the window hides the pointer and stops it pressing
/// only if that device placed it last; the tool, the source, the reading
/// and the pen's contact stay.
pub proof fn leaving_hides_only_that_devices_pointer<P, R>(old: PointerState<P, R>, source: PointerSource)
    ensures
        old.source == source ==> left_by(old, source).position is None && !left_by(old, source).down,
        old.source != source ==> left_by(old, source) == old,
        left_by(old, source).tool == old.tool,
        left_by(old, source).source == old.source,
        left_by(old, source).reading == old.reading,
        left_by(old, source).pen_contact == old.pen_contact,
{
}

} // verus!
