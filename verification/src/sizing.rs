use vstd::prelude::*;
use crate::tool::{PointerSource, Tool};

verus! {

/// A brush-size drag in progress: which pointer drives it, for which tool,
/// where it began and the tool size it began from. Positions and sizes
/// stay in the host's own types.
#[derive(Clone, Copy)]
pub struct SizeGesture<P, S> {
    pub source: PointerSource,
    pub tool: Tool,
    pub origin: P,
    pub starting_size: S,
}

/// At most one brush-size gesture at a time.
pub struct BrushSizing<P, S> {
    pub gesture: Option<SizeGesture<P, S>>,
}

/// Whether `gesture` is driven by `source`.
pub open spec fn driven_by<P, S>(gesture: Option<SizeGesture<P, S>>, source: PointerSource) -> bool {
    gesture matches Some(g) && g.source == source
}

/// The gesture left after `source` stops dragging.
pub open spec fn after_end<P, S>(gesture: Option<SizeGesture<P, S>>, source: PointerSource) -> Option<
    SizeGesture<P, S>,
> {
    if driven_by(gesture, source) {
        None
    } else {
        gesture
    }
}

/// Whether a drag by `source` with `tool` must start a new gesture rather
/// than continue `gesture`.
pub open spec fn starts_new<P, S>(
    gesture: Option<SizeGesture<P, S>>,
    source: PointerSource,
    tool: Tool,
) -> bool {
    match gesture {
        None => true,
        Some(g) => g.source != source || g.tool != tool,
    }
}

/// The gesture in force after a drag by `source` with `tool` at `position`,
/// while the tool has `current_size`.
pub open spec fn after_drag<P, S>(
    gesture: Option<SizeGesture<P, S>>,
    source: PointerSource,
    tool: Tool,
    position: P,
    current_size: S,
) -> SizeGesture<P, S> {
    if starts_new(gesture, source, tool) {
        SizeGesture { source, tool, origin: position, starting_size: current_size }
    } else {
        gesture->0
    }
}

impl<P, S> Default for BrushSizing<P, S> {
    /// No gesture.
    fn default() -> (s: Self)
        ensures
            s.gesture is None,
    {
        BrushSizing { gesture: None }
    }
}

impl<P: Copy, S: Copy> BrushSizing<P, S> {
    /// Ends the gesture if `source` drives it; a gesture that the other
    /// source drives is left alone.
    pub fn end(&mut self, source: PointerSource)
        ensures
            final(self).gesture == after_end(old(self).gesture, source),
    {
        let ends = match self.gesture {
            Some(g) => g.source == source,
            None => false,
        };
        if ends {
            self.gesture = None;
        }
    }

    /// Whether `source` drives the current gesture.
    pub fn active_for(&self, source: PointerSource) -> (b: bool)
        ensures
            b == driven_by(self.gesture, source),
    {
        match self.gesture {
            Some(g) => g.source == source,
            None => false,
        }
    }

    /// A drag by `source` with `tool` at `position`: continues the gesture
    /// that the same source and tool drive, or else starts one there from
    /// the tool's `current_size`. Returns the gesture in force, whose
    /// origin and starting size the new size is measured from.
    pub fn drag(&mut self, source: PointerSource, tool: Tool, position: P, current_size: S) -> (g:
        SizeGesture<P, S>)
        ensures
            g == after_drag(old(self).gesture, source, tool, position, current_size),
            final(self).gesture == Some(g),
            g.source == source,
            g.tool == tool,
    {
        let start_new = match self.gesture {
            None => true,
            Some(g) => g.source != source || g.tool != tool,
        };
        if start_new {
            self.gesture = Some(SizeGesture { source, tool, origin: position, starting_size: current_size });
        }
        self.gesture.unwrap()
    }
}

/// A drag always yields a gesture of the dragging pointer and tool. It
/// is the gesture already underway when that pointer drags the same tool;
/// otherwise it starts at the drag's position from the tool's current
/// size. Ending removes the gesture exactly when that pointer drives it.
pub proof fn drags_continue_or_restart_and_ends_remove<P, S>(
    gesture: Option<SizeGesture<P, S>>,
    source: PointerSource,
    tool: Tool,
    position: P,
    current_size: S,
)
    ensures
        after_drag(gesture, source, tool, position, current_size).source == source,
        after_drag(gesture, source, tool, position, current_size).tool == tool,
        gesture matches Some(g) ==> (g.source == source && g.tool == tool ==> after_drag(
            gesture,
            source,
            tool,
            position,
            current_size,
        ) == g),
        !(gesture matches Some(g) && g.source == source && g.tool == tool) ==> {
            &&& after_drag(gesture, source, tool, position, current_size).origin == position
            &&& after_drag(gesture, source, tool, position, current_size).starting_size == current_size
        },
        driven_by(gesture, source) == (gesture matches Some(g) && g.source == source),
        (gesture matches Some(g) && g.source == source) ==> after_end(gesture, source) is None,
        !(gesture matches Some(g) && g.source == source) ==> after_end(gesture, source) == gesture,
{
}

/// Stopping a drag deactivates that pointer's gesture and leaves the other
/// pointer's gesture as it was.
pub proof fn ending_stops_only_that_source<P, S>(
    gesture: Option<SizeGesture<P, S>>,
    source: PointerSource,
    other: PointerSource,
)
    requires
        other != source,
    ensures
        !driven_by(after_end(gesture, source), source),
        driven_by(after_end(gesture, source), other) == driven_by(gesture, other),
{
}

/// Every drag leaves a gesture active for the pointer that drags.
pub proof fn dragging_activates<P, S>(
    gesture: Option<SizeGesture<P, S>>,
    source: PointerSource,
    tool: Tool,
    position: P,
    current_size: S,
)
    ensures
        driven_by(Some(after_drag(gesture, source, tool, position, current_size)), source),
{
}

/// While the same pointer keeps dragging the same tool, the size keeps
/// being measured from where the drag began and the size it began from,
/// whatever the tool's size has become meanwhile.
pub proof fn continued_drag_keeps_its_anchor<P, S>(
    gesture: Option<SizeGesture<P, S>>,
    source: PointerSource,
    tool: Tool,
    first_position: P,
    first_size: S,
    later_position: P,
    later_size: S,
)
    ensures
        ({
            let first = after_drag(gesture, source, tool, first_position, first_size);
            let later = after_drag(Some(first), source, tool, later_position, later_size);
            later == first
        }),
{
}

/// Switching tools, or pointers, in the middle of a drag starts a new
/// gesture from the current position and size.
pub proof fn switching_restarts<P, S>(
    gesture: Option<SizeGesture<P, S>>,
    source: PointerSource,
    tool: Tool,
    new_source: PointerSource,
    new_tool: Tool,
    first_position: P,
    first_size: S,
    position: P,
    size: S,
)
    requires
        new_source != source || new_tool != tool,
    ensures
        ({
            let first = after_drag(gesture, source, tool, first_position, first_size);
            after_drag(Some(first), new_source, new_tool, position, size) == (SizeGesture {
                source: new_source,
                tool: new_tool,
                origin: position,
                starting_size: size,
            })
        }),
{
}

} // verus!
