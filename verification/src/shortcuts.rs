use vstd::prelude::*;

verus! {

/// The keys that the drawing modes listen to in one frame: `ctrl` and
/// `shift` are held, the others were just pressed.
#[derive(Clone, Copy, Debug, Default)]
pub struct KeyPresses {
    pub ctrl: bool,
    pub shift: bool,
    pub clear: bool,
    pub undo: bool,
    pub redo: bool,
    pub save: bool,
    pub open: bool,
    pub new_layer: bool,
    pub hide: bool,
    pub page_up: bool,
    pub page_down: bool,
    pub comma: bool,
    pub period: bool,
    pub bracket_left: bool,
    pub bracket_right: bool,
    pub vsync: bool,
}

/// A step through the history of the document.
#[derive(Clone, Copy, Debug, PartialEq, Eq, Structural)]
pub enum HistoryStep {
    Undo,
    Redo,
}

/// A step through the layer stack: up to the layer above, or down.
#[derive(Clone, Copy, Debug, PartialEq, Eq, Structural)]
pub enum LayerStep {
    Up,
    Down,
}

/// A nudge of a setting: one step down or up.
#[derive(Clone, Copy, Debug, PartialEq, Eq, Structural)]
pub enum Nudge {
    Decrease,
    Increase,
}

/// What the keys of one frame ask of the drawing mode, in the order in
/// which it is carried out: clear the canvas; step through the history
/// (with Z), then redo (with Y); save; load; add a layer; toggle the
/// active layer's visibility; step to another layer, moving the active
/// layer there instead of selecting it when `move_layer`; nudge the
/// active layer's opacity; nudge the active tool's size; switch the
/// presentation mode.
#[derive(Clone, Copy, Debug, PartialEq, Eq, Structural)]
pub struct ShortcutPlan {
    pub clear: bool,
    pub history: Option<HistoryStep>,
    pub redo: bool,
    pub save: bool,
    pub load: bool,
    pub new_layer: bool,
    pub toggle_visibility: bool,
    pub layer_step: Option<LayerStep>,
    pub move_layer: bool,
    pub opacity: Option<Nudge>,
    pub size: Option<Nudge>,
    pub toggle_presentation: bool,
}

/// The plan for `keys`: plain letters act without Ctrl (C clear, N new
/// layer, H hide, Page Up/Down layers, comma and period opacity), Ctrl
/// with Z, Y, S and O acts on history and files, Shift turns undo into
/// redo and selection into moving, and the brackets and V act either way.
/// Where two keys of a pair are pressed together, the first wins.
pub open spec fn plan_for(keys: KeyPresses) -> ShortcutPlan {
    ShortcutPlan {
        clear: !keys.ctrl && keys.clear,
        history: if keys.ctrl && keys.undo {
            Some(if keys.shift { HistoryStep::Redo } else { HistoryStep::Undo })
        } else {
            None
        },
        redo: keys.ctrl && keys.redo,
        save: keys.ctrl && keys.save,
        load: keys.ctrl && keys.open,
        new_layer: !keys.ctrl && keys.new_layer,
        toggle_visibility: !keys.ctrl && keys.hide,
        layer_step: if !keys.ctrl && keys.page_up {
            Some(LayerStep::Up)
        } else if !keys.ctrl && keys.page_down {
            Some(LayerStep::Down)
        } else {
            None
        },
        move_layer: keys.shift,
        opacity: if !keys.ctrl && keys.comma {
            Some(Nudge::Decrease)
        } else if !keys.ctrl && keys.period {
            Some(Nudge::Increase)
        } else {
            None
        },
        size: if keys.bracket_left {
            Some(Nudge::Decrease)
        } else if keys.bracket_right {
            Some(Nudge::Increase)
        } else {
            None
        },
        toggle_presentation: keys.vsync,
    }
}

/// Reads the keys of one frame into the plan that both drawing modes
/// carry out.
pub fn plan_shortcuts(keys: KeyPresses) -> (plan: ShortcutPlan)
    ensures
        plan == plan_for(keys),
        !keys.ctrl && keys.page_up ==> plan.layer_step == Some(LayerStep::Up),
        !keys.ctrl && !keys.page_up && keys.page_down ==> plan.layer_step == Some(LayerStep::Down),
        plan.move_layer == keys.shift,
        plan.clear == (!keys.ctrl && keys.clear),
        plan.redo == (keys.ctrl && keys.redo),
        keys.ctrl && keys.undo ==> plan.history is Some,
{
    let history = if keys.ctrl && keys.undo {
        if keys.shift {
            Some(HistoryStep::Redo)
        } else {
            Some(HistoryStep::Undo)
        }
    } else {
        None
    };
    let layer_step = if !keys.ctrl && keys.page_up {
        Some(LayerStep::Up)
    } else if !keys.ctrl && keys.page_down {
        Some(LayerStep::Down)
    } else {
        None
    };
    let opacity = if !keys.ctrl && keys.comma {
        Some(Nudge::Decrease)
    } else if !keys.ctrl && keys.period {
        Some(Nudge::Increase)
    } else {
        None
    };
    let size = if keys.bracket_left {
        Some(Nudge::Decrease)
    } else if keys.bracket_right {
        Some(Nudge::Increase)
    } else {
        None
    };
    ShortcutPlan {
        clear: !keys.ctrl && keys.clear,
        history,
        redo: keys.ctrl && keys.redo,
        save: keys.ctrl && keys.save,
        load: keys.ctrl && keys.open,
        new_layer: !keys.ctrl && keys.new_layer,
        toggle_visibility: !keys.ctrl && keys.hide,
        layer_step,
        move_layer: keys.shift,
        opacity,
        size,
        toggle_presentation: keys.vsync,
    }
}

/// The index a layer step from `index` leads to in a stack of `len`
/// layers: up stops at the top layer, down at the bottom one.
pub open spec fn layer_target(index: int, len: int, step: LayerStep) -> int {
    match step {
        LayerStep::Up => if index + 1 < len - 1 {
            index + 1
        } else if len >= 1 {
            len - 1
        } else {
            0
        },
        LayerStep::Down => if index >= 1 {
            index - 1
        } else {
            0
        },
    }
}

/// The index a layer step from `index` leads to in a stack of `len` layers.
pub fn layer_step_target(index: usize, len: usize, step: LayerStep) -> (target: usize)
    requires
        index < usize::MAX,
    ensures
        target == layer_target(index as int, len as int, step),
        index < len ==> target < len,
        step == LayerStep::Up && index + 1 < len ==> target == index + 1,
        step == LayerStep::Down && index >= 1 ==> target == index - 1,
{
    match step {
        LayerStep::Up => {
            let top = len.saturating_sub(1);
            if index + 1 < top {
                index + 1
            } else {
                top
            }
        },
        LayerStep::Down => index.saturating_sub(1),
    }
}

/// The number in the name of a new layer, in a stack of `count` layers.
pub fn next_layer_number(count: usize) -> (n: usize)
    requires
        count < usize::MAX,
    ensures
        n == count + 1,
{
    count + 1
}

/// The number in the name of a new layer of a canvas with `count` layers,
/// or 1 where the canvas cannot be found.
pub fn next_layer_number_of(count: Option<usize>) -> (n: usize)
    requires
        count matches Some(c) ==> c < usize::MAX,
    ensures
        n == match count {
            Some(c) => c + 1,
            None => 1,
        },
{
    match count {
        Some(c) => c + 1,
        None => 1,
    }
}

/// Each key does its own part of the plan. Without Ctrl: C clears, N adds
/// a layer, H toggles visibility, Page Up steps up (before Page Down,
/// which steps down), and comma lowers the opacity (before period, which
/// raises it); Shift does not stop any of them, it turns a layer step into
/// a move. With Ctrl: Z undoes (redoes with Shift), Y redoes, S saves, O
/// loads. The brackets nudge the size (left first) and V switches the
/// presentation, with or without Ctrl.
pub proof fn each_key_does_its_part(keys: KeyPresses)
    ensures
        plan_for(keys).clear == (!keys.ctrl && keys.clear),
        plan_for(keys).new_layer == (!keys.ctrl && keys.new_layer),
        plan_for(keys).toggle_visibility == (!keys.ctrl && keys.hide),
        !keys.ctrl && keys.page_up ==> plan_for(keys).layer_step == Some(LayerStep::Up),
        !keys.ctrl && !keys.page_up && keys.page_down ==> plan_for(keys).layer_step == Some(
            LayerStep::Down,
        ),
        keys.ctrl || (!keys.page_up && !keys.page_down) ==> plan_for(keys).layer_step is None,
        plan_for(keys).move_layer == keys.shift,
        !keys.ctrl && keys.comma ==> plan_for(keys).opacity == Some(Nudge::Decrease),
        !keys.ctrl && !keys.comma && keys.period ==> plan_for(keys).opacity == Some(Nudge::Increase),
        keys.ctrl || (!keys.comma && !keys.period) ==> plan_for(keys).opacity is None,
        keys.ctrl && keys.undo && !keys.shift ==> plan_for(keys).history == Some(HistoryStep::Undo),
        keys.ctrl && keys.undo && keys.shift ==> plan_for(keys).history == Some(HistoryStep::Redo),
        !(keys.ctrl && keys.undo) ==> plan_for(keys).history is None,
        plan_for(keys).redo == (keys.ctrl && keys.redo),
        plan_for(keys).save == (keys.ctrl && keys.save),
        plan_for(keys).load == (keys.ctrl && keys.open),
        keys.bracket_left ==> plan_for(keys).size == Some(Nudge::Decrease),
        !keys.bracket_left && keys.bracket_right ==> plan_for(keys).size == Some(Nudge::Increase),
        !keys.bracket_left && !keys.bracket_right ==> plan_for(keys).size is None,
        plan_for(keys).toggle_presentation == keys.vsync,
{
}

/// A layer step moves one place: up to the next index while there is a
/// layer above, down to the previous one while there is one below, and
/// stays put at the top or the bottom.
pub proof fn a_layer_step_moves_one_place(index: int, len: int)
    requires
        0 <= index < len,
    ensures
        index + 1 < len ==> layer_target(index, len, LayerStep::Up) == index + 1,
        index + 1 == len ==> layer_target(index, len, LayerStep::Up) == index,
        index >= 1 ==> layer_target(index, len, LayerStep::Down) == index - 1,
        index == 0 ==> layer_target(index, len, LayerStep::Down) == 0,
{
}

/// A layer step never leaves the stack.
pub proof fn layer_step_stays_in_stack(index: int, len: int, step: LayerStep)
    requires
        0 <= index < len,
    ensures
        0 <= layer_target(index, len, step) < len,
{
}

/// Page Up and then Page Down return to the layer one started from, and
/// so does Page Down and then Page Up, away from the ends of the stack.
pub proof fn layer_steps_undo_each_other(index: int, len: int)
    requires
        0 <= index < len,
    ensures
        index + 1 < len ==> layer_target(layer_target(index, len, LayerStep::Up), len, LayerStep::Down)
            == index,
        index >= 1 ==> layer_target(layer_target(index, len, LayerStep::Down), len, LayerStep::Up)
            == index,
{
}

/// At the top of the stack Page Up stays, at the bottom Page Down stays.
pub proof fn layer_steps_stop_at_the_ends(len: int)
    requires
        len >= 1,
    ensures
        layer_target(len - 1, len, LayerStep::Up) == len - 1,
        layer_target(0, len, LayerStep::Down) == 0,
{
}

/// Shift turns Ctrl+Z into redo; Ctrl+Y redoes with or without Shift.
pub proof fn shift_turns_undo_into_redo(keys: KeyPresses)
    requires
        keys.ctrl,
        keys.undo,
    ensures
        plan_for(keys).history == Some(
            if keys.shift {
                HistoryStep::Redo
            } else {
                HistoryStep::Undo
            },
        ),
        keys.redo ==> plan_for(keys).redo,
{
}

/// With Ctrl held, the plain letter shortcuts do nothing.
pub proof fn ctrl_silences_plain_keys(keys: KeyPresses)
    requires
        keys.ctrl,
    ensures
        !plan_for(keys).clear,
        !plan_for(keys).new_layer,
        !plan_for(keys).toggle_visibility,
        plan_for(keys).layer_step is None,
        plan_for(keys).opacity is None,
{
}

} // verus!
