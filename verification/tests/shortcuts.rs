use stroke_lab::shortcuts::{
    layer_step_target, next_layer_number, next_layer_number_of, plan_shortcuts, HistoryStep, KeyPresses,
    LayerStep, Nudge,
};

#[test]
fn ctrl_z_undoes_and_shift_or_y_redoes() {
    let undo = plan_shortcuts(KeyPresses { ctrl: true, undo: true, ..Default::default() });
    assert_eq!(undo.history, Some(HistoryStep::Undo));
    assert!(!undo.redo);
    let redo = plan_shortcuts(KeyPresses { ctrl: true, shift: true, undo: true, ..Default::default() });
    assert_eq!(redo.history, Some(HistoryStep::Redo));
    let y = plan_shortcuts(KeyPresses { ctrl: true, redo: true, ..Default::default() });
    assert!(y.redo);
    assert_eq!(y.history, None);
    let bare_z = plan_shortcuts(KeyPresses { undo: true, ..Default::default() });
    assert_eq!(bare_z.history, None);
}

#[test]
fn plain_letters_act_without_ctrl() {
    let keys = KeyPresses {
        clear: true,
        new_layer: true,
        hide: true,
        page_up: true,
        comma: true,
        ..Default::default()
    };
    let plan = plan_shortcuts(keys);
    assert!(plan.clear && plan.new_layer && plan.toggle_visibility);
    assert_eq!(plan.layer_step, Some(LayerStep::Up));
    assert!(!plan.move_layer);
    assert_eq!(plan.opacity, Some(Nudge::Decrease));

    let with_ctrl = plan_shortcuts(KeyPresses { ctrl: true, ..keys });
    assert!(!with_ctrl.clear && !with_ctrl.new_layer && !with_ctrl.toggle_visibility);
    assert_eq!(with_ctrl.layer_step, None);
    assert_eq!(with_ctrl.opacity, None);
}

#[test]
fn files_need_ctrl() {
    let plan = plan_shortcuts(KeyPresses { ctrl: true, save: true, open: true, ..Default::default() });
    assert!(plan.save && plan.load);
    let plain = plan_shortcuts(KeyPresses { save: true, open: true, ..Default::default() });
    assert!(!plain.save && !plain.load);
}

#[test]
fn shift_moves_the_layer_instead_of_selecting() {
    let plan = plan_shortcuts(KeyPresses { shift: true, page_down: true, ..Default::default() });
    assert_eq!(plan.layer_step, Some(LayerStep::Down));
    assert!(plan.move_layer);
    let both = plan_shortcuts(KeyPresses { page_up: true, page_down: true, ..Default::default() });
    assert_eq!(both.layer_step, Some(LayerStep::Up));
}

#[test]
fn brackets_size_and_v_toggles_with_or_without_ctrl() {
    let plan = plan_shortcuts(KeyPresses { ctrl: true, bracket_right: true, vsync: true, ..Default::default() });
    assert_eq!(plan.size, Some(Nudge::Increase));
    assert!(plan.toggle_presentation);
    let smaller = plan_shortcuts(KeyPresses { bracket_left: true, bracket_right: true, ..Default::default() });
    assert_eq!(smaller.size, Some(Nudge::Decrease));
    let period = plan_shortcuts(KeyPresses { period: true, ..Default::default() });
    assert_eq!(period.opacity, Some(Nudge::Increase));
    let nothing = plan_shortcuts(KeyPresses::default());
    assert_eq!(nothing.size, None);
    assert_eq!(nothing.opacity, None);
    assert!(!nothing.toggle_presentation);
}

#[test]
fn layer_steps_stop_at_the_ends_and_undo_each_other() {
    assert_eq!(layer_step_target(0, 3, LayerStep::Up), 1);
    assert_eq!(layer_step_target(1, 3, LayerStep::Up), 2);
    assert_eq!(layer_step_target(2, 3, LayerStep::Up), 2);
    assert_eq!(layer_step_target(0, 3, LayerStep::Down), 0);
    assert_eq!(layer_step_target(2, 3, LayerStep::Down), 1);
    assert_eq!(layer_step_target(0, 1, LayerStep::Up), 0);
    assert_eq!(layer_step_target(0, 0, LayerStep::Up), 0);
    for len in 1..6usize {
        for index in 0..len {
            let up = layer_step_target(index, len, LayerStep::Up);
            let down = layer_step_target(index, len, LayerStep::Down);
            assert!(up < len && down < len);
            if index + 1 < len {
                assert_eq!(layer_step_target(up, len, LayerStep::Down), index);
            }
            if index >= 1 {
                assert_eq!(layer_step_target(down, len, LayerStep::Up), index);
            }
        }
    }
}

#[test]
fn new_layers_are_numbered_after_the_stack() {
    assert_eq!(next_layer_number(0), 1);
    assert_eq!(next_layer_number(3), 4);
    assert_eq!(next_layer_number_of(Some(2)), 3);
    assert_eq!(next_layer_number_of(None), 1);
}
