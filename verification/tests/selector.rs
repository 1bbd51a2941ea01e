use stroke_lab::selector::{
    MouseOverSelector, PenOverSelector, PenSelectorOutcome, SelectorDrag, SelectorInteraction,
    SelectorSource, SelectorTarget,
};

fn mouse(just_pressed: bool, pressed: bool, just_released: bool, target: Option<SelectorTarget>) -> MouseOverSelector {
    MouseOverSelector {
        hovered: target.is_some(),
        cursor_present: true,
        target_under_cursor: target,
        left_just_pressed: just_pressed,
        left_pressed: pressed,
        left_just_released: just_released,
    }
}

#[test]
fn a_mouse_drag_adjusts_and_commits_on_release() {
    let mut s = SelectorInteraction::default();
    let press = s.mouse_step(mouse(true, true, false, Some(SelectorTarget::Hue)));
    assert_eq!(press.applies, vec![SelectorTarget::Hue, SelectorTarget::Hue]);
    assert!(!press.commit);
    assert_eq!(s.drag, Some(SelectorDrag { target: SelectorTarget::Hue, source: SelectorSource::Mouse }));
    assert!(s.hovered && s.busy());

    // Dragging out over the triangle keeps adjusting the hue.
    let held = s.mouse_step(mouse(false, true, false, Some(SelectorTarget::SaturationValue)));
    assert_eq!(held.applies, vec![SelectorTarget::Hue]);

    let release = s.mouse_step(mouse(false, false, true, None));
    assert!(release.applies.is_empty());
    assert!(release.commit);
    assert!(s.drag.is_none());
    assert!(!s.busy());

    let again = s.mouse_step(mouse(false, false, true, None));
    assert!(!again.commit, "one commit per drag");
}

#[test]
fn a_press_outside_the_selector_grabs_nothing() {
    let mut s = SelectorInteraction::default();
    let out = s.mouse_step(mouse(true, true, false, None));
    assert!(out.applies.is_empty());
    assert!(s.drag.is_none());
    let mut away = mouse(true, true, false, Some(SelectorTarget::Hue));
    away.cursor_present = false;
    let out = s.mouse_step(away);
    assert!(out.applies.is_empty());
    assert!(s.drag.is_none());
}

#[test]
fn a_pen_drag_adjusts_and_commits_on_lift_or_leave() {
    let mut s = SelectorInteraction::default();
    let touch = s.pen_step(PenOverSelector::ContactPressed(Some(SelectorTarget::SaturationValue)));
    assert_eq!(touch, PenSelectorOutcome { apply: Some(SelectorTarget::SaturationValue), commit: false });
    assert_eq!(s.drag.map(|d| d.source), Some(SelectorSource::Pen));
    let moved = s.pen_step(PenOverSelector::Moved);
    assert_eq!(moved.apply, Some(SelectorTarget::SaturationValue));
    let lift = s.pen_step(PenOverSelector::ContactReleased);
    assert_eq!(lift, PenSelectorOutcome { apply: Some(SelectorTarget::SaturationValue), commit: true });
    assert!(s.drag.is_none());
    assert_eq!(s.pen_step(PenOverSelector::ContactReleased), PenSelectorOutcome { apply: None, commit: false });
    assert_eq!(s.pen_step(PenOverSelector::Moved), PenSelectorOutcome { apply: None, commit: false });

    s.pen_step(PenOverSelector::ContactPressed(Some(SelectorTarget::Hue)));
    assert_eq!(s.pen_step(PenOverSelector::Left), PenSelectorOutcome { apply: None, commit: true });
    assert!(s.drag.is_none());
    assert_eq!(s.pen_step(PenOverSelector::ContactPressed(None)), PenSelectorOutcome { apply: None, commit: false });
    assert!(s.drag.is_none());
    assert_eq!(s.pen_step(PenOverSelector::Other), PenSelectorOutcome { apply: None, commit: false });
}

#[test]
fn mouse_and_pen_leave_each_others_drags_alone() {
    let mut s = SelectorInteraction::default();
    s.pen_step(PenOverSelector::ContactPressed(Some(SelectorTarget::Hue)));
    let out = s.mouse_step(mouse(false, true, true, None));
    assert!(out.applies.is_empty() && !out.commit);
    assert_eq!(s.drag.map(|d| d.source), Some(SelectorSource::Pen));

    let mut m = SelectorInteraction::default();
    m.mouse_step(mouse(true, true, false, Some(SelectorTarget::Hue)));
    assert_eq!(m.pen_step(PenOverSelector::ContactReleased), PenSelectorOutcome { apply: None, commit: false });
    assert_eq!(m.pen_step(PenOverSelector::Left), PenSelectorOutcome { apply: None, commit: false });
    assert_eq!(m.drag.map(|d| d.source), Some(SelectorSource::Mouse));

    m.release();
    assert!(m.drag.is_none() && !m.hovered);
}
