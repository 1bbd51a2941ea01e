use stroke_lab::hud::{kib_rounded_up, shown_status, visibility_label};
use stroke_lab::menu::{
    button_background, escape_choice, input_blocker, menu_frame, menu_key_choice, BlockedRegion,
    Interaction, LabState, MenuButton, MenuKeys, Rgb8,
};
use stroke_lab::presentation::PresentMode;
use stroke_lab::surface::{vector_layer_step, layer_position, CanvasLayers, SurfaceChoice, VectorSurface};
use stroke_lab::shortcuts::LayerStep;
use stroke_lab::tool::{PointerSource, Tool};

#[test]
fn labels_name_tools_and_sources() {
    assert_eq!(Tool::Pen.label(), "PEN");
    assert_eq!(Tool::Eraser.label(), "ERASER");
    assert_eq!(PointerSource::Mouse.label(), "mouse");
    assert_eq!(PointerSource::Tablet.label(), "tablet");
    assert_eq!(Tool::default(), Tool::Pen);
    assert_eq!(PointerSource::default(), PointerSource::Mouse);
}

#[test]
fn menu_digits_choose_a_renderer() {
    assert_eq!(menu_key_choice(MenuKeys { digit1: true, ..Default::default() }), Some(LabState::Hamerons));
    assert_eq!(menu_key_choice(MenuKeys { numpad1: true, ..Default::default() }), Some(LabState::Hamerons));
    assert_eq!(menu_key_choice(MenuKeys { digit2: true, ..Default::default() }), Some(LabState::Vector));
    assert_eq!(menu_key_choice(MenuKeys { numpad2: true, ..Default::default() }), Some(LabState::Vector));
    assert_eq!(
        menu_key_choice(MenuKeys { digit1: true, digit2: true, ..Default::default() }),
        Some(LabState::Hamerons)
    );
    assert_eq!(menu_key_choice(MenuKeys::default()), None);
    assert_eq!(LabState::default(), LabState::Menu);
}

#[test]
fn menu_buttons_restyle_and_the_last_pressed_one_wins() {
    let buttons = vec![
        MenuButton { interaction: Interaction::Pressed, choice: LabState::Hamerons },
        MenuButton { interaction: Interaction::Hovered, choice: LabState::Vector },
    ];
    let frame = menu_frame(MenuKeys { digit2: true, ..Default::default() }, &buttons);
    assert_eq!(frame.next, Some(LabState::Hamerons));
    assert_eq!(
        frame.backgrounds,
        vec![Rgb8 { red: 57, green: 78, blue: 116 }, Rgb8 { red: 47, green: 58, blue: 78 }]
    );

    let both = vec![
        MenuButton { interaction: Interaction::Pressed, choice: LabState::Hamerons },
        MenuButton { interaction: Interaction::Pressed, choice: LabState::Vector },
    ];
    assert_eq!(menu_frame(MenuKeys::default(), &both).next, Some(LabState::Vector));

    let idle = vec![MenuButton { interaction: Interaction::Idle, choice: LabState::Vector }];
    let frame = menu_frame(MenuKeys { digit1: true, ..Default::default() }, &idle);
    assert_eq!(frame.next, Some(LabState::Hamerons));
    assert_eq!(frame.backgrounds, vec![Rgb8 { red: 34, green: 40, blue: 52 }]);
    assert_eq!(button_background(Interaction::Idle), Rgb8 { red: 34, green: 40, blue: 52 });
    assert_eq!(menu_frame(MenuKeys::default(), &vec![]).next, None);
}

#[test]
fn escape_returns_to_the_menu() {
    assert_eq!(escape_choice(true), Some(LabState::Menu));
    assert_eq!(escape_choice(false), None);
}

#[test]
fn only_the_active_renderer_takes_strokes() {
    for state in [LabState::Menu, LabState::Hamerons, LabState::Vector] {
        for shift in [false, true] {
            let paint = input_blocker(state, LabState::Hamerons, shift);
            let vector = input_blocker(state, LabState::Vector, shift);
            assert!(paint == BlockedRegion::Window || vector == BlockedRegion::Window);
        }
    }
    assert_eq!(input_blocker(LabState::Hamerons, LabState::Hamerons, false), BlockedRegion::Selector);
    assert_eq!(input_blocker(LabState::Hamerons, LabState::Hamerons, true), BlockedRegion::Window);
    assert_eq!(input_blocker(LabState::Vector, LabState::Hamerons, false), BlockedRegion::Window);
    assert_eq!(input_blocker(LabState::Menu, LabState::Vector, false), BlockedRegion::Window);
    assert_eq!(input_blocker(LabState::Vector, LabState::Vector, false), BlockedRegion::Selector);
}

#[test]
fn v_toggles_between_low_latency_and_vsync() {
    assert_eq!(PresentMode::AutoNoVsync.toggled(), PresentMode::AutoVsync);
    assert_eq!(PresentMode::Immediate.toggled(), PresentMode::AutoVsync);
    assert_eq!(PresentMode::Mailbox.toggled(), PresentMode::AutoVsync);
    assert_eq!(PresentMode::AutoVsync.toggled(), PresentMode::AutoNoVsync);
    assert_eq!(PresentMode::Fifo.toggled(), PresentMode::AutoNoVsync);
    assert_eq!(PresentMode::FifoRelaxed.toggled(), PresentMode::AutoNoVsync);
    assert_eq!(PresentMode::AutoNoVsync.label(), "low latency");
    assert_eq!(PresentMode::Fifo.label(), "vsync");
    for mode in [
        PresentMode::AutoVsync,
        PresentMode::AutoNoVsync,
        PresentMode::Fifo,
        PresentMode::FifoRelaxed,
        PresentMode::Immediate,
        PresentMode::Mailbox,
    ] {
        assert_ne!(mode.toggled().label(), mode.label());
        assert_eq!(mode.toggled().toggled().label(), mode.label());
    }
    assert_eq!(PresentMode::AutoNoVsync.toggled().toggled(), PresentMode::AutoNoVsync);
}

#[test]
fn hud_texts() {
    assert_eq!(visibility_label(true), "visible");
    assert_eq!(visibility_label(false), "hidden");
    assert_eq!(shown_status(""), "document not saved");
    assert_eq!(shown_status("saved stroke_lab.ink.json"), "saved stroke_lab.ink.json");
}

#[test]
fn saved_sizes_round_up_to_whole_kib() {
    assert_eq!(kib_rounded_up(0), 0);
    assert_eq!(kib_rounded_up(1), 1);
    assert_eq!(kib_rounded_up(1024), 1);
    assert_eq!(kib_rounded_up(1025), 2);
    assert_eq!(kib_rounded_up(3 * 1024 * 1024), 3072);
    assert_eq!(kib_rounded_up(u64::MAX), u64::MAX / 1024 + 1);
}

#[test]
fn vector_surface_is_created_once_and_reused() {
    let mut canvases: Vec<CanvasLayers> = Vec::new();
    let mut session = VectorSurface::default();

    let first = match session.ensure(&canvases) {
        SurfaceChoice::Create => {
            // The document creates a canvas with its first layer.
            canvases.push(CanvasLayers { canvas: 7, layers: vec![11] });
            session.adopt(7, 11);
            (7, 11)
        }
        other => panic!("an empty document has no surface: {other:?}"),
    };
    let second = match session.ensure(&canvases) {
        SurfaceChoice::Current { canvas, layer } => (canvas, layer),
        other => panic!("the surface is reused: {other:?}"),
    };

    assert_eq!(first, second);
    assert_eq!(canvases.len(), 1);
    assert_eq!(canvases[0].layers.len(), 1);
}

#[test]
fn a_document_without_the_chosen_surface_falls_back_to_its_first_canvas() {
    let canvases = vec![
        CanvasLayers { canvas: 3, layers: vec![30, 31] },
        CanvasLayers { canvas: 4, layers: vec![40] },
    ];
    let mut session = VectorSurface { canvas: Some(4), layer: Some(99) };
    assert_eq!(session.ensure(&canvases), SurfaceChoice::First { canvas: 3, layer: 30 });
    assert_eq!(session, VectorSurface { canvas: Some(3), layer: Some(30) });
    assert_eq!(session.ensure(&canvases), SurfaceChoice::Current { canvas: 3, layer: 30 });

    let mut chosen = VectorSurface { canvas: Some(4), layer: Some(40) };
    assert_eq!(chosen.ensure(&canvases), SurfaceChoice::Current { canvas: 4, layer: 40 });
    assert_eq!(chosen, VectorSurface { canvas: Some(4), layer: Some(40) });

    let empty_first = vec![
        CanvasLayers { canvas: 5, layers: vec![] },
        CanvasLayers { canvas: 6, layers: vec![60] },
    ];
    let mut fresh = VectorSurface::default();
    assert_eq!(fresh.ensure(&empty_first), SurfaceChoice::Create);
    assert_eq!(fresh, VectorSurface::default());
}

#[test]
fn vector_layers_step_within_the_stack() {
    let layers = vec![10, 20, 30];
    assert_eq!(layer_position(&layers, 20), Some(1));
    assert_eq!(layer_position(&layers, 99), None);
    assert_eq!(vector_layer_step(&layers, 20, LayerStep::Up), Some((2, 30)));
    assert_eq!(vector_layer_step(&layers, 20, LayerStep::Down), Some((0, 10)));
    assert_eq!(vector_layer_step(&layers, 30, LayerStep::Up), Some((2, 30)));
    assert_eq!(vector_layer_step(&layers, 10, LayerStep::Down), Some((0, 10)));
    assert_eq!(vector_layer_step(&layers, 99, LayerStep::Up), None);
}
