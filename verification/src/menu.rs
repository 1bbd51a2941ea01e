use vstd::prelude::*;

verus! {

/// Where the lab is: the renderer menu, or drawing with one of the two
/// renderers.
#[derive(Clone, Copy, Debug, PartialEq, Eq, Structural)]
pub enum LabState {
    Menu,
    Hamerons,
    Vector,
}

impl Default for LabState {
    /// The lab starts in the menu.
    fn default() -> (s: LabState)
        ensures
            s == LabState::Menu,
    {
        LabState::Menu
    }
}

/// How a pointer stands to a menu button.
#[derive(Clone, Copy, Debug, PartialEq, Eq, Structural)]
pub enum Interaction {
    Pressed,
    Hovered,
    Idle,
}

/// An opaque colour, one byte per sRGB channel.
#[derive(Clone, Copy, Debug, PartialEq, Eq, Structural)]
pub struct Rgb8 {
    pub red: u8,
    pub green: u8,
    pub blue: u8,
}

/// A renderer button of the menu: how the pointer stands to it and the
/// renderer it chooses.
#[derive(Clone, Copy, Debug, PartialEq, Eq, Structural)]
pub struct MenuButton {
    pub interaction: Interaction,
    pub choice: LabState,
}

/// The digit keys just pressed in the menu.
#[derive(Clone, Copy, Debug, Default)]
pub struct MenuKeys {
    pub digit1: bool,
    pub numpad1: bool,
    pub digit2: bool,
    pub numpad2: bool,
}

/// What the menu does in one frame: the renderer to switch to, if any,
/// and the new background of each button, in order.
pub struct MenuFrame {
    pub next: Option<LabState>,
    pub backgrounds: Vec<Rgb8>,
}

/// Which part of the window a renderer's stroke input ignores.
#[derive(Clone, Copy, Debug, PartialEq, Eq, Structural)]
pub enum BlockedRegion {
    /// All of it: the renderer takes no strokes.
    Window,
    /// Only the colour selector.
    Selector,
}

/// The renderer that the digit keys choose: 1 the paint renderer, 2 the
/// vector renderer, 1 first.
pub open spec fn key_choice(keys: MenuKeys) -> Option<LabState> {
    if keys.digit1 || keys.numpad1 {
        Some(LabState::Hamerons)
    } else if keys.digit2 || keys.numpad2 {
        Some(LabState::Vector)
    } else {
        None
    }
}

/// The background of a button that the pointer presses, hovers or leaves.
pub open spec fn background_for(interaction: Interaction) -> Rgb8 {
    match interaction {
        Interaction::Pressed => Rgb8 { red: 57, green: 78, blue: 116 },
        Interaction::Hovered => Rgb8 { red: 47, green: 58, blue: 78 },
        Interaction::Idle => Rgb8 { red: 34, green: 40, blue: 52 },
    }
}

/// The renderer chosen when `buttons` report after the keys chose
/// `chosen`: the last pressed button wins over earlier ones and the keys.
pub open spec fn menu_choice(buttons: Seq<MenuButton>, chosen: Option<LabState>) -> Option<LabState>
    decreases buttons.len(),
{
    if buttons.len() == 0 {
        chosen
    } else if buttons.last().interaction == Interaction::Pressed {
        Some(buttons.last().choice)
    } else {
        menu_choice(buttons.drop_last(), chosen)
    }
}

/// The renderer that the digit keys choose.
pub fn menu_key_choice(keys: MenuKeys) -> (c: Option<LabState>)
    ensures
        c == key_choice(keys),
{
    if keys.digit1 || keys.numpad1 {
        Some(LabState::Hamerons)
    } else if keys.digit2 || keys.numpad2 {
        Some(LabState::Vector)
    } else {
        None
    }
}

/// The background of a renderer button.
pub fn button_background(interaction: Interaction) -> (c: Rgb8)
    ensures
        c == background_for(interaction),
{
    match interaction {
        Interaction::Pressed => Rgb8 { red: 57, green: 78, blue: 116 },
        Interaction::Hovered => Rgb8 { red: 47, green: 58, blue: 78 },
        Interaction::Idle => Rgb8 { red: 34, green: 40, blue: 52 },
    }
}

/// One frame of the renderer menu: the keys choose first, then each
/// button in turn restyles itself and, if pressed, chooses its renderer.
pub fn menu_frame(keys: MenuKeys, buttons: &Vec<MenuButton>) -> (frame: MenuFrame)
    ensures
        frame.next == menu_choice(buttons@, key_choice(keys)),
        frame.backgrounds@.len() == buttons@.len(),
        forall|i: int|
            0 <= i < buttons@.len() ==> #[trigger] frame.backgrounds@[i] == background_for(
                buttons@[i].interaction,
            ),
{
    let mut next = menu_key_choice(keys);
    let mut backgrounds: Vec<Rgb8> = Vec::new();
    let n = buttons.len();
    for i in 0..n
        invariant
            n == buttons@.len(),
            next == menu_choice(buttons@.take(i as int), key_choice(keys)),
            backgrounds@.len() == i,
            forall|j: int|
                0 <= j < i ==> #[trigger] backgrounds@[j] == background_for(buttons@[j].interaction),
    {
        let button = buttons[i];
        assert(buttons@.take(i + 1).drop_last() =~= buttons@.take(i as int));
        if button.interaction == Interaction::Pressed {
            next = Some(button.choice);
        }
        backgrounds.push(button_background(button.interaction));
    }
    assert(buttons@.take(n as int) =~= buttons@);
    MenuFrame { next, backgrounds }
}

/// Escape in a drawing mode goes back to the menu.
pub fn escape_choice(escape: bool) -> (c: Option<LabState>)
    ensures
        c == (if escape {
            Some(LabState::Menu)
        } else {
            None
        }),
{
    if escape {
        Some(LabState::Menu)
    } else {
        None
    }
}

/// The region that `renderer` ignores while the lab is in `state`: all of
/// the window unless that renderer is the active one and Shift (which
/// resizes the brush) is up; otherwise only the colour selector.
pub open spec fn blocked_region(state: LabState, renderer: LabState, shift: bool) -> BlockedRegion {
    if state != renderer || shift {
        BlockedRegion::Window
    } else {
        BlockedRegion::Selector
    }
}

/// The region of the window that `renderer` ignores.
pub fn input_blocker(state: LabState, renderer: LabState, shift: bool) -> (r: BlockedRegion)
    ensures
        r == blocked_region(state, renderer, shift),
{
    if state != renderer || shift {
        BlockedRegion::Window
    } else {
        BlockedRegion::Selector
    }
}

/// Exactly one backend is active at a time: the two renderers never both
/// take strokes, and in the menu neither does.
pub proof fn one_renderer_takes_strokes(state: LabState, shift: bool)
    ensures
        blocked_region(state, LabState::Hamerons, shift) == BlockedRegion::Window
            || blocked_region(state, LabState::Vector, shift) == BlockedRegion::Window,
        state == LabState::Menu ==> blocked_region(state, LabState::Hamerons, shift)
            == BlockedRegion::Window && blocked_region(state, LabState::Vector, shift)
            == BlockedRegion::Window,
        shift ==> blocked_region(state, LabState::Hamerons, shift) == BlockedRegion::Window
            && blocked_region(state, LabState::Vector, shift) == BlockedRegion::Window,
{
}

/// The digit keys choose the renderer: 1 (either row) the paint renderer,
/// else 2 the vector renderer, else nothing.
pub proof fn digits_choose_the_renderer(keys: MenuKeys)
    ensures
        keys.digit1 || keys.numpad1 ==> key_choice(keys) == Some(LabState::Hamerons),
        !(keys.digit1 || keys.numpad1) && (keys.digit2 || keys.numpad2) ==> key_choice(keys) == Some(
            LabState::Vector,
        ),
        !(keys.digit1 || keys.numpad1 || keys.digit2 || keys.numpad2) ==> key_choice(keys) is None,
{
}

/// The last pressed button decides: its renderer is chosen, whatever the
/// keys and the earlier buttons chose.
pub proof fn the_last_pressed_button_decides(buttons: Seq<MenuButton>, chosen: Option<LabState>, i: int)
    requires
        0 <= i < buttons.len(),
        buttons[i].interaction == Interaction::Pressed,
        forall|j: int| i < j < buttons.len() ==> #[trigger] buttons[j].interaction != Interaction::Pressed,
    ensures
        menu_choice(buttons, chosen) == Some(buttons[i].choice),
    decreases buttons.len(),
{
    if i < buttons.len() - 1 {
        assert(buttons.last() == buttons[buttons.len() - 1]);
        let rest = buttons.drop_last();
        assert forall|j: int| i < j < rest.len() implies #[trigger] rest[j].interaction
            != Interaction::Pressed by {
            assert(rest[j] == buttons[j]);
        }
        the_last_pressed_button_decides(rest, chosen, i);
    }
}

/// A renderer takes strokes away from the colour selector exactly while
/// it is the active one and Shift is up; otherwise it ignores the window.
pub proof fn the_active_renderer_takes_strokes(state: LabState, renderer: LabState, shift: bool)
    ensures
        state == renderer && !shift ==> blocked_region(state, renderer, shift) == BlockedRegion::Selector,
        state != renderer || shift ==> blocked_region(state, renderer, shift) == BlockedRegion::Window,
{
}

/// A pressed button always decides, whatever the keys chose.
pub proof fn pressed_button_wins(buttons: Seq<MenuButton>, chosen: Option<LabState>, i: int)
    requires
        0 <= i < buttons.len(),
        buttons[i].interaction == Interaction::Pressed,
    ensures
        menu_choice(buttons, chosen) is Some,
    decreases buttons.len(),
{
    if i < buttons.len() - 1 && buttons.last().interaction != Interaction::Pressed {
        pressed_button_wins(buttons.drop_last(), chosen, i);
    }
}

/// Without a pressed button, the keys decide.
pub proof fn unpressed_buttons_leave_key_choice(buttons: Seq<MenuButton>, chosen: Option<LabState>)
    requires
        forall|i: int| 0 <= i < buttons.len() ==> #[trigger] buttons[i].interaction != Interaction::Pressed,
    ensures
        menu_choice(buttons, chosen) == chosen,
    decreases buttons.len(),
{
    if buttons.len() > 0 {
        assert(buttons.last() == buttons[buttons.len() - 1]);
        unpressed_buttons_leave_key_choice(buttons.drop_last(), chosen);
    }
}

} // verus!
