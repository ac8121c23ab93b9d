use vstd::prelude::*;

verus! {

/// How the pointer relates to a button this frame.
#[derive(Clone, Copy, Debug, PartialEq, Eq, Structural)]
pub enum ButtonInteraction {
    Clicked,
    Hovered,
    Idle,
}

/// The shade a button is drawn in.
#[derive(Clone, Copy, Debug, PartialEq, Eq, Structural)]
pub enum ButtonShade {
    Normal,
    Hovered,
    Pressed,
}

/// The panels of the side menu; one is shown at a time.
#[derive(Clone, Copy, Debug, PartialEq, Eq, Structural)]
pub enum MenuPanel {
    Main,
    Buildings,
}

/// The buttons that change the shown panel.
#[derive(Clone, Copy, Debug, PartialEq, Eq, Structural)]
pub enum MenuButton {
    Buildings,
    Back,
}

pub open spec fn shade_of(i: ButtonInteraction) -> ButtonShade {
    match i {
        ButtonInteraction::Clicked => ButtonShade::Pressed,
        ButtonInteraction::Hovered => ButtonShade::Hovered,
        ButtonInteraction::Idle => ButtonShade::Normal,
    }
}

pub open spec fn panel_after_spec(
    shown: MenuPanel,
    button: MenuButton,
    i: ButtonInteraction,
) -> MenuPanel {
    if i != ButtonInteraction::Clicked {
        shown
    } else {
        match button {
            MenuButton::Buildings => MenuPanel::Buildings,
            MenuButton::Back => MenuPanel::Main,
        }
    }
}

/// The shade of a button: pressed while clicked, lighter while hovered.
pub fn button_shade(i: ButtonInteraction) -> (r: ButtonShade)
    ensures
        r == shade_of(i),
{
    match i {
        ButtonInteraction::Clicked => ButtonShade::Pressed,
        ButtonInteraction::Hovered => ButtonShade::Hovered,
        ButtonInteraction::Idle => ButtonShade::Normal,
    }
}

/// The panel shown after `button` reports `i`: a click on the buildings
/// button opens the buildings panel, a click on back returns to the main one.
pub fn panel_after(shown: MenuPanel, button: MenuButton, i: ButtonInteraction) -> (r: MenuPanel)
    ensures
        r == panel_after_spec(shown, button, i),
{
    match i {
        ButtonInteraction::Clicked => match button {
            MenuButton::Buildings => MenuPanel::Buildings,
            MenuButton::Back => MenuPanel::Main,
        },
        _ => shown,
    }
}

/// Whether the main and the buildings panel are visible.
pub fn panel_visibility(shown: MenuPanel) -> (r: (bool, bool))
    ensures
        r.0 == (shown == MenuPanel::Main),
        r.1 == (shown == MenuPanel::Buildings),
        r.0 != r.1,
{
    match shown {
        MenuPanel::Main => (true, false),
        MenuPanel::Buildings => (false, true),
    }
}

/// Unscaled camera movement from the keys held: `x` right, `y` up (zooming
/// out), `z` towards the viewer. Opposite keys cancel; a zoom key counts two.
pub fn camera_direction(
    up: bool,
    down: bool,
    left: bool,
    right: bool,
    zoom_in: bool,
    zoom_out: bool,
) -> (r: (i32, i32, i32))
    ensures
        r.0 == (if right { 1int } else { 0 }) - (if left { 1int } else { 0 }),
        r.1 == (if zoom_out { 2int } else { 0 }) - (if zoom_in { 2int } else { 0 }),
        r.2 == (if down { 1int } else { 0 }) - (if up { 1int } else { 0 }),
{
    let x: i32 = (if right { 1 } else { 0 }) - (if left { 1 } else { 0 });
    let y: i32 = (if zoom_out { 2 } else { 0 }) - (if zoom_in { 2 } else { 0 });
    let z: i32 = (if down { 1 } else { 0 }) - (if up { 1 } else { 0 });
    (x, y, z)
}

} // verus!
