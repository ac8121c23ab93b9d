use arcade::menu::{
    button_shade, camera_direction, panel_after, panel_visibility, ButtonInteraction, ButtonShade,
    MenuButton, MenuPanel,
};

#[test]
fn shades_follow_interaction() {
    assert_eq!(button_shade(ButtonInteraction::Clicked), ButtonShade::Pressed);
    assert_eq!(button_shade(ButtonInteraction::Hovered), ButtonShade::Hovered);
    assert_eq!(button_shade(ButtonInteraction::Idle), ButtonShade::Normal);
}

#[test]
fn buildings_click_opens_buildings_panel() {
    let shown = panel_after(MenuPanel::Main, MenuButton::Buildings, ButtonInteraction::Clicked);
    assert_eq!(shown, MenuPanel::Buildings);
    assert_eq!(panel_visibility(shown), (false, true));
}

#[test]
fn back_click_returns_to_main_panel() {
    let shown = panel_after(MenuPanel::Buildings, MenuButton::Back, ButtonInteraction::Clicked);
    assert_eq!(shown, MenuPanel::Main);
    assert_eq!(panel_visibility(shown), (true, false));
}

#[test]
fn hovering_keeps_panel() {
    assert_eq!(
        panel_after(MenuPanel::Main, MenuButton::Buildings, ButtonInteraction::Hovered),
        MenuPanel::Main
    );
    assert_eq!(
        panel_after(MenuPanel::Buildings, MenuButton::Back, ButtonInteraction::Idle),
        MenuPanel::Buildings
    );
}

#[test]
fn camera_keys_combine() {
    assert_eq!(camera_direction(true, false, false, true, false, false), (1, 0, -1));
    assert_eq!(camera_direction(false, true, true, false, true, false), (-1, -2, 1));
    assert_eq!(camera_direction(true, true, true, true, true, true), (0, 0, 0));
    assert_eq!(camera_direction(false, false, false, false, false, true), (0, 2, 0));
}
