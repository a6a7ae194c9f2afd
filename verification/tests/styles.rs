use rpc_gui::styles::{
    Background, ButtonStyle, DiscordDefaultButton, DiscordGreenButton, DiscordRedButton,
    DiscordTextInput, Offset, Rgba, TextInputStyle,
};

fn rgba(red: u16, green: u16, blue: u16, alpha: u16) -> Rgba {
    Rgba { red, green, blue, alpha }
}

#[test]
fn red_button_looks() {
    let active = DiscordRedButton.active();
    assert_eq!(
        active,
        ButtonStyle {
            shadow_offset: Offset { x: 0, y: 0 },
            background: Some(Background::Color(rgba(930, 266, 289, 1000))),
            border_radius: 2000,
            border_width: 0,
            border_color: rgba(0, 0, 0, 0),
            text_color: rgba(1000, 1000, 1000, 1000),
        }
    );
    let hovered = DiscordRedButton.hovered();
    assert_eq!(hovered.background, Some(Background::Color(rgba(930, 266, 289, 300))));
    assert_eq!(ButtonStyle { background: active.background, ..hovered }, active);
}

#[test]
fn green_and_blue_buttons() {
    assert_eq!(
        DiscordGreenButton.active().background,
        Some(Background::Color(rgba(250, 641, 275, 1000)))
    );
    assert_eq!(
        DiscordGreenButton.hovered().background,
        Some(Background::Color(rgba(250, 641, 275, 300)))
    );
    assert_eq!(
        DiscordDefaultButton.active().background,
        Some(Background::Color(rgba(250, 414, 669, 1000)))
    );
    assert_eq!(
        DiscordDefaultButton.hovered().background,
        Some(Background::Color(rgba(250, 414, 669, 300)))
    );
    assert_eq!(DiscordDefaultButton.hovered().text_color, Rgba::white());
}

#[test]
fn text_input_looks() {
    let active = DiscordTextInput.active();
    assert_eq!(
        active,
        TextInputStyle {
            background: Background::Color(rgba(0, 0, 0, 100)),
            border_radius: 3000,
            border_width: 2000,
            border_color: rgba(0, 0, 0, 300),
        }
    );
    let focused = DiscordTextInput.focused();
    assert_eq!(focused.border_color, rgba(113, 688, 941, 1000));
    assert_eq!(TextInputStyle { border_color: active.border_color, ..focused }, active);
    assert_eq!(DiscordTextInput.value_color(), rgba(1000, 1000, 1000, 1000));
    assert_eq!(DiscordTextInput.placeholder_color(), rgba(1000, 1000, 1000, 300));
    assert_eq!(DiscordTextInput.selection_color(), rgba(300, 445, 602, 1000));
}

#[test]
fn toolkit_defaults() {
    assert_eq!(ButtonStyle::default_style().background, None);
    assert_eq!(ButtonStyle::default_style().text_color, Rgba::black());
    assert_eq!(TextInputStyle::default_style().background, Background::Color(Rgba::white()));
    assert_eq!(Rgba::transparent(), rgba(0, 0, 0, 0));
}
