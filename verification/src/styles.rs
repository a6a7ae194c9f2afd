//! The look of the editor's widgets. Colours are kept as whole thousandths of
//! full intensity and lengths as whole thousandths of a logical pixel, which
//! holds every value the style sheets use exactly.

use vstd::prelude::*;

verus! {

/// Full intensity of a colour channel, in thousandths.
pub const FULL: u16 = 1000;

/// A colour; each channel, alpha included, in thousandths of full intensity.
#[derive(Clone, Copy, Debug, PartialEq, Eq, Structural)]
pub struct Rgba {
    pub red: u16,
    pub green: u16,
    pub blue: u16,
    pub alpha: u16,
}

impl Rgba {
    /// Every channel lies between none and full intensity.
    pub open spec fn well_formed(self) -> bool {
        &&& self.red <= FULL
        &&& self.green <= FULL
        &&& self.blue <= FULL
        &&& self.alpha <= FULL
    }

    pub open spec fn spec_rgba(red: u16, green: u16, blue: u16, alpha: u16) -> Rgba {
        Rgba { red, green, blue, alpha }
    }

    pub open spec fn spec_rgb(red: u16, green: u16, blue: u16) -> Rgba {
        Rgba { red, green, blue, alpha: FULL }
    }

    /// A colour from its four channels.
    pub fn rgba(red: u16, green: u16, blue: u16, alpha: u16) -> (c: Rgba)
        requires
            red <= FULL,
            green <= FULL,
            blue <= FULL,
            alpha <= FULL,
        ensures
            c == Rgba::spec_rgba(red, green, blue, alpha),
            c.well_formed(),
    {
        Rgba { red, green, blue, alpha }
    }

    /// An opaque colour from its three colour channels.
    pub fn rgb(red: u16, green: u16, blue: u16) -> (c: Rgba)
        requires
            red <= FULL,
            green <= FULL,
            blue <= FULL,
        ensures
            c == Rgba::spec_rgb(red, green, blue),
            c.well_formed(),
    {
        Rgba { red, green, blue, alpha: FULL }
    }

    pub open spec fn spec_white() -> Rgba {
        Rgba::spec_rgb(FULL, FULL, FULL)
    }

    pub open spec fn spec_black() -> Rgba {
        Rgba::spec_rgb(0, 0, 0)
    }

    pub open spec fn spec_transparent() -> Rgba {
        Rgba::spec_rgba(0, 0, 0, 0)
    }

    pub fn white() -> (c: Rgba)
        ensures
            c == Rgba::spec_white(),
    {
        Rgba::rgb(FULL, FULL, FULL)
    }

    pub fn black() -> (c: Rgba)
        ensures
            c == Rgba::spec_black(),
    {
        Rgba::rgb(0, 0, 0)
    }

    pub fn transparent() -> (c: Rgba)
        ensures
            c == Rgba::spec_transparent(),
    {
        Rgba::rgba(0, 0, 0, 0)
    }
}

/// What fills a widget.
#[derive(Clone, Copy, Debug, PartialEq, Eq, Structural)]
pub enum Background {
    Color(Rgba),
}

/// An offset; both coordinates in thousandths of a logical pixel.
#[derive(Clone, Copy, Debug, PartialEq, Eq, Structural)]
pub struct Offset {
    pub x: i32,
    pub y: i32,
}

/// The appearance of a button; lengths in thousandths of a logical pixel.
#[derive(Clone, Copy, Debug, PartialEq, Eq, Structural)]
pub struct ButtonStyle {
    pub shadow_offset: Offset,
    pub background: Option<Background>,
    pub border_radius: u32,
    pub border_width: u32,
    pub border_color: Rgba,
    pub text_color: Rgba,
}

/// The appearance of a text input; lengths in thousandths of a logical pixel.
#[derive(Clone, Copy, Debug, PartialEq, Eq, Structural)]
pub struct TextInputStyle {
    pub background: Background,
    pub border_radius: u32,
    pub border_width: u32,
    pub border_color: Rgba,
}

impl ButtonStyle {
    /// The toolkit's plain button: no shadow offset, no background, no
    /// border, black text.
    pub open spec fn spec_default() -> ButtonStyle {
        ButtonStyle {
            shadow_offset: Offset { x: 0, y: 0 },
            background: None,
            border_radius: 0,
            border_width: 0,
            border_color: Rgba::spec_transparent(),
            text_color: Rgba::spec_black(),
        }
    }

    pub fn default_style() -> (s: ButtonStyle)
        ensures
            s == ButtonStyle::spec_default(),
    {
        ButtonStyle {
            shadow_offset: Offset { x: 0, y: 0 },
            background: None,
            border_radius: 0,
            border_width: 0,
            border_color: Rgba::transparent(),
            text_color: Rgba::black(),
        }
    }
}

impl TextInputStyle {
    /// The toolkit's plain text input: white background, no border.
    pub open spec fn spec_default() -> TextInputStyle {
        TextInputStyle {
            background: Background::Color(Rgba::spec_white()),
            border_radius: 0,
            border_width: 0,
            border_color: Rgba::spec_transparent(),
        }
    }

    pub fn default_style() -> (s: TextInputStyle)
        ensures
            s == TextInputStyle::spec_default(),
    {
        TextInputStyle {
            background: Background::Color(Rgba::white()),
            border_radius: 0,
            border_width: 0,
            border_color: Rgba::transparent(),
        }
    }
}

/// The alpha of a button's background while the pointer is over it.
pub const HOVER_ALPHA: u16 = 300;

/// The radius of the corners of the coloured buttons.
pub const BUTTON_RADIUS: u32 = 2000;

/// A coloured button with white text: opaque `fill` while resting, the same
/// fill at alpha 0.3 while hovered.
pub open spec fn spec_filled_button(fill: Rgba) -> ButtonStyle {
    ButtonStyle {
        text_color: Rgba::spec_white(),
        background: Some(Background::Color(fill)),
        border_color: Rgba::spec_transparent(),
        border_radius: BUTTON_RADIUS,
        ..ButtonStyle::spec_default()
    }
}

/// The hovered look of a button: its resting look with the background at
/// alpha 0.3.
pub open spec fn spec_hovered(active: ButtonStyle, fill: Rgba) -> ButtonStyle {
    ButtonStyle { background: Some(Background::Color(Rgba { alpha: HOVER_ALPHA, ..fill })), ..active }
}

fn filled_button(fill: Rgba) -> (s: ButtonStyle)
    ensures
        s == spec_filled_button(fill),
{
    let base = ButtonStyle::default_style();
    ButtonStyle {
        text_color: Rgba::white(),
        background: Some(Background::Color(fill)),
        border_color: Rgba::transparent(),
        border_radius: BUTTON_RADIUS,
        ..base
    }
}

fn hovered_of(active: ButtonStyle, fill: Rgba) -> (s: ButtonStyle)
    ensures
        s == spec_hovered(active, fill),
{
    ButtonStyle {
        background: Some(Background::Color(Rgba { alpha: HOVER_ALPHA, ..fill })),
        ..active
    }
}

/// The red button (stop).
pub struct DiscordRedButton;

/// The green button (start).
pub struct DiscordGreenButton;

/// The blue button of ordinary actions.
pub struct DiscordDefaultButton;

/// The translucent text input.
pub struct DiscordTextInput;

pub open spec fn red_fill() -> Rgba {
    Rgba::spec_rgb(930, 266, 289)
}

pub open spec fn green_fill() -> Rgba {
    Rgba::spec_rgb(250, 641, 275)
}

pub open spec fn blue_fill() -> Rgba {
    Rgba::spec_rgb(250, 414, 669)
}

impl DiscordRedButton {
    pub fn active(&self) -> (s: ButtonStyle)
        ensures
            s == spec_filled_button(red_fill()),
    {
        filled_button(Rgba::rgb(930, 266, 289))
    }

    pub fn hovered(&self) -> (s: ButtonStyle)
        ensures
            s == spec_hovered(spec_filled_button(red_fill()), red_fill()),
    {
        hovered_of(self.active(), Rgba::rgb(930, 266, 289))
    }
}

impl DiscordGreenButton {
    pub fn active(&self) -> (s: ButtonStyle)
        ensures
            s == spec_filled_button(green_fill()),
    {
        filled_button(Rgba::rgb(250, 641, 275))
    }

    pub fn hovered(&self) -> (s: ButtonStyle)
        ensures
            s == spec_hovered(spec_filled_button(green_fill()), green_fill()),
    {
        hovered_of(self.active(), Rgba::rgb(250, 641, 275))
    }
}

impl DiscordDefaultButton {
    pub fn active(&self) -> (s: ButtonStyle)
        ensures
            s == spec_filled_button(blue_fill()),
    {
        filled_button(Rgba::rgb(250, 414, 669))
    }

    pub fn hovered(&self) -> (s: ButtonStyle)
        ensures
            s == spec_hovered(spec_filled_button(blue_fill()), blue_fill()),
    {
        hovered_of(self.active(), Rgba::rgb(250, 414, 669))
    }
}

/// The resting look of the text inputs: a faint dark fill and a 2-pixel
/// translucent dark border with rounded corners.
pub open spec fn spec_text_input_active() -> TextInputStyle {
    TextInputStyle {
        background: Background::Color(Rgba::spec_rgba(0, 0, 0, 100)),
        border_width: 2000,
        border_radius: 3000,
        border_color: Rgba::spec_rgba(0, 0, 0, 300),
        ..TextInputStyle::spec_default()
    }
}

pub open spec fn focus_border() -> Rgba {
    Rgba::spec_rgb(113, 688, 941)
}

impl DiscordTextInput {
    pub fn active(&self) -> (s: TextInputStyle)
        ensures
            s == spec_text_input_active(),
    {
        let base = TextInputStyle::default_style();
        TextInputStyle {
            background: Background::Color(Rgba::rgba(0, 0, 0, 100)),
            border_width: 2000,
            border_radius: 3000,
            border_color: Rgba::rgba(0, 0, 0, 300),
            ..base
        }
    }

    pub fn value_color(&self) -> (c: Rgba)
        ensures
            c == Rgba::spec_white(),
    {
        Rgba::white()
    }

    pub fn placeholder_color(&self) -> (c: Rgba)
        ensures
            c == Rgba::spec_rgba(FULL, FULL, FULL, 300),
    {
        Rgba::rgba(FULL, FULL, FULL, 300)
    }

    /// The focused look: the resting look with a light blue border.
    pub fn focused(&self) -> (s: TextInputStyle)
        ensures
            s == (TextInputStyle { border_color: focus_border(), ..spec_text_input_active() }),
    {
        TextInputStyle { border_color: Rgba::rgb(113, 688, 941), ..self.active() }
    }

    pub fn selection_color(&self) -> (c: Rgba)
        ensures
            c == Rgba::spec_rgb(300, 445, 602),
    {
        Rgba::rgb(300, 445, 602)
    }
}

/// Every colour of the style sheets is a proper colour, and each coloured
/// button, while hovered, keeps its resting look but for a translucent copy of
/// its fill.
pub proof fn lemma_style_sheets_consistent()
    ensures
        red_fill().well_formed(),
        green_fill().well_formed(),
        blue_fill().well_formed(),
        focus_border().well_formed(),
        forall|fill: Rgba|
            {
                let active = #[trigger] spec_filled_button(fill);
                let hovered = spec_hovered(active, fill);
                &&& hovered.text_color == active.text_color
                &&& hovered.border_color == active.border_color
                &&& hovered.border_radius == active.border_radius
                &&& hovered.border_width == active.border_width
                &&& hovered.shadow_offset == active.shadow_offset
                &&& hovered.background == Some(
                    Background::Color(Rgba { alpha: HOVER_ALPHA, ..fill }),
                )
            },
{
}

} // verus!
