//! The shared button: a label, an optional icon, a primary or destructive
//! variant, and a loading state that shows a spinner and takes no clicks.

use vstd::prelude::*;

use crate::color::{WHITE, gray, gray_at, red, red_at, white};

verus! {

#[derive(Debug, Clone, Copy, PartialEq, Eq, Structural)]
pub enum ButtonVariant {
    Primary,
    Destructive,
}

impl Default for ButtonVariant {
    fn default() -> (v: Self)
        ensures
            v == ButtonVariant::Primary,
    {
        ButtonVariant::Primary
    }
}

/// The colors of a variant, as 0xRRGGBB.
#[derive(Debug, Clone, Copy, PartialEq, Eq, Structural)]
pub struct ButtonStyle {
    pub bg: u32,
    pub hover_bg: u32,
    pub active_bg: u32,
    pub text: u32,
}

impl ButtonVariant {
    /// A primary button is the darkest gray with the lightest text; a
    /// destructive one is red, darker on hover and press, with white text.
    pub open spec fn style_spec(self) -> ButtonStyle {
        match self {
            ButtonVariant::Primary => ButtonStyle {
                bg: gray_at(12, false),
                hover_bg: gray_at(11, false),
                active_bg: gray_at(10, false),
                text: gray_at(1, false),
            },
            ButtonVariant::Destructive => ButtonStyle {
                bg: red_at(9, false),
                hover_bg: red_at(10, false),
                active_bg: red_at(11, false),
                text: WHITE,
            },
        }
    }

    pub fn style(self) -> (s: ButtonStyle)
        ensures
            s == self.style_spec(),
    {
        match self {
            ButtonVariant::Primary => ButtonStyle {
                bg: gray(12, None),
                hover_bg: gray(11, None),
                active_bg: gray(10, None),
                text: gray(1, None),
            },
            ButtonVariant::Destructive => ButtonStyle {
                bg: red(9, None),
                hover_bg: red(10, None),
                active_bg: red(11, None),
                text: white(),
            },
        }
    }
}

/// The button as configured; `I` is the icon the app draws.
pub struct Button<I, H> {
    pub id: String,
    pub label: Option<String>,
    pub icon: Option<I>,
    pub variant: ButtonVariant,
    pub is_loading: bool,
    pub on_click: Option<H>,
}

impl<I, H> Button<I, H> {
    /// A primary button; an empty label means none.
    pub fn new(id: String, label: String) -> (b: Self)
        ensures
            b.id == id,
            label@.len() == 0 ==> b.label is None,
            label@.len() > 0 ==> b.label == Some(label),
            b.icon is None,
            b.variant == ButtonVariant::Primary,
            !b.is_loading,
            b.on_click is None,
    {
        let label = if label.as_str().is_empty() {
            None
        } else {
            Some(label)
        };
        Button { id, label, icon: None, variant: ButtonVariant::Primary, is_loading: false, on_click: None }
    }

    pub fn variant(self, variant: ButtonVariant) -> (b: Self)
        ensures
            b == (Button { variant, ..self }),
    {
        Button { variant, ..self }
    }

    pub fn destructive(self) -> (b: Self)
        ensures
            b == (Button { variant: ButtonVariant::Destructive, ..self }),
    {
        self.variant(ButtonVariant::Destructive)
    }

    pub fn icon(self, icon: I) -> (b: Self)
        ensures
            b == (Button { icon: Some(icon), ..self }),
    {
        Button { icon: Some(icon), ..self }
    }

    pub fn loading(self, is_loading: bool) -> (b: Self)
        ensures
            b == (Button { is_loading, ..self }),
    {
        Button { is_loading, ..self }
    }

    pub fn on_click(self, handler: H) -> (b: Self)
        ensures
            b == (Button { on_click: Some(handler), ..self }),
    {
        Button { on_click: Some(handler), ..self }
    }

    /// Whether a click reaches the handler: there is one and the button is
    /// not loading.
    pub fn takes_clicks(&self) -> (b: bool)
        ensures
            b == (self.on_click is Some && !self.is_loading),
    {
        self.on_click.is_some() && !self.is_loading
    }
}

} // verus!
