use vstd::prelude::*;

verus! {

/// A colour and alpha tint for text: red, green, blue, alpha.
#[derive(Clone, Copy, Debug, PartialEq, Eq, Structural)]
pub struct ColorMod(pub u8, pub u8, pub u8, pub u8);

impl Default for ColorMod {
    /// Opaque white: text drawn as the font has it.
    fn default() -> (r: ColorMod)
        ensures
            r == ColorMod(255, 255, 255, 255),
    {
        ColorMod(255, 255, 255, 255)
    }
}

impl From<(u8, u8, u8, u8)> for ColorMod {
    fn from(arg: (u8, u8, u8, u8)) -> (r: ColorMod) {
        ColorMod(arg.0, arg.1, arg.2, arg.3)
    }
}

impl vstd::std_specs::convert::FromSpecImpl<(u8, u8, u8, u8)> for ColorMod {
    open spec fn obeys_from_spec() -> bool {
        true
    }

    open spec fn from_spec(arg: (u8, u8, u8, u8)) -> ColorMod {
        ColorMod(arg.0, arg.1, arg.2, arg.3)
    }
}

/// A line of text with the tint it is drawn in.
#[derive(Clone, Debug)]
pub struct RenderableText {
    pub text: String,
    pub color_mod: ColorMod,
}

impl RenderableText {
    /// Text in the default tint (opaque white).
    pub fn new(s: String) -> (r: RenderableText)
        ensures
            r.text@ == s@,
            r.color_mod == ColorMod(255, 255, 255, 255),
    {
        RenderableText { text: s, color_mod: ColorMod::default() }
    }

    /// Text in the tint `cm`.
    pub fn with_color(s: String, cm: ColorMod) -> (r: RenderableText)
        ensures
            r.text@ == s@,
            r.color_mod == cm,
    {
        RenderableText { text: s, color_mod: cm }
    }

    /// Changes the tint.
    pub fn set_color(&mut self, cm: ColorMod)
        ensures
            final(self).color_mod == cm,
            final(self).text@ == old(self).text@,
    {
        self.color_mod = cm;
    }
}

} // verus!
