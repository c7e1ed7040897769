//! Font state: holds a rasterizer font parsed from bytes the driver read,
//! and the pixel-font width estimate used when no font loads.

use vstd::prelude::*;

verus! {

#[verifier::external_type_specification]
#[verifier::external_body]
pub struct ExFont(fontdue::Font);

/// Relies on `fontdue::Font::from_bytes` with `FontSettings::default()`
/// (collection index zero, the default scale, substitutions loaded):
/// parses font bytes into a rasterizer font.
#[verifier::external_body]
fn font_from_bytes(data: Vec<u8>) -> Option<fontdue::Font> {
    match fontdue::Font::from_bytes(data, fontdue::FontSettings::default()) {
        Ok(f) => Some(f),
        Err(_) => None,
    }
}

/// The font manager: the loaded font, when the driver found and parsed
/// one.
pub struct FontManager {
    pub font: Option<fontdue::Font>,
}

impl FontManager {
    /// A manager over whatever font loading produced.
    pub fn new(font: Option<fontdue::Font>) -> (r: Self)
        ensures
            r.font is Some <==> font is Some,
    {
        FontManager { font }
    }

    /// A manager over the font these bytes parse to, if they parse.
    pub fn load_from_bytes(data: Vec<u8>) -> Self {
        FontManager { font: font_from_bytes(data) }
    }

    /// The loaded font, when one exists.
    pub fn get_font(&self) -> (r: Option<&fontdue::Font>)
        ensures
            r is Some <==> self.font is Some,
    {
        match &self.font {
            Some(f) => Some(f),
            None => None,
        }
    }

    /// Whether a font is loaded.
    pub fn has_font(&self) -> (r: bool)
        ensures
            r == (self.font is Some),
    {
        self.font.is_some()
    }

    /// Replaces the font with what a fresh load produced.
    pub fn reload_font(&mut self, font: Option<fontdue::Font>)
        ensures
            final(self).font is Some <==> font is Some,
    {
        self.font = font;
    }
}

/// The width of a text in the fallback pixel font: one fixed-width cell
/// per character.
pub fn get_pixel_text_width(text: &str, char_width: u32) -> (r: u32)
    requires
        text@.len() <= u32::MAX,
        text@.len() * char_width <= u32::MAX,
    ensures
        r == text@.len() * char_width,
{
    let n = vstd::string::StrSliceExecFns::unicode_len(text);
    (n as u32) * char_width
}

} // verus!
