//! Paints, fill rules and clip masks.

use vstd::prelude::*;
use crate::paint::blend::BlendMode;
use crate::paint::color::Color;
use crate::paint::shader::Shader;
use crate::path::PathData;

pub mod blend;
pub mod color;
pub mod shader;
pub mod stroke;

verus! {

/// What and how a fill or stroke paints: a shader, a blend mode and an
/// anti-alias flag.
#[derive(Clone, Copy, PartialEq, Eq, Structural, Debug)]
pub struct Paint {
    pub shader: Shader,
    pub blend_mode: BlendMode,
    pub anti_alias: bool,
}

impl Paint {
    /// The default paint value: solid black, painted source-over, without
    /// anti-aliasing.
    pub open spec fn default_paint_spec() -> Paint {
        Paint {
            shader: Shader::SolidColor(Color { r: 0, g: 0, b: 0, a: 255 }),
            blend_mode: BlendMode::SourceOver,
            anti_alias: false,
        }
    }

    /// Makes the paint a solid color.
    pub fn set_color(&mut self, color: Color)
        ensures
            *final(self) == (Paint { shader: Shader::SolidColor(color), ..*old(self) }),
    {
        self.shader = Shader::SolidColor(color);
    }

    /// Makes the paint a solid color given as four 8-bit channels.
    pub fn set_color_rgba8(&mut self, r: u8, g: u8, b: u8, a: u8)
        ensures
            *final(self) == (Paint { shader: Shader::SolidColor(Color { r, g, b, a }), ..*old(self) }),
    {
        self.set_color(Color::from_rgba8(r, g, b, a))
    }

    /// Whether the paint is a solid color.
    pub fn is_solid_color(&self) -> (r: bool)
        ensures
            r == (self.shader is SolidColor),
    {
        matches!(self.shader, Shader::SolidColor(_))
    }

    /// The default paint with the given solid color.
    pub fn from_color(color: Color) -> (r: Self)
        ensures
            r == (Paint { shader: Shader::SolidColor(color), ..Paint::default_paint_spec() }),
    {
        let mut paint = Paint::default();
        paint.set_color(color);
        paint
    }

    /// The default paint with a solid color given as four 8-bit channels.
    pub fn from_color_rgba8(r: u8, g: u8, b: u8, a: u8) -> (p: Self)
        ensures
            p == (Paint { shader: Shader::SolidColor(Color { r, g, b, a }), ..Paint::default_paint_spec() }),
    {
        let mut paint = Paint::default();
        paint.set_color_rgba8(r, g, b, a);
        paint
    }
}

impl Default for Paint {
    /// The default paint is solid black painted source-over without
    /// anti-aliasing.
    fn default() -> (r: Self)
        ensures
            r == Paint::default_paint_spec(),
    {
        Paint {
            shader: Shader::SolidColor(Color::black()),
            blend_mode: BlendMode::SourceOver,
            anti_alias: false,
        }
    }
}

/// How the inside of a path is decided.
#[derive(Clone, Copy, PartialEq, Eq, Structural, Debug)]
pub enum FillRule {
    Nonzero,
    Evenodd,
}

impl Default for FillRule {
    /// The default rule is the non-zero winding rule.
    fn default() -> (r: Self)
        ensures
            r == FillRule::Nonzero,
    {
        FillRule::Nonzero
    }
}

/// The markup keyword of a fill rule.
pub fn fill_rule_to_string(v: FillRule) -> (r: String)
    ensures
        r@ == match v {
            FillRule::Nonzero => "nonzero"@,
            FillRule::Evenodd => "evenodd"@,
        },
{
    match v {
        FillRule::Nonzero => "nonzero".to_owned(),
        FillRule::Evenodd => "evenodd".to_owned(),
    }
}

/// The fill rule named by a markup keyword, if any.
pub fn get_fill_rule(value: &str) -> (r: Option<FillRule>)
    ensures
        r == if value@ == "nonzero"@ {
            Some(FillRule::Nonzero)
        } else if value@ == "evenodd"@ {
            Some(FillRule::Evenodd)
        } else {
            None::<FillRule>
        },
{
    let v = value.to_owned();
    if v == "nonzero".to_owned() {
        Some(FillRule::Nonzero)
    } else if v == "evenodd".to_owned() {
        Some(FillRule::Evenodd)
    } else {
        None
    }
}

/// A clip: the visible region is the inside of the path under the rule.
#[derive(Clone, Debug)]
pub struct ClipMask {
    pub path: PathData,
    pub fill_rule: FillRule,
}

impl ClipMask {
    /// The clone holds the same path and rule.
    pub fn clone_mask(&self) -> (r: ClipMask)
        ensures
            r.path@ == self.path@,
            r.fill_rule == self.fill_rule,
    {
        ClipMask { path: self.path.clone(), fill_rule: self.fill_rule }
    }
}

} // verus!
