use vstd::prelude::*;

use crate::vec3::Vec3;

verus! {

/// A texture of a single colour.
#[derive(Clone, Copy, Debug, PartialEq)]
pub struct SolidColor {
    pub col: Vec3,
}

impl SolidColor {
    /// The texture that is `col` everywhere.
    pub fn new(col: Vec3) -> (r: SolidColor)
        ensures
            r.col == col,
    {
        SolidColor { col }
    }

    /// The colour at any point: the texture's own colour.
    pub fn value(&self) -> (r: Vec3)
        ensures
            r == self.col,
    {
        self.col
    }
}

/// A 3-D checker pattern: the `odd` texture where
/// `sin(10 x) * sin(10 y) * sin(10 z)` is negative, the `even` one elsewhere.
#[allow(non_camel_case_types)]
#[derive(Debug, PartialEq)]
pub struct checker_texture {
    pub odd: Box<Texture>,
    pub even: Box<Texture>,
}

/// A texture: what a surface's colour is at a point.
#[derive(Debug, PartialEq)]
pub enum Texture {
    Solid(SolidColor),
    Checker(checker_texture),
}

/// The colour of texture `t` at a point where the checker product
/// `sin(10 x) * sin(10 y) * sin(10 z)` is negative exactly when `negative` holds.
pub open spec fn texture_value(t: Texture, negative: bool) -> Vec3
    decreases t,
{
    match t {
        Texture::Solid(s) => s.col,
        Texture::Checker(c) => if negative {
            texture_value(*c.odd, negative)
        } else {
            texture_value(*c.even, negative)
        },
    }
}

/// Whether `col` is the colour of one of the solid textures that `t` is built from.
pub open spec fn is_leaf_color(t: Texture, col: Vec3) -> bool
    decreases t,
{
    match t {
        Texture::Solid(s) => s.col == col,
        Texture::Checker(c) => is_leaf_color(*c.odd, col) || is_leaf_color(*c.even, col),
    }
}

impl checker_texture {
    /// The checker pattern of `odd` and `even`.
    pub fn new(odd: Texture, even: Texture) -> (r: checker_texture)
        ensures
            *r.odd == odd,
            *r.even == even,
    {
        checker_texture { odd: Box::new(odd), even: Box::new(even) }
    }

    /// The colour at a point: that of `odd` where the checker product is
    /// negative (`negative`), that of `even` elsewhere.
    pub fn value(&self, negative: bool) -> (r: Vec3)
        ensures
            r == (if negative {
                texture_value(*self.odd, negative)
            } else {
                texture_value(*self.even, negative)
            }),
        decreases self,
    {
        if negative {
            self.odd.value(negative)
        } else {
            self.even.value(negative)
        }
    }
}

impl Texture {
    /// The colour at a point where the checker product is negative exactly
    /// when `negative` holds.
    pub fn value(&self, negative: bool) -> (r: Vec3)
        ensures
            r == texture_value(*self, negative),
            self matches Texture::Solid(s) ==> r == s.col,
            self matches Texture::Checker(c) ==> r == (if negative {
                texture_value(*c.odd, negative)
            } else {
                texture_value(*c.even, negative)
            }),
        decreases self,
    {
        match self {
            Texture::Solid(s) => s.value(),
            Texture::Checker(c) => c.value(negative),
        }
    }
}

impl Clone for Texture {
    fn clone(&self) -> (r: Texture)
        ensures
            r == *self,
        decreases self,
    {
        match self {
            Texture::Solid(s) => Texture::Solid(SolidColor { col: s.col }),
            Texture::Checker(c) => {
                let odd = (&*c.odd).clone();
                let even = (&*c.even).clone();
                Texture::Checker(checker_texture { odd: Box::new(odd), even: Box::new(even) })
            },
        }
    }
}

/// Whatever the point, a texture shows the colour of one of the solid textures
/// it is built from.
pub proof fn lemma_value_is_leaf_color(t: Texture, negative: bool)
    ensures
        is_leaf_color(t, texture_value(t, negative)),
    decreases t,
{
    match t {
        Texture::Solid(s) => {},
        Texture::Checker(c) => {
            lemma_value_is_leaf_color(*c.odd, negative);
            lemma_value_is_leaf_color(*c.even, negative);
        },
    }
}

/// A checker shows its odd texture exactly where the sine product is
/// negative and its even texture everywhere else, whatever those two are.
pub proof fn lemma_checker_picks_by_sign(c: checker_texture)
    ensures
        texture_value(Texture::Checker(c), true) == texture_value(*c.odd, true),
        texture_value(Texture::Checker(c), false) == texture_value(*c.even, false),
{
}

/// A checker of two solid colours shows the odd colour where the sine product
/// is negative and the even colour elsewhere; the two regions show different
/// colours whenever the two colours differ.
pub proof fn lemma_two_colour_checker(odd: Vec3, even: Vec3)
    ensures
        texture_value(
            Texture::Checker(
                checker_texture {
                    odd: Box::new(Texture::Solid(SolidColor { col: odd })),
                    even: Box::new(Texture::Solid(SolidColor { col: even })),
                },
            ),
            true,
        ) == odd,
        texture_value(
            Texture::Checker(
                checker_texture {
                    odd: Box::new(Texture::Solid(SolidColor { col: odd })),
                    even: Box::new(Texture::Solid(SolidColor { col: even })),
                },
            ),
            false,
        ) == even,
{
    reveal_with_fuel(texture_value, 2);
}

/// A solid texture shows its colour at every point.
pub proof fn lemma_solid_ignores_position(s: SolidColor, negative: bool)
    ensures
        texture_value(Texture::Solid(s), negative) == s.col,
        texture_value(Texture::Solid(s), negative) == texture_value(Texture::Solid(s), !negative),
{
}

} // verus!
