//! A circular badge that shows the first character of a name, for contacts
//! without an avatar.

use vstd::prelude::*;
use vstd::string::StrSliceExecFns;

verus! {

/// Whether a glyph of size `size` fits the badge of radius `radius`: the size
/// is at most three quarters of the radius times the square root of two, that
/// is `8 * size^2 <= 9 * radius^2`.
pub open spec fn glyph_fits(size: int, radius: int) -> bool {
    8 * size * size <= 9 * radius * radius
}

/// Whether `size` is the glyph size for a badge of radius `radius`: the
/// largest size that fits, saturated at `u16::MAX`.
pub open spec fn is_glyph_size(size: u16, radius: u16) -> bool {
    &&& glyph_fits(size as int, radius as int)
    &&& (size == u16::MAX || !glyph_fits(size + 1, radius as int))
}

/// The glyph size for a badge of radius `radius`.
pub fn glyph_size(radius: u16) -> (size: u16)
    ensures
        is_glyph_size(size, radius),
{
    let r = radius as u64;
    assert(r * r <= 65535 * 65535) by (nonlinear_arith)
        requires
            r <= 65535,
    ;
    let target: u64 = 9 * (r * r);
    assert(target == 9 * (radius as int) * (radius as int)) by (nonlinear_arith)
        requires
            target == 9 * (r * r),
            r == radius,
    ;
    let mut size: u64 = 0;
    loop
        invariant
            size <= 65535,
            target == 9 * (radius as int) * (radius as int),
            glyph_fits(size as int, radius as int),
        ensures
            size <= 65535,
            glyph_fits(size as int, radius as int),
            size == 65535 || !glyph_fits(size + 1, radius as int),
        decreases 65535 - size,
    {
        if size == 65535 {
            break;
        }
        let next = size + 1;
        assert(next * next <= 65536 * 65536) by (nonlinear_arith)
            requires
                next <= 65536,
        ;
        let fits = 8 * (next * next) <= target;
        assert(fits == glyph_fits(next as int, radius as int)) by (nonlinear_arith)
            requires
                fits == (8 * (next * next) <= target),
                target == 9 * (radius as int) * (radius as int),
        ;
        if !fits {
            break;
        }
        size = next;
    }
    size as u16
}

/// The first character of `name`, if it has one.
pub fn first_char(name: &str) -> (r: Option<char>)
    ensures
        r == (if name@.len() > 0 {
            Some(name@[0])
        } else {
            None::<char>
        }),
{
    if name.unicode_len() > 0 {
        Some(name.get_char(0))
    } else {
        None
    }
}

/// A filled circle of a given radius with one character centred in it.
pub struct NoIconHead {
    radius: u16,
    name: char,
    text_size: u16,
}

impl NoIconHead {
    pub closed spec fn spec_radius(&self) -> u16 {
        self.radius
    }

    pub closed spec fn spec_name(&self) -> char {
        self.name
    }

    pub closed spec fn spec_text_size(&self) -> u16 {
        self.text_size
    }

    /// A badge of radius `radius` showing `name`, with the glyph sized to the
    /// radius.
    pub fn new(radius: u16, name: char) -> (r: Self)
        ensures
            r.spec_radius() == radius,
            r.spec_name() == name,
            is_glyph_size(r.spec_text_size(), radius),
    {
        NoIconHead { radius, name, text_size: glyph_size(radius) }
    }

    pub fn radius(&self) -> (r: u16)
        ensures
            r == self.spec_radius(),
    {
        self.radius
    }

    pub fn name(&self) -> (r: char)
        ensures
            r == self.spec_name(),
    {
        self.name
    }

    pub fn text_size(&self) -> (r: u16)
        ensures
            r == self.spec_text_size(),
    {
        self.text_size
    }

    /// The side of the square that the badge occupies: twice the radius.
    pub fn side(&self) -> (r: u32)
        ensures
            r == 2 * self.spec_radius(),
    {
        2 * (self.radius as u32)
    }
}

} // verus!
