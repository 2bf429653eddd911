use vstd::prelude::*;

verus! {

/// The packed value of the channels `(a, r, g, b)`: alpha in the high byte,
/// then red, green and blue.
pub open spec fn argb_value(a: u8, r: u8, g: u8, b: u8) -> int {
    a as int * 0x1000000 + r as int * 0x10000 + g as int * 0x100 + b as int
}

/// The alpha channel of a packed value.
pub open spec fn alpha_of(v: u32) -> u8 {
    (v / 0x1000000) as u8
}

/// The red channel of a packed value.
pub open spec fn red_of(v: u32) -> u8 {
    ((v / 0x10000) % 0x100) as u8
}

/// The green channel of a packed value.
pub open spec fn green_of(v: u32) -> u8 {
    ((v / 0x100) % 0x100) as u8
}

/// The blue channel of a packed value.
pub open spec fn blue_of(v: u32) -> u8 {
    (v % 0x100) as u8
}

/// An immutable 32-bit ARGB colour.
#[derive(Clone, Copy, Debug, PartialEq, Eq, Structural)]
pub struct Color(u32);

impl View for Color {
    type V = u32;

    closed spec fn view(&self) -> u32 {
        self.0
    }
}

/// Two colours are equal exactly when their packed values are.
pub proof fn lemma_color_eq_iff_view(c: Color, d: Color)
    ensures
        c == d <==> c@ == d@,
{
}

impl Color {
    /// Opaque red.
    pub fn red() -> (c: Color)
        ensures
            c@ == 0xFFFF0000u32,
    {
        Color(0xFFFF0000)
    }

    /// Opaque green.
    pub fn green() -> (c: Color)
        ensures
            c@ == 0xFF00FF00u32,
    {
        Color(0xFF00FF00)
    }

    /// Opaque blue.
    pub fn blue() -> (c: Color)
        ensures
            c@ == 0xFF0000FFu32,
    {
        Color(0xFF0000FF)
    }

    /// Opaque black.
    pub fn black() -> (c: Color)
        ensures
            c@ == 0xFF000000u32,
    {
        Color(0xFF000000)
    }

    /// Opaque white.
    pub fn white() -> (c: Color)
        ensures
            c@ == 0xFFFFFFFFu32,
    {
        Color(0xFFFFFFFF)
    }

    /// Packs the four channels, alpha first.
    pub fn from_argb(a: u8, r: u8, g: u8, b: u8) -> (c: Color)
        ensures
            c@ as int == argb_value(a, r, g, b),
    {
        let v: u32 = (a as u32) << 24u32 | (r as u32) << 16u32 | (g as u32) << 8u32 | (b as u32);
        assert(v == (a as u32) * 0x1000000u32 + (r as u32) * 0x10000u32 + (g as u32) * 0x100u32
            + (b as u32)) by (bit_vector)
            requires
                v == (a as u32) << 24u32 | (r as u32) << 16u32 | (g as u32) << 8u32 | (b as u32),
        ;
        Color(v)
    }

    /// A fully opaque colour.
    pub fn from_rgb(r: u8, g: u8, b: u8) -> (c: Color)
        ensures
            c@ as int == argb_value(0xFF, r, g, b),
    {
        Color::from_argb(0xFF, r, g, b)
    }

    /// A fully opaque gray of level `g`.
    pub fn from_gray(g: u8) -> (c: Color)
        ensures
            c@ as int == argb_value(0xFF, g, g, g),
    {
        Color::from_argb(0xFF, g, g, g)
    }

    /// The packed 32-bit value.
    pub fn inner(&self) -> (v: u32)
        ensures
            v == self@,
    {
        self.0
    }

    /// The alpha channel.
    pub fn a(&self) -> (a: u8)
        ensures
            a == alpha_of(self@),
    {
        (self.0 / 0x1000000u32) as u8
    }

    /// The red channel.
    pub fn r(&self) -> (r: u8)
        ensures
            r == red_of(self@),
    {
        ((self.0 / 0x10000u32) % 0x100u32) as u8
    }

    /// The green channel.
    pub fn g(&self) -> (g: u8)
        ensures
            g == green_of(self@),
    {
        ((self.0 / 0x100u32) % 0x100u32) as u8
    }

    /// The blue channel.
    pub fn b(&self) -> (b: u8)
        ensures
            b == blue_of(self@),
    {
        (self.0 % 0x100u32) as u8
    }
}

/// `from_rgb(r, g, b)` is `from_argb(255, r, g, b)`, and `from_gray(l)` is
/// `from_rgb(l, l, l)`: colours whose packed values are given by those
/// constructors' contracts are equal.
pub proof fn lemma_opaque_constructors(rgb: Color, argb: Color, gray: Color, grey_rgb: Color, r: u8, g: u8, b: u8, l: u8)
    requires
        rgb@ as int == argb_value(0xFF, r, g, b),
        argb@ as int == argb_value(255, r, g, b),
        gray@ as int == argb_value(0xFF, l, l, l),
        grey_rgb@ as int == argb_value(0xFF, l, l, l),
    ensures
        rgb == argb,
        gray == grey_rgb,
{
}

/// Unpacking a packed value gives back each of the four channels.
pub proof fn lemma_unpack_after_pack(a: u8, r: u8, g: u8, b: u8)
    ensures
        0 <= argb_value(a, r, g, b) <= u32::MAX,
        alpha_of(argb_value(a, r, g, b) as u32) == a,
        red_of(argb_value(a, r, g, b) as u32) == r,
        green_of(argb_value(a, r, g, b) as u32) == g,
        blue_of(argb_value(a, r, g, b) as u32) == b,
{
    let v = argb_value(a, r, g, b);
    let (ai, ri, gi, bi) = (a as int, r as int, g as int, b as int);
    assert(v / 0x1000000 == ai) by (nonlinear_arith)
        requires v == ai * 0x1000000 + ri * 0x10000 + gi * 0x100 + bi, 0 <= ri < 256, 0 <= gi < 256, 0 <= bi < 256;
    assert(v / 0x10000 == ai * 0x100 + ri) by (nonlinear_arith)
        requires v == ai * 0x1000000 + ri * 0x10000 + gi * 0x100 + bi, 0 <= gi < 256, 0 <= bi < 256;
    assert(v / 0x100 == ai * 0x10000 + ri * 0x100 + gi) by (nonlinear_arith)
        requires v == ai * 0x1000000 + ri * 0x10000 + gi * 0x100 + bi, 0 <= bi < 256;
    assert((ai * 0x100 + ri) % 0x100 == ri) by (nonlinear_arith)
        requires 0 <= ai, 0 <= ri < 256;
    assert((ai * 0x10000 + ri * 0x100 + gi) % 0x100 == gi) by (nonlinear_arith)
        requires 0 <= ai, 0 <= ri, 0 <= gi < 256;
    assert(v % 0x100 == bi) by (nonlinear_arith)
        requires v == ai * 0x1000000 + ri * 0x10000 + gi * 0x100 + bi, 0 <= ai, 0 <= ri, 0 <= gi, 0 <= bi < 256;
}

/// Packing the four channels of a value gives back the value.
pub proof fn lemma_pack_after_unpack(v: u32)
    ensures
        argb_value(alpha_of(v), red_of(v), green_of(v), blue_of(v)) == v,
{
    let x = v as int;
    assert(x == (x / 0x1000000) * 0x1000000 + ((x / 0x10000) % 0x100) * 0x10000 + ((x / 0x100)
        % 0x100) * 0x100 + x % 0x100) by (nonlinear_arith)
        requires 0 <= x;
}

} // verus!
