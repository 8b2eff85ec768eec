//! Identity values of loaded modules and threads, and the colours that tell
//! them apart in diagnostic output.
//!
//! A value is spread over the colour wheel by an avalanche mix, and the hue
//! is turned into two RGB tones, a light foreground and a darker background.
//! All of it is exact integer arithmetic: the hue is the fraction
//! `h / u64::MAX` of a full turn, and each channel is the floor of its exact
//! rational value scaled to `0..=255`.
use vstd::prelude::*;
use vstd::string::*;

verus! {

/// Multiplier of the avalanche mix.
pub const MIX_FACTOR: u64 = 0x517cc1b727220a95;

/// Saturation of the foreground tone, in percent.
pub const FG_SATURATION: u8 = 50;

/// Lightness of the foreground tone, in percent.
pub const FG_LIGHTNESS: u8 = 70;

/// Saturation of the background tone, in percent.
pub const BG_SATURATION: u8 = 40;

/// Lightness of the background tone, in percent.
pub const BG_LIGHTNESS: u8 = 35;

/// An RGB colour.
pub type Rgb = (u8, u8, u8);

/// Three multiplications by [`MIX_FACTOR`], each of the first two followed by
/// folding the high half onto the low half.
pub open spec fn mix_spec(x: u64) -> u64 {
    let a = x.wrapping_mul(MIX_FACTOR);
    let b = a ^ (a >> 32u64);
    let c = b.wrapping_mul(MIX_FACTOR);
    let d = c ^ (c >> 32u64);
    d.wrapping_mul(MIX_FACTOR)
}

/// One full turn of the colour wheel.
pub open spec fn turn() -> int {
    u64::MAX as int
}

/// Which sixth of the wheel hue `h` falls in: 0 to 5, and 6 for the full turn.
pub open spec fn sector(h: u64) -> int {
    (6 * h) / turn()
}

/// How far hue `h` has risen towards the middle of its pair of sectors,
/// out of [`turn`]: a triangle wave over the wheel.
pub open spec fn ramp(h: u64) -> int {
    let r = (6 * h) % (2 * turn());
    if r < turn() {
        r
    } else {
        2 * turn() - r
    }
}

/// Absolute value.
pub open spec fn abs(x: int) -> int {
    if x < 0 {
        -x
    } else {
        x
    }
}

/// Chroma for saturation `s` and lightness `l` in percent, out of 10000.
pub open spec fn chroma(s: int, l: int) -> int {
    (100 - abs(2 * l - 100)) * s
}

/// Common denominator of the channel values below.
pub open spec fn scale() -> int {
    20000 * turn()
}

/// A channel on `0..=255`, from its value `v / scale()` before the lightness
/// offset is added.
pub open spec fn tone(v: int, s: int, l: int) -> int {
    255 * (v + (200 * l - chroma(s, l)) * turn()) / scale()
}

/// The RGB colour of hue `h` (out of a full turn `u64::MAX`), saturation `s`
/// and lightness `l` (in percent), by the sector-wise linear conversion.
pub open spec fn hsl_rgb(h: u64, s: int, l: int) -> (int, int, int) {
    let c = 2 * chroma(s, l) * turn();
    let x = 2 * chroma(s, l) * ramp(h);
    let k = sector(h);
    let (r, g, b) = if k == 0 || k == 6 {
        (c, x, 0)
    } else if k == 1 {
        (x, c, 0)
    } else if k == 2 {
        (0, c, x)
    } else if k == 3 {
        (0, x, c)
    } else if k == 4 {
        (x, 0, c)
    } else {
        (c, 0, x)
    };
    (tone(r, s, l), tone(g, s, l), tone(b, s, l))
}

/// `c` holds the three channel values of `t`.
pub open spec fn rgb_is(c: Rgb, t: (int, int, int)) -> bool {
    c.0 == t.0 && c.1 == t.1 && c.2 == t.2
}

/// Foreground and background colours of identity value `v`.
pub open spec fn colors_of(v: u64) -> (Rgb, Rgb) {
    let h = mix_spec(v);
    let fg = hsl_rgb(h, FG_SATURATION as int, FG_LIGHTNESS as int);
    let bg = hsl_rgb(h, BG_SATURATION as int, BG_LIGHTNESS as int);
    ((fg.0 as u8, fg.1 as u8, fg.2 as u8), (bg.0 as u8, bg.1 as u8, bg.2 as u8))
}

/// Spreads `x` over all of `u64`.
pub fn mix(x: u64) -> (r: u64)
    ensures
        r == mix_spec(x),
{
    let a = x.wrapping_mul(MIX_FACTOR);
    let b = a ^ (a >> 32u64);
    let c = b.wrapping_mul(MIX_FACTOR);
    let d = c ^ (c >> 32u64);
    d.wrapping_mul(MIX_FACTOR)
}

/// Every channel value lies in `0..=255` when `v` is between 0 and the
/// chroma term.
proof fn lemma_tone_bounds(v: int, s: int, l: int)
    requires
        0 <= s <= 100,
        0 <= l <= 100,
        0 <= v <= 2 * chroma(s, l) * turn(),
    ensures
        0 <= tone(v, s, l) <= 255,
{
    let c = chroma(s, l);
    let m = turn();
    assert(0 <= c <= 200 * l && c + 200 * l <= 20000) by (nonlinear_arith)
        requires
            c == (100 - abs(2 * l - 100)) * s,
            0 <= s <= 100,
            0 <= l <= 100,
    ;
    let n = v + (200 * l - c) * m;
    assert(0 <= n <= scale()) by (nonlinear_arith)
        requires
            n == v + (200 * l - c) * m,
            0 <= v <= 2 * c * m,
            0 <= c <= 200 * l,
            c + 200 * l <= 20000,
            m > 0,
            scale() == 20000 * m,
    ;
    assert(0 <= 255 * n / scale() <= 255) by (nonlinear_arith)
        requires
            0 <= n <= scale(),
            scale() > 0,
    ;
}

/// Converts hue `h` (out of a full turn `u64::MAX`), saturation `s` and
/// lightness `l` (in percent) to RGB.
pub fn hsl_to_rgb(h: u64, s: u8, l: u8) -> (r: Rgb)
    requires
        s <= 100,
        l <= 100,
    ensures
        rgb_is(r, hsl_rgb(h, s as int, l as int)),
{
    let m: u128 = u64::MAX as u128;
    let six_h: u128 = 6 * (h as u128);
    let k: u128 = six_h / m;
    let rem: u128 = six_h % (2 * m);
    let ramp_v: u128 = if rem < m { rem } else { 2 * m - rem };
    let dist: u128 = if l >= 50 { 2 * (l as u128) - 100 } else { 100 - 2 * (l as u128) };
    assert((100 - dist) * (s as u128) <= 10000) by (nonlinear_arith)
        requires
            dist <= 100,
            s <= 100,
    ;
    let c_pct: u128 = (100 - dist) * (s as u128);
    assert(c_pct == chroma(s as int, l as int));
    assert(c_pct <= 10000) by (nonlinear_arith)
        requires
            c_pct == (100 - dist) * s,
            dist <= 100,
            s <= 100,
    ;
    assert(0 <= ramp_v <= m);
    assert(ramp_v == ramp(h));
    assert(k == sector(h));
    assert(2 * c_pct * ramp_v <= 2 * c_pct * m <= 20000 * m) by (nonlinear_arith)
        requires
            c_pct <= 10000,
            ramp_v <= m,
    ;
    let c: u128 = 2 * c_pct * m;
    let x: u128 = 2 * c_pct * ramp_v;
    assert(x <= c) by (nonlinear_arith)
        requires
            x == 2 * c_pct * ramp_v,
            c == 2 * c_pct * m,
            ramp_v <= m,
    ;
    assert(200 * l >= c_pct && c_pct + 200 * l <= 20000) by (nonlinear_arith)
        requires
            c_pct == (100 - dist) * s,
            dist == abs(2 * l - 100),
            s <= 100,
            l <= 100,
    ;
    let offset: u128 = (200 * (l as u128) - c_pct) * m;
    let (rv, gv, bv) = if k == 0 || k == 6 {
        (c, x, 0)
    } else if k == 1 {
        (x, c, 0)
    } else if k == 2 {
        (0, c, x)
    } else if k == 3 {
        (0, x, c)
    } else if k == 4 {
        (x, 0, c)
    } else {
        (c, 0, x)
    };
    let den: u128 = 20000 * m;
    proof {
        lemma_tone_bounds(rv as int, s as int, l as int);
        lemma_tone_bounds(gv as int, s as int, l as int);
        lemma_tone_bounds(bv as int, s as int, l as int);
    }
    let r = (255 * (rv + offset) / den) as u8;
    let g = (255 * (gv + offset) / den) as u8;
    let b = (255 * (bv + offset) / den) as u8;
    (r, g, b)
}

/// Foreground and background colours of identity value `v`; the same value
/// always gives the same pair.
pub fn color_of(v: u64) -> (r: (Rgb, Rgb))
    ensures
        r == colors_of(v),
{
    let h = mix(v);
    let fg = hsl_to_rgb(h, FG_SATURATION, FG_LIGHTNESS);
    let bg = hsl_to_rgb(h, BG_SATURATION, BG_LIGHTNESS);
    proof {
        lemma_hsl_in_range(h, FG_SATURATION as int, FG_LIGHTNESS as int);
        lemma_hsl_in_range(h, BG_SATURATION as int, BG_LIGHTNESS as int);
    }
    (fg, bg)
}

/// Each channel of [`hsl_rgb`] fits in a byte.
proof fn lemma_hsl_in_range(h: u64, s: int, l: int)
    requires
        0 <= s <= 100,
        0 <= l <= 100,
    ensures
        0 <= hsl_rgb(h, s, l).0 <= 255,
        0 <= hsl_rgb(h, s, l).1 <= 255,
        0 <= hsl_rgb(h, s, l).2 <= 255,
{
    let c = 2 * chroma(s, l) * turn();
    let x = 2 * chroma(s, l) * ramp(h);
    assert(0 <= chroma(s, l)) by (nonlinear_arith)
        requires
            0 <= s <= 100,
            0 <= l <= 100,
            chroma(s, l) == (100 - abs(2 * l - 100)) * s,
    ;
    assert(0 <= x <= c) by (nonlinear_arith)
        requires
            x == 2 * chroma(s, l) * ramp(h),
            c == 2 * chroma(s, l) * turn(),
            0 <= ramp(h) <= turn(),
            0 <= chroma(s, l),
    ;
    lemma_tone_bounds(0, s, l);
    lemma_tone_bounds(x, s, l);
    lemma_tone_bounds(c, s, l);
}

/// Address of `r`, the identity of the value it refers to.
///
/// Relies on `std::ptr::from_ref` and the pointer-to-integer cast. The
/// address depends on where the value lives, so nothing is stated of it.
#[verifier::external_body]
fn address_of<T>(r: &T) -> u64 {
    std::ptr::from_ref(r) as usize as u64
}

/// What a beacon shows: a name, a value, and the two colours of the value.
pub struct BeaconView {
    pub fg: Rgb,
    pub bg: Rgb,
    pub name: Seq<char>,
    pub val: u64,
}

/// A named `u64` shown in 24-bit colour determined by its value.
///
/// Used in diagnostic traces to tell loaded modules and threads apart at a
/// glance.
pub struct Beacon<'a> {
    fg: Rgb,
    bg: Rgb,
    name: &'a str,
    val: u64,
}

impl<'a> View for Beacon<'a> {
    type V = BeaconView;

    closed spec fn view(&self) -> BeaconView {
        BeaconView { fg: self.fg, bg: self.bg, name: self.name@, val: self.val }
    }
}

impl BeaconView {
    /// The colours are those of the value.
    pub open spec fn wf(self) -> bool {
        (self.fg, self.bg) == colors_of(self.val)
    }
}

impl<'a> Beacon<'a> {
    /// A beacon for value `u`, coloured by [`color_of`].
    pub fn new(name: &'a str, u: u64) -> (r: Self)
        ensures
            r@.wf(),
            r@.name == name@,
            r@.val == u,
    {
        let (fg, bg) = color_of(u);
        Beacon { fg, bg, name, val: u }
    }

    /// A beacon for the address of `r`.
    pub fn from_ref<T>(name: &'a str, r: &T) -> (b: Self)
        ensures
            b@.wf(),
            b@.name == name@,
    {
        Self::new(name, address_of(r))
    }

    /// The foreground colour.
    pub fn fg(&self) -> (r: Rgb)
        ensures
            r == self@.fg,
    {
        self.fg
    }

    /// The background colour.
    pub fn bg(&self) -> (r: Rgb)
        ensures
            r == self@.bg,
    {
        self.bg
    }

    /// The name shown before the value.
    pub fn name(&self) -> (r: &'a str)
        ensures
            r@ == self@.name,
    {
        self.name
    }

    /// The value.
    pub fn val(&self) -> (r: u64)
        ensures
            r == self@.val,
    {
        self.val
    }
}

/// Digits, lowest value first, up to base 16.
pub open spec fn digit_chars() -> Seq<char> {
    "0123456789abcdef"@
}

/// `v` in decimal, without leading zeros.
pub open spec fn decimal(v: nat) -> Seq<char>
    decreases v,
{
    if v < 10 {
        seq![digit_chars()[v as int]]
    } else {
        decimal(v / 10) + seq![digit_chars()[(v % 10) as int]]
    }
}

/// `v` in lower-case hexadecimal, without leading zeros.
pub open spec fn hex(v: nat) -> Seq<char>
    decreases v,
{
    if v < 16 {
        seq![digit_chars()[v as int]]
    } else {
        hex(v / 16) + seq![digit_chars()[(v % 16) as int]]
    }
}

/// The three channels of `c` in decimal, separated by `;`.
pub open spec fn channels(c: Rgb) -> Seq<char> {
    decimal(c.0 as nat) + ";"@ + decimal(c.1 as nat) + ";"@ + decimal(c.2 as nat)
}

/// How a beacon shows in a terminal: the name and `#` and the value in hex,
/// on the background colour in the foreground colour, then a reset.
pub open spec fn beacon_text(b: BeaconView) -> Seq<char> {
    "\x1b[48;2;"@ + channels(b.bg) + "m\x1b[38;2;"@ + channels(b.fg) + "m"@ + b.name + "#"@
        + hex(b.val as nat) + "\x1b[0m"@
}

fn digit(d: u64) -> (r: &'static str)
    requires
        d < 16,
    ensures
        r@ == seq![digit_chars()[d as int]],
{
    let all = "0123456789abcdef";
    proof {
        reveal_strlit("0123456789abcdef");
    }
    let r = all.substring_char(d as usize, d as usize + 1);
    assert(r@ =~= seq![digit_chars()[d as int]]);
    r
}

fn append_decimal(out: &mut String, v: u64)
    ensures
        final(out)@ == old(out)@ + decimal(v as nat),
    decreases v,
{
    if v >= 10 {
        append_decimal(out, v / 10);
    }
    out.append(digit(v % 10));
    proof {
        if v >= 10 {
            assert(old(out)@ + decimal(v as nat) =~= old(out)@ + decimal((v / 10) as nat) + seq![
                digit_chars()[(v % 10) as int],
            ]);
        }
    }
}

fn append_hex(out: &mut String, v: u64)
    ensures
        final(out)@ == old(out)@ + hex(v as nat),
    decreases v,
{
    if v >= 16 {
        append_hex(out, v / 16);
    }
    out.append(digit(v % 16));
    proof {
        if v >= 16 {
            assert(old(out)@ + hex(v as nat) =~= old(out)@ + hex((v / 16) as nat) + seq![
                digit_chars()[(v % 16) as int],
            ]);
        }
    }
}

fn append_channels(out: &mut String, c: Rgb)
    ensures
        final(out)@ == old(out)@ + channels(c),
{
    let ghost start = out@;
    append_decimal(out, c.0 as u64);
    out.append(";");
    append_decimal(out, c.1 as u64);
    out.append(";");
    append_decimal(out, c.2 as u64);
    assert(out@ =~= start + channels(c));
}

/// Colouring is a pure function of the value: two well-formed beacons of
/// one value have the same foreground and the same background, whatever
/// their names.
pub proof fn lemma_same_value_same_colors(x: BeaconView, y: BeaconView)
    requires
        x.wf(),
        y.wf(),
        x.val == y.val,
    ensures
        x.fg == y.fg,
        x.bg == y.bg,
        (x.fg, x.bg) == colors_of(x.val),
{
}

impl<'a> Beacon<'a> {
    /// The beacon as shown in a terminal, in 24-bit ANSI colour.
    pub fn render(&self) -> (r: String)
        ensures
            r@ == beacon_text(self@),
    {
        let mut out = String::from_str("\x1b[48;2;");
        append_channels(&mut out, self.bg);
        out.append("m\x1b[38;2;");
        append_channels(&mut out, self.fg);
        out.append("m");
        out.append(self.name);
        out.append("#");
        append_hex(&mut out, self.val);
        out.append("\x1b[0m");
        out
    }
}

} // verus!
