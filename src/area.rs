use vstd::prelude::*;
use vstd::arithmetic::div_mod::lemma_div_multiples_vanish_quotient;
use crate::settings::{
    config_error, settings_valid, validate, ConfigError, Resolution, Settings, AREA_SCALE,
};

verus! {

/// The exact fraction `num / den`.
#[derive(Clone, Copy, PartialEq, Eq, Structural, Debug)]
pub struct Ratio {
    pub num: i64,
    pub den: u64,
}

/// The scan region as fractions of the screen's width and height.
#[derive(Clone, Copy, PartialEq, Eq, Structural, Debug)]
pub struct TriggerArea {
    pub x_percent: Ratio,
    pub y_percent: Ratio,
    pub width_percent: Ratio,
    pub height_percent: Ratio,
}

/// A pixel rectangle to capture.
#[derive(Clone, Copy, PartialEq, Eq, Structural, Debug)]
pub struct CaptureRect {
    pub x: i32,
    pub y: i32,
    pub width: u32,
    pub height: u32,
}

/// Why no capture rectangle could be formed.
#[derive(Clone, Copy, PartialEq, Eq, Structural, Debug)]
pub enum CaptureError {
    /// A fraction with a zero denominator.
    ZeroDenominator,
    /// A coordinate or width that no capture call can take.
    OutOfRange,
}

/// `r` is the fraction `num / den`.
pub open spec fn ratio_is(r: Ratio, num: int, den: int) -> bool {
    r.num == num && r.den == den
}

/// The region that centers a square of side `a / AREA_SCALE` pixels on a
/// screen of `w` by `h` pixels:
/// `x = 1/2 - a/(2w)`, `y = 1/2 - a/(2h)`, `width = a/w`, `height = a/h`.
pub open spec fn is_area_of(area: TriggerArea, w: int, h: int, a: int) -> bool {
    let s = AREA_SCALE as int;
    &&& ratio_is(area.x_percent, w * s - a, 2 * w * s)
    &&& ratio_is(area.y_percent, h * s - a, 2 * h * s)
    &&& ratio_is(area.width_percent, a, w * s)
    &&& ratio_is(area.height_percent, a, h * s)
}

/// Derives the scan region from the settings' resolution and area.
pub fn compute_area(settings: &Settings) -> (r: Result<TriggerArea, ConfigError>)
    ensures
        r is Ok <==> settings_valid(settings),
        r matches Err(e) ==> config_error(settings) == Some(e),
        r matches Ok(area) ==> is_area_of(
            area,
            settings.resolution.width as int,
            settings.resolution.height as int,
            settings.trigger_area as int,
        ),
{
    match validate(settings) {
        Err(e) => Err(e),
        Ok(()) => Ok(area_of_valid(settings)),
    }
}

/// The scan region of settings already known to be valid.
pub(crate) fn area_of_valid(settings: &Settings) -> (area: TriggerArea)
    requires
        settings_valid(settings),
    ensures
        is_area_of(
            area,
            settings.resolution.width as int,
            settings.resolution.height as int,
            settings.trigger_area as int,
        ),
{
    let sw: i64 = settings.resolution.width as i64;
    let sh: i64 = settings.resolution.height as i64;
    let k: i64 = AREA_SCALE as i64;
    proof {
        assert(0 < sw * k <= 0xffff_ffff * 1000 && 0 < sh * k <= 0xffff_ffff * 1000)
            by (nonlinear_arith)
            requires
                0 < sw <= 0xffff_ffff,
                0 < sh <= 0xffff_ffff,
                k == 1000,
        ;
    }
    let w: i64 = sw * k;
    let h: i64 = sh * k;
    let a: i64 = settings.trigger_area as i64;
    TriggerArea {
        x_percent: Ratio { num: w - a, den: 2 * w as u64 },
        y_percent: Ratio { num: h - a, den: 2 * h as u64 },
        width_percent: Ratio { num: a, den: w as u64 },
        height_percent: Ratio { num: a, den: h as u64 },
    }
}

/// `r * n`, rounded toward zero.
pub open spec fn scale_trunc(r: Ratio, n: int) -> int {
    if r.num >= 0 {
        (r.num * n) / (r.den as int)
    } else {
        -((-r.num * n) / (r.den as int))
    }
}

pub open spec fn fits_i32(v: int) -> bool {
    i32::MIN <= v <= i32::MAX
}

/// Every fraction has a nonzero denominator.
pub open spec fn dens_nonzero(area: TriggerArea) -> bool {
    area.x_percent.den > 0 && area.y_percent.den > 0 && area.width_percent.den > 0
}

/// The region maps to a rectangle that a capture call can take.
pub open spec fn geometry_in_range(area: TriggerArea, res: Resolution) -> bool {
    &&& dens_nonzero(area)
    &&& fits_i32(scale_trunc(area.x_percent, res.width as int))
    &&& fits_i32(scale_trunc(area.y_percent, res.height as int))
    &&& 0 <= scale_trunc(area.width_percent, res.width as int) <= u32::MAX
}

fn scale(r: Ratio, n: u32) -> (q: i128)
    requires
        r.den > 0,
    ensures
        q == scale_trunc(r, n as int),
{
    let m: u128 = if r.num >= 0 {
        r.num as u128
    } else {
        (-(r.num as i128)) as u128
    };
    proof {
        assert(m <= 0x8000_0000_0000_0000);
        assert(m * (n as u128) <= 0x8000_0000_0000_0000 * 0x1_0000_0000) by (nonlinear_arith)
            requires
                m <= 0x8000_0000_0000_0000,
                n <= 0xffff_ffff,
        ;
    }
    let p: u128 = m * n as u128;
    let d: u128 = p / r.den as u128;
    proof {
        assert(d <= p) by (nonlinear_arith)
            requires
                d == (p as int) / (r.den as int),
                r.den > 0,
        ;
    }
    if r.num >= 0 {
        d as i128
    } else {
        -(d as i128)
    }
}

/// The one-pixel-tall scanline through the vertical center of the region,
/// in pixels of `res`: `x = x_percent * width`, `y = y_percent * height`,
/// `w = width_percent * width`, each rounded toward zero.
pub fn capture_rect(area: &TriggerArea, res: Resolution) -> (r: Result<CaptureRect, CaptureError>)
    ensures
        r is Ok <==> geometry_in_range(*area, res),
        r matches Err(e) ==> (e == CaptureError::ZeroDenominator <==> !dens_nonzero(*area)),
        r matches Ok(c) ==> {
            &&& c.x == scale_trunc(area.x_percent, res.width as int)
            &&& c.y == scale_trunc(area.y_percent, res.height as int)
            &&& c.width == scale_trunc(area.width_percent, res.width as int)
            &&& c.height == 1
        },
{
    if area.x_percent.den == 0 || area.y_percent.den == 0 || area.width_percent.den == 0 {
        return Err(CaptureError::ZeroDenominator);
    }
    let x: i128 = scale(area.x_percent, res.width);
    let y: i128 = scale(area.y_percent, res.height);
    let w: i128 = scale(area.width_percent, res.width);
    if x < i32::MIN as i128 || x > i32::MAX as i128 || y < i32::MIN as i128 || y > i32::MAX as i128
        || w < 0 || w > u32::MAX as i128 {
        return Err(CaptureError::OutOfRange);
    }
    Ok(CaptureRect { x: x as i32, y: y as i32, width: w as u32, height: 1 })
}

/// `n / d`, rounded toward zero.
pub open spec fn trunc_div(n: int, d: int) -> int {
    if n >= 0 {
        n / d
    } else {
        -((-n) / d)
    }
}

proof fn lemma_scale_cancels(r: Ratio, n: int, d: int)
    requires
        n > 0,
        d > 0,
        r.den == d * n,
    ensures
        scale_trunc(r, n) == trunc_div(r.num as int, d),
{
    let num = r.num as int;
    if num >= 0 {
        lemma_div_multiples_vanish_quotient(n, num, d);
        assert(n * num == num * n && n * d == d * n) by (nonlinear_arith);
    } else {
        lemma_div_multiples_vanish_quotient(n, -num, d);
        assert(n * -num == -num * n && n * d == d * n) by (nonlinear_arith);
    }
}

/// On the resolution it was derived for, a region yields a capture
/// rectangle: the scanline starts `(w - a) / 2` pixels from the left and
/// `(h - a) / 2` from the top, and is `a` pixels wide, each rounded toward
/// zero (`a` being the side in pixels).
pub proof fn lemma_capture_of_derived_area(area: TriggerArea, w: int, h: int, a: int)
    requires
        0 < w <= u32::MAX,
        0 < h <= u32::MAX,
        0 < a <= u32::MAX,
        is_area_of(area, w, h, a),
    ensures
        scale_trunc(area.x_percent, w) == trunc_div(w * AREA_SCALE - a, 2 * AREA_SCALE),
        scale_trunc(area.y_percent, h) == trunc_div(h * AREA_SCALE - a, 2 * AREA_SCALE),
        scale_trunc(area.width_percent, w) == a / (AREA_SCALE as int),
        geometry_in_range(area, Resolution { width: w as u32, height: h as u32 }),
{
    let s = AREA_SCALE as int;
    assert(s == 1000);
    assert((2 * s) * w == 2 * w * s && (2 * s) * h == 2 * h * s && s * w == w * s)
        by (nonlinear_arith);
    lemma_scale_cancels(area.x_percent, w, 2 * s);
    lemma_scale_cancels(area.y_percent, h, 2 * s);
    lemma_scale_cancels(area.width_percent, w, s);
}

/// For a screen of `w` by `h` pixels and a square side of `a` (in thousandths
/// of a pixel) smaller than both, the derived region spans exactly the square:
/// `width_percent * w` and `height_percent * h` are the side in pixels, and
/// the region is centered, `x_percent + width_percent / 2 == 1/2` and
/// `y_percent + height_percent / 2 == 1/2`.
pub proof fn lemma_area_spans_centered_square(area: TriggerArea, w: int, h: int, a: int)
    requires
        w > 0,
        h > 0,
        0 < a < w * AREA_SCALE,
        a < h * AREA_SCALE,
        is_area_of(area, w, h, a),
    ensures
        area.width_percent.num * w * AREA_SCALE == a * area.width_percent.den,
        area.height_percent.num * h * AREA_SCALE == a * area.height_percent.den,
        2 * area.x_percent.num * area.width_percent.den + area.width_percent.num
            * area.x_percent.den == area.x_percent.den * area.width_percent.den,
        2 * area.y_percent.num * area.height_percent.den + area.height_percent.num
            * area.y_percent.den == area.y_percent.den * area.height_percent.den,
{
    let s = AREA_SCALE as int;
    assert(s == 1000);
    let (xn, xd, wn, wd) = (
        area.x_percent.num as int,
        area.x_percent.den as int,
        area.width_percent.num as int,
        area.width_percent.den as int,
    );
    let (yn, yd, hn, hd) = (
        area.y_percent.num as int,
        area.y_percent.den as int,
        area.height_percent.num as int,
        area.height_percent.den as int,
    );
    assert(2 * xn * wd + wn * xd == xd * wd) by (nonlinear_arith)
        requires
            xn == w * s - a,
            xd == 2 * w * s,
            wn == a,
            wd == w * s,
    ;
    assert(2 * yn * hd + hn * yd == yd * hd) by (nonlinear_arith)
        requires
            yn == h * s - a,
            yd == 2 * h * s,
            hn == a,
            hd == h * s,
    ;
    assert(wn * w * s == a * wd) by (nonlinear_arith)
        requires
            wn == a,
            wd == w * s,
    ;
    assert(hn * h * s == a * hd) by (nonlinear_arith)
        requires
            hn == a,
            hd == h * s,
    ;
}

} // verus!
