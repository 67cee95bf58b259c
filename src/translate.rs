//! Mapping a key's normalized position to pixel coordinates of the window.

use vstd::prelude::*;
use vstd::arithmetic::div_mod::{
    lemma_fundamental_div_mod, lemma_fundamental_div_mod_converse, lemma_mod_pos_bound,
};
use crate::config::{Config, Frac, NormPoint};

verus! {

/// A width and a height in pixels.
#[derive(Clone, Copy, Debug, PartialEq, Eq, Structural)]
pub struct Size {
    pub width: u32,
    pub height: u32,
}

/// A pixel position inside the window, or `NO_CLICK`.
#[derive(Clone, Copy, Debug, PartialEq, Eq, Structural)]
pub struct ClickPoint {
    pub x: i64,
    pub y: i64,
}

/// The point that means "do not click".
pub open spec fn no_click() -> ClickPoint {
    ClickPoint { x: -1i64, y: -1i64 }
}

/// `floor(len * f)`; on integers `/` by a positive number rounds down.
pub open spec fn scale(len: int, f: Frac) -> int {
    (len * f.num) / (f.den as int)
}

/// Where a click at `p` lands in a window of size `window` on a screen of size
/// `screen`. A window exactly as large as the screen is taken as fullscreen and
/// scaled whole; any other loses the decoration insets first, and the result is
/// moved past the left and top insets.
pub open spec fn place(config: &Config, p: NormPoint, window: Size, screen: Size) -> ClickPoint {
    if window == screen {
        ClickPoint {
            x: scale(window.width as int, p.x) as i64,
            y: scale(window.height as int, p.y) as i64,
        }
    } else {
        let c = config.chrome_size;
        ClickPoint {
            x: (scale(window.width - c.left - c.right, p.x) + c.left) as i64,
            y: (scale(window.height - c.top - c.bottom, p.y) + c.top) as i64,
        }
    }
}

/// The click point for `key`: `no_click()` for no key or a key without an
/// entry in the keybind table, else its position placed in the window.
pub open spec fn click_point_of(config: &Config, key: Option<u8>, window: Size, screen: Size) -> ClickPoint {
    match key {
        Some(k) if config.bindings().contains_key(k) => place(config, config.bindings()[k], window, screen),
        _ => no_click(),
    }
}

/// Computes `floor(len * f)` exactly.
fn scale_floor(len: i64, f: Frac) -> (r: i64)
    requires
        f.wf(),
        -0x4_0000_0000 <= len <= 0x4_0000_0000,
    ensures
        r == scale(len as int, f),
        -0x4_0000_0001 <= r <= 0x4_0000_0000,
{
    let neg = len < 0;
    let mag: u128 = if neg { (0 - len) as u128 } else { len as u128 };
    assert(mag * f.num <= 0x4_0000_0000 * 0xffff_ffff_ffff_ffff) by (nonlinear_arith)
        requires mag <= 0x4_0000_0000, f.num <= 0xffff_ffff_ffff_ffff;
    let p: u128 = mag * (f.num as u128);
    let q: u128 = p / (f.den as u128);
    let m: u128 = p % (f.den as u128);
    proof {
        lemma_fundamental_div_mod(p as int, f.den as int);
        lemma_mod_pos_bound(p as int, f.den as int);
        assert(q * f.den + m == mag * f.num) by (nonlinear_arith)
            requires p == f.den * q + m, p == mag * f.num;
        assert(q * f.den <= mag * f.den) by (nonlinear_arith)
            requires q * f.den + m == mag * f.num, 0 <= m, f.num <= f.den, 0 < f.den;
        assert(q <= mag) by (nonlinear_arith)
            requires q * f.den <= mag * f.den, 0 < f.den;
    }
    if !neg {
        q as i64
    } else if m == 0 {
        proof {
            assert(len * f.num == (-(q as int)) * f.den + 0) by (nonlinear_arith)
                requires p == mag * f.num, mag == -len, p == q * f.den + m, m == 0;
            lemma_fundamental_div_mod_converse(len * f.num, f.den as int, -(q as int), 0);
        }
        0 - (q as i64)
    } else {
        proof {
            assert(len * f.num == (-(q as int) - 1) * f.den + (f.den - m)) by (nonlinear_arith)
                requires p == mag * f.num, mag == -len, p == q * f.den + m;
            lemma_fundamental_div_mod_converse(len * f.num, f.den as int, -(q as int) - 1, f.den - m);
        }
        0 - (q as i64) - 1
    }
}

/// Computes where a press of `key` should click, given the current window and
/// screen sizes; `key` is `None` for a symbol that names no key.
pub fn translate_click(config: &Config, key: Option<u8>, window: Size, screen: Size) -> (r: ClickPoint)
    requires
        config.wf(),
    ensures
        r == click_point_of(config, key, window, screen),
        key is None ==> r == no_click(),
        key matches Some(k) && !config.bindings().contains_key(k) ==> r == no_click(),
{
    let p = match key {
        None => return ClickPoint { x: -1, y: -1 },
        Some(k) => match config.binding(k) {
            None => return ClickPoint { x: -1, y: -1 },
            Some(p) => p,
        },
    };
    if window == screen {
        ClickPoint {
            x: scale_floor(window.width as i64, p.x),
            y: scale_floor(window.height as i64, p.y),
        }
    } else {
        let c = config.chrome_size;
        let w = window.width as i64 - c.left as i64 - c.right as i64;
        let h = window.height as i64 - c.top as i64 - c.bottom as i64;
        ClickPoint {
            x: scale_floor(w, p.x) + c.left as i64,
            y: scale_floor(h, p.y) + c.top as i64,
        }
    }
}

} // verus!
