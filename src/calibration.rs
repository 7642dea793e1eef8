use vstd::prelude::*;

verus! {

/// The fixed-point unit: `UNIT` millionths make one whole.
pub const UNIT: i32 = 1_000_000;

/// A factor lies in `(0, 1]`.
pub open spec fn factor_ok(f: int) -> bool {
    0 < f <= UNIT
}

/// `raw / factor` in fixed point, rounded toward zero.
pub open spec fn scaled(raw: int, factor: int) -> int {
    if raw >= 0 {
        raw * UNIT / factor
    } else {
        -((-raw) * UNIT / factor)
    }
}

/// `v` held to `[-UNIT, UNIT]`.
pub open spec fn clamp_unit(v: int) -> int {
    if v > UNIT {
        UNIT as int
    } else if v < -UNIT {
        -UNIT
    } else {
        v
    }
}

/// The smaller of `a` and `b`.
pub open spec fn min_int(a: int, b: int) -> int {
    if a <= b {
        a
    } else {
        b
    }
}

/// The larger of `a` and `b`.
pub open spec fn max_int(a: int, b: int) -> int {
    if a >= b {
        a
    } else {
        b
    }
}

/// A raw reading mapped through the factors `pos` (for positive readings) and
/// `neg` (for negative ones), then held to `[-UNIT, UNIT]`.
pub open spec fn calibrated(pos: int, neg: int, raw: int) -> int {
    if raw > 0 {
        clamp_unit(scaled(raw, pos))
    } else if raw < 0 {
        clamp_unit(scaled(raw, neg))
    } else {
        0
    }
}

/// A linear remapping of one axis, with a separate scale for each side.
#[derive(Clone, Copy, Debug, PartialEq, Eq, Structural)]
pub struct Calibrator {
    pub pos: i32,
    pub neg: i32,
}

impl Calibrator {
    /// Both factors lie in `(0, 1]`.
    pub open spec fn wf(&self) -> bool {
        Calibrator::valid_pair(self.pos as int, self.neg as int)
    }

    /// Both factors of `(pos, neg)` lie in `(0, 1]`.
    pub open spec fn valid_pair(pos: int, neg: int) -> bool {
        factor_ok(pos) && factor_ok(neg)
    }

    /// A calibrator with the given factors.
    pub fn new(pos: i32, neg: i32) -> (r: Calibrator)
        requires
            Calibrator::valid_pair(pos as int, neg as int),
        ensures
            r == (Calibrator { pos, neg }),
            r.wf(),
    {
        Calibrator { pos, neg }
    }

    /// Maps a raw reading: a positive one is divided by `pos`, a negative one
    /// by `neg`, zero stays zero; the result saturates at `-UNIT` and `UNIT`.
    pub fn calibrate_value(&self, value: i32) -> (r: i32)
        requires
            self.wf(),
        ensures
            r == calibrated(self.pos as int, self.neg as int, value as int),
            -UNIT <= r <= UNIT,
            value > 0 ==> r == min_int(scaled(value as int, self.pos as int), UNIT as int),
            value < 0 ==> r == max_int(scaled(value as int, self.neg as int), -UNIT),
            value == 0 ==> r == 0,
    {
        let q: i64 = if value > 0 {
            let m: i64 = value as i64;
            assert(0 < m * 1_000_000 < 0x8000_0000 * 1_000_000) by (nonlinear_arith)
                requires
                    0 < m < 0x8000_0000,
            ;
            m * (UNIT as i64) / (self.pos as i64)
        } else if value < 0 {
            let m: i64 = -(value as i64);
            assert(0 < m * 1_000_000 <= 0x8000_0000 * 1_000_000) by (nonlinear_arith)
                requires
                    0 < m <= 0x8000_0000,
            ;
            -(m * (UNIT as i64) / (self.neg as i64))
        } else {
            0
        };
        if q > UNIT as i64 {
            UNIT
        } else if q < -(UNIT as i64) {
            -UNIT
        } else {
            q as i32
        }
    }
}

} // verus!
