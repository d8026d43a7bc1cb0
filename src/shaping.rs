use vstd::prelude::*;

verus! {

/// Analog samples are fixed-point thousandths: full deflection is `UNIT`.
pub const UNIT: i32 = 1000;

/// `v` saturated into the range of `i64`.
pub open spec fn clamp_i64(v: int) -> int {
    if v < (i64::MIN as int) {
        (i64::MIN as int)
    } else if v > (i64::MAX as int) {
        (i64::MAX as int)
    } else {
        v
    }
}

pub open spec fn abs(v: int) -> int {
    if v < 0 {
        -v
    } else {
        v
    }
}

pub open spec fn sign(v: int) -> int {
    if v < 0 {
        -1
    } else if v > 0 {
        1
    } else {
        0
    }
}

/// `value` with readings strictly inside the band `(-threshold, threshold)` snapped to zero.
pub open spec fn deadzone_spec(value: int, threshold: int) -> int {
    if abs(value) < threshold {
        0
    } else {
        value
    }
}

/// Rejects analog noise near rest: returns 0 when `|value| < threshold`, else `value`.
pub fn deadzone(value: i32, threshold: i32) -> (r: i32)
    ensures
        r == deadzone_spec(value as int, threshold as int),
{
    let magnitude: i64 = if value < 0 {
        -(value as i64)
    } else {
        value as i64
    };
    if magnitude < threshold as i64 {
        0
    } else {
        value
    }
}

/// Every reading strictly inside the deadzone comes out as zero.
pub proof fn lemma_deadzone_snaps(x: int, threshold: int)
    requires
        abs(x) < threshold,
    ensures
        deadzone_spec(x, threshold) == 0,
{
}

/// A response curve sampled at every thousandth of deflection: `table[k]` is the
/// shaped magnitude, in thousandths, for a deflection of `k` thousandths.
pub struct ResponseCurve {
    table: Vec<u16>,
}

/// A table is a response curve when it covers `0..=UNIT`, stays within `0..=UNIT`
/// and never decreases.
pub open spec fn curve_table_ok(t: Seq<u16>) -> bool {
    &&& t.len() == UNIT + 1
    &&& forall|k: int| 0 <= k < t.len() ==> t[k] <= UNIT
    &&& forall|j: int, k: int| 0 <= j <= k < t.len() ==> t[j] <= t[k]
}

impl ResponseCurve {
    pub closed spec fn view(&self) -> Seq<u16> {
        self.table@
    }

    pub open spec fn wf(&self) -> bool {
        curve_table_ok(self@)
    }

    /// Shaped magnitude for a deflection of `a` thousandths.
    pub open spec fn magnitude(&self, a: int) -> int {
        self@[a] as int
    }

    /// Accepts a sampled curve when it is well formed, and hands it back otherwise.
    pub fn from_table(table: Vec<u16>) -> (r: Result<ResponseCurve, Vec<u16>>)
        ensures
            curve_table_ok(table@) <==> r is Ok,
            r matches Ok(c) ==> c@ == table@ && c.wf(),
            r matches Err(t) ==> t@ == table@,
    {
        if table.len() != UNIT as usize + 1 {
            return Err(table);
        }
        let mut k: usize = 0;
        while k < table.len()
            invariant
                table@.len() == UNIT + 1,
                k <= table@.len(),
                forall|i: int| 0 <= i < k ==> table@[i] <= UNIT,
                forall|i: int, j: int| 0 <= i <= j < k ==> table@[i] <= table@[j],
            decreases table@.len() - k,
        {
            if table[k] > UNIT as u16 {
                return Err(table);
            }
            if k > 0 && table[k - 1] > table[k] {
                return Err(table);
            }
            k = k + 1;
        }
        Ok(ResponseCurve { table })
    }

    /// The identity curve: the shaped magnitude equals the deflection.
    pub fn linear() -> (r: ResponseCurve)
        ensures
            r.wf(),
            forall|a: int| 0 <= a <= UNIT ==> r.magnitude(a) == a,
    {
        let mut table: Vec<u16> = Vec::new();
        let mut k: u16 = 0;
        while k <= UNIT as u16
            invariant
                k <= UNIT + 1,
                table@.len() == k,
                forall|i: int| 0 <= i < k ==> table@[i] == i,
            decreases UNIT + 1 - k,
        {
            table.push(k);
            k = k + 1;
        }
        ResponseCurve { table }
    }

    pub fn table(&self) -> (r: &Vec<u16>)
        ensures
            r@ == self@,
    {
        &self.table
    }
}

/// The curve applied to a signed deflection: the sign of the input times the
/// curve's magnitude at `|input|`.
pub open spec fn shape_spec(curve: ResponseCurve, input: int) -> int {
    sign(input) * curve.magnitude(abs(input))
}

/// Maps a deflection in `-UNIT..=UNIT` through the curve, keeping its sign:
/// fine control near rest, fast response at full throw.
pub fn sigmoid_shape(curve: &ResponseCurve, input: i32) -> (r: i32)
    requires
        curve.wf(),
        -UNIT <= input <= UNIT,
    ensures
        r == shape_spec(*curve, input as int),
        -UNIT <= r <= UNIT,
{
    if input < 0 {
        let m = curve.table[(-input) as usize];
        -(m as i32)
    } else if input > 0 {
        curve.table[input as usize] as i32
    } else {
        0
    }
}

/// The shaped response is odd: mirroring the deflection mirrors the result.
pub proof fn lemma_shape_odd(curve: ResponseCurve, x: int)
    requires
        curve.wf(),
        -UNIT <= x <= UNIT,
    ensures
        shape_spec(curve, -x) == -shape_spec(curve, x),
{
}

/// The shaped response keeps the sign of the deflection where the curve is nonzero,
/// and grows with the size of the deflection.
pub proof fn lemma_shape_sign_and_monotone(curve: ResponseCurve, x: int, y: int)
    requires
        curve.wf(),
        -UNIT <= x <= UNIT,
        -UNIT <= y <= UNIT,
    ensures
        x >= 0 ==> shape_spec(curve, x) >= 0,
        x <= 0 ==> shape_spec(curve, x) <= 0,
        abs(x) <= abs(y) ==> abs(shape_spec(curve, x)) <= abs(shape_spec(curve, y)),
{
    if abs(x) <= abs(y) && x != 0 {
        assert(curve@[abs(x)] <= curve@[abs(y)]);
    }
}

/// A shaped rate of `r` thousandths held for `dt` ms adds `r * dt / SPEED_RATE_DIVISOR`
/// thousandths to the speed.
pub const SPEED_RATE_DIVISOR: u128 = 10;

/// Speed after integrating a shaped rate of `rate` thousandths over `dt` milliseconds:
/// `rate * dt / 10` thousandths are added, never going below zero.
pub open spec fn speed_step(speed: int, rate: int, dt: int) -> int {
    let delta = abs(rate) * dt / (SPEED_RATE_DIVISOR as int);
    let raw = if rate < 0 {
        speed - delta
    } else {
        speed + delta
    };
    if raw < 0 {
        0
    } else {
        clamp_i64(raw)
    }
}

/// Integrates a shaped rate into a speed, floored at zero.
pub fn rate_integrate_speed(speed: i64, rate: i32, dt: u64) -> (r: i64)
    requires
        speed >= 0,
        -UNIT <= rate <= UNIT,
    ensures
        r == speed_step(speed as int, rate as int, dt as int),
        r >= 0,
{
    let magnitude: u128 = if rate < 0 {
        (-(rate as i64)) as u128
    } else {
        rate as u128
    };
    assert(magnitude * (dt as u128) <= 1000 * 0xffff_ffff_ffff_ffff) by (nonlinear_arith)
        requires
            magnitude <= 1000,
            dt <= 0xffff_ffff_ffff_ffff,
    ;
    let delta: u128 = magnitude * (dt as u128) / SPEED_RATE_DIVISOR;
    let raw: i128 = if rate < 0 {
        speed as i128 - delta as i128
    } else {
        speed as i128 + delta as i128
    };
    if raw < 0 {
        0
    } else if raw > i64::MAX as i128 {
        i64::MAX
    } else {
        raw as i64
    }
}

/// Setpoint travel, in thousandths, for a trigger pressed `level` thousandths at a
/// speed of `speed` thousandths for `dt` milliseconds: `level * speed * dt / 100000`.
pub open spec fn travel(level: int, speed: int, dt: int) -> int {
    level * speed * dt / (TRAVEL_DIVISOR as int)
}

pub const TRAVEL_DIVISOR: u128 = 100000;

/// Setpoint after travelling `travel(level, speed, dt)` forwards (or backwards),
/// saturated at the range of `i64`.
pub open spec fn setpoint_step(setpoint: int, forwards: bool, level: int, speed: int, dt: int) -> int {
    if forwards {
        clamp_i64(setpoint + travel(level, speed, dt))
    } else {
        clamp_i64(setpoint - travel(level, speed, dt))
    }
}

/// Integrates trigger travel into a setpoint, without any bound but the range of `i64`.
pub fn rate_integrate_setpoint(setpoint: i64, forwards: bool, level: i32, speed: i64, dt: u64) -> (r: i64)
    requires
        0 <= level <= UNIT,
        speed >= 0,
    ensures
        r == setpoint_step(setpoint as int, forwards, level as int, speed as int, dt as int),
{
    let l: u128 = level as u128;
    let s: u128 = speed as u128;
    assert(l * s <= 1000 * 0x7fff_ffff_ffff_ffff) by (nonlinear_arith)
        requires
            l <= 1000,
            s <= 0x7fff_ffff_ffff_ffff,
    ;
    let ls: u128 = l * s;
    let big: u128 = 0xffff_ffff_ffff_ffff_ffff_ffff_ffff_ffff;
    match ls.checked_mul(dt as u128) {
        Some(p) => {
            let d: u128 = p / TRAVEL_DIVISOR;
            assert(d <= big / 100000);
            let raw: i128 = if forwards {
                setpoint as i128 + d as i128
            } else {
                setpoint as i128 - d as i128
            };
            if raw < i64::MIN as i128 {
                i64::MIN
            } else if raw > i64::MAX as i128 {
                i64::MAX
            } else {
                raw as i64
            }
        },
        None => {
            proof {
                let e = level * speed * dt;
                assert(e == ls * dt) by (nonlinear_arith)
                    requires
                        ls == l * s,
                        l == level,
                        s == speed,
                        e == level * speed * dt,
                ;
                assert(e > big);
                vstd::arithmetic::div_mod::lemma_div_is_ordered(big as int, e, 100000);
                assert(big as int / 100000 > 0x1_0000_0000_0000_0000);
            }
            if forwards {
                i64::MAX
            } else {
                i64::MIN
            }
        },
    }
}

} // verus!
