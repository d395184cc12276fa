//! Polar velocity vectors in fixed point: components, reflection at a surface, products.

use vstd::prelude::*;
use vstd::arithmetic::div_mod::{
    lemma_add_mod_noop,
    lemma_fundamental_div_mod_converse,
    lemma_mod_multiples_vanish,
    lemma_fundamental_div_mod,
};

verus! {

/// Fixed-point scale of sines and cosines: `TRIG_ONE` stands for 1.
pub const TRIG_ONE: i64 = 1_000_000;

/// Fixed-point scale of lengths and speeds: `UNITS_PER_PIXEL` stands for one pixel.
pub const UNITS_PER_PIXEL: i64 = 1000;

/// An angle in degrees, reduced to `[0, 360)`.
pub open spec fn turn(a: int) -> int {
    a % 360
}

/// Bhaskara's rational approximation of the sine of `d` degrees on `[0, 180]`, scaled by
/// `TRIG_ONE` and rounded down. Exact at 0, 30, 90, 150 and 180 degrees.
pub open spec fn half_turn_sine(d: int) -> int {
    (4 * d * (180 - d) * TRIG_ONE) / (40500 - d * (180 - d))
}

/// Fixed-point sine of an angle in degrees (any integer).
pub open spec fn sine(a: int) -> int {
    let r = turn(a);
    if r <= 180 {
        half_turn_sine(r)
    } else {
        -half_turn_sine(r - 180)
    }
}

/// Fixed-point cosine of an angle in degrees (any integer).
pub open spec fn cosine(a: int) -> int {
    sine(a + 90)
}

/// `a % 360` for an exec angle, computed without signed division.
pub fn reduce_degrees(a: i64) -> (r: i64)
    ensures
        r == turn(a as int),
        0 <= r < 360,
{
    if a >= 0 {
        let r = ((a as u64) % 360) as i64;
        r
    } else {
        let n: u64 = (-(a + 1)) as u64;
        let m: u64 = n % 360;
        let r: i64 = 359 - (m as i64);
        proof {
            let q = (n as int) / 360;
            lemma_fundamental_div_mod_converse(n as int, 360, q, m as int);
            lemma_fundamental_div_mod_converse(a as int, 360, -q - 1, r as int);
        }
        r
    }
}

proof fn lemma_half_turn_sine_range(d: int)
    requires
        0 <= d <= 180,
    ensures
        0 <= half_turn_sine(d) <= TRIG_ONE,
        32400 <= 40500 - d * (180 - d) <= 40500,
{
    let t = d * (180 - d);
    assert(0 <= t <= 8100) by (nonlinear_arith)
        requires
            0 <= d <= 180,
            t == d * (180 - d),
    ;
    assert(4 * d * (180 - d) * TRIG_ONE == 4 * t * TRIG_ONE) by (nonlinear_arith)
        requires
            t == d * (180 - d),
    ;
    let num = 4 * t * TRIG_ONE;
    let den = 40500 - t;
    assert(0 <= num <= TRIG_ONE * den);
    assert(num / den <= TRIG_ONE) by (nonlinear_arith)
        requires
            0 <= num <= TRIG_ONE * den,
            den > 0,
    ;
    assert(num / den >= 0) by (nonlinear_arith)
        requires
            0 <= num,
            den > 0,
    ;
}

proof fn lemma_half_turn_sine_peak(d: int)
    requires
        0 <= d <= 180,
    ensures
        d == 90 ==> half_turn_sine(d) == TRIG_ONE,
        d != 90 ==> half_turn_sine(d) < TRIG_ONE,
{
    let t = d * (180 - d);
    assert(8100 - t == (90 - d) * (90 - d)) by (nonlinear_arith)
        requires
            t == d * (180 - d),
    ;
    assert(d != 90 ==> (90 - d) * (90 - d) > 0) by (nonlinear_arith);
    lemma_half_turn_sine_range(d);
    assert(4 * d * (180 - d) * TRIG_ONE == 4 * t * TRIG_ONE) by (nonlinear_arith)
        requires
            t == d * (180 - d),
    ;
    let num = 4 * t * TRIG_ONE;
    let den = 40500 - t;
    if d == 90 {
        assert(t == 8100);
        assert(num == TRIG_ONE * den);
        assert(num / den == TRIG_ONE) by (nonlinear_arith)
            requires
                num == TRIG_ONE * den,
                den > 0,
        ;
    } else {
        assert(num < TRIG_ONE * den);
        assert(num / den < TRIG_ONE) by (nonlinear_arith)
            requires
                0 <= num < TRIG_ONE * den,
                den > 0,
        ;
    }
}

/// On the axes the component split undoes `from_components` exactly: for
/// `(x, 0)` and `(0, y)` with a non-zero coordinate, the vector that
/// `from_components` yields has exactly those components.
pub proof fn lemma_axis_components_round_trip(x: int, y: int, v: EuclideanVector)
    requires
        x == 0 || y == 0,
        x != 0 || y != 0,
        from_components_spec(x, y, v),
    ensures
        v.x_of() == x,
        v.y_of() == y,
{
    let n = x * x + y * y;
    let a = if x != 0 { abs(x) } else { abs(y) };
    assert(n == a * a) by (nonlinear_arith)
        requires
            x == 0 || y == 0,
            a == (if x != 0 { abs(x) } else { abs(y) }),
            n == x * x + y * y,
    ;
    let m = v.magnitude as int;
    assert(m == a) by (nonlinear_arith)
        requires
            m * m <= a * a,
            a * a < (m + 1) * (m + 1),
            m >= 0,
            a > 0,
    ;
    let ax = abs(x);
    let ay = abs(y);
    let e = choose|e: int| is_best_alignment(ax, ay, e) && v.angle == quadrant_angle(x, y, e);
    assert(is_best_alignment(ax, ay, e));
    lemma_half_turn_sine_peak(90);
    assert(half_turn_sine(0) == 0 && half_turn_sine(180) == 0);
    assert(turn(90) == 90 && turn(180) == 180 && turn(0) == 0 && turn(270) == 270);
    assert(turn(-90) == 270);
    assert(sine(90) == TRIG_ONE && sine(180) == 0 && sine(0) == 0);
    assert(sine(270) == -TRIG_ONE && sine(-90) == -TRIG_ONE);
    assert(m * TRIG_ONE / (TRIG_ONE as int) == m) by (nonlinear_arith);
    if x != 0 {
        assert(ay == 0);
        assert(alignment(ax, ay, 0) == ax * TRIG_ONE);
        if e != 0 {
            assert(0 < e <= 90);
            lemma_half_turn_sine_range(e + 90);
            assert(turn(e + 90) == e + 90);
            assert(cosine(e) <= TRIG_ONE);
            assert(ax * cosine(e) <= ax * TRIG_ONE) by (nonlinear_arith)
                requires
                    cosine(e) <= TRIG_ONE,
                    ax > 0,
            ;
            assert(alignment(ax, ay, e) == ax * cosine(e));
            assert(alignment(ax, ay, 0) < alignment(ax, ay, e));
            assert(false);
        }
        if x > 0 {
            assert(v.angle == 0);
            assert(cosine(0) == TRIG_ONE);
        } else {
            assert(v.angle == 180);
            assert(cosine(180) == -TRIG_ONE);
        }
    } else {
        assert(ax == 0);
        assert(alignment(ax, ay, 90) == ay * TRIG_ONE);
        if e != 90 {
            assert(0 <= e < 90);
            lemma_half_turn_sine_peak(e);
            assert(turn(e) == e);
            assert(sine(e) < TRIG_ONE);
            assert(ay * sine(e) < ay * TRIG_ONE) by (nonlinear_arith)
                requires
                    sine(e) < TRIG_ONE,
                    ay > 0,
            ;
            assert(alignment(ax, ay, e) == ay * sine(e));
            assert(alignment(ax, ay, e) < alignment(ax, ay, 90));
            assert(false);
        }
        if y > 0 {
            assert(v.angle == 90);
            assert(cosine(90) == 0);
        } else {
            assert(v.angle == -90);
            assert(cosine(-90) == 0);
        }
    }
}

/// Sine of an angle already reduced below two full turns.
fn sine_of_reduced(r: i64) -> (s: i64)
    requires
        0 <= r < 720,
    ensures
        s == sine(r as int),
        -TRIG_ONE <= s <= TRIG_ONE,
{
    let t: i64 = r % 360;
    let (d, negative) = if t <= 180 {
        (t, false)
    } else {
        (t - 180, true)
    };
    proof {
        lemma_half_turn_sine_range(d as int);
        assert(0 <= d * (180 - d) <= 8100) by (nonlinear_arith)
            requires
                0 <= d <= 180,
        ;
    }
    let t: i64 = d * (180 - d);
    proof {
        assert(4 * d * (180 - d) * TRIG_ONE == 4 * t * TRIG_ONE) by (nonlinear_arith)
            requires
                t == d * (180 - d),
        ;
    }
    let num: u64 = (4 * t * TRIG_ONE) as u64;
    let den: u64 = (40500 - t) as u64;
    let h: i64 = (num / den) as i64;
    if negative {
        -h
    } else {
        h
    }
}

/// Fixed-point sine of any angle in degrees.
pub fn sine_of(a: i64) -> (s: i64)
    ensures
        s == sine(a as int),
        -TRIG_ONE <= s <= TRIG_ONE,
{
    let r = reduce_degrees(a);
    proof {
        assert(turn(r as int) == turn(a as int)) by {
            vstd::arithmetic::div_mod::lemma_mod_mod(a as int, 360, 1);
        }
    }
    sine_of_reduced(r)
}

/// Fixed-point cosine of any angle in degrees.
pub fn cosine_of(a: i64) -> (c: i64)
    ensures
        c == cosine(a as int),
        -TRIG_ONE <= c <= TRIG_ONE,
{
    let r = reduce_degrees(a);
    proof {
        lemma_add_mod_noop(a as int, 90, 360);
        lemma_add_mod_noop(r as int, 90, 360);
        assert((r as int) % 360 == r as int);
    }
    sine_of_reduced(r + 90)
}


/// Integer division rounded toward zero (`d > 0`).
pub open spec fn div_toward_zero(n: int, d: int) -> int {
    if n >= 0 {
        n / d
    } else {
        -((-n) / d)
    }
}

fn div_toward_zero_exec(n: i128, d: i128) -> (q: i128)
    requires
        d > 0,
        n > i128::MIN,
    ensures
        q == div_toward_zero(n as int, d as int),
{
    if n >= 0 {
        ((n as u128) / (d as u128)) as i128
    } else {
        let q: u128 = ((-n) as u128) / (d as u128);
        -(q as i128)
    }
}

proof fn lemma_div_toward_zero_bound(n: int, d: int, b: int)
    requires
        d > 0,
        b >= 0,
        -(b * d) <= n <= b * d,
    ensures
        -b <= div_toward_zero(n, d) <= b,
{
    if n >= 0 {
        assert(n / d <= b) by (nonlinear_arith)
            requires
                d > 0,
                0 <= n <= b * d,
        ;
        assert(n / d >= 0) by (nonlinear_arith)
            requires
                d > 0,
                0 <= n,
        ;
    } else {
        assert((-n) / d <= b) by (nonlinear_arith)
            requires
                d > 0,
                0 <= -n <= b * d,
        ;
        assert((-n) / d >= 0) by (nonlinear_arith)
            requires
                d > 0,
                0 <= -n,
        ;
    }
}

/// The angle that `a` takes when mirrored at a surface whose normal points
/// along `b`: the direction of `v - 2u`, where `u` is the projection of the
/// unit vector `v` (along `a`) on the unit vector along `b`. Given in
/// `(-180, 180]`, the range of `atan2` in degrees.
pub open spec fn reflected_angle(a: int, b: int) -> int {
    let r = (2 * b + 180 - a) % 360;
    if r > 180 {
        r - 360
    } else {
        r
    }
}

/// What `collide_with` makes of `v` against the surface normal `o`.
pub open spec fn collided(v: EuclideanVector, o: EuclideanVector) -> EuclideanVector {
    if v.magnitude == 0 || o.magnitude == 0 {
        v
    } else {
        EuclideanVector { magnitude: v.magnitude, angle: reflected_angle(v.angle as int, o.angle as int) as i64 }
    }
}

/// How well the first-quadrant direction `e` (degrees) matches the
/// direction of `(ax, ay)`: the projection of `(ax, ay)` on it.
pub open spec fn alignment(ax: int, ay: int, e: int) -> int {
    ax * cosine(e) + ay * sine(e)
}

/// `e` is the first whole degree of `[0, 90]` whose direction matches
/// `(ax, ay)` best.
pub open spec fn is_best_alignment(ax: int, ay: int, e: int) -> bool {
    &&& 0 <= e <= 90
    &&& forall|f: int| 0 <= f <= 90 ==> #[trigger] alignment(ax, ay, f) <= alignment(ax, ay, e)
    &&& forall|f: int| 0 <= f < e ==> #[trigger] alignment(ax, ay, f) < alignment(ax, ay, e)
}

/// Places the first-quadrant angle `e` of `(|x|, |y|)` in the quadrant of `(x, y)`.
pub open spec fn quadrant_angle(x: int, y: int, e: int) -> int {
    if x >= 0 && y >= 0 {
        e
    } else if x < 0 && y >= 0 {
        180 - e
    } else if x < 0 {
        e - 180
    } else {
        -e
    }
}

pub open spec fn abs(x: int) -> int {
    if x >= 0 {
        x
    } else {
        -x
    }
}

/// `v` is what `from_components(x, y)` yields: its magnitude is the integer
/// square root of `x * x + y * y` and its angle is the whole degree (in
/// `[-180, 180]`) whose direction best matches `(x, y)`.
pub open spec fn from_components_spec(x: int, y: int, v: EuclideanVector) -> bool {
    &&& v.magnitude * v.magnitude <= x * x + y * y
    &&& x * x + y * y < (v.magnitude + 1) * (v.magnitude + 1)
    &&& exists|e: int| is_best_alignment(abs(x), abs(y), e) && v.angle == quadrant_angle(x, y, e)
}

/// Largest `r` with `r * r <= n`.
fn isqrt(n: u64) -> (r: u32)
    ensures
        r * r <= n,
        n < (r + 1) * (r + 1),
{
    let mut lo: u64 = 0;
    let mut hi: u64 = 0x1_0000_0000;
    assert(n < hi * hi) by (nonlinear_arith)
        requires
            n <= u64::MAX,
            hi == 0x1_0000_0000,
    ;
    while hi - lo > 1
        invariant
            lo < hi <= 0x1_0000_0000,
            lo * lo <= n,
            n < hi * hi,
        decreases hi - lo,
    {
        let mid: u64 = lo + (hi - lo) / 2;
        assert(mid * mid < 0x1_0000_0000_0000_0000) by (nonlinear_arith)
            requires
                mid < 0x1_0000_0000,
        ;
        if mid * mid <= n {
            lo = mid;
        } else {
            hi = mid;
        }
    }
    lo as u32
}

/// A velocity in polar form: `magnitude` in thousandths of a pixel per tick
/// and `angle` in degrees. The angle is not normalised.
#[derive(Clone, Copy, Debug, PartialEq, Eq, Structural)]
pub struct EuclideanVector {
    pub magnitude: u32,
    pub angle: i64,
}

impl EuclideanVector {
    /// Horizontal component, rounded toward zero.
    pub open spec fn x_of(self) -> int {
        div_toward_zero(self.magnitude * cosine(self.angle as int), TRIG_ONE as int)
    }

    /// Vertical component, rounded toward zero.
    pub open spec fn y_of(self) -> int {
        div_toward_zero(self.magnitude * sine(self.angle as int), TRIG_ONE as int)
    }

    /// The unit vector (magnitude one pixel per tick) along `angle`.
    pub open spec fn unit(angle: i64) -> EuclideanVector {
        EuclideanVector { magnitude: UNITS_PER_PIXEL as u32, angle }
    }

    pub fn new(magnitude: u32, angle: i64) -> (r: Self)
        ensures
            r.magnitude == magnitude,
            r.angle == angle,
    {
        Self { magnitude, angle }
    }

    pub fn get_angle(&self) -> (r: i64)
        ensures
            r == self.angle,
    {
        self.angle
    }

    pub fn get_magnitude(&self) -> (r: u32)
        ensures
            r == self.magnitude,
    {
        self.magnitude
    }

    pub fn set_angle(&mut self, angle: i64)
        ensures
            final(self).angle == angle,
            final(self).magnitude == old(self).magnitude,
    {
        self.angle = angle;
    }

    pub fn set_magnitude(&mut self, magnitude: u32)
        ensures
            final(self).magnitude == magnitude,
            final(self).angle == old(self).angle,
    {
        self.magnitude = magnitude;
    }

    fn scaled_trig(magnitude: u32, t: i64) -> (r: i64)
        requires
            -TRIG_ONE <= t <= TRIG_ONE,
        ensures
            r == div_toward_zero(magnitude * t, TRIG_ONE as int),
            -magnitude <= r <= magnitude,
    {
        proof {
            assert(-(magnitude * TRIG_ONE) <= magnitude * t <= magnitude * TRIG_ONE) by (nonlinear_arith)
                requires
                    -TRIG_ONE <= t <= TRIG_ONE,
                    magnitude >= 0,
            ;
            lemma_div_toward_zero_bound(magnitude * t, TRIG_ONE as int, magnitude as int);
        }
        div_toward_zero_exec((magnitude as i128) * (t as i128), TRIG_ONE as i128) as i64
    }

    pub fn x_component(&self) -> (r: i64)
        ensures
            r == self.x_of(),
            -self.magnitude <= r <= self.magnitude,
    {
        Self::scaled_trig(self.magnitude, cosine_of(self.angle))
    }

    pub fn y_component(&self) -> (r: i64)
        ensures
            r == self.y_of(),
            -self.magnitude <= r <= self.magnitude,
    {
        Self::scaled_trig(self.magnitude, sine_of(self.angle))
    }

    /// Horizontal component of the unit vector along this vector's angle.
    pub fn normal_x_component(&self) -> (r: i64)
        ensures
            r == Self::unit(self.angle).x_of(),
    {
        self.normalized().x_component()
    }

    /// Vertical component of the unit vector along this vector's angle.
    pub fn normal_y_component(&self) -> (r: i64)
        ensures
            r == Self::unit(self.angle).y_of(),
    {
        self.normalized().y_component()
    }

    /// The unit vector with this vector's angle.
    pub fn normalized(&self) -> (r: Self)
        ensures
            r == Self::unit(self.angle),
    {
        Self::new(UNITS_PER_PIXEL as u32, self.angle)
    }

    /// The vector with components `(x, y)`: magnitude by the Euclidean norm,
    /// angle by the best matching whole degree (as `atan2` would give).
    pub fn from_components(x: i64, y: i64) -> (r: Self)
        requires
            x * x + y * y < 0x1_0000_0000_0000_0000,
        ensures
            from_components_spec(x as int, y as int, r),
    {
        proof {
            assert(x > i64::MIN && y > i64::MIN) by (nonlinear_arith)
                requires
                    x * x + y * y < 0x1_0000_0000_0000_0000,
            ;
        }
        let ax: i64 = if x >= 0 { x } else { -x };
        let ay: i64 = if y >= 0 { y } else { -y };
        proof {
            assert(ax * ax == x * x && ay * ay == y * y) by (nonlinear_arith)
                requires
                    ax == abs(x as int),
                    ay == abs(y as int),
            ;
            assert(ax < 0x1_0000_0000 && ay < 0x1_0000_0000) by (nonlinear_arith)
                requires
                    ax >= 0,
                    ay >= 0,
                    ax * ax + ay * ay < 0x1_0000_0000_0000_0000,
            ;
        }
        let n: u64 = ((ax as u64) * (ax as u64)) + ((ay as u64) * (ay as u64));
        let magnitude = isqrt(n);
        let mut best: i64 = 0;
        let mut best_score: i64 = Self::alignment_of(ax, ay, 0);
        let mut e: i64 = 1;
        while e <= 90
            invariant
                0 <= ax < 0x1_0000_0000,
                0 <= ay < 0x1_0000_0000,
                1 <= e <= 91,
                0 <= best < e,
                best_score == alignment(ax as int, ay as int, best as int),
                forall|f: int| 0 <= f < e ==> #[trigger] alignment(ax as int, ay as int, f) <= best_score,
                forall|f: int| 0 <= f < best ==> #[trigger] alignment(ax as int, ay as int, f) < best_score,
            decreases 91 - e,
        {
            let score = Self::alignment_of(ax, ay, e);
            if score > best_score {
                best = e;
                best_score = score;
            }
            e = e + 1;
        }
        let angle: i64 = if x >= 0 && y >= 0 {
            best
        } else if x < 0 && y >= 0 {
            180 - best
        } else if x < 0 {
            best - 180
        } else {
            -best
        };
        let r = Self::new(magnitude, angle);
        proof {
            assert(ax as int == abs(x as int) && ay as int == abs(y as int));
            assert(is_best_alignment(abs(x as int), abs(y as int), best as int));
            assert(r.angle == quadrant_angle(x as int, y as int, best as int));
            assert(n == x * x + y * y);
        }
        r
    }

    fn alignment_of(ax: i64, ay: i64, e: i64) -> (r: i64)
        requires
            0 <= ax < 0x1_0000_0000,
            0 <= ay < 0x1_0000_0000,
        ensures
            r == alignment(ax as int, ay as int, e as int),
    {
        let c = cosine_of(e);
        let s = sine_of(e);
        proof {
            assert(-(ax * TRIG_ONE) <= ax * c <= ax * TRIG_ONE) by (nonlinear_arith)
                requires
                    -TRIG_ONE <= c <= TRIG_ONE,
                    ax >= 0,
            ;
            assert(-(ay * TRIG_ONE) <= ay * s <= ay * TRIG_ONE) by (nonlinear_arith)
                requires
                    -TRIG_ONE <= s <= TRIG_ONE,
                    ay >= 0,
            ;
        }
        ax * c + ay * s
    }

    /// Dot product `|u| |v| cos(angle_u - angle_v)`, in thousandths.
    pub open spec fn dot_of(self, rhs: EuclideanVector) -> int {
        div_toward_zero(
            self.magnitude * rhs.magnitude * cosine(self.angle - rhs.angle),
            TRIG_ONE * UNITS_PER_PIXEL,
        )
    }

    pub fn dot(&self, rhs: &EuclideanVector) -> (r: i64)
        ensures
            r == self.dot_of(*rhs),
    {
        let a = reduce_degrees(self.angle);
        let b = reduce_degrees(rhs.angle);
        let c = cosine_of(a - b);
        proof {
            let ai = self.angle as int;
            let bi = rhs.angle as int;
            lemma_fundamental_div_mod(ai, 360);
            lemma_fundamental_div_mod(bi, 360);
            let k = ai / 360 - bi / 360;
            assert(ai - bi + 90 == 360 * k + (a - b + 90));
            lemma_mod_multiples_vanish(k, a - b + 90, 360);
            let m = (self.magnitude as int) * (rhs.magnitude as int);
            assert(0 <= m <= 0xffff_ffff * 0xffff_ffff) by (nonlinear_arith)
                requires
                    m == (self.magnitude as int) * (rhs.magnitude as int),
                    self.magnitude <= 0xffff_ffff,
                    rhs.magnitude <= 0xffff_ffff,
            ;
            assert(-(m * TRIG_ONE) <= m * c <= m * TRIG_ONE) by (nonlinear_arith)
                requires
                    -TRIG_ONE <= c <= TRIG_ONE,
                    m >= 0,
            ;
            assert(self.magnitude * rhs.magnitude * c == m * c);
            lemma_div_toward_zero_bound(m * c, TRIG_ONE * UNITS_PER_PIXEL, 0x1_0000_0000_0000_0000);
        }
        let m: i128 = (self.magnitude as i128) * (rhs.magnitude as i128);
        div_toward_zero_exec(m * (c as i128), (TRIG_ONE as i128) * (UNITS_PER_PIXEL as i128)) as i64
    }

    /// This vector with its magnitude multiplied by `factor` thousandths.
    pub fn scaled(&self, factor: u32) -> (r: Self)
        requires
            self.magnitude * factor / (UNITS_PER_PIXEL as int) <= u32::MAX,
        ensures
            r.magnitude == self.magnitude * factor / (UNITS_PER_PIXEL as int),
            r.angle == self.angle,
    {
        let m: u64 = (self.magnitude as u64) * (factor as u64) / (UNITS_PER_PIXEL as u64);
        Self::new(m as u32, self.angle)
    }

    /// Sum by components.
    pub fn plus(&self, rhs: &EuclideanVector) -> (r: Self)
        requires
            (self.x_of() + rhs.x_of()) * (self.x_of() + rhs.x_of()) + (self.y_of() + rhs.y_of()) * (
            self.y_of() + rhs.y_of()) < 0x1_0000_0000_0000_0000,
        ensures
            from_components_spec(self.x_of() + rhs.x_of(), self.y_of() + rhs.y_of(), r),
    {
        Self::from_components(
            self.x_component() + rhs.x_component(),
            self.y_component() + rhs.y_component(),
        )
    }

    /// Difference by components.
    pub fn minus(&self, rhs: &EuclideanVector) -> (r: Self)
        requires
            (self.x_of() - rhs.x_of()) * (self.x_of() - rhs.x_of()) + (self.y_of() - rhs.y_of()) * (
            self.y_of() - rhs.y_of()) < 0x1_0000_0000_0000_0000,
        ensures
            from_components_spec(self.x_of() - rhs.x_of(), self.y_of() - rhs.y_of(), r),
    {
        Self::from_components(
            self.x_component() - rhs.x_component(),
            self.y_component() - rhs.y_component(),
        )
    }

    /// Overwrites this vector with `new_vec`.
    pub fn update(&mut self, new_vec: EuclideanVector)
        ensures
            *final(self) == new_vec,
    {
        self.magnitude = new_vec.magnitude;
        self.angle = new_vec.angle;
    }

    /// Mirrors this vector's direction at a surface whose normal is
    /// `opposing_vector`; the magnitude is kept. When either vector has zero
    /// magnitude there is no direction to mirror and nothing changes.
    pub fn collide_with(&mut self, opposing_vector: EuclideanVector)
        ensures
            *final(self) == collided(*old(self), opposing_vector),
    {
        if self.magnitude == 0 || opposing_vector.magnitude == 0 {
            return;
        }
        let a = reduce_degrees(self.angle);
        let b = reduce_degrees(opposing_vector.angle);
        let t = reduce_degrees(2 * b + 180 - a);
        proof {
            let ai = self.angle as int;
            let bi = opposing_vector.angle as int;
            lemma_fundamental_div_mod(ai, 360);
            lemma_fundamental_div_mod(bi, 360);
            let k = 2 * (bi / 360) - ai / 360;
            assert(2 * bi + 180 - ai == 360 * k + (2 * b + 180 - a));
            lemma_mod_multiples_vanish(k, 2 * b + 180 - a, 360);
        }
        let angle = if t > 180 {
            t - 360
        } else {
            t
        };
        self.angle = angle;
    }
}

} // verus!
