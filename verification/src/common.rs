use vstd::prelude::*;

verus! {

/// Number of subpixel units in one pixel. All positions and camera
/// coordinates in the library are `i64` counts of this unit, so that
/// frame-rate-independent motion (60 px/s scaled by a microsecond delta)
/// and move interpolation stay exact in integer arithmetic.
pub const PX: i64 = 1_000_000;

/// Number of subpixel units in one 16-pixel grid tile.
pub const TILE: i64 = 16_000_000;

/// A facing or travel direction on the grid. The y axis grows downward.
#[derive(Copy, Clone, Debug, PartialEq, Eq, Structural)]
pub enum Direction {
    Up,
    Down,
    Left,
    Right,
}

impl Direction {
    /// The unit vector of this direction, in abstract (x, y) components.
    pub open spec fn spec_unit(self) -> Vec2<i64> {
        match self {
            Direction::Up => Vec2(0i64, -1i64),
            Direction::Down => Vec2(0i64, 1i64),
            Direction::Left => Vec2(-1i64, 0i64),
            Direction::Right => Vec2(1i64, 0i64),
        }
    }

    /// The unit vector of this direction as a value.
    pub fn vec2i(self) -> (r: Vec2<i64>)
        ensures
            r == self.spec_unit(),
            -1 <= r.0 <= 1,
            -1 <= r.1 <= 1,
    {
        match self {
            Direction::Up => Vec2(0, -1),
            Direction::Down => Vec2(0, 1),
            Direction::Left => Vec2(-1, 0),
            Direction::Right => Vec2(1, 0),
        }
    }
}

/// Clamps `t` into the closed interval `[low, high]`; when the interval is
/// empty (`low > high`) the bound that `t` violates first wins, as in the
/// chain of comparisons below.
pub fn clamp(low: i64, t: i64, high: i64) -> (r: i64)
    ensures
        r == (if t < low {
            low
        } else if t > high {
            high
        } else {
            t
        }),
{
    if t < low {
        low
    } else if t > high {
        high
    } else {
        t
    }
}

/// A pair of coordinates or extents.
#[derive(Copy, Clone, Debug, PartialEq, Eq, Structural)]
pub struct Vec2<T>(pub T, pub T);

/// A triple of coordinates or extents.
#[derive(Copy, Clone, Debug, PartialEq, Eq, Structural)]
pub struct Vec3<T>(pub T, pub T, pub T);

/// A quadruple: the camera rectangle is a `Vec4<i64>` of x, y, width, height.
#[derive(Copy, Clone, Debug, PartialEq, Eq, Structural)]
pub struct Vec4<T>(pub T, pub T, pub T, pub T);

impl<T> Vec2<T> {
    /// The components as a plain tuple.
    pub fn tuple(self) -> (r: (T, T))
        ensures
            r == (self.0, self.1),
    {
        (self.0, self.1)
    }
}

impl<T> Vec3<T> {
    /// The components as a plain tuple.
    pub fn tuple(self) -> (r: (T, T, T))
        ensures
            r == (self.0, self.1, self.2),
    {
        (self.0, self.1, self.2)
    }
}

impl<T> Vec4<T> {
    /// The components as a plain tuple.
    pub fn tuple(self) -> (r: (T, T, T, T))
        ensures
            r == (self.0, self.1, self.2, self.3),
    {
        (self.0, self.1, self.2, self.3)
    }
}

/// Saturation of an unbounded integer into the `i64` range. Position
/// arithmetic saturates instead of wrapping: a coordinate pushed past the
/// representable range pins to the range's edge.
pub open spec fn sat64(x: int) -> i64 {
    if x > i64::MAX {
        i64::MAX
    } else if x < i64::MIN {
        i64::MIN
    } else {
        x as i64
    }
}

/// Narrows an `i128` intermediate to `i64`, saturating at the range edges.
pub fn narrow64(x: i128) -> (r: i64)
    ensures
        r == sat64(x as int),
{
    if x > i64::MAX as i128 {
        i64::MAX
    } else if x < i64::MIN as i128 {
        i64::MIN
    } else {
        x as i64
    }
}

/// An independent element-wise copy of a vector of plain values.
pub fn copy_vec<T: Copy>(v: &Vec<T>) -> (r: Vec<T>)
    ensures
        r@ == v@,
{
    let mut r: Vec<T> = Vec::new();
    let mut k: usize = 0;
    while k < v.len()
        invariant
            k <= v.len(),
            r.len() == k,
            forall|m: int| 0 <= m < k ==> r[m] == v[m],
        decreases v.len() - k,
    {
        let x = v[k];
        r.push(x);
        k += 1;
    }
    proof {
        assert(r@ =~= v@);
    }
    r
}

/// Scales a value by a unit-vector component: `u * v` for `u` in
/// {-1, 0, 1}. The result is stated both as the product and as the three
/// possible values, which keeps downstream range reasoning linear.
pub fn unit_times(u: i64, v: i128) -> (r: i128)
    requires
        -1 <= u <= 1,
        v > i128::MIN,
    ensures
        r == u * v,
        r == v || r == 0 || r == -v,
{
    if u == 1 {
        v
    } else if u == -1 {
        -v
    } else {
        0
    }
}

} // verus!
