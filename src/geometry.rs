//! Points, rays and the intersection of a ray with a horizontal plane.
//!
//! Coordinates are fixed-point integers: one world unit is `UNIT` steps.
use vstd::prelude::*;
use vstd::arithmetic::div_mod::lemma_fundamental_div_mod_converse;

verus! {

/// Coordinate steps in one world unit.
pub const UNIT: i64 = 1000;

/// Largest magnitude of a ray origin, a plane height or the camera position (2^40).
pub const COORD_LIMIT: i64 = 1_099_511_627_776;

/// Largest magnitude of a coordinate of anything placed in the world (2^52).
pub const WORLD_LIMIT: i64 = 4_503_599_627_370_496;

/// Height of the plane on which a dragged card follows the cursor.
pub const DRAG_PLANE_HEIGHT: i64 = 2000;

/// Height of the board's top plane.
pub const BOARD_PLANE_HEIGHT: i64 = 0;

pub open spec fn abs(a: int) -> int {
    if a < 0 { -a } else { a }
}

/// A point or a vector, in coordinate steps.
#[derive(Clone, Copy, Debug, PartialEq, Eq, Structural)]
pub struct Vec3 {
    pub x: i64,
    pub y: i64,
    pub z: i64,
}

impl Vec3 {
    pub fn new(x: i64, y: i64, z: i64) -> (r: Vec3)
        ensures
            r == (Vec3 { x, y, z }),
    {
        Vec3 { x, y, z }
    }

    /// Fits as a ray origin, a plane height or a camera position.
    pub open spec fn in_bounds(self) -> bool {
        abs(self.x as int) <= COORD_LIMIT && abs(self.y as int) <= COORD_LIMIT && abs(
            self.z as int,
        ) <= COORD_LIMIT
    }

    /// Fits as the position of something placed in the world.
    pub open spec fn in_world(self) -> bool {
        abs(self.x as int) <= WORLD_LIMIT && abs(self.y as int) <= WORLD_LIMIT && abs(
            self.z as int,
        ) <= WORLD_LIMIT
    }

    /// No component is longer than one unit, as holds of every unit vector.
    pub open spec fn is_direction(self) -> bool {
        abs(self.x as int) <= UNIT && abs(self.y as int) <= UNIT && abs(self.z as int) <= UNIT
    }
}

/// A half-line from `origin` along `direction`.
#[derive(Clone, Copy, Debug, PartialEq, Eq, Structural)]
pub struct Ray {
    pub origin: Vec3,
    pub direction: Vec3,
}

impl Ray {
    pub open spec fn well_formed(self) -> bool {
        self.origin.in_bounds() && self.direction.is_direction()
    }
}

/// `n / d` rounded down, for a divisor of either sign.
pub open spec fn ratio(n: int, d: int) -> int {
    if d > 0 { n / d } else { (-n) / (-d) }
}

/// The ray meets the plane `y == height` at or ahead of its origin: it is not
/// parallel to the plane, and the plane does not lie behind it.
pub open spec fn meets_plane(ray: Ray, height: int) -> bool {
    ray.direction.y != 0 && (height - ray.origin.y) * ray.direction.y >= 0
}

/// How far along the ray the plane lies, in steps of the direction's length
/// (so `UNIT` means one whole direction vector).
pub open spec fn plane_distance(ray: Ray, height: int) -> int {
    ratio((height - ray.origin.y) * UNIT, ray.direction.y as int)
}

/// Where the ray meets the plane `y == height`, each horizontal coordinate rounded down.
pub open spec fn plane_point(ray: Ray, height: int) -> Vec3 {
    let rise = height - ray.origin.y;
    let dy = ray.direction.y as int;
    Vec3 {
        x: (ray.origin.x + ratio(rise * ray.direction.x, dy)) as i64,
        y: height as i64,
        z: (ray.origin.z + ratio(rise * ray.direction.z, dy)) as i64,
    }
}

proof fn lemma_ratio_bound(n: int, d: int)
    requires
        d != 0,
    ensures
        abs(ratio(n, d)) <= abs(n),
{
    let (a, b) = if d > 0 { (n, d) } else { (-n, -d) };
    assert(ratio(n, d) == a / b);
    let q = a / b;
    let r = a % b;
    assert(a == q * b + r && 0 <= r < b) by {
        vstd::arithmetic::div_mod::lemma_fundamental_div_mod(a, b);
    }
    assert(abs(q) <= abs(a)) by (nonlinear_arith)
        requires
            a == q * b + r,
            0 <= r < b,
    ;
}

/// Rounded-down quotient of two machine integers.
fn ratio_exec(n: i64, d: i64) -> (r: i64)
    requires
        d != 0,
        abs(n as int) <= WORLD_LIMIT,
        abs(d as int) <= WORLD_LIMIT,
    ensures
        r == ratio(n as int, d as int),
{
    let (a, b): (i64, i64) = if d > 0 { (n, d) } else { (-n, -d) };
    if a >= 0 {
        a / b
    } else {
        let q: i64 = (-a + b - 1) / b;
        proof {
            let m: int = -a + b - 1;
            let s: int = m % (b as int);
            vstd::arithmetic::div_mod::lemma_fundamental_div_mod(m, b as int);
            assert(q == m / (b as int));
            assert(m == q * b + s) by (nonlinear_arith)
                requires
                    m == b * (m / (b as int)) + s,
                    q == m / (b as int),
            ;
            assert(a == (-q) * b + (b - 1 - s)) by (nonlinear_arith)
                requires
                    m == q * b + s,
                    m == -a + b - 1,
            ;
            lemma_fundamental_div_mod_converse(a as int, b as int, -q as int, b - 1 - s);
        }
        -q
    }
}

/// Distance along `ray` to the plane `y == height`, in steps of the direction's
/// length; `None` when the ray is parallel to the plane or the plane lies behind it.
pub fn intersect_plane(ray: &Ray, height: i64) -> (r: Option<i64>)
    requires
        ray.well_formed(),
        abs(height as int) <= COORD_LIMIT,
    ensures
        r.is_some() <==> meets_plane(*ray, height as int),
        ray.direction.y == 0 ==> r.is_none(),
        r.is_some() ==> r.unwrap() == plane_distance(*ray, height as int),
        r.is_some() ==> r.unwrap() >= 0,
{
    let dy = ray.direction.y;
    let rise = height - ray.origin.y;
    if dy == 0 {
        return None;
    }
    if (rise < 0 && dy > 0) || (rise > 0 && dy < 0) {
        proof {
            assert(rise * dy < 0) by (nonlinear_arith)
                requires
                    (rise < 0 && dy > 0) || (rise > 0 && dy < 0),
            ;
        }
        return None;
    }
    proof {
        assert(rise * dy >= 0) by (nonlinear_arith)
            requires
                !((rise < 0 && dy > 0) || (rise > 0 && dy < 0)),
        ;
        assert(abs(rise * UNIT) <= WORLD_LIMIT) by (nonlinear_arith)
            requires
                abs(rise as int) <= 2 * COORD_LIMIT,
        ;
    }
    let t = ratio_exec(rise * UNIT, dy);
    proof {
        assert(ratio((rise * UNIT) as int, dy as int) >= 0) by (nonlinear_arith)
            requires
                rise * dy >= 0,
                dy != 0,
        ;
    }
    Some(t)
}

/// Where `ray` meets the plane `y == height`; `None` when the ray is parallel to the
/// plane or the plane lies behind it.
pub fn intersect_point(ray: &Ray, height: i64) -> (r: Option<Vec3>)
    requires
        ray.well_formed(),
        abs(height as int) <= COORD_LIMIT,
    ensures
        r.is_some() <==> meets_plane(*ray, height as int),
        r.is_some() ==> r.unwrap() == plane_point(*ray, height as int),
        r.is_some() ==> r.unwrap().in_world(),
{
    let hit = intersect_plane(ray, height);
    if hit.is_none() {
        return None;
    }
    let dy = ray.direction.y;
    let rise = height - ray.origin.y;
    proof {
        assert(abs(rise * ray.direction.x) <= 2048 * COORD_LIMIT) by (nonlinear_arith)
            requires
                abs(rise as int) <= 2 * COORD_LIMIT,
                abs(ray.direction.x as int) <= UNIT,
        ;
        assert(abs(rise * ray.direction.z) <= 2048 * COORD_LIMIT) by (nonlinear_arith)
            requires
                abs(rise as int) <= 2 * COORD_LIMIT,
                abs(ray.direction.z as int) <= UNIT,
        ;
        lemma_ratio_bound(rise * ray.direction.x, dy as int);
        lemma_ratio_bound(rise * ray.direction.z, dy as int);
    }
    let x = ray.origin.x + ratio_exec(rise * ray.direction.x, dy);
    let z = ray.origin.z + ratio_exec(rise * ray.direction.z, dy);
    Some(Vec3 { x, y: height, z })
}

/// The point under the cursor on the drag plane, for the cursor's ray if it has one.
pub fn drag_point(cursor_ray: Option<Ray>) -> (r: Option<Vec3>)
    requires
        cursor_ray.is_some() ==> cursor_ray.unwrap().well_formed(),
    ensures
        r.is_some() <==> (cursor_ray.is_some() && meets_plane(
            cursor_ray.unwrap(),
            DRAG_PLANE_HEIGHT as int,
        )),
        r.is_some() ==> r.unwrap() == plane_point(cursor_ray.unwrap(), DRAG_PLANE_HEIGHT as int),
        r.is_some() ==> r.unwrap().in_world(),
{
    match cursor_ray {
        Some(ray) => intersect_point(&ray, DRAG_PLANE_HEIGHT),
        None => None,
    }
}

/// The point under the cursor on the board's top plane.
pub fn board_point(cursor_ray: &Ray) -> (r: Option<Vec3>)
    requires
        cursor_ray.well_formed(),
    ensures
        r.is_some() <==> meets_plane(*cursor_ray, BOARD_PLANE_HEIGHT as int),
        r.is_some() ==> r.unwrap() == plane_point(*cursor_ray, BOARD_PLANE_HEIGHT as int),
{
    intersect_point(cursor_ray, BOARD_PLANE_HEIGHT)
}

} // verus!
