use vstd::prelude::*;

verus! {

/// Bit pattern of the binary32 scalar zero.
pub const SCALAR_ZERO: u32 = 0;

/// Bit pattern of the binary32 scalar one.
pub const SCALAR_ONE: u32 = 0x3F80_0000;

/// A three-component vector of binary32 scalars, each carried as its raw
/// bit pattern.
#[derive(Clone, Copy, Debug, PartialEq, Eq, Structural)]
pub struct Point3 {
    pub x: u32,
    pub y: u32,
    pub z: u32,
}

/// A two-component vector of binary32 scalars, each carried as its raw
/// bit pattern.
#[derive(Clone, Copy, Debug, PartialEq, Eq, Structural)]
pub struct Point2 {
    pub x: u32,
    pub y: u32,
}

/// A rotation quaternion whose components are binary32 bit patterns.
#[derive(Clone, Copy, Debug, PartialEq, Eq, Structural)]
pub struct Quat {
    pub x: u32,
    pub y: u32,
    pub z: u32,
    pub w: u32,
}

/// The zero vector.
pub open spec fn zero3() -> Point3 {
    Point3 { x: SCALAR_ZERO, y: SCALAR_ZERO, z: SCALAR_ZERO }
}

/// The zero texture coordinate.
pub open spec fn zero2() -> Point2 {
    Point2 { x: SCALAR_ZERO, y: SCALAR_ZERO }
}

/// A raw vertex/index buffer as the stroke tessellator fills it: an
/// ordered sequence of positions and an ordered triangle-list index
/// sequence. No consistency between the two (such as index bounds) is
/// assumed or enforced here.
pub struct Geometry {
    pub vertices: Vec<Point3>,
    pub indices: Vec<u32>,
}

impl Geometry {
    /// An empty vertex/index buffer.
    pub fn new() -> (g: Geometry)
        ensures
            g.vertices@ == Seq::<Point3>::empty(),
            g.indices@ == Seq::<u32>::empty(),
    {
        Geometry { vertices: Vec::new(), indices: Vec::new() }
    }
}

/// Projects a tessellated stroke vertex onto the plane: the two stroke
/// coordinates keep their bit patterns and the third coordinate is the
/// zero scalar.
pub fn project_vertex(x: u32, y: u32) -> (p: Point3)
    ensures
        p == (Point3 { x: x, y: y, z: SCALAR_ZERO }),
{
    Point3 { x, y, z: SCALAR_ZERO }
}

/// Error reserved for path validation failures. No routine in this crate
/// constructs it.
#[derive(Clone, Debug, PartialEq)]
pub struct ParseError;

} // verus!
