//! Geometric forms and the index buffers that draw them.
use vstd::prelude::*;

verus! {

/// The orientation of a geometric form.
#[derive(Clone, Copy, Debug, PartialEq, Eq, Structural)]
pub enum Orientation {
    Horizontal,
    Vertical,
}

/// The segments of a circle, drawn as a fan of triangles around its center.
#[derive(Clone, Copy, Debug, PartialEq, Eq, Structural)]
pub struct Circle {
    pub number_of_segments: u16,
}

impl Circle {
    /// Creates a circle of the given number of segments.
    pub fn new(number_of_segments: u16) -> (r: Self)
        ensures
            r.number_of_segments == number_of_segments,
    {
        Circle { number_of_segments }
    }
}

impl Default for Circle {
    fn default() -> (r: Self)
        ensures
            r.number_of_segments == 64,
    {
        Circle { number_of_segments: 64 }
    }
}

/// The geometric form of a shape.
#[derive(Clone, Copy, Debug, PartialEq, Eq, Structural)]
pub enum GeometryType {
    Triangle,
    Square,
    Rectangle,
    Circle(Circle),
}

/// The `p`-th index of the fan of a circle of `n` segments: triangle `p / 3`
/// joins the center (vertex 0) with rim vertices `p / 3 + 1` and the next one,
/// the last segment closing on the first rim vertex.
pub open spec fn circle_fan_index(n: int, p: int) -> u16 {
    let i: int = p / 3;
    if p % 3 == 0 {
        0
    } else if p % 3 == 1 {
        (i + 1) as u16
    } else {
        ((i + 1) % n + 1) as u16
    }
}

impl GeometryType {
    /// The indices, three per triangle, into the vertices of the form.
    pub open spec fn index_seq(self) -> Seq<u16> {
        match self {
            GeometryType::Triangle => seq![0u16, 1, 2],
            GeometryType::Square => seq![0u16, 1, 2, 2, 3, 0],
            GeometryType::Rectangle => seq![0u16, 1, 2, 2, 3, 0],
            GeometryType::Circle(c) => Seq::new(
                (3 * c.number_of_segments) as nat,
                |p: int| circle_fan_index(c.number_of_segments as int, p),
            ),
        }
    }

    /// The number of vertices of the form: its corners, and for a circle its
    /// center and one rim vertex per segment.
    pub open spec fn vertex_count(self) -> int {
        match self {
            GeometryType::Triangle => 3,
            GeometryType::Square => 4,
            GeometryType::Rectangle => 4,
            GeometryType::Circle(c) => c.number_of_segments + 1,
        }
    }

    /// Returns the indices, three per triangle, into the vertices of the form.
    pub fn to_index_array(&self) -> (r: Vec<u16>)
        ensures
            r@ == self.index_seq(),
    {
        match self {
            GeometryType::Triangle => vec![0, 1, 2],
            GeometryType::Square => vec![0, 1, 2, 2, 3, 0],
            GeometryType::Rectangle => vec![0, 1, 2, 2, 3, 0],
            GeometryType::Circle(circle) => {
                let n: u16 = circle.number_of_segments;
                let mut indices: Vec<u16> = Vec::new();
                let mut i: u16 = 0;
                while i < n
                    invariant
                        i <= n,
                        indices@.len() == 3 * i,
                        forall|p: int|
                            0 <= p < indices@.len() ==> indices@[p] == circle_fan_index(n as int, p),
                    decreases n - i,
                {
                    let ghost before = indices@;
                    indices.push(0);
                    indices.push(i + 1);
                    indices.push((i + 1) % n + 1);
                    assert forall|p: int| 0 <= p < indices@.len() implies indices@[p]
                        == circle_fan_index(n as int, p) by {
                        if p < 3 * i {
                            assert(indices@[p] == before[p]);
                        } else {
                            assert(p / 3 == i as int) by (nonlinear_arith)
                                requires
                                    3 * i <= p < 3 * i + 3,
                            ;
                            assert(p % 3 == p - 3 * i) by (nonlinear_arith)
                                requires
                                    3 * i <= p < 3 * i + 3,
                            ;
                        }
                    }
                    i = i + 1;
                }
                assert(indices@ =~= self.index_seq());
                indices
            },
        }
    }
}

/// Every form is drawn as whole triangles, and each of its indices names one
/// of its vertices.
pub proof fn lemma_indices_name_vertices(g: GeometryType, p: int)
    requires
        0 <= p < g.index_seq().len(),
    ensures
        g.index_seq().len() % 3 == 0,
        g.index_seq()[p] < g.vertex_count(),
{
    if let GeometryType::Circle(c) = g {
        let n: int = c.number_of_segments as int;
        assert(p / 3 < n) by (nonlinear_arith)
            requires
                0 <= p < 3 * n,
        ;
        assert((3 * n) % 3 == 0) by (nonlinear_arith);
        assert(0 <= (p / 3 + 1) % n < n) by (nonlinear_arith)
            requires
                n > 0,
        ;
    } else {
        assert(g.index_seq()[p] < g.vertex_count());
    }
}

/// The fan of a circle of `n` segments: triangle `t` joins the center with
/// rim vertex `t + 1` and the rim vertex after it, the last closing on the
/// first; with two segments or more its three vertices are distinct.
pub proof fn lemma_circle_fan_triangles(c: Circle, t: int)
    requires
        0 <= t < c.number_of_segments,
    ensures
        GeometryType::Circle(c).index_seq()[3 * t] == 0,
        GeometryType::Circle(c).index_seq()[3 * t + 1] == t + 1,
        GeometryType::Circle(c).index_seq()[3 * t + 2] == (if t + 1 < c.number_of_segments {
            t + 2
        } else {
            1
        }),
        c.number_of_segments >= 2 ==> GeometryType::Circle(c).index_seq()[3 * t + 1]
            != GeometryType::Circle(c).index_seq()[3 * t + 2],
{
    let n: int = c.number_of_segments as int;
    let s = GeometryType::Circle(c).index_seq();
    assert(3 * t + 2 < 3 * n);
    assert((3 * t) / 3 == t && (3 * t) % 3 == 0) by (nonlinear_arith)
        requires
            t >= 0,
    ;
    assert((3 * t + 1) / 3 == t && (3 * t + 1) % 3 == 1) by (nonlinear_arith)
        requires
            t >= 0,
    ;
    assert((3 * t + 2) / 3 == t && (3 * t + 2) % 3 == 2) by (nonlinear_arith)
        requires
            t >= 0,
    ;
    if t + 1 < n {
        assert((t + 1) % n == t + 1) by (nonlinear_arith)
            requires
                0 <= t + 1 < n,
        ;
    } else {
        assert((t + 1) % n == 0) by (nonlinear_arith)
            requires
                t + 1 == n,
                n > 0,
        ;
    }
    assert(s[3 * t] == circle_fan_index(n, 3 * t));
    assert(s[3 * t + 1] == circle_fan_index(n, 3 * t + 1));
    assert(s[3 * t + 2] == circle_fan_index(n, 3 * t + 2));
}

} // verus!
