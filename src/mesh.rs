use vstd::prelude::*;

verus! {

/// An ordered list of vertices and a list of 16-bit indices into it, read as
/// a triangle list.
#[derive(Clone, Debug)]
pub struct Mesh<V> {
    pub vertices: Vec<V>,
    pub indices: Vec<u16>,
}

impl<V> Mesh<V> {
    /// Every index names an existing vertex and the indices form whole triangles.
    pub open spec fn is_triangle_list(&self) -> bool {
        &&& self.indices@.len() % 3 == 0
        &&& forall|k: int|
            0 <= k < self.indices@.len() ==> (#[trigger] self.indices@[k] as int) < self.vertices@.len()
    }

    pub fn new(vertices: Vec<V>, indices: Vec<u16>) -> (r: Self)
        ensures
            r.vertices == vertices,
            r.indices == indices,
    {
        Self { vertices, indices }
    }
}

/// Index `k` of the fan that triangulates a circle of `n` segments: triangle
/// `i` (from 1 to `n`) is the center, ring vertex `i + 1` (or ring vertex 1
/// for the last one, closing the fan), and ring vertex `i`.
pub open spec fn circle_fan_index(n: nat, k: nat) -> int {
    let i = k / 3 + 1;
    if k % 3 == 0 {
        0
    } else if k % 3 == 1 {
        if i == n { 1 } else { (i + 1) as int }
    } else {
        i as int
    }
}

/// Builds the meshes of the primitive shapes, centered on the local origin.
/// The caller supplies the vertices, which carry positions, texture
/// coordinates and colors; the builder fixes their order and the triangles.
pub struct MeshBuilder2D;

impl MeshBuilder2D {
    /// A single triangle: top, bottom right, bottom left.
    pub fn from_triangle<V>(top: V, bottom_right: V, bottom_left: V) -> (r: Mesh<V>)
        ensures
            r.vertices@ == seq![top, bottom_right, bottom_left],
            r.indices@ == seq![0u16, 1, 2],
            r.is_triangle_list(),
    {
        let mut vertices: Vec<V> = Vec::with_capacity(3);
        vertices.push(top);
        vertices.push(bottom_right);
        vertices.push(bottom_left);
        let indices: Vec<u16> = vec![0, 1, 2];
        let r = Mesh::new(vertices, indices);
        assert(r.indices@ == seq![0u16, 1, 2]);
        r
    }

    /// A rectangle from its corners, in the order top left, top right,
    /// bottom left, bottom right, as two triangles.
    pub fn from_rectangle<V>(top_left: V, top_right: V, bottom_left: V, bottom_right: V) -> (r:
        Mesh<V>)
        ensures
            r.vertices@ == seq![top_left, top_right, bottom_left, bottom_right],
            r.indices@ == seq![0u16, 1, 2, 1, 3, 2],
            r.is_triangle_list(),
    {
        let mut vertices: Vec<V> = Vec::with_capacity(4);
        vertices.push(top_left);
        vertices.push(top_right);
        vertices.push(bottom_left);
        vertices.push(bottom_right);
        let indices: Vec<u16> = vec![0, 1, 2, 1, 3, 2];
        let r = Mesh::new(vertices, indices);
        assert(r.indices@ == seq![0u16, 1, 2, 1, 3, 2]);
        r
    }

    /// A circle as a fan around `center`. The ring has `segments + 1`
    /// vertices, `ring_vertex(0)` to `ring_vertex(segments)`: the last one
    /// repeats the position of the first so that the texture seam closes.
    /// With no segment the mesh has no triangle.
    pub fn from_circle<V, F: Fn(usize) -> V>(segments: usize, center: V, ring_vertex: F) -> (r:
        Mesh<V>)
        requires
            segments <= u16::MAX,
            forall|i: usize| i <= segments ==> #[trigger] ring_vertex.requires((i,)),
        ensures
            r.vertices@.len() == segments + 2,
            r.vertices@[0] == center,
            forall|i: int|
                0 <= i <= segments ==> ring_vertex.ensures(
                    (i as usize,),
                    #[trigger] r.vertices@[i + 1],
                ),
            r.indices@.len() == 3 * segments,
            forall|k: int|
                0 <= k < 3 * segments ==> #[trigger] r.indices@[k] as int == circle_fan_index(
                    segments as nat,
                    k as nat,
                ),
            r.is_triangle_list(),
    {
        let mut vertices: Vec<V> = Vec::with_capacity(segments + 2);
        vertices.push(center);
        let mut i: usize = 0;
        while i <= segments
            invariant
                i <= segments + 1,
                segments <= u16::MAX,
                forall|j: usize| j <= segments ==> #[trigger] ring_vertex.requires((j,)),
                vertices@.len() == i + 1,
                vertices@[0] == center,
                forall|j: int|
                    0 <= j < i ==> ring_vertex.ensures((j as usize,), #[trigger] vertices@[j + 1]),
            decreases segments + 1 - i,
        {
            let v = ring_vertex(i);
            vertices.push(v);
            i = i + 1;
        }
        let mut indices: Vec<u16> = Vec::with_capacity(3 * segments);
        let mut t: usize = 1;
        while t <= segments
            invariant
                1 <= t <= segments + 1,
                segments <= u16::MAX,
                indices@.len() == 3 * (t - 1),
                forall|k: int|
                    0 <= k < indices@.len() ==> #[trigger] indices@[k] as int == circle_fan_index(
                        segments as nat,
                        k as nat,
                    ),
            decreases segments + 1 - t,
        {
            let next: u16 = if t == segments {
                1
            } else {
                t as u16 + 1
            };
            indices.push(0);
            indices.push(next);
            indices.push(t as u16);
            proof {
                let b = 3 * (t - 1);
                assert(b / 3 + 1 == t && b % 3 == 0) by (nonlinear_arith)
                    requires b == 3 * (t - 1), t >= 1;
                assert((b + 1) / 3 + 1 == t && (b + 1) % 3 == 1) by (nonlinear_arith)
                    requires b == 3 * (t - 1), t >= 1;
                assert((b + 2) / 3 + 1 == t && (b + 2) % 3 == 2) by (nonlinear_arith)
                    requires b == 3 * (t - 1), t >= 1;
            }
            t = t + 1;
        }
        let r = Mesh::new(vertices, indices);
        proof {
            lemma_circle_fan_in_range(segments as nat);
        }
        r
    }
}

/// Every index of a circle fan of `n` segments names one of its `n + 2` vertices.
pub proof fn lemma_circle_fan_in_range(n: nat)
    ensures
        forall|k: nat| k < 3 * n ==> 0 <= #[trigger] circle_fan_index(n, k) < n + 2,
{
    assert forall|k: nat| k < 3 * n implies 0 <= #[trigger] circle_fan_index(n, k) < n + 2 by {
        assert(k / 3 < n) by (nonlinear_arith)
            requires k < 3 * n;
    }
}

} // verus!
