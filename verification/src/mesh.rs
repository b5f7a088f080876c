//! The geometry model: vertex positions, faces that name vertices by index,
//! and a mesh whose faces only name vertices that it holds.

use crate::binary64::{equal, num_eq};
use vstd::prelude::*;

verus! {

/// A position in space. Each component is the bit pattern of a binary64 value.
#[derive(Clone, Copy, Debug, PartialEq, Eq, Structural)]
pub struct Vertex {
    pub x: u64,
    pub y: u64,
    pub z: u64,
}

impl Vertex {
    /// The two positions have numerically equal components. A position with a
    /// component that denotes no number coincides with nothing, itself included.
    pub open spec fn coincides(self, other: Vertex) -> bool {
        num_eq(self.x, other.x) && num_eq(self.y, other.y) && num_eq(self.z, other.z)
    }

    pub fn new(x: u64, y: u64, z: u64) -> (v: Vertex)
        ensures
            v == (Vertex { x, y, z }),
    {
        Vertex { x, y, z }
    }

    /// Tells whether the two positions coincide.
    pub fn same_position(&self, other: &Vertex) -> (r: bool)
        ensures
            r == self.coincides(*other),
    {
        equal(self.x, other.x) && equal(self.y, other.y) && equal(self.z, other.z)
    }
}

/// A face, by the indices of its corners in the mesh's vertex sequence.
/// Only triangles describe a surface; points and lines are carried so that a
/// mesh which holds them can be told apart from one that does not.
#[derive(Clone, Copy, Debug, PartialEq, Eq, Structural)]
pub enum Face {
    Point(usize),
    Line(usize, usize),
    Triangle(usize, usize, usize),
}

impl Face {
    /// The corner indices, in order.
    pub open spec fn corners(self) -> Seq<usize> {
        match self {
            Face::Point(a) => seq![a],
            Face::Line(a, b) => seq![a, b],
            Face::Triangle(a, b, c) => seq![a, b, c],
        }
    }

    /// Every corner is an index below `count`.
    pub open spec fn within(self, count: nat) -> bool {
        match self {
            Face::Point(a) => a < count,
            Face::Line(a, b) => a < count && b < count,
            Face::Triangle(a, b, c) => a < count && b < count && c < count,
        }
    }

    /// The vertex `index` is a corner of the face.
    pub open spec fn names(self, index: int) -> bool {
        match self {
            Face::Point(a) => a == index,
            Face::Line(a, b) => a == index || b == index,
            Face::Triangle(a, b, c) => a == index || b == index || c == index,
        }
    }

    /// The face is a triangle with `index` among its corners.
    pub open spec fn triangle_on(self, index: int) -> bool {
        self is Triangle && self.names(index)
    }

    /// Tells whether the face is a triangle.
    pub fn is_triangle(&self) -> (r: bool)
        ensures
            r == (*self is Triangle),
    {
        match self {
            Face::Triangle(_, _, _) => true,
            _ => false,
        }
    }

    /// Tells whether every corner is an index below `count`.
    pub fn is_within(&self, count: usize) -> (r: bool)
        ensures
            r == self.within(count as nat),
    {
        match self {
            Face::Point(a) => *a < count,
            Face::Line(a, b) => *a < count && *b < count,
            Face::Triangle(a, b, c) => *a < count && *b < count && *c < count,
        }
    }
}

/// Why a vertex and face list do not make a mesh.
#[derive(Clone, Copy, Debug, PartialEq, Eq, Structural)]
pub enum MeshError {
    /// The face at this position names a vertex that the mesh does not hold.
    FaceIndexOutOfBounds(usize),
}

/// What a mesh holds, as sequences.
pub ghost struct MeshView {
    pub vertices: Seq<Vertex>,
    pub faces: Seq<Face>,
}

impl MeshView {
    /// Every face names only vertices of the sequence.
    pub open spec fn well_formed(self) -> bool {
        forall|f: int| 0 <= f < self.faces.len() ==> (#[trigger] self.faces[f]).within(self.vertices.len())
    }

    /// The position of the first face that names a missing vertex is `f`.
    pub open spec fn first_stray_face(self, f: int) -> bool {
        &&& 0 <= f < self.faces.len()
        &&& !self.faces[f].within(self.vertices.len())
        &&& forall|g: int| 0 <= g < f ==> (#[trigger] self.faces[g]).within(self.vertices.len())
    }
}

/// An ordered sequence of vertices and an ordered sequence of faces over them.
/// Every face index is within the bounds of the vertex sequence.
#[derive(Debug)]
pub struct Mesh {
    vertices: Vec<Vertex>,
    faces: Vec<Face>,
}

impl View for Mesh {
    type V = MeshView;

    closed spec fn view(&self) -> MeshView {
        MeshView { vertices: self.vertices@, faces: self.faces@ }
    }
}

impl Mesh {
    #[verifier::type_invariant]
    closed spec fn face_indices_in_bounds(self) -> bool {
        self@.well_formed()
    }

    /// Builds a mesh, or names the first face that reaches outside `vertices`.
    pub fn new(vertices: Vec<Vertex>, faces: Vec<Face>) -> (r: Result<Mesh, MeshError>)
        ensures
            match r {
                Ok(mesh) => {
                    &&& mesh@.vertices == vertices@
                    &&& mesh@.faces == faces@
                    &&& mesh@.well_formed()
                },
                Err(MeshError::FaceIndexOutOfBounds(f)) => (MeshView {
                    vertices: vertices@,
                    faces: faces@,
                }).first_stray_face(f as int),
            },
    {
        let count: usize = vertices.len();
        let mut f: usize = 0;
        while f < faces.len()
            invariant
                f <= faces.len(),
                count == vertices.len(),
                forall|g: int| 0 <= g < f ==> (#[trigger] faces@[g]).within(count as nat),
            decreases faces.len() - f,
        {
            if !faces[f].is_within(count) {
                return Err(MeshError::FaceIndexOutOfBounds(f));
            }
            f += 1;
        }
        Ok(Mesh { vertices, faces })
    }

    /// The vertices, in order.
    pub fn vertices(&self) -> (v: &Vec<Vertex>)
        ensures
            v@ == self@.vertices,
    {
        &self.vertices
    }

    /// The faces, in order; each names only vertices of the mesh.
    pub fn faces(&self) -> (f: &Vec<Face>)
        ensures
            f@ == self@.faces,
            self@.well_formed(),
    {
        proof {
            use_type_invariant(self);
        }
        &self.faces
    }

    /// Puts `positions` in place of the vertices, where there are as many of
    /// them as the mesh has vertices; otherwise leaves the mesh as it was.
    /// Tells whether it replaced them.
    pub fn replace_positions(&mut self, positions: Vec<Vertex>) -> (replaced: bool)
        ensures
            replaced == (positions@.len() == old(self)@.vertices.len()),
            replaced ==> final(self)@.vertices == positions@,
            !replaced ==> final(self)@.vertices == old(self)@.vertices,
            final(self)@.faces == old(self)@.faces,
    {
        proof {
            use_type_invariant(&*self);
        }
        if positions.len() != self.vertices.len() {
            return false;
        }
        assert forall|f: int| 0 <= f < self.faces@.len() implies (#[trigger] self.faces@[f]).within(
            positions@.len(),
        ) by {
            assert(self@.faces[f].within(self@.vertices.len()));
        }
        self.vertices = positions;
        true
    }
}

} // verus!
