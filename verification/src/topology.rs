//! The topology validator: a coincidence count standing in for manifoldness,
//! and a reference count standing in for closedness.
//!
//! Both are cheap proxies. The first flags positions that more than two
//! vertices share; it looks at no edge. The second flags vertices that no
//! triangle names; it walks no boundary.

use crate::mesh::{Face, Mesh, MeshView, Vertex};
use vstd::prelude::*;

verus! {

/// How many vertices of the sequence coincide with `p`.
pub open spec fn coincident_count(vertices: Seq<Vertex>, p: Vertex) -> nat
    decreases vertices.len(),
{
    if vertices.len() == 0 {
        0
    } else {
        let rest = coincident_count(vertices.drop_last(), p);
        if vertices.last().coincides(p) {
            rest + 1
        } else {
            rest
        }
    }
}

/// Some vertex has a position that more than two vertices share.
pub open spec fn non_manifold(vertices: Seq<Vertex>) -> bool {
    exists|i: int| 0 <= i < vertices.len() && coincident_count(vertices, #[trigger] vertices[i]) > 2
}

/// Every face is a triangle.
pub open spec fn all_triangles(faces: Seq<Face>) -> bool {
    forall|f: int| 0 <= f < faces.len() ==> #[trigger] faces[f] is Triangle
}

/// Some triangle has the vertex `index` as a corner.
pub open spec fn referenced(faces: Seq<Face>, index: int) -> bool {
    exists|f: int| 0 <= f < faces.len() && (#[trigger] faces[f]).triangle_on(index)
}

/// Some vertex is a corner of no triangle.
pub open spec fn some_unreferenced(vertex_count: nat, faces: Seq<Face>) -> bool {
    exists|v: int| 0 <= v < vertex_count && !#[trigger] referenced(faces, v)
}

/// The hole check's answer: every face is a triangle, and some vertex is a
/// corner of none. With a face that is no triangle the check is abandoned and
/// answers no, which says nothing about closedness.
pub open spec fn has_holes(mesh: MeshView) -> bool {
    all_triangles(mesh.faces) && some_unreferenced(mesh.vertices.len(), mesh.faces)
}

/// What the validator found.
#[derive(Clone, Copy, Debug, PartialEq, Eq, Structural)]
pub enum TopologyReport {
    /// No defect was found.
    Valid,
    /// More than two vertices share one position.
    NonManifold,
    /// Every face is a triangle and some vertex is a corner of none.
    HasHoles,
    /// A face is no triangle: the hole check is inconclusive.
    UnsupportedFaceType,
}

/// The report for a mesh. Coincidence is reported before anything about the
/// faces; a face that is no triangle is reported before any hole.
pub open spec fn report_of(mesh: MeshView) -> TopologyReport {
    if non_manifold(mesh.vertices) {
        TopologyReport::NonManifold
    } else if !all_triangles(mesh.faces) {
        TopologyReport::UnsupportedFaceType
    } else if some_unreferenced(mesh.vertices.len(), mesh.faces) {
        TopologyReport::HasHoles
    } else {
        TopologyReport::Valid
    }
}

fn count_coincident(vertices: &[Vertex], p: &Vertex) -> (count: usize)
    ensures
        count == coincident_count(vertices@, *p),
{
    let mut count: usize = 0;
    let mut j: usize = 0;
    while j < vertices.len()
        invariant
            j <= vertices.len(),
            count == coincident_count(vertices@.take(j as int), *p),
            count <= j,
        decreases vertices.len() - j,
    {
        assert(vertices@.take(j + 1).drop_last() == vertices@.take(j as int));
        if vertices[j].same_position(p) {
            count += 1;
        }
        j += 1;
    }
    assert(vertices@.take(j as int) == vertices@);
    count
}

/// Tells whether some position is shared by more than two vertices.
pub fn check_non_manifold(vertices: &[Vertex]) -> (r: bool)
    ensures
        r == non_manifold(vertices@),
{
    let mut i: usize = 0;
    while i < vertices.len()
        invariant
            i <= vertices.len(),
            forall|k: int| 0 <= k < i ==> coincident_count(vertices@, #[trigger] vertices@[k]) <= 2,
        decreases vertices.len() - i,
    {
        if count_coincident(vertices, &vertices[i]) > 2 {
            return true;
        }
        i += 1;
    }
    false
}

/// Tells whether every face is a triangle and some vertex is a corner of none.
pub fn check_holes(mesh: &Mesh) -> (r: bool)
    ensures
        r == has_holes(mesh@),
{
    let faces = mesh.faces();
    let count: usize = mesh.vertices().len();
    let mut visited: Vec<bool> = Vec::new();
    while visited.len() < count
        invariant
            visited.len() <= count,
            forall|v: int| 0 <= v < visited.len() ==> !visited@[v],
        decreases count - visited.len(),
    {
        visited.push(false);
    }
    let mut f: usize = 0;
    while f < faces.len()
        invariant
            f <= faces.len(),
            visited.len() == count,
            count == mesh@.vertices.len(),
            faces@ == mesh@.faces,
            mesh@.well_formed(),
            all_triangles(faces@.take(f as int)),
            forall|v: int| 0 <= v < count ==> visited@[v] == #[trigger] referenced(faces@.take(f as int), v),
        decreases faces.len() - f,
    {
        let ghost before = faces@.take(f as int);
        let ghost after = faces@.take(f + 1);
        match faces[f] {
            Face::Triangle(a, b, c) => {
                visited.set(a, true);
                visited.set(b, true);
                visited.set(c, true);
            },
            _ => {
                return false;
            },
        }
        proof {
            assert forall|g: int| 0 <= g < f implies before[g] == after[g] by {}
            assert forall|v: int| 0 <= v < count implies visited@[v] == #[trigger] referenced(after, v) by {
                if referenced(before, v) {
                    let g = choose|g: int| 0 <= g < before.len() && (#[trigger] before[g]).triangle_on(v);
                    assert(after[g].triangle_on(v));
                }
                if faces@[f as int].triangle_on(v) {
                    assert(after[f as int].triangle_on(v));
                }
                if referenced(after, v) {
                    let g = choose|g: int| 0 <= g < after.len() && (#[trigger] after[g]).triangle_on(v);
                    assert(g < f ==> before[g].triangle_on(v));
                }
            }
        }
        f += 1;
    }
    assert(faces@.take(f as int) == faces@);
    let mut v: usize = 0;
    while v < count
        invariant
            v <= count,
            visited.len() == count,
            count == mesh@.vertices.len(),
            all_triangles(mesh@.faces),
            forall|w: int| 0 <= w < count ==> visited@[w] == #[trigger] referenced(mesh@.faces, w),
            forall|w: int| 0 <= w < v ==> #[trigger] referenced(mesh@.faces, w),
        decreases count - v,
    {
        if !visited[v] {
            assert(!referenced(mesh@.faces, v as int));
            return true;
        }
        v += 1;
    }
    false
}

/// Tells whether every face is a triangle.
pub fn only_triangles(faces: &[Face]) -> (r: bool)
    ensures
        r == all_triangles(faces@),
{
    let mut f: usize = 0;
    while f < faces.len()
        invariant
            f <= faces.len(),
            forall|g: int| 0 <= g < f ==> #[trigger] faces@[g] is Triangle,
        decreases faces.len() - f,
    {
        if !faces[f].is_triangle() {
            return false;
        }
        f += 1;
    }
    true
}

/// Runs both checks and reports what they found.
pub fn validate(mesh: &Mesh) -> (report: TopologyReport)
    ensures
        report == report_of(mesh@),
{
    let coincident = check_non_manifold(mesh.vertices().as_slice());
    let holes = check_holes(mesh);
    if coincident {
        TopologyReport::NonManifold
    } else if holes {
        TopologyReport::HasHoles
    } else if !only_triangles(mesh.faces().as_slice()) {
        TopologyReport::UnsupportedFaceType
    } else {
        TopologyReport::Valid
    }
}

/// No two vertices of the sequence coincide.
pub open spec fn positions_unique(vertices: Seq<Vertex>) -> bool {
    forall|i: int, j: int|
        0 <= i < j < vertices.len() ==> !(#[trigger] vertices[i]).coincides(#[trigger] vertices[j])
}

/// Some face, of whatever kind, has the vertex `index` as a corner.
pub open spec fn named(faces: Seq<Face>, index: int) -> bool {
    exists|f: int| 0 <= f < faces.len() && (#[trigger] faces[f]).names(index)
}

/// Every vertex is a corner of at least one face.
pub open spec fn every_vertex_named(mesh: MeshView) -> bool {
    forall|v: int| 0 <= v < mesh.vertices.len() ==> #[trigger] named(mesh.faces, v)
}

proof fn lemma_unique_count(vertices: Seq<Vertex>, p: Vertex)
    requires
        positions_unique(vertices),
    ensures
        coincident_count(vertices, p) <= 1,
        coincident_count(vertices, p) == 1 ==> exists|j: int|
            0 <= j < vertices.len() && (#[trigger] vertices[j]).coincides(p),
    decreases vertices.len(),
{
    if vertices.len() > 0 {
        let rest = vertices.drop_last();
        assert forall|i: int, j: int| 0 <= i < j < rest.len() implies !(#[trigger] rest[i]).coincides(
            #[trigger] rest[j],
        ) by {
            assert(rest[i] == vertices[i] && rest[j] == vertices[j]);
        }
        lemma_unique_count(rest, p);
        if coincident_count(rest, p) == 1 {
            let j = choose|j: int| 0 <= j < rest.len() && (#[trigger] rest[j]).coincides(p);
            assert(vertices[j].coincides(p));
            assert(vertices.last().coincides(p) ==> vertices[j].coincides(vertices[vertices.len() - 1]));
        } else if vertices.last().coincides(p) {
            assert(vertices[vertices.len() - 1].coincides(p));
        }
    }
}

/// A mesh in which no two vertices coincide is never reported non-manifold.
pub proof fn unique_positions_are_manifold(mesh: MeshView)
    requires
        positions_unique(mesh.vertices),
    ensures
        !non_manifold(mesh.vertices),
        report_of(mesh) != TopologyReport::NonManifold,
{
    assert forall|i: int| 0 <= i < mesh.vertices.len() implies coincident_count(
        mesh.vertices,
        #[trigger] mesh.vertices[i],
    ) <= 2 by {
        lemma_unique_count(mesh.vertices, mesh.vertices[i]);
    }
}

/// A mesh in which every vertex is a corner of some face is never reported
/// to have holes.
pub proof fn named_vertices_leave_no_holes(mesh: MeshView)
    requires
        every_vertex_named(mesh),
    ensures
        !has_holes(mesh),
        report_of(mesh) != TopologyReport::HasHoles,
{
    if all_triangles(mesh.faces) {
        assert forall|v: int| 0 <= v < mesh.vertices.len() implies #[trigger] referenced(mesh.faces, v) by {
            assert(named(mesh.faces, v));
            let f = choose|f: int| 0 <= f < mesh.faces.len() && (#[trigger] mesh.faces[f]).names(v);
            assert(mesh.faces[f].triangle_on(v));
        }
    }
}

} // verus!
