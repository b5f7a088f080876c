//! Reading meshes out of Wavefront `.obj` text.
//!
//! The text is parsed by the `wavefront_obj` crate. What it returns is opaque
//! to the proofs: a handful of accessors with assumed contracts read it, and
//! verified code builds the meshes from what they return. A text with a dash
//! in a face or line statement is refused here and never reaches the parser.

use crate::mesh::{Face, Mesh, MeshError, MeshView, Vertex};
use crate::statements::{find_dashed_statement, first_dashed_line, has_dashed_statement};
use vstd::prelude::*;
use vstd::string::*;

verus! {

#[verifier::external_type_specification]
#[verifier::external_body]
pub struct ExObjSet(wavefront_obj::obj::ObjSet);

#[verifier::external_type_specification]
#[verifier::external_body]
pub struct ExParseError(wavefront_obj::ParseError);

/// What an object set holds: for each object, in order, its vertex
/// positions as triples of binary64 bit patterns, and its geometries, each a
/// list of shapes, each shape the list of its corner vertex indices (one for
/// a point, two for a line, three for a triangle).
pub uninterp spec fn objects_in(set: wavefront_obj::obj::ObjSet) -> Seq<(Seq<(u64, u64, u64)>, Seq<Seq<Seq<usize>>>)>;

/// What `wavefront_obj::obj::parse` makes of a text.
pub uninterp spec fn parsed(text: Seq<char>) -> Result<wavefront_obj::obj::ObjSet, wavefront_obj::ParseError>;

/// What a parse error holds: its line number and its message.
pub uninterp spec fn error_report(error: wavefront_obj::ParseError) -> (nat, Seq<char>);

/// Calls `wavefront_obj::obj::parse`. Assumed: the parser is a function of
/// the text alone, and returns on every text that it is given here. Nothing
/// is assumed of what it makes of any given text.
///
/// The parser subtracts a negative vertex index from a bound without a check
/// for overflow, and reads such indices only in the words after `f` or `l`.
/// Texts with a dash in such a word are left out.
#[verifier::external_body]
fn parse_text(text: &str) -> (r: Result<wavefront_obj::obj::ObjSet, wavefront_obj::ParseError>)
    requires
        !has_dashed_statement(text.spec_bytes()),
    ensures
        r == parsed(text@),
{
    wavefront_obj::obj::parse(text)
}

/// Reads `ParseError::line_number` and a copy of `ParseError::message`.
#[verifier::external_body]
fn report_of_error(error: &wavefront_obj::ParseError) -> (r: (usize, String))
    ensures
        (r.0 as nat, r.1@) == error_report(*error),
{
    (error.line_number, error.message.clone())
}

/// Reads the length of `ObjSet::objects`.
#[verifier::external_body]
fn object_count(set: &wavefront_obj::obj::ObjSet) -> (n: usize)
    ensures
        n == objects_in(*set).len(),
{
    set.objects.len()
}

/// Reads the length of `Object::vertices`.
#[verifier::external_body]
fn vertex_count(set: &wavefront_obj::obj::ObjSet, object: usize) -> (n: usize)
    requires
        object < objects_in(*set).len(),
    ensures
        n == objects_in(*set)[object as int].0.len(),
{
    set.objects[object].vertices.len()
}

/// Reads one element of `Object::vertices` and hands out the bits of its
/// three components.
#[verifier::external_body]
fn vertex_at(set: &wavefront_obj::obj::ObjSet, object: usize, index: usize) -> (v: Vertex)
    requires
        object < objects_in(*set).len(),
        index < objects_in(*set)[object as int].0.len(),
    ensures
        (v.x, v.y, v.z) == objects_in(*set)[object as int].0[index as int],
{
    let p = &set.objects[object].vertices[index];
    Vertex { x: p.x.to_bits(), y: p.y.to_bits(), z: p.z.to_bits() }
}

/// Reads the length of `Object::geometry`.
#[verifier::external_body]
fn geometry_count(set: &wavefront_obj::obj::ObjSet, object: usize) -> (n: usize)
    requires
        object < objects_in(*set).len(),
    ensures
        n == objects_in(*set)[object as int].1.len(),
{
    set.objects[object].geometry.len()
}

/// Reads the length of `Geometry::shapes`.
#[verifier::external_body]
fn shape_count(set: &wavefront_obj::obj::ObjSet, object: usize, geometry: usize) -> (n: usize)
    requires
        object < objects_in(*set).len(),
        geometry < objects_in(*set)[object as int].1.len(),
    ensures
        n == objects_in(*set)[object as int].1[geometry as int].len(),
{
    set.objects[object].geometry[geometry].shapes.len()
}

/// Reads the primitive of one element of `Geometry::shapes` and hands out
/// its vertex indices; texture and normal indices are left behind.
#[verifier::external_body]
fn shape_at(set: &wavefront_obj::obj::ObjSet, object: usize, geometry: usize, index: usize) -> (f: Face)
    requires
        object < objects_in(*set).len(),
        geometry < objects_in(*set)[object as int].1.len(),
        index < objects_in(*set)[object as int].1[geometry as int].len(),
    ensures
        f.corners() == objects_in(*set)[object as int].1[geometry as int][index as int],
{
    match set.objects[object].geometry[geometry].shapes[index].primitive {
        wavefront_obj::obj::Primitive::Point(a) => Face::Point(a.0),
        wavefront_obj::obj::Primitive::Line(a, b) => Face::Line(a.0, b.0),
        wavefront_obj::obj::Primitive::Triangle(a, b, c) => Face::Triangle(a.0, b.0, c.0),
    }
}

/// Why a text or an object set yields no meshes.
#[derive(Clone, Debug, PartialEq, Eq)]
pub enum LoadError {
    /// The text is not in the format: the line, counted from 1, and what is
    /// wrong with it.
    Parse { line: usize, message: String },
    /// In the object at the first position, the face at the second names a
    /// vertex that the object does not hold.
    FaceIndexOutOfBounds(usize, usize),
}

/// The face with the given corners.
pub open spec fn face_with(corners: Seq<usize>) -> Face {
    if corners.len() == 1 {
        Face::Point(corners[0])
    } else if corners.len() == 2 {
        Face::Line(corners[0], corners[1])
    } else {
        Face::Triangle(corners[0], corners[1], corners[2])
    }
}

/// The shapes of one geometry as faces.
pub open spec fn faces_of_shapes(shapes: Seq<Seq<usize>>) -> Seq<Face> {
    Seq::new(shapes.len(), |i: int| face_with(shapes[i]))
}

/// The shapes of all the geometries as faces, geometry after geometry.
pub open spec fn faces_of_geometries(geometries: Seq<Seq<Seq<usize>>>) -> Seq<Face>
    decreases geometries.len(),
{
    if geometries.len() == 0 {
        Seq::empty()
    } else {
        faces_of_geometries(geometries.drop_last()) + faces_of_shapes(geometries.last())
    }
}

/// The vertices of the object at `object`.
pub open spec fn vertices_of(set: wavefront_obj::obj::ObjSet, object: int) -> Seq<Vertex> {
    let positions = objects_in(set)[object].0;
    Seq::new(positions.len(), |i: int| Vertex { x: positions[i].0, y: positions[i].1, z: positions[i].2 })
}

/// The faces of the object at `object`: the shapes of all its geometries, in order.
pub open spec fn faces_of(set: wavefront_obj::obj::ObjSet, object: int) -> Seq<Face> {
    faces_of_geometries(objects_in(set)[object].1)
}

/// What the object at `object` holds as a mesh, if it is one.
pub open spec fn object_view(set: wavefront_obj::obj::ObjSet, object: int) -> MeshView {
    MeshView { vertices: vertices_of(set, object), faces: faces_of(set, object) }
}

/// The faces of the object at `object` stay within its vertices.
pub open spec fn loadable(set: wavefront_obj::obj::ObjSet, object: int) -> bool {
    object_view(set, object).well_formed()
}

/// `error` is the reason for which the object at `object` is no mesh.
pub open spec fn fails_with(set: wavefront_obj::obj::ObjSet, object: int, error: LoadError) -> bool {
    match error {
        LoadError::Parse { .. } => false,
        LoadError::FaceIndexOutOfBounds(o, f) => {
            &&& o == object
            &&& object_view(set, object).first_stray_face(f as int)
        },
    }
}

/// `outcome` is what loading every object of `set` in order comes to: all of
/// them as meshes, or the failure of the first that is none.
pub open spec fn loads_as(set: wavefront_obj::obj::ObjSet, outcome: Result<Vec<Mesh>, LoadError>) -> bool {
    match outcome {
        Ok(meshes) => {
            &&& meshes@.len() == objects_in(set).len()
            &&& forall|o: int| 0 <= o < meshes@.len() ==> #[trigger] loadable(set, o)
            &&& forall|o: int| 0 <= o < meshes@.len() ==> (#[trigger] meshes@[o])@ == object_view(set, o)
        },
        Err(error) => exists|o: int|
            {
                &&& 0 <= o < objects_in(set).len()
                &&& #[trigger] fails_with(set, o, error)
                &&& forall|k: int| 0 <= k < o ==> #[trigger] loadable(set, k)
            },
    }
}

/// Builds the mesh of one object of the set.
fn mesh_of_object(set: &wavefront_obj::obj::ObjSet, object: usize) -> (r: Result<Mesh, LoadError>)
    requires
        object < objects_in(*set).len(),
    ensures
        match r {
            Ok(mesh) => loadable(*set, object as int) && mesh@ == object_view(*set, object as int),
            Err(error) => fails_with(*set, object as int, error),
        },
{
    let mut vertices: Vec<Vertex> = Vec::new();
    let vertex_total = vertex_count(set, object);
    let mut i: usize = 0;
    while i < vertex_total
        invariant
            object < objects_in(*set).len(),
            vertex_total == objects_in(*set)[object as int].0.len(),
            i <= vertex_total,
            vertices@.len() == i,
            forall|k: int| 0 <= k < i ==> vertices@[k] == vertices_of(*set, object as int)[k],
        decreases vertex_total - i,
    {
        vertices.push(vertex_at(set, object, i));
        i += 1;
    }
    let ghost geometries = objects_in(*set)[object as int].1;
    let mut faces: Vec<Face> = Vec::new();
    let geometry_total = geometry_count(set, object);
    let mut g: usize = 0;
    while g < geometry_total
        invariant
            object < objects_in(*set).len(),
            geometries == objects_in(*set)[object as int].1,
            geometry_total == geometries.len(),
            g <= geometry_total,
            faces@ == faces_of_geometries(geometries.take(g as int)),
        decreases geometry_total - g,
    {
        let ghost done = faces@;
        let face_total = shape_count(set, object, g);
        let mut f: usize = 0;
        while f < face_total
            invariant
                object < objects_in(*set).len(),
                geometries == objects_in(*set)[object as int].1,
                g < geometries.len(),
                face_total == geometries[g as int].len(),
                f <= face_total,
                faces@ == done + faces_of_shapes(geometries[g as int]).take(f as int),
            decreases face_total - f,
        {
            let face = shape_at(set, object, g, f);
            proof {
                lemma_face_with_corners(face);
            }
            faces.push(face);
            f += 1;
        }
        proof {
            assert(faces_of_shapes(geometries[g as int]).take(f as int) == faces_of_shapes(geometries[g as int]));
            assert(geometries.take(g + 1).drop_last() == geometries.take(g as int));
        }
        g += 1;
    }
    assert(geometries.take(g as int) == geometries);
    assert(vertices@ == vertices_of(*set, object as int));
    match Mesh::new(vertices, faces) {
        Ok(mesh) => Ok(mesh),
        Err(MeshError::FaceIndexOutOfBounds(stray)) => Err(LoadError::FaceIndexOutOfBounds(object, stray)),
    }
}

proof fn lemma_face_with_corners(face: Face)
    ensures
        face_with(face.corners()) == face,
{
}

/// Builds the meshes of all objects of the set, in order, or reports the
/// first object that is no mesh.
pub fn meshes_of(set: &wavefront_obj::obj::ObjSet) -> (r: Result<Vec<Mesh>, LoadError>)
    ensures
        loads_as(*set, r),
{
    let total = object_count(set);
    let mut meshes: Vec<Mesh> = Vec::new();
    let mut o: usize = 0;
    while o < total
        invariant
            total == objects_in(*set).len(),
            o <= total,
            meshes@.len() == o,
            forall|k: int| 0 <= k < o ==> #[trigger] loadable(*set, k),
            forall|k: int| 0 <= k < o ==> (#[trigger] meshes@[k])@ == object_view(*set, k),
        decreases total - o,
    {
        match mesh_of_object(set, o) {
            Ok(mesh) => {
                meshes.push(mesh);
            },
            Err(error) => {
                return Err(error);
            },
        }
        o += 1;
    }
    Ok(meshes)
}

/// The text has no dash in a face or line statement, and the parser reads it.
pub open spec fn parses(text: Seq<char>) -> bool {
    !has_dashed_statement(vstd::utf8::encode_utf8(text)) && parsed(text) is Ok
}

/// `error` says where and why `text` is not in the format: the first face or
/// line statement with a dash, or else what the parser reported.
pub open spec fn parse_failure(text: Seq<char>, error: LoadError) -> bool {
    &&& error matches LoadError::Parse { line, message }
    &&& if has_dashed_statement(vstd::utf8::encode_utf8(text)) {
        first_dashed_line(vstd::utf8::encode_utf8(text), line as int) && message@ == "Negative vertex index."@
    } else {
        parsed(text) matches Err(reported) && (line as nat, message@) == error_report(reported)
    }
}

/// Parses `.obj` text into the parser's own object set.
pub fn parse_objects(text: &str) -> (r: Result<wavefront_obj::obj::ObjSet, LoadError>)
    ensures
        match r {
            Ok(set) => parses(text@) && parsed(text@) == Ok::<
                wavefront_obj::obj::ObjSet,
                wavefront_obj::ParseError,
            >(set),
            Err(error) => !parses(text@) && parse_failure(text@, error),
        },
{
    match find_dashed_statement(text.as_bytes()) {
        Some(line) => Err(LoadError::Parse { line, message: String::from_str("Negative vertex index.") }),
        None => match parse_text(text) {
            Ok(set) => Ok(set),
            Err(reported) => {
                let (line, message) = report_of_error(&reported);
                Err(LoadError::Parse { line, message })
            },
        },
    }
}

/// What loading `text` comes to: the meshes of what the parser makes of it,
/// or the reason for which it is not in the format.
pub open spec fn load_outcome(text: Seq<char>, outcome: Result<Vec<Mesh>, LoadError>) -> bool {
    if parses(text) {
        loads_as(parsed(text)->Ok_0, outcome)
    } else {
        outcome matches Err(error) && parse_failure(text, error)
    }
}

/// Parses `.obj` text and builds the mesh of every object in it.
pub fn load_meshes(text: &str) -> (r: Result<Vec<Mesh>, LoadError>)
    ensures
        load_outcome(text@, r),
{
    match parse_objects(text) {
        Ok(set) => meshes_of(&set),
        Err(error) => Err(error),
    }
}

} // verus!
