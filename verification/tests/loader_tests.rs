use ring_resizer::loader::{load_meshes, meshes_of, parse_objects, LoadError};
use ring_resizer::mesh::{Face, Vertex};
use ring_resizer::topology::{check_holes, validate, TopologyReport};
use wavefront_obj::obj::{Geometry, ObjSet, Object, Primitive, Shape};

fn at(x: f64, y: f64, z: f64) -> Vertex {
    Vertex::new(x.to_bits(), y.to_bits(), z.to_bits())
}

fn outside_vertex(x: f64, y: f64, z: f64) -> wavefront_obj::obj::Vertex {
    wavefront_obj::obj::Vertex { x, y, z }
}

fn shape(primitive: Primitive) -> Shape {
    Shape { primitive, groups: Vec::new(), smoothing_groups: Vec::new() }
}

fn object(vertices: Vec<wavefront_obj::obj::Vertex>, geometry: Vec<Vec<Primitive>>) -> Object {
    Object {
        name: String::from("o"),
        vertices,
        tex_vertices: Vec::new(),
        normals: Vec::new(),
        geometry: geometry
            .into_iter()
            .map(|shapes| Geometry { material_name: None, shapes: shapes.into_iter().map(shape).collect() })
            .collect(),
    }
}

fn corner(v: usize) -> (usize, Option<usize>, Option<usize>) {
    (v, Some(7), Some(9))
}

const TRIANGLE: &str = "o tri\nv 1.5 0 0\nv 0 -2.25 0\nv 0 0 3\nf 1 2 3\n";

#[test]
fn a_triangle_is_loaded_as_it_is_written() {
    let meshes = load_meshes(TRIANGLE).unwrap();
    assert_eq!(meshes.len(), 1);
    assert_eq!(meshes[0].vertices(), &vec![at(1.5, 0.0, 0.0), at(0.0, -2.25, 0.0), at(0.0, 0.0, 3.0)]);
    assert_eq!(meshes[0].faces(), &vec![Face::Triangle(2, 0, 1)]);
}

#[test]
fn a_quad_is_loaded_as_two_triangles() {
    let text = "o quad\nv 0 0 0\nv 1 0 0\nv 1 1 0\nv 0 1 0\nf 1 2 3 4\n";
    let meshes = load_meshes(text).unwrap();
    assert_eq!(meshes[0].vertices().len(), 4);
    assert_eq!(meshes[0].faces(), &vec![Face::Triangle(3, 0, 1), Face::Triangle(3, 1, 2)]);
}

#[test]
fn lines_and_points_are_kept_as_such() {
    let text = "o wire\nv 0 0 0\nv 1 0 0\nl 1 2\nl 2\n";
    let meshes = load_meshes(text).unwrap();
    assert_eq!(meshes[0].faces(), &vec![Face::Line(0, 1), Face::Point(1)]);
}

#[test]
fn every_object_is_loaded_with_its_own_indices() {
    let text = "o a\nv 0 0 0\nv 1 0 0\nv 0 1 0\nf 1 2 3\no b\nv 5 5 5\nv 6 5 5\nv 5 6 5\nf 4 5 6\n";
    let meshes = load_meshes(text).unwrap();
    assert_eq!(meshes.len(), 2);
    assert_eq!(meshes[0].vertices()[1], at(1.0, 0.0, 0.0));
    assert_eq!(meshes[1].vertices()[1], at(6.0, 5.0, 5.0));
    assert_eq!(meshes[0].faces(), &vec![Face::Triangle(2, 0, 1)]);
    assert_eq!(meshes[1].faces(), &vec![Face::Triangle(2, 0, 1)]);
}

#[test]
fn empty_text_holds_no_objects() {
    let meshes = load_meshes("").unwrap();
    assert!(meshes.is_empty());
}

fn parser_report(text: &str) -> LoadError {
    let reported = wavefront_obj::obj::parse(text).unwrap_err();
    LoadError::Parse { line: reported.line_number, message: reported.message }
}

fn negative_index(line: usize) -> LoadError {
    LoadError::Parse { line, message: String::from("Negative vertex index.") }
}

#[test]
fn text_out_of_format_is_a_parse_error() {
    for text in ["o tri\nv 1 2\n", "o tri\nv 0 0 0\nf 1 2 3\n", "o tri\nv 0 0 0\nf 1/2/3/4\n", "mtllib\n"] {
        let error = load_meshes(text).unwrap_err();
        assert_eq!(error, parser_report(text));
        assert_eq!(parse_objects(text).unwrap_err(), error);
    }
}

#[test]
fn a_parse_error_names_its_line() {
    match load_meshes("o tri\nv 0 0 0\nv 1 0 0\nf 1 2 3\n").unwrap_err() {
        LoadError::Parse { line, message } => {
            assert_eq!(line, 4);
            assert!(!message.is_empty());
        }
        other => panic!("{:?}", other),
    }
}

#[test]
fn an_index_below_every_bound_is_refused_unparsed() {
    let text = "f -9223372036854775808";
    assert_eq!(load_meshes(text).unwrap_err(), negative_index(1));
    assert_eq!(parse_objects(text).unwrap_err(), negative_index(1));
    let text = "o tri\nv 0 0 0\nv 1 0 0\nv 0 1 0\nf 1 2 -9223372036854775807\n";
    assert_eq!(load_meshes(text).unwrap_err(), negative_index(5));
}

#[test]
fn a_dash_in_a_face_or_line_statement_is_refused() {
    let head = "o tri\nv 0 0 0\nv 1 0 0\nv 0 1 0\n";
    for tail in ["f 1 2 -1\n", "f -1 2 3\n", "l 1 -2\n", "f 1/-1 2 3\n", "f 1//-1 2 3\n", "\t f\t1 2 3-\n", "f\r-1\n"] {
        let text = format!("{}{}", head, tail);
        assert_eq!(load_meshes(&text).unwrap_err(), negative_index(5), "{:?}", tail);
    }
    let text = format!("{}f 1 2 3\n\n# note\nl 1 -1\n", head);
    assert_eq!(load_meshes(&text).unwrap_err(), negative_index(8));
}

#[test]
fn a_dash_elsewhere_is_left_to_the_parser() {
    let text = "# f -1\no a-b\nv -1 0 0\nv 1 -0.5 0\nv 0 1 -2e-3\ng f -1\nusemtl -m\nf 1 2 3 # -1\n";
    let meshes = load_meshes(text).unwrap();
    assert_eq!(meshes.len(), 1);
    assert_eq!(meshes[0].vertices()[0], at(-1.0, 0.0, 0.0));
    assert_eq!(meshes[0].vertices()[2], at(0.0, 1.0, -2e-3));
    assert_eq!(meshes[0].faces(), &vec![Face::Triangle(2, 0, 1)]);
    for text in ["fa -1\n", "o a\nv 0 0 0\nf-1 1 1\n", "v 0 0 0 f -1\n"] {
        assert_eq!(load_meshes(text).unwrap_err(), parser_report(text));
    }
}

#[test]
fn parse_objects_hands_out_what_the_parser_made() {
    let set = parse_objects(TRIANGLE).unwrap();
    assert_eq!(set, wavefront_obj::obj::parse(TRIANGLE).unwrap());
    assert_eq!(set.objects[0].name, "tri");
}

#[test]
fn an_object_without_faces_is_a_mesh_without_faces() {
    let meshes = load_meshes("o bare\nv 0 0 0\nv 1 0 0\n").unwrap();
    assert_eq!(meshes.len(), 1);
    assert_eq!(meshes[0].vertices().len(), 2);
    assert!(meshes[0].faces().is_empty());
    assert_eq!(validate(&meshes[0]), TopologyReport::HasHoles);
    let text = "o a\nv 0 0 0\nv 1 0 0\nv 0 1 0\nf 1 2 3\no bare\nv 0 0 0\n";
    let meshes = load_meshes(text).unwrap();
    assert_eq!(meshes.len(), 2);
    assert!(meshes[1].faces().is_empty());
}

#[test]
fn faces_come_from_every_geometry() {
    let text = "o two\nv 0 0 0\nv 1 0 0\nv 0 1 0\nv 0 0 1\nusemtl red\nf 1 2 3\nusemtl blue\nf 2 3 4\n";
    let parsed = wavefront_obj::obj::parse(text).unwrap();
    assert_eq!(parsed.objects[0].geometry.len(), 2);
    let meshes = load_meshes(text).unwrap();
    assert_eq!(meshes[0].faces(), &vec![Face::Triangle(2, 0, 1), Face::Triangle(3, 1, 2)]);
    assert!(!check_holes(&meshes[0]));
    assert_eq!(validate(&meshes[0]), TopologyReport::Valid);
}

#[test]
fn meshes_of_reads_positions_and_corners() {
    let set = ObjSet {
        material_library: None,
        objects: vec![object(
            vec![outside_vertex(1.0, 2.0, 3.0), outside_vertex(-0.0, f64::INFINITY, 1.0e-310)],
            vec![vec![
                Primitive::Triangle(corner(0), corner(1), corner(0)),
                Primitive::Line(corner(1), corner(0)),
                Primitive::Point(corner(1)),
            ]],
        )],
    };
    let meshes = meshes_of(&set).unwrap();
    assert_eq!(meshes.len(), 1);
    assert_eq!(meshes[0].vertices(), &vec![at(1.0, 2.0, 3.0), at(-0.0, f64::INFINITY, 1.0e-310)]);
    assert_eq!(meshes[0].faces(), &vec![Face::Triangle(0, 1, 0), Face::Line(1, 0), Face::Point(1)]);
}

#[test]
fn meshes_of_reports_the_first_stray_face() {
    let set = ObjSet {
        material_library: None,
        objects: vec![
            object(vec![outside_vertex(0.0, 0.0, 0.0)], vec![vec![Primitive::Point(corner(0))]]),
            object(
                vec![outside_vertex(0.0, 0.0, 0.0), outside_vertex(1.0, 0.0, 0.0)],
                vec![vec![
                    Primitive::Line(corner(0), corner(1)),
                    Primitive::Line(corner(0), corner(2)),
                    Primitive::Point(corner(5)),
                ]],
            ),
        ],
    };
    assert_eq!(meshes_of(&set).unwrap_err(), LoadError::FaceIndexOutOfBounds(1, 1));
}

#[test]
fn meshes_of_joins_the_geometries_in_order() {
    let set = ObjSet {
        material_library: None,
        objects: vec![
            object(vec![outside_vertex(0.0, 0.0, 0.0)], Vec::new()),
            object(
                vec![outside_vertex(0.0, 0.0, 0.0), outside_vertex(1.0, 0.0, 0.0), outside_vertex(0.0, 1.0, 0.0)],
                vec![
                    vec![Primitive::Point(corner(0)), Primitive::Line(corner(0), corner(1))],
                    Vec::new(),
                    vec![Primitive::Triangle(corner(0), corner(1), corner(2))],
                    vec![Primitive::Point(corner(2))],
                ],
            ),
        ],
    };
    let meshes = meshes_of(&set).unwrap();
    assert_eq!(meshes.len(), 2);
    assert!(meshes[0].faces().is_empty());
    assert_eq!(
        meshes[1].faces(),
        &vec![Face::Point(0), Face::Line(0, 1), Face::Triangle(0, 1, 2), Face::Point(2)]
    );
}

#[test]
fn a_stray_face_is_counted_over_all_geometries() {
    let set = ObjSet {
        material_library: None,
        objects: vec![object(
            vec![outside_vertex(0.0, 0.0, 0.0), outside_vertex(1.0, 0.0, 0.0)],
            vec![
                vec![Primitive::Line(corner(0), corner(1)), Primitive::Point(corner(1))],
                vec![Primitive::Point(corner(0)), Primitive::Point(corner(2))],
            ],
        )],
    };
    assert_eq!(meshes_of(&set).unwrap_err(), LoadError::FaceIndexOutOfBounds(0, 3));
}

#[test]
fn a_geometry_without_shapes_gives_a_mesh_without_faces() {
    let set = ObjSet {
        material_library: None,
        objects: vec![object(vec![outside_vertex(0.0, 0.0, 0.0)], vec![Vec::new()])],
    };
    let meshes = meshes_of(&set).unwrap();
    assert_eq!(meshes[0].vertices().len(), 1);
    assert!(meshes[0].faces().is_empty());
}
