use sbf_engine::collada::{
    assemble_vertex_data, Accessor, ColladaError, Config, FloatArray, Geometry, GeometryLibrary,
    Input, Instance, IntegerArray, Matrix, Mesh, Node, Param, Source, TechniqueCommon, Triangles,
    Vertices, VisualScene, VisualScenesLibrary, COLLADA,
};
use sbf_engine::model::factory::StaticVertex;

fn s(x: &str) -> String {
    String::from(x)
}

fn input(semantic: &str, source: &str) -> Input {
    Input { semantic: s(semantic), source: s(source), offset: 0 }
}

fn source(id: &str, params: usize, values: &str) -> Source {
    Source {
        id: s(id),
        technique_common: TechniqueCommon {
            accessor: Accessor {
                source: format!("#{}-array", id),
                count: 0,
                stride: params as i32,
                params: (0..params).map(|i| Param { name: format!("P{}", i), param_type: s("float") }).collect(),
            },
        },
        float_data: FloatArray { id: format!("{}-array", id), count: 0, values: s(values) },
    }
}

fn mesh() -> Mesh {
    Mesh {
        vertices: Vertices { id: s("cube-vertices"), input: input("POSITION", "#cube-positions") },
        triangles: Triangles {
            count: 1,
            inputs: vec![
                input("VERTEX", "#cube-vertices"),
                input("NORMAL", "#cube-normals"),
                input("TEXCOORD", "#cube-map"),
            ],
            polygons: IntegerArray { values: s("0 0 0 1 0 1 2 0 2") },
        },
        sources: vec![
            source("cube-positions", 3, "1 2 3 4 5 6 7 8 9"),
            source("cube-normals", 3, "0 0 1"),
            source("cube-map", 2, "0 0 1 0 1 1"),
        ],
    }
}

fn toks(v: Vec<Vec<char>>) -> Vec<String> {
    v.into_iter().map(|t| t.into_iter().collect()).collect()
}

fn node(id: &str, geometry_url: Option<&str>, matrix: &str) -> Node {
    Node {
        id: s(id),
        name: s(id),
        node_type: s("NODE"),
        matrix: Matrix { sid: s("transform"), values: s(matrix) },
        instance_geometry: geometry_url.map(|u| Instance { url: s(u) }),
        instance_camera: None,
        instance_light: None,
    }
}

fn document(nodes: Vec<Node>) -> COLLADA {
    COLLADA {
        library_geometries: GeometryLibrary {
            items: vec![Geometry { id: s("cube-mesh"), name: s("Cube"), mesh: mesh() }],
        },
        library_visual_scenes: VisualScenesLibrary {
            visual_scene: VisualScene { id: s("Scene"), name: s("Scene"), nodes },
        },
    }
}

#[test]
fn decodes_triangle_indices() {
    assert_eq!(mesh().decode_triangle_indices(), Ok(vec![0, 0, 0, 1, 0, 1, 2, 0, 2]));
}

#[test]
fn bad_triangle_indices_are_reported() {
    let mut m = mesh();
    m.triangles.polygons.values = s("0 0 x");
    assert_eq!(m.decode_triangle_indices(), Err(ColladaError::TriangleIndicesNotIntegers));
    m.triangles.polygons.values = s("");
    assert_eq!(m.decode_triangle_indices(), Err(ColladaError::TriangleIndicesNotIntegers));
    assert_eq!(
        ColladaError::TriangleIndicesNotIntegers.message(),
        "Failed to parse integer array for triangles"
    );
}

#[test]
fn finds_position_normal_and_tex_coord_tokens() {
    let m = mesh();
    assert_eq!(toks(m.position_tokens().unwrap()), vec!["1", "2", "3", "4", "5", "6", "7", "8", "9"]);
    assert_eq!(toks(m.normal_tokens().unwrap()), vec!["0", "0", "1"]);
    assert_eq!(toks(m.tex_coord_tokens().unwrap()), vec!["0", "0", "1", "0", "1", "1"]);
}

#[test]
fn first_matching_input_is_used() {
    let mut m = mesh();
    m.sources.push(source("other-normals", 3, "9 9 9"));
    m.triangles.inputs.push(input("NORMAL", "#other-normals"));
    assert_eq!(toks(m.normal_tokens().unwrap()), vec!["0", "0", "1"]);
}

#[test]
fn missing_inputs_are_reported() {
    let mut m = mesh();
    m.triangles.inputs.clear();
    assert_eq!(m.position_tokens().unwrap_err(), ColladaError::NoVertexInput);
    assert_eq!(m.normal_tokens().unwrap_err(), ColladaError::NoNormalInput);
    assert_eq!(m.tex_coord_tokens().unwrap_err(), ColladaError::NoTexCoordInput);
    assert_eq!(ColladaError::NoVertexInput.message(), "No VERTEX input found for triangles");
}

#[test]
fn vertices_mismatch_and_semantic_are_checked() {
    let mut m = mesh();
    m.vertices.id = s("something-else");
    assert_eq!(m.position_tokens().unwrap_err(), ColladaError::VerticesIdMismatch);
    let mut m = mesh();
    m.vertices.input.semantic = s("NORMAL");
    assert_eq!(m.position_tokens().unwrap_err(), ColladaError::VerticesInputNotPosition);
    assert_eq!(
        ColladaError::VerticesIdMismatch.message(),
        "Mesh vertices id does not match triangles vertex input source"
    );
}

#[test]
fn missing_sources_and_wrong_params_are_reported() {
    let mut m = mesh();
    m.sources.clear();
    assert_eq!(m.position_tokens().unwrap_err(), ColladaError::PositionSourceNotFound);
    assert_eq!(m.normal_tokens().unwrap_err(), ColladaError::NormalSourceNotFound);
    assert_eq!(m.tex_coord_tokens().unwrap_err(), ColladaError::TexCoordSourceNotFound);
    let mut m = mesh();
    m.sources = vec![
        source("cube-positions", 2, "1 2"),
        source("cube-normals", 2, "1 2"),
        source("cube-map", 3, "1 2 3"),
    ];
    assert_eq!(m.position_tokens().unwrap_err(), ColladaError::PositionParamCount);
    assert_eq!(m.normal_tokens().unwrap_err(), ColladaError::NormalParamCount);
    assert_eq!(m.tex_coord_tokens().unwrap_err(), ColladaError::TexCoordParamCount);
    assert_eq!(ColladaError::TexCoordParamCount.message(), "Tex coord source does not have 2 parameters");
}

#[test]
fn malformed_references_are_reported() {
    let mut m = mesh();
    m.triangles.inputs[1].source = s("");
    assert_eq!(m.normal_tokens().unwrap_err(), ColladaError::MalformedReference);
    m.triangles.inputs[1].source = s("écube-normals");
    assert_eq!(m.normal_tokens().unwrap_err(), ColladaError::MalformedReference);
}

#[test]
fn assembles_vertices_from_index_triples() {
    let positions: Vec<u32> = vec![1, 2, 3, 4, 5, 6, 7, 8, 9];
    let normals: Vec<u32> = vec![0, 0, 1, 0, 1, 0];
    let tex: Vec<u32> = vec![10, 11, 12, 13];
    let indices = vec![0, 1, 1, 2, 0, 0];
    let vs = assemble_vertex_data(&indices, &positions, &normals, &tex).unwrap();
    assert_eq!(
        vs,
        vec![
            StaticVertex::from_components(1, 2, 3, 0, 1, 0, 12, 13),
            StaticVertex::from_components(7, 8, 9, 0, 0, 1, 10, 11),
        ]
    );
}

#[test]
fn out_of_range_indices_are_reported() {
    let positions: Vec<u32> = vec![1, 2, 3];
    let normals: Vec<u32> = vec![0, 0, 1];
    let tex: Vec<u32> = vec![0, 0];
    assert_eq!(
        assemble_vertex_data(&vec![1, 0, 0], &positions, &normals, &tex),
        Err(ColladaError::VertexIndexOutOfRange)
    );
    assert_eq!(
        assemble_vertex_data(&vec![0, 0], &positions, &normals, &tex),
        Err(ColladaError::VertexIndexOutOfRange)
    );
    assert_eq!(
        assemble_vertex_data(&vec![0, 0, usize::MAX], &positions, &normals, &tex),
        Err(ColladaError::VertexIndexOutOfRange)
    );
    assert_eq!(assemble_vertex_data(&vec![], &positions, &normals, &tex), Ok(vec![]));
}

#[test]
fn finds_the_transform_of_the_first_instantiating_node() {
    let doc = document(vec![
        node("Camera", None, "0"),
        node("Other", Some("#other-mesh"), "2"),
        node("Cube", Some("#cube-mesh"), "1 0 0 5"),
        node("Cube2", Some("#cube-mesh"), "9"),
    ]);
    let m = doc.find_transform_for(&s("cube-mesh")).unwrap().unwrap();
    assert_eq!(m.values, "1 0 0 5");
    assert!(doc.find_transform_for(&s("missing")).unwrap().is_none());
}

#[test]
fn malformed_instance_url_before_the_match_is_reported() {
    let doc = document(vec![node("Bad", Some(""), "0"), node("Cube", Some("#cube-mesh"), "1")]);
    assert!(matches!(doc.find_transform_for(&s("cube-mesh")), Err(ColladaError::MalformedReference)));
    let doc = document(vec![node("Cube", Some("#cube-mesh"), "1"), node("Bad", Some(""), "0")]);
    assert_eq!(doc.find_transform_for(&s("cube-mesh")).unwrap().unwrap().values, "1");
}

#[test]
fn matrix_tokens_are_row_major_elements() {
    let m = Matrix { sid: s("transform"), values: s("1 0 0 5 0 1 0 6") };
    assert_eq!(toks(m.element_tokens()), vec!["1", "0", "0", "5", "0", "1", "0", "6"]);
}

#[test]
fn default_config_has_no_merges() {
    assert!(Config::default().merges.is_empty());
}
