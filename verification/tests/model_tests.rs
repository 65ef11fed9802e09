use sbf_engine::model::factory::{
    Model, StaticVertex, FLOAT_MINUS_ONE_BITS, FLOAT_ONE_BITS, VERTEX_FLOAT_COUNT, VERTEX_SIZE_BYTES,
};
use sbf_engine::model::types::Model as GenericModel;

fn vertex(seed: u32) -> StaticVertex {
    StaticVertex::from_components(
        seed,
        seed + 1,
        seed + 2,
        seed + 3,
        seed + 4,
        seed + 5,
        seed + 6,
        seed + 7,
    )
}

#[test]
fn float_constants_are_the_bit_patterns() {
    assert_eq!(FLOAT_ONE_BITS, 1.0f32.to_bits());
    assert_eq!(FLOAT_MINUS_ONE_BITS, (-1.0f32).to_bits());
    assert_eq!(VERTEX_SIZE_BYTES, 32);
    assert_eq!(VERTEX_FLOAT_COUNT, 8);
}

#[test]
fn default_vertex_points_along_positive_z() {
    let v = StaticVertex::default();
    assert_eq!(f32::from_bits(v.nz), 1.0);
    assert_eq!(v.x, 0);
    assert_eq!(v.nx, 0);
    assert_eq!(v.u, 0);
}

#[test]
fn from_components_keeps_the_order() {
    let v = vertex(10);
    assert_eq!((v.x, v.y, v.z, v.nx, v.ny, v.nz, v.u, v.v), (10, 11, 12, 13, 14, 15, 16, 17));
}

#[test]
fn writes_the_documented_layout() {
    let m = Model::new_from_components(String::from("ab"), vec![vertex(0x0403_0201)]);
    let bytes = m.to_bytes();
    let mut expected = vec![2, 0, 0, 0, b'a', b'b', 1, 0, 0, 0];
    for k in 0..8u32 {
        expected.extend_from_slice(&(0x0403_0201u32 + k).to_le_bytes());
    }
    assert_eq!(bytes, expected);
    assert_eq!(bytes.len(), 4 + 2 + 4 + 32);
}

#[test]
fn read_back_gives_the_model() {
    let m = Model::new_from_components(String::from("Grimace"), vec![vertex(1), vertex(100), vertex(7)]);
    let back = Model::new_from_bytes(&m.to_bytes()).unwrap();
    assert_eq!(back.name, "Grimace");
    assert_eq!(back.vertices, m.vertices);
}

#[test]
fn read_back_ignores_trailing_bytes_and_keeps_utf8_names() {
    let m = Model::new_from_components(String::from("Échelle"), vec![vertex(3)]);
    let mut bytes = m.to_bytes();
    bytes.extend_from_slice(&[9, 9, 9]);
    let back = Model::new_from_bytes(&bytes).unwrap();
    assert_eq!(back.name, "Échelle");
    assert_eq!(back.vertices, vec![vertex(3)]);
}

#[test]
fn empty_model_round_trips() {
    let m = Model::new_from_components(String::new(), vec![]);
    assert_eq!(m.to_bytes(), vec![0u8; 8]);
    let back = Model::new_from_bytes(&m.to_bytes()).unwrap();
    assert_eq!(back.name, "");
    assert!(back.vertices.is_empty());
}

#[test]
fn truncated_data_is_rejected() {
    let m = Model::new_from_components(String::from("x"), vec![vertex(1), vertex(2)]);
    let bytes = m.to_bytes();
    for cut in [0, 3, 4, 5, 8, bytes.len() - 1] {
        assert!(Model::new_from_bytes(&bytes[..cut]).is_err(), "cut at {}", cut);
    }
    assert!(Model::new_from_bytes(&bytes).is_ok());
}

#[test]
fn invalid_utf8_name_is_rejected() {
    let bytes = vec![1, 0, 0, 0, 0xff, 0, 0, 0, 0];
    assert!(Model::new_from_bytes(&bytes).is_err());
}

#[test]
fn stated_lengths_beyond_the_data_are_rejected() {
    let bytes = vec![0, 0, 0, 0, 5, 0, 0, 0];
    assert!(Model::new_from_bytes(&bytes).is_err());
    let huge = vec![0xff, 0xff, 0xff, 0xff, 0, 0, 0, 0];
    assert!(Model::new_from_bytes(&huge).is_err());
}

#[test]
fn merge_concatenates_in_order() {
    let a = GenericModel::new_from_components(String::from("a"), vec![1, 2]);
    let b = GenericModel::new_from_components(String::from("b"), vec![]);
    let c = GenericModel::new_from_components(String::from("c"), vec![3]);
    let merged = GenericModel::merge(&String::from("all"), vec![a, b, c]);
    assert_eq!(merged.name, "all");
    assert_eq!(merged.vertices, vec![1, 2, 3]);
}

#[test]
fn merge_of_nothing_is_empty() {
    let merged: GenericModel<u8> = GenericModel::merge(&String::from("none"), vec![]);
    assert_eq!(merged.name, "none");
    assert!(merged.vertices.is_empty());
}
