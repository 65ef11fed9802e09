//! COLLADA document contents and their decoding: triangle index lists,
//! source lookups through `#`-references, vertex assembly and scene-node
//! transforms.
//!
//! Floating-point arrays are handed out as their space-separated tokens;
//! vertex assembly works on the 32-bit patterns of the parsed values.

use vstd::prelude::*;
use crate::model::factory::StaticVertex;
use crate::text::{
    chars_equal, chars_of, parse_usize_list, parse_usize_list_exec, split_spaces,
    split_spaces_exec,
};

verus! {

/// Conversion settings read alongside a COLLADA file.
pub struct Config {
    pub merges: Vec<Merge>,
}

/// A request to merge several geometries into one model under a new name.
pub struct Merge {
    pub name: String,
    pub geometries: Vec<String>,
}

impl Default for Config {
    /// No merges.
    fn default() -> (r: Self)
        ensures
            r.merges@.len() == 0,
    {
        Config { merges: Vec::new() }
    }
}

/// The parts of a COLLADA document that model extraction reads.
pub struct COLLADA {
    pub library_geometries: GeometryLibrary,
    pub library_visual_scenes: VisualScenesLibrary,
}

pub struct GeometryLibrary {
    pub items: Vec<Geometry>,
}

pub struct Geometry {
    pub id: String,
    pub name: String,
    pub mesh: Mesh,
}

pub struct Mesh {
    pub vertices: Vertices,
    pub triangles: Triangles,
    pub sources: Vec<Source>,
}

pub struct Vertices {
    pub id: String,
    pub input: Input,
}

pub struct Input {
    pub semantic: String,
    pub source: String,
    pub offset: i32,
}

pub struct Triangles {
    pub count: i32,
    pub inputs: Vec<Input>,
    pub polygons: IntegerArray,
}

pub struct IntegerArray {
    pub values: String,
}

pub struct Source {
    pub id: String,
    pub technique_common: TechniqueCommon,
    pub float_data: FloatArray,
}

pub struct FloatArray {
    pub id: String,
    pub count: i32,
    pub values: String,
}

pub struct TechniqueCommon {
    pub accessor: Accessor,
}

pub struct Accessor {
    pub source: String,
    pub count: i32,
    pub stride: i32,
    pub params: Vec<Param>,
}

pub struct Param {
    pub name: String,
    pub param_type: String,
}

pub struct VisualScenesLibrary {
    pub visual_scene: VisualScene,
}

pub struct VisualScene {
    pub id: String,
    pub name: String,
    pub nodes: Vec<Node>,
}

pub struct Node {
    pub id: String,
    pub name: String,
    pub node_type: String,
    pub matrix: Matrix,
    pub instance_geometry: Option<Instance>,
    pub instance_camera: Option<Instance>,
    pub instance_light: Option<Instance>,
}

pub struct Matrix {
    pub sid: String,
    pub values: String,
}

pub struct Instance {
    pub url: String,
}

/// Ways in which a document fails to describe a decodable mesh.
#[derive(Copy, Clone, Debug, PartialEq, Eq, Structural)]
pub enum ColladaError {
    TriangleIndicesNotIntegers,
    NoVertexInput,
    VerticesIdMismatch,
    VerticesInputNotPosition,
    PositionSourceNotFound,
    PositionParamCount,
    NoNormalInput,
    NormalSourceNotFound,
    NormalParamCount,
    NoTexCoordInput,
    TexCoordSourceNotFound,
    TexCoordParamCount,
    /// A `#`-reference that is empty or does not start with a one-byte character.
    MalformedReference,
    /// A triangle index outside the data it indexes, or an index list whose
    /// length is not a multiple of three.
    VertexIndexOutOfRange,
}

impl ColladaError {
    /// A description of the error.
    pub fn message(&self) -> (r: String)
        ensures
            r@ == self.spec_message(),
    {
        match self {
            ColladaError::TriangleIndicesNotIntegers => String::from_str(
                "Failed to parse integer array for triangles",
            ),
            ColladaError::NoVertexInput => String::from_str("No VERTEX input found for triangles"),
            ColladaError::VerticesIdMismatch => String::from_str(
                "Mesh vertices id does not match triangles vertex input source",
            ),
            ColladaError::VerticesInputNotPosition => String::from_str(
                "Mesh vertices input does not have POSITION semantic",
            ),
            ColladaError::PositionSourceNotFound => String::from_str(
                "Did not find position source for mesh",
            ),
            ColladaError::PositionParamCount => String::from_str(
                "Position source does not have 3 parameters",
            ),
            ColladaError::NoNormalInput => String::from_str("No NORMAL input found for triangles"),
            ColladaError::NormalSourceNotFound => String::from_str(
                "Did not find normal source for mesh",
            ),
            ColladaError::NormalParamCount => String::from_str(
                "Normal source does not have 3 parameters",
            ),
            ColladaError::NoTexCoordInput => String::from_str(
                "No TEXCOORD input found for triangles",
            ),
            ColladaError::TexCoordSourceNotFound => String::from_str(
                "Did not find tex coord source for mesh",
            ),
            ColladaError::TexCoordParamCount => String::from_str(
                "Tex coord source does not have 2 parameters",
            ),
            ColladaError::MalformedReference => String::from_str(
                "Malformed reference: expected '#' followed by an id",
            ),
            ColladaError::VertexIndexOutOfRange => String::from_str(
                "Triangle index out of range of the mesh data",
            ),
        }
    }

    pub open spec fn spec_message(&self) -> Seq<char> {
        match self {
            ColladaError::TriangleIndicesNotIntegers => "Failed to parse integer array for triangles"@,
            ColladaError::NoVertexInput => "No VERTEX input found for triangles"@,
            ColladaError::VerticesIdMismatch => "Mesh vertices id does not match triangles vertex input source"@,
            ColladaError::VerticesInputNotPosition => "Mesh vertices input does not have POSITION semantic"@,
            ColladaError::PositionSourceNotFound => "Did not find position source for mesh"@,
            ColladaError::PositionParamCount => "Position source does not have 3 parameters"@,
            ColladaError::NoNormalInput => "No NORMAL input found for triangles"@,
            ColladaError::NormalSourceNotFound => "Did not find normal source for mesh"@,
            ColladaError::NormalParamCount => "Normal source does not have 3 parameters"@,
            ColladaError::NoTexCoordInput => "No TEXCOORD input found for triangles"@,
            ColladaError::TexCoordSourceNotFound => "Did not find tex coord source for mesh"@,
            ColladaError::TexCoordParamCount => "Tex coord source does not have 2 parameters"@,
            ColladaError::MalformedReference => "Malformed reference: expected '#' followed by an id"@,
            ColladaError::VertexIndexOutOfRange => "Triangle index out of range of the mesh data"@,
        }
    }
}

/// The id that a `#`-reference names: the reference without its first
/// character. `None` when the reference is empty or its first character is
/// not a one-byte (ASCII) character.
pub open spec fn ref_target(r: Seq<char>) -> Option<Seq<char>> {
    if r.len() > 0 && (r[0] as u32) < 0x80 {
        Some(r.drop_first())
    } else {
        None
    }
}

/// The index of the first key equal to `key`.
pub open spec fn first_index_of(keys: Seq<Seq<char>>, key: Seq<char>) -> Option<int> {
    if exists|i: int| 0 <= i < keys.len() && keys[i] == key {
        Some(
            choose|i: int|
                0 <= i < keys.len() && keys[i] == key && forall|j: int|
                    0 <= j < i ==> keys[j] != key,
        )
    } else {
        None
    }
}

/// The semantics of a list of inputs.
pub open spec fn input_semantics(inputs: Seq<Input>) -> Seq<Seq<char>> {
    inputs.map_values(|i: Input| i.semantic@)
}

/// The ids of a list of sources.
pub open spec fn source_ids(sources: Seq<Source>) -> Seq<Seq<char>> {
    sources.map_values(|s: Source| s.id@)
}

/// Index of the first of `keys` equal to `key`, by a linear scan.
fn find_first(keys: &Vec<Vec<char>>, key: &Vec<char>) -> (r: Option<usize>)
    ensures
        ({
            let ks = keys@.map_values(|k: Vec<char>| k@);
            match r {
                Some(i) => i < keys@.len() && first_index_of(ks, key@) == Some(i as int),
                None => first_index_of(ks, key@) is None,
            }
        }),
{
    let ghost ks = keys@.map_values(|k: Vec<char>| k@);
    let mut i: usize = 0;
    while i < keys.len()
        invariant
            ks == keys@.map_values(|k: Vec<char>| k@),
            0 <= i <= keys@.len(),
            forall|j: int| 0 <= j < i ==> ks[j] != key@,
        decreases keys@.len() - i,
    {
        if chars_equal(&keys[i], key) {
            assert(ks[i as int] == key@);
            let ghost c = choose|c: int|
                0 <= c < ks.len() && ks[c] == key@ && forall|j: int| 0 <= j < c ==> ks[j] != key@;
            assert(c == i) by {
                if c < i {
                    assert(ks[c] != key@);
                } else if c > i {
                    assert(ks[i as int] != key@);
                }
            }
            return Some(i);
        }
        i = i + 1;
    }
    None
}

/// The characters of each string.
fn chars_of_each(strs: &Vec<String>) -> (r: Vec<Vec<char>>)
    ensures
        r@.len() == strs@.len(),
        forall|i: int| 0 <= i < r@.len() ==> #[trigger] r@[i]@ == strs@[i]@,
{
    let mut r: Vec<Vec<char>> = Vec::new();
    let mut i: usize = 0;
    while i < strs.len()
        invariant
            0 <= i <= strs@.len(),
            r@.len() == i,
            forall|j: int| 0 <= j < i ==> #[trigger] r@[j]@ == strs@[j]@,
        decreases strs@.len() - i,
    {
        r.push(chars_of(strs[i].as_str()));
        i = i + 1;
    }
    r
}


/// Whether a lookup's tokens are what the specification gives.
pub open spec fn tokens_match(
    r: Result<Vec<Vec<char>>, ColladaError>,
    s: Result<Seq<Seq<char>>, ColladaError>,
) -> bool {
    match s {
        Ok(t) => match r {
            Ok(v) => v@.map_values(|c: Vec<char>| c@) == t,
            Err(_) => false,
        },
        Err(e) => r == Err::<Vec<Vec<char>>, ColladaError>(e),
    }
}

/// The float tokens of the source that `reference` names, which must have
/// `params` parameters per element.
pub open spec fn spec_source_by_ref(
    m: Mesh,
    reference: Seq<char>,
    params: int,
    not_found: ColladaError,
    bad_params: ColladaError,
) -> Result<Seq<Seq<char>>, ColladaError> {
    match ref_target(reference) {
        None => Err(ColladaError::MalformedReference),
        Some(id) => match first_index_of(source_ids(m.sources@), id) {
            None => Err(not_found),
            Some(si) => if m.sources@[si].technique_common.accessor.params@.len() != params {
                Err(bad_params)
            } else {
                Ok(split_spaces(m.sources@[si].float_data.values@))
            },
        },
    }
}

/// The position tokens of a mesh: the triangles' first `VERTEX` input must
/// reference the mesh's vertices element, whose input must have the
/// `POSITION` semantic and reference a source with three parameters.
pub open spec fn spec_position_tokens(m: Mesh) -> Result<Seq<Seq<char>>, ColladaError> {
    match first_index_of(input_semantics(m.triangles.inputs@), "VERTEX"@) {
        None => Err(ColladaError::NoVertexInput),
        Some(vi) => match ref_target(m.triangles.inputs@[vi].source@) {
            None => Err(ColladaError::MalformedReference),
            Some(t) => if m.vertices.id@ != t {
                Err(ColladaError::VerticesIdMismatch)
            } else if m.vertices.input.semantic@ != "POSITION"@ {
                Err(ColladaError::VerticesInputNotPosition)
            } else {
                spec_source_by_ref(
                    m,
                    m.vertices.input.source@,
                    3,
                    ColladaError::PositionSourceNotFound,
                    ColladaError::PositionParamCount,
                )
            },
        },
    }
}

/// The normal tokens of a mesh: those of the source referenced by the
/// triangles' first `NORMAL` input, which must have three parameters.
pub open spec fn spec_normal_tokens(m: Mesh) -> Result<Seq<Seq<char>>, ColladaError> {
    match first_index_of(input_semantics(m.triangles.inputs@), "NORMAL"@) {
        None => Err(ColladaError::NoNormalInput),
        Some(i) => spec_source_by_ref(
            m,
            m.triangles.inputs@[i].source@,
            3,
            ColladaError::NormalSourceNotFound,
            ColladaError::NormalParamCount,
        ),
    }
}

/// The texture coordinate tokens of a mesh: those of the source referenced
/// by the triangles' first `TEXCOORD` input, which must have two parameters.
pub open spec fn spec_tex_coord_tokens(m: Mesh) -> Result<Seq<Seq<char>>, ColladaError> {
    match first_index_of(input_semantics(m.triangles.inputs@), "TEXCOORD"@) {
        None => Err(ColladaError::NoTexCoordInput),
        Some(i) => spec_source_by_ref(
            m,
            m.triangles.inputs@[i].source@,
            2,
            ColladaError::TexCoordSourceNotFound,
            ColladaError::TexCoordParamCount,
        ),
    }
}

/// The target of a `#`-reference, as characters.
fn ref_target_chars(reference: &String) -> (r: Option<Vec<char>>)
    ensures
        match ref_target(reference@) {
            Some(t) => r matches Some(v) && v@ == t,
            None => r is None,
        },
{
    let cs = chars_of(reference.as_str());
    if cs.len() == 0 || (cs[0] as u32) >= 0x80 {
        return None;
    }
    let mut out: Vec<char> = Vec::new();
    let mut i: usize = 1;
    while i < cs.len()
        invariant
            cs@ == reference@,
            1 <= i <= cs@.len(),
            out@ == cs@.subrange(1, i as int),
        decreases cs@.len() - i,
    {
        out.push(cs[i]);
        assert(cs@.subrange(1, i + 1) =~= cs@.subrange(1, i as int).push(cs@[i as int]));
        i = i + 1;
    }
    assert(out@ =~= cs@.drop_first());
    Some(out)
}

impl Mesh {
    /// The characters of each triangle input's semantic.
    fn semantic_keys(&self) -> (r: Vec<Vec<char>>)
        ensures
            r@.map_values(|c: Vec<char>| c@) == input_semantics(self.triangles.inputs@),
    {
        let mut r: Vec<Vec<char>> = Vec::new();
        let mut i: usize = 0;
        while i < self.triangles.inputs.len()
            invariant
                0 <= i <= self.triangles.inputs@.len(),
                r@.len() == i,
                forall|j: int| 0 <= j < i ==> #[trigger] r@[j]@ == self.triangles.inputs@[j].semantic@,
            decreases self.triangles.inputs@.len() - i,
        {
            r.push(chars_of(self.triangles.inputs[i].semantic.as_str()));
            i = i + 1;
        }
        assert(r@.map_values(|c: Vec<char>| c@) =~= input_semantics(self.triangles.inputs@));
        r
    }

    /// The characters of each source's id.
    fn source_id_keys(&self) -> (r: Vec<Vec<char>>)
        ensures
            r@.map_values(|c: Vec<char>| c@) == source_ids(self.sources@),
    {
        let mut r: Vec<Vec<char>> = Vec::new();
        let mut i: usize = 0;
        while i < self.sources.len()
            invariant
                0 <= i <= self.sources@.len(),
                r@.len() == i,
                forall|j: int| 0 <= j < i ==> #[trigger] r@[j]@ == self.sources@[j].id@,
            decreases self.sources@.len() - i,
        {
            r.push(chars_of(self.sources[i].id.as_str()));
            i = i + 1;
        }
        assert(r@.map_values(|c: Vec<char>| c@) =~= source_ids(self.sources@));
        r
    }

    /// Index of the first triangle input with the given semantic.
    fn find_input(&self, semantic: &str) -> (r: Option<usize>)
        ensures
            match r {
                Some(i) => i < self.triangles.inputs@.len() && first_index_of(
                    input_semantics(self.triangles.inputs@),
                    semantic@,
                ) == Some(i as int),
                None => first_index_of(input_semantics(self.triangles.inputs@), semantic@) is None,
            },
    {
        let keys = self.semantic_keys();
        let key = chars_of(semantic);
        find_first(&keys, &key)
    }

    /// Tokens of the source named by `reference`.
    fn source_tokens_by_ref(
        &self,
        reference: &String,
        params: usize,
        not_found: ColladaError,
        bad_params: ColladaError,
    ) -> (r: Result<Vec<Vec<char>>, ColladaError>)
        ensures
            tokens_match(
                r,
                spec_source_by_ref(*self, reference@, params as int, not_found, bad_params),
            ),
    {
        let target = match ref_target_chars(reference) {
            Some(t) => t,
            None => {
                return Err(ColladaError::MalformedReference);
            },
        };
        let keys = self.source_id_keys();
        match find_first(&keys, &target) {
            None => Err(not_found),
            Some(si) => {
                if self.sources[si].technique_common.accessor.params.len() != params {
                    Err(bad_params)
                } else {
                    let cs = chars_of(self.sources[si].float_data.values.as_str());
                    let toks = split_spaces_exec(&cs);
                    assert(toks@.map_values(|c: Vec<char>| c@) =~= split_spaces(
                        self.sources@[si as int].float_data.values@,
                    ));
                    Ok(toks)
                }
            },
        }
    }

    /// Decode the interleaved triangle index list (position, normal, texture
    /// coordinate index for each vertex).
    pub fn decode_triangle_indices(&self) -> (r: Result<Vec<usize>, ColladaError>)
        ensures
            match parse_usize_list(self.triangles.polygons.values@) {
                Some(v) => r matches Ok(w) && w@ == v,
                None => r == Err::<Vec<usize>, ColladaError>(
                    ColladaError::TriangleIndicesNotIntegers,
                ),
            },
    {
        match parse_usize_list_exec(self.triangles.polygons.values.as_str()) {
            Some(v) => Ok(v),
            None => Err(ColladaError::TriangleIndicesNotIntegers),
        }
    }

    /// The tokens of the position data (see [`spec_position_tokens`]).
    pub fn position_tokens(&self) -> (r: Result<Vec<Vec<char>>, ColladaError>)
        ensures
            tokens_match(r, spec_position_tokens(*self)),
    {
        let vi = match self.find_input("VERTEX") {
            Some(i) => i,
            None => {
                return Err(ColladaError::NoVertexInput);
            },
        };
        let target = match ref_target_chars(&self.triangles.inputs[vi].source) {
            Some(t) => t,
            None => {
                return Err(ColladaError::MalformedReference);
            },
        };
        let id = chars_of(self.vertices.id.as_str());
        if !chars_equal(&id, &target) {
            return Err(ColladaError::VerticesIdMismatch);
        }
        let sem = chars_of(self.vertices.input.semantic.as_str());
        let position = chars_of("POSITION");
        if !chars_equal(&sem, &position) {
            return Err(ColladaError::VerticesInputNotPosition);
        }
        self.source_tokens_by_ref(
            &self.vertices.input.source,
            3,
            ColladaError::PositionSourceNotFound,
            ColladaError::PositionParamCount,
        )
    }

    /// The tokens of the normal data (see [`spec_normal_tokens`]).
    pub fn normal_tokens(&self) -> (r: Result<Vec<Vec<char>>, ColladaError>)
        ensures
            tokens_match(r, spec_normal_tokens(*self)),
    {
        match self.find_input("NORMAL") {
            Some(i) => self.source_tokens_by_ref(
                &self.triangles.inputs[i].source,
                3,
                ColladaError::NormalSourceNotFound,
                ColladaError::NormalParamCount,
            ),
            None => Err(ColladaError::NoNormalInput),
        }
    }

    /// The tokens of the texture coordinate data (see [`spec_tex_coord_tokens`]).
    pub fn tex_coord_tokens(&self) -> (r: Result<Vec<Vec<char>>, ColladaError>)
        ensures
            tokens_match(r, spec_tex_coord_tokens(*self)),
    {
        match self.find_input("TEXCOORD") {
            Some(i) => self.source_tokens_by_ref(
                &self.triangles.inputs[i].source,
                2,
                ColladaError::TexCoordSourceNotFound,
                ColladaError::TexCoordParamCount,
            ),
            None => Err(ColladaError::NoTexCoordInput),
        }
    }
}


/// Whether the `k`-th triangle vertex's three indices are within the data
/// they index: positions and normals hold three components per element,
/// texture coordinates two.
pub open spec fn triangle_vertex_in_range(
    indices: Seq<usize>,
    positions: Seq<u32>,
    normals: Seq<u32>,
    tex_coords: Seq<u32>,
    k: int,
) -> bool {
    &&& indices[3 * k] * 3 + 2 < positions.len()
    &&& indices[3 * k + 1] * 3 + 2 < normals.len()
    &&& indices[3 * k + 2] * 2 + 1 < tex_coords.len()
}

/// The `k`-th triangle vertex, built from its position, normal and texture
/// coordinate elements.
pub open spec fn triangle_vertex(
    indices: Seq<usize>,
    positions: Seq<u32>,
    normals: Seq<u32>,
    tex_coords: Seq<u32>,
    k: int,
) -> StaticVertex {
    let p = indices[3 * k] * 3;
    let n = indices[3 * k + 1] * 3;
    let t = indices[3 * k + 2] * 2;
    StaticVertex {
        x: positions[p],
        y: positions[p + 1],
        z: positions[p + 2],
        nx: normals[n],
        ny: normals[n + 1],
        nz: normals[n + 2],
        u: tex_coords[t],
        v: tex_coords[t + 1],
    }
}

/// The vertices that an interleaved index list selects, one per index
/// triple; `None` when the list's length is not a multiple of three or an
/// index falls outside its data.
pub open spec fn assemble_vertices(
    indices: Seq<usize>,
    positions: Seq<u32>,
    normals: Seq<u32>,
    tex_coords: Seq<u32>,
) -> Option<Seq<StaticVertex>> {
    if indices.len() % 3 == 0 && forall|k: int|
        0 <= k < indices.len() / 3 ==> #[trigger] triangle_vertex_in_range(
            indices,
            positions,
            normals,
            tex_coords,
            k,
        ) {
        Some(
            Seq::new(
                (indices.len() / 3) as nat,
                |k: int| triangle_vertex(indices, positions, normals, tex_coords, k),
            ),
        )
    } else {
        None
    }
}

/// Whether element `i` of an array with `scale` components per element has
/// its component `extra` within `len` items.
fn scaled_index_fits(i: usize, scale: usize, extra: usize, len: usize) -> (r: bool)
    requires
        1 <= scale,
        extra < scale,
    ensures
        r == (i * scale + extra < len),
{
    if i <= usize::MAX / scale {
        assert(i * scale <= usize::MAX) by (nonlinear_arith)
            requires
                i <= usize::MAX / scale,
                scale >= 1,
        ;
        let s = i * scale;
        s < len && len - s > extra
    } else {
        assert(i * scale > usize::MAX) by (nonlinear_arith)
            requires
                i > usize::MAX / scale,
                scale >= 1,
        ;
        false
    }
}

/// Build the vertex list of a mesh from its decoded triangle indices and the
/// bit patterns of its position, normal and texture coordinate data.
pub fn assemble_vertex_data(
    indices: &Vec<usize>,
    positions: &Vec<u32>,
    normals: &Vec<u32>,
    tex_coords: &Vec<u32>,
) -> (r: Result<Vec<StaticVertex>, ColladaError>)
    ensures
        match assemble_vertices(indices@, positions@, normals@, tex_coords@) {
            Some(vs) => r matches Ok(v) && v@ == vs,
            None => r == Err::<Vec<StaticVertex>, ColladaError>(
                ColladaError::VertexIndexOutOfRange,
            ),
        },
{
    let ghost ind = indices@;
    let ghost pos = positions@;
    let ghost nor = normals@;
    let ghost tex = tex_coords@;
    let mut vertices: Vec<StaticVertex> = Vec::new();
    let mut index: usize = 0;
    let mut k: usize = 0;
    while index < indices.len()
        invariant
            ind == indices@,
            pos == positions@,
            nor == normals@,
            tex == tex_coords@,
            index == 3 * k,
            index <= ind.len(),
            vertices@.len() == k,
            forall|j: int|
                0 <= j < k ==> #[trigger] triangle_vertex_in_range(ind, pos, nor, tex, j),
            forall|j: int|
                0 <= j < k ==> #[trigger] vertices@[j] == triangle_vertex(ind, pos, nor, tex, j),
        decreases ind.len() - index,
    {
        if indices.len() - index < 3 {
            assert(ind.len() % 3 != 0);
            return Err(ColladaError::VertexIndexOutOfRange);
        }
        let p = indices[index];
        let n = indices[index + 1];
        let t = indices[index + 2];
        assert(p == ind[3 * k] && n == ind[3 * k + 1] && t == ind[3 * k + 2]);
        let p_ok = scaled_index_fits(p, 3, 2, positions.len());
        let n_ok = scaled_index_fits(n, 3, 2, normals.len());
        let t_ok = scaled_index_fits(t, 2, 1, tex_coords.len());
        if !(p_ok && n_ok && t_ok) {
            assert(!triangle_vertex_in_range(ind, pos, nor, tex, k as int));
            assert(k < ind.len() / 3);
            return Err(ColladaError::VertexIndexOutOfRange);
        }
        let vtx = StaticVertex {
            x: positions[p * 3],
            y: positions[p * 3 + 1],
            z: positions[p * 3 + 2],
            nx: normals[n * 3],
            ny: normals[n * 3 + 1],
            nz: normals[n * 3 + 2],
            u: tex_coords[t * 2],
            v: tex_coords[t * 2 + 1],
        };
        assert(triangle_vertex_in_range(ind, pos, nor, tex, k as int));
        assert(vtx == triangle_vertex(ind, pos, nor, tex, k as int));
        vertices.push(vtx);
        index = index + 3;
        k = k + 1;
    }
    assert(ind.len() == 3 * k);
    assert(ind.len() / 3 == k);
    assert(vertices@ =~= Seq::new(
        (ind.len() / 3) as nat,
        |j: int| triangle_vertex(ind, pos, nor, tex, j),
    ));
    Ok(vertices)
}

/// The index of the first scene node from `i` on that instantiates the
/// geometry `id` through a `#`-reference; nodes without a geometry instance
/// are passed over, and a malformed reference met on the way is an error.
pub open spec fn find_transform_from(nodes: Seq<Node>, id: Seq<char>, i: int) -> Result<
    Option<int>,
    ColladaError,
>
    decreases nodes.len() - i,
{
    if i < 0 || i >= nodes.len() {
        Ok(None)
    } else {
        match nodes[i].instance_geometry {
            None => find_transform_from(nodes, id, i + 1),
            Some(inst) => match ref_target(inst.url@) {
                None => Err(ColladaError::MalformedReference),
                Some(t) => if t == id {
                    Ok(Some(i))
                } else {
                    find_transform_from(nodes, id, i + 1)
                },
            },
        }
    }
}

impl COLLADA {
    /// The transform matrix of the first scene node that instantiates the
    /// geometry with the given id, if any.
    pub fn find_transform_for(&self, geometry_id: &String) -> (r: Result<
        Option<&Matrix>,
        ColladaError,
    >)
        ensures
            ({
                let nodes = self.library_visual_scenes.visual_scene.nodes@;
                match find_transform_from(nodes, geometry_id@, 0) {
                    Ok(Some(k)) => r matches Ok(Some(m)) && *m == nodes[k].matrix,
                    Ok(None) => r matches Ok(None),
                    Err(e) => r matches Err(e2) && e2 == e,
                }
            }),
    {
        let nodes = &self.library_visual_scenes.visual_scene.nodes;
        let ghost ns = nodes@;
        let id = chars_of(geometry_id.as_str());
        let mut i: usize = 0;
        while i < nodes.len()
            invariant
                ns == nodes@,
                ns == self.library_visual_scenes.visual_scene.nodes@,
                id@ == geometry_id@,
                0 <= i <= ns.len(),
                find_transform_from(ns, geometry_id@, 0) == find_transform_from(
                    ns,
                    geometry_id@,
                    i as int,
                ),
            decreases ns.len() - i,
        {
            match &nodes[i].instance_geometry {
                Some(inst) => {
                    match ref_target_chars(&inst.url) {
                        None => {
                            return Err(ColladaError::MalformedReference);
                        },
                        Some(t) => {
                            if chars_equal(&t, &id) {
                                return Ok(Some(&nodes[i].matrix));
                            }
                        },
                    }
                },
                None => {},
            }
            i = i + 1;
        }
        Ok(None)
    }
}

impl Matrix {
    /// The space-separated tokens of the matrix elements, in row-major order.
    pub fn element_tokens(&self) -> (r: Vec<Vec<char>>)
        ensures
            r@.map_values(|c: Vec<char>| c@) == split_spaces(self.values@),
    {
        let cs = chars_of(self.values.as_str());
        let toks = split_spaces_exec(&cs);
        assert(toks@.map_values(|c: Vec<char>| c@) =~= split_spaces(self.values@));
        toks
    }
}

} // verus!
