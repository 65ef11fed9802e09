//! Data-decoding utilities: texture images, binary models and generated
//! vertex sets.

use vstd::prelude::*;
use crate::defs::render::{ImageUsage, TextureCreationData, TextureCreationView, TexturePixelFormat};
use crate::model::factory::{
    parse_model, Model, StaticVertex, FLOAT_MINUS_ONE_BITS, FLOAT_SIGN_BIT, FLOAT_ZERO_BITS,
};

verus! {

/// The image encodings that textures can be decoded from.
#[derive(Copy, Clone, Debug, PartialEq, Eq, Structural)]
pub enum TextureCodec {
    Jpeg,
    Png,
}

/// The 8-bit RGBA pixels, width and height that the `image` crate decodes
/// from JPEG file bytes, or `None` when it fails to decode them.
pub uninterp spec fn jpeg_rgba8(bytes: Seq<u8>) -> Option<(Seq<u8>, u32, u32)>;

/// The 8-bit RGBA pixels, width and height that the `image` crate decodes
/// from PNG file bytes, or `None` when it fails to decode them.
pub uninterp spec fn png_rgba8(bytes: Seq<u8>) -> Option<(Seq<u8>, u32, u32)>;

/// An image decoding error message: the fixed prefix, then a description of
/// the decoder's error.
pub open spec fn image_error_message(m: Seq<char>) -> bool {
    let p = "Error opening decoding an image: "@;
    m.len() >= p.len() && m.subrange(0, p.len() as int) == p
}

/// `image::load_from_memory_with_format` for JPEG, converted to 8-bit RGBA
/// (`DynamicImage::to_rgba8`, then the buffer's pixels and dimensions).
/// Claimed: success and the pixels and dimensions are those named by
/// [`jpeg_rgba8`], and the pixels are four bytes for each of width times
/// height (an RGBA buffer is allocated at exactly that size). Unsaid: the
/// error's text, which describes the crate's error.
#[verifier::external_body]
fn decode_jpeg_rgba8(bytes: &[u8]) -> (r: Result<(Vec<u8>, u32, u32), String>)
    ensures
        match jpeg_rgba8(bytes@) {
            Some((p, w, h)) => r matches Ok((v, w2, h2)) && v@ == p && w2 == w && h2 == h,
            None => r is Err,
        },
        r matches Ok((v, w, h)) ==> v@.len() == 4 * w * h,
{
    match image::load_from_memory_with_format(bytes, image::ImageFormat::Jpeg) {
        Ok(img) => {
            let rgba = img.to_rgba8();
            let (w, h) = (rgba.width(), rgba.height());
            Ok((rgba.into_raw(), w, h))
        },
        Err(e) => Err(format!("{:?}", e)),
    }
}

/// `image::load_from_memory_with_format` for PNG, converted to 8-bit RGBA
/// (`DynamicImage::to_rgba8`, then the buffer's pixels and dimensions).
/// Claimed: success and the pixels and dimensions are those named by
/// [`png_rgba8`], and the pixels are four bytes for each of width times
/// height (an RGBA buffer is allocated at exactly that size). Unsaid: the
/// error's text, which describes the crate's error.
#[verifier::external_body]
fn decode_png_rgba8(bytes: &[u8]) -> (r: Result<(Vec<u8>, u32, u32), String>)
    ensures
        match png_rgba8(bytes@) {
            Some((p, w, h)) => r matches Ok((v, w2, h2)) && v@ == p && w2 == w && h2 == h,
            None => r is Err,
        },
        r matches Ok((v, w, h)) ==> v@.len() == 4 * w * h,
{
    match image::load_from_memory_with_format(bytes, image::ImageFormat::Png) {
        Ok(img) => {
            let rgba = img.to_rgba8();
            let (w, h) = (rgba.width(), rgba.height());
            Ok((rgba.into_raw(), w, h))
        },
        Err(e) => Err(format!("{:?}", e)),
    }
}

/// What a codec decodes from file bytes.
pub open spec fn codec_rgba8(codec: TextureCodec, bytes: Seq<u8>) -> Option<(Seq<u8>, u32, u32)> {
    match codec {
        TextureCodec::Jpeg => jpeg_rgba8(bytes),
        TextureCodec::Png => png_rgba8(bytes),
    }
}

/// The single-layer RGBA texture that image file bytes decode to.
pub open spec fn spec_decode_texture(
    bytes: Seq<u8>,
    codec: TextureCodec,
    usage: ImageUsage,
) -> Option<TextureCreationView> {
    match codec_rgba8(codec, bytes) {
        Some((p, w, h)) => Some(
            TextureCreationView {
                layer_data: Some(seq![p]),
                width: w,
                height: h,
                format: TexturePixelFormat::Rgba,
                usage,
            },
        ),
        None => None,
    }
}

/// Decode an image file into a single-layer RGBA texture.
pub fn decode_texture(image_file_bytes: &[u8], codec: TextureCodec, usage: ImageUsage) -> (r:
    Result<TextureCreationData, String>)
    ensures
        match spec_decode_texture(image_file_bytes@, codec, usage) {
            Some(t) => r matches Ok(d) && d@ == t,
            None => r is Err,
        },
        r matches Ok(d) ==> d@.layer_data matches Some(layers) && layers.len() == 1
            && layers[0].len() == 4 * d.width * d.height,
        r matches Err(m) ==> image_error_message(m@),
{
    let decoded = match codec {
        TextureCodec::Jpeg => decode_jpeg_rgba8(image_file_bytes),
        TextureCodec::Png => decode_png_rgba8(image_file_bytes),
    };
    match decoded {
        Ok((data, width, height)) => {
            let mut layers: Vec<Vec<u8>> = Vec::new();
            let ghost p = data@;
            layers.push(data);
            let r = TextureCreationData {
                layer_data: Some(layers),
                width,
                height,
                format: TexturePixelFormat::Rgba,
                usage,
            };
            assert(layers@.map_values(|l: Vec<u8>| l@) =~= seq![p]);
            Ok(r)
        },
        Err(e) => {
            let m = String::from_str("Error opening decoding an image: ").concat(e.as_str());
            assert(m@.subrange(0, "Error opening decoding an image: "@.len() as int)
                =~= "Error opening decoding an image: "@);
            Err(m)
        },
    }
}

/// Whether every image of a list decodes with the codec.
pub open spec fn all_decodable(files: Seq<&[u8]>, codec: TextureCodec) -> bool {
    forall|i: int| 0 <= i < files.len() ==> (#[trigger] codec_rgba8(codec, files[i]@)) is Some
}

/// The decoded image of the `i`-th file.
pub open spec fn decoded_image(files: Seq<&[u8]>, codec: TextureCodec, i: int) -> (Seq<u8>, u32, u32) {
    codec_rgba8(codec, files[i]@).unwrap()
}

/// Whether the `i`-th image has the first image's width as both its width
/// and its height.
pub open spec fn sized_as_first(files: Seq<&[u8]>, codec: TextureCodec, i: int) -> bool {
    let w = decoded_image(files, codec, 0).1;
    decoded_image(files, codec, i).1 == w && decoded_image(files, codec, i).2 == w
}

/// The multi-layer texture that a list of decodable image files gives: one
/// layer per file, in order, with the first image's width taken as both
/// width and height; an error when some image's width or height differs from
/// that.
pub open spec fn spec_decode_texture_array(
    files: Seq<&[u8]>,
    codec: TextureCodec,
    usage: ImageUsage,
) -> Result<TextureCreationView, Seq<char>> {
    let w = decoded_image(files, codec, 0).1;
    if exists|i: int| 0 <= i < files.len() && !#[trigger] sized_as_first(files, codec, i) {
        Err("Not all textures same size in multi-layer sources"@)
    } else {
        Ok(
            TextureCreationView {
                layer_data: Some(
                    Seq::new(files.len(), |i: int| decoded_image(files, codec, i).0),
                ),
                width: w,
                height: w,
                format: TexturePixelFormat::Rgba,
                usage,
            },
        )
    }
}

/// Decode a list of image files into the layers of one texture (see
/// [`spec_decode_texture_array`]).
pub fn decode_texture_array(image_file_bytes: Vec<&[u8]>, codec: TextureCodec, usage: ImageUsage) -> (r:
    Result<TextureCreationData, String>)
    requires
        image_file_bytes@.len() > 0,
        all_decodable(image_file_bytes@, codec),
    ensures
        match spec_decode_texture_array(image_file_bytes@, codec, usage) {
            Ok(t) => r matches Ok(d) && d@ == t,
            Err(msg) => r matches Err(m) && m@ == msg,
        },
{
    let ghost files = image_file_bytes@;
    let mut layers: Vec<Vec<u8>> = Vec::new();
    let mut width: u32 = 0;
    let mut same_size = true;
    let mut i: usize = 0;
    while i < image_file_bytes.len()
        invariant
            files == image_file_bytes@,
            files.len() > 0,
            all_decodable(files, codec),
            0 <= i <= files.len(),
            i > 0 ==> width == decoded_image(files, codec, 0).1,
            layers@.len() == i,
            forall|j: int| 0 <= j < i ==> #[trigger] layers@[j]@ == decoded_image(files, codec, j).0,
            same_size == forall|j: int| 0 <= j < i ==> #[trigger] sized_as_first(files, codec, j),
        decreases files.len() - i,
    {
        let bytes: &[u8] = image_file_bytes[i];
        assert(codec_rgba8(codec, files[i as int]@) is Some);
        let decoded = decode_texture(bytes, codec, usage);
        let ghost img = decoded_image(files, codec, i as int);
        match decoded {
            Ok(t) => {
                assert(t.width == img.1 && t.height == img.2);
                assert(t@.layer_data == Some(seq![img.0]));
                if i == 0 {
                    width = t.width;
                }
                assert(width == decoded_image(files, codec, 0).1);
                assert(sized_as_first(files, codec, i as int) == (t.width == width && t.height
                    == width));
                if t.width != width || t.height != width {
                    same_size = false;
                }
                match t.layer_data {
                    Some(mut layer_list) => {
                        assert(layer_list@.map_values(|l: Vec<u8>| l@)[0] == layer_list@[0]@);
                        let layer = layer_list.remove(0);
                        layers.push(layer);
                        assert(layers@[i as int]@ == img.0);
                    },
                    None => {
                        assert(false);
                    },
                }
            },
            Err(_) => {
                assert(false);
            },
        }
        i = i + 1;
    }
    if !same_size {
        assert(!sized_as_first(files, codec, choose|j: int| 0 <= j < files.len() && !sized_as_first(files, codec, j)));
        return Err(String::from_str("Not all textures same size in multi-layer sources"));
    }
    let r = TextureCreationData {
        layer_data: Some(layers),
        width,
        height: width,
        format: TexturePixelFormat::Rgba,
        usage,
    };
    assert(layers@.map_values(|l: Vec<u8>| l@) =~= Seq::new(
        files.len(),
        |j: int| decoded_image(files, codec, j).0,
    ));
    Ok(r)
}

/// Decode a list of image files into the layers of one texture, when the
/// list is not empty and every file decodes; `None` otherwise.
pub fn try_decode_texture_array(
    image_file_bytes: Vec<&[u8]>,
    codec: TextureCodec,
    usage: ImageUsage,
) -> (r: Option<Result<TextureCreationData, String>>)
    ensures
        r is None <==> (image_file_bytes@.len() == 0 || !all_decodable(image_file_bytes@, codec)),
        r matches Some(res) ==> match spec_decode_texture_array(image_file_bytes@, codec, usage) {
            Ok(t) => res matches Ok(d) && d@ == t,
            Err(msg) => res matches Err(m) && m@ == msg,
        },
{
    if image_file_bytes.len() == 0 {
        return None;
    }
    let ghost files = image_file_bytes@;
    let mut i: usize = 0;
    while i < image_file_bytes.len()
        invariant
            files == image_file_bytes@,
            0 <= i <= files.len(),
            forall|j: int| 0 <= j < i ==> (#[trigger] codec_rgba8(codec, files[j]@)) is Some,
        decreases files.len() - i,
    {
        let bytes: &[u8] = image_file_bytes[i];
        if decode_texture(bytes, codec, usage).is_err() {
            assert(codec_rgba8(codec, files[i as int]@) is None);
            return None;
        }
        i = i + 1;
    }
    Some(decode_texture_array(image_file_bytes, codec, usage))
}

/// The vertices of a binary model file, and their number.
pub fn decode_model(model_file_bytes: &[u8]) -> (r: (Vec<StaticVertex>, usize))
    requires
        parse_model(model_file_bytes@) is Some,
    ensures
        r.0@ == parse_model(model_file_bytes@).unwrap().1,
        r.1 == r.0@.len(),
{
    match Model::new_from_bytes(model_file_bytes) {
        Ok(model) => {
            let vertex_count = model.vertices.len();
            (model.vertices, vertex_count)
        },
        Err(_) => {
            assert(false);
            (Vec::new(), 0)
        },
    }
}

/// A skybox vertex: a position and an X normal component, every other
/// component zero.
pub open spec fn sky_vertex(x: u32, y: u32, z: u32, nx: u32) -> StaticVertex {
    StaticVertex {
        x,
        y,
        z,
        nx,
        ny: FLOAT_ZERO_BITS,
        nz: FLOAT_ZERO_BITS,
        u: FLOAT_ZERO_BITS,
        v: FLOAT_ZERO_BITS,
    }
}

fn skybox_vertex(x: u32, y: u32, z: u32, nx: u32) -> (r: StaticVertex)
    ensures
        r == sky_vertex(x, y, z, nx),
{
    StaticVertex::from_components(
        x,
        y,
        z,
        nx,
        FLOAT_ZERO_BITS,
        FLOAT_ZERO_BITS,
        FLOAT_ZERO_BITS,
        FLOAT_ZERO_BITS,
    )
}

/// The bit pattern of the negation of a single-precision value: its sign
/// bit flipped.
pub open spec fn negated_bits(b: u32) -> u32 {
    b ^ FLOAT_SIGN_BIT
}

/// The 36 vertices of a cube of half-size `size` (as bit pattern), two
/// triangles per face, faces in the order left, right, up, down, forward,
/// behind. The left face's normals carry `size` and the right face's its
/// negation in their X component; all other normal and texture components
/// are zero.
pub open spec fn skybox_vertices(size: u32) -> Seq<StaticVertex> {
    let neg = negated_bits(size);
    let pos = size;
    let zero = FLOAT_ZERO_BITS;
    seq![
        // Left (negative X)
        sky_vertex(neg, neg, neg, pos),
        sky_vertex(neg, pos, neg, pos),
        sky_vertex(neg, pos, pos, pos),
        sky_vertex(neg, pos, pos, pos),
        sky_vertex(neg, neg, pos, pos),
        sky_vertex(neg, neg, neg, pos),
        // Right (positive X)
        sky_vertex(pos, neg, neg, neg),
        sky_vertex(pos, neg, pos, neg),
        sky_vertex(pos, pos, pos, neg),
        sky_vertex(pos, pos, pos, neg),
        sky_vertex(pos, pos, neg, neg),
        sky_vertex(pos, neg, neg, neg),
        // Up (negative Y)
        sky_vertex(pos, neg, pos, zero),
        sky_vertex(pos, neg, neg, zero),
        sky_vertex(neg, neg, neg, zero),
        sky_vertex(neg, neg, neg, zero),
        sky_vertex(neg, neg, pos, zero),
        sky_vertex(pos, neg, pos, zero),
        // Down (positive Y)
        sky_vertex(pos, pos, pos, zero),
        sky_vertex(neg, pos, pos, zero),
        sky_vertex(neg, pos, neg, zero),
        sky_vertex(neg, pos, neg, zero),
        sky_vertex(pos, pos, neg, zero),
        sky_vertex(pos, pos, pos, zero),
        // Forward (negative Z)
        sky_vertex(pos, pos, neg, zero),
        sky_vertex(neg, pos, neg, zero),
        sky_vertex(neg, neg, neg, zero),
        sky_vertex(neg, neg, neg, zero),
        sky_vertex(pos, neg, neg, zero),
        sky_vertex(pos, pos, neg, zero),
        // Behind (positive Z)
        sky_vertex(pos, pos, pos, zero),
        sky_vertex(pos, neg, pos, zero),
        sky_vertex(neg, neg, pos, zero),
        sky_vertex(neg, neg, pos, zero),
        sky_vertex(neg, pos, pos, zero),
        sky_vertex(pos, pos, pos, zero),
    ]
}

/// Position-normal-texture vertices for the faces of a cube of half-size
/// `size`, and their number (see [`skybox_vertices`]).
pub fn make_skybox_vertices(size: u32) -> (r: (Vec<StaticVertex>, usize))
    ensures
        r.0@ == skybox_vertices(size),
        r.1 == r.0@.len(),
        r.1 == 36,
        draws_cube_faces(r.0@, size),
{
    proof {
        lemma_skybox_draws_cube_faces(size);
    }
    let neg: u32 = size ^ FLOAT_SIGN_BIT;
    let pos: u32 = size;
    let zero: u32 = FLOAT_ZERO_BITS;
    let vertices = vec![
        // Left (negative X)
        skybox_vertex(neg, neg, neg, pos),
        skybox_vertex(neg, pos, neg, pos),
        skybox_vertex(neg, pos, pos, pos),
        skybox_vertex(neg, pos, pos, pos),
        skybox_vertex(neg, neg, pos, pos),
        skybox_vertex(neg, neg, neg, pos),
        // Right (positive X)
        skybox_vertex(pos, neg, neg, neg),
        skybox_vertex(pos, neg, pos, neg),
        skybox_vertex(pos, pos, pos, neg),
        skybox_vertex(pos, pos, pos, neg),
        skybox_vertex(pos, pos, neg, neg),
        skybox_vertex(pos, neg, neg, neg),
        // Up (negative Y)
        skybox_vertex(pos, neg, pos, zero),
        skybox_vertex(pos, neg, neg, zero),
        skybox_vertex(neg, neg, neg, zero),
        skybox_vertex(neg, neg, neg, zero),
        skybox_vertex(neg, neg, pos, zero),
        skybox_vertex(pos, neg, pos, zero),
        // Down (positive Y)
        skybox_vertex(pos, pos, pos, zero),
        skybox_vertex(neg, pos, pos, zero),
        skybox_vertex(neg, pos, neg, zero),
        skybox_vertex(neg, pos, neg, zero),
        skybox_vertex(pos, pos, neg, zero),
        skybox_vertex(pos, pos, pos, zero),
        // Forward (negative Z)
        skybox_vertex(pos, pos, neg, zero),
        skybox_vertex(neg, pos, neg, zero),
        skybox_vertex(neg, neg, neg, zero),
        skybox_vertex(neg, neg, neg, zero),
        skybox_vertex(pos, neg, neg, zero),
        skybox_vertex(pos, pos, neg, zero),
        // Behind (positive Z)
        skybox_vertex(pos, pos, pos, zero),
        skybox_vertex(pos, neg, pos, zero),
        skybox_vertex(neg, neg, pos, zero),
        skybox_vertex(neg, neg, pos, zero),
        skybox_vertex(neg, pos, pos, zero),
        skybox_vertex(pos, pos, pos, zero),
    ];
    assert(vertices@ =~= skybox_vertices(size));
    let vertex_count = vertices.len();
    (vertices, vertex_count)
}

/// A vertex of a user-interface rectangle: at depth zero, with a normal
/// pointing along negative Z.
pub open spec fn ui_vertex(x: u32, y: u32, u: u32, v: u32) -> StaticVertex {
    StaticVertex {
        x,
        y,
        z: FLOAT_ZERO_BITS,
        nx: FLOAT_ZERO_BITS,
        ny: FLOAT_ZERO_BITS,
        nz: FLOAT_MINUS_ONE_BITS,
        u,
        v,
    }
}

fn make_ui_vertex(x: u32, y: u32, u: u32, v: u32) -> (r: StaticVertex)
    ensures
        r == ui_vertex(x, y, u, v),
{
    StaticVertex::from_components(
        x,
        y,
        FLOAT_ZERO_BITS,
        FLOAT_ZERO_BITS,
        FLOAT_ZERO_BITS,
        FLOAT_MINUS_ONE_BITS,
        u,
        v,
    )
}

/// The two triangles of one rectangle given as position
/// `[left, top, right, bottom]` then texture `[left, top, right, bottom]`.
pub open spec fn ui_rect_vertices(s: Seq<u32>) -> Seq<StaticVertex> {
    seq![
        ui_vertex(s[0], s[1], s[4], s[5]),
        ui_vertex(s[0], s[3], s[4], s[7]),
        ui_vertex(s[2], s[3], s[6], s[7]),
        ui_vertex(s[2], s[3], s[6], s[7]),
        ui_vertex(s[2], s[1], s[6], s[5]),
        ui_vertex(s[0], s[1], s[4], s[5]),
    ]
}

/// The triangles of a list of rectangles, six vertices per rectangle, in
/// order.
pub open spec fn ui_rects_vertices(source: Seq<[u32; 8]>) -> Seq<StaticVertex>
    decreases source.len(),
{
    if source.len() == 0 {
        Seq::empty()
    } else {
        ui_rects_vertices(source.drop_last()) + ui_rect_vertices(source.last()@)
    }
}

/// Map rectangles, each given as eight floats (position
/// `[left, top, right, bottom]` then texture `[left, top, right, bottom]`),
/// into triangle vertices at depth zero with the normal along negative Z.
pub fn map_ui_rects(source: Vec<[u32; 8]>) -> (r: Vec<StaticVertex>)
    ensures
        r@ == ui_rects_vertices(source@),
        draws_ui_rects(r@, source@),
{
    proof {
        lemma_ui_rects_cover_rectangles(source@);
    }
    let mut all_rects: Vec<StaticVertex> = Vec::new();
    let mut i: usize = 0;
    while i < source.len()
        invariant
            0 <= i <= source@.len(),
            all_rects@ == ui_rects_vertices(source@.take(i as int)),
        decreases source@.len() - i,
    {
        let s = source[i];
        let ghost before = all_rects@;
        all_rects.push(make_ui_vertex(s[0], s[1], s[4], s[5]));
        all_rects.push(make_ui_vertex(s[0], s[3], s[4], s[7]));
        all_rects.push(make_ui_vertex(s[2], s[3], s[6], s[7]));
        all_rects.push(make_ui_vertex(s[2], s[3], s[6], s[7]));
        all_rects.push(make_ui_vertex(s[2], s[1], s[6], s[5]));
        all_rects.push(make_ui_vertex(s[0], s[1], s[4], s[5]));
        assert(source@.take(i + 1).drop_last() =~= source@.take(i as int));
        assert(all_rects@ =~= before + ui_rect_vertices(s@));
        i = i + 1;
    }
    assert(source@.take(source@.len() as int) =~= source@);
    all_rects
}

/// Every rectangle gives six vertices.
pub proof fn lemma_ui_rects_count(source: Seq<[u32; 8]>)
    ensures
        ui_rects_vertices(source).len() == 6 * source.len(),
    decreases source.len(),
{
    if source.len() > 0 {
        lemma_ui_rects_count(source.drop_last());
    }
}

/// Every skybox vertex lies on a corner of the cube: each position component
/// is the size or its negation.
pub proof fn lemma_skybox_on_cube_corners(size: u32)
    ensures
        forall|i: int|
            0 <= i < skybox_vertices(size).len() ==> {
                let v = #[trigger] skybox_vertices(size)[i];
                &&& (v.x == size || v.x == negated_bits(size))
                &&& (v.y == size || v.y == negated_bits(size))
                &&& (v.z == size || v.z == negated_bits(size))
            },
{
}

/// A vertex's coordinate along an axis: 0 for X, 1 for Y, 2 for Z.
pub open spec fn axis_coord(v: StaticVertex, axis: int) -> u32 {
    if axis == 0 {
        v.x
    } else if axis == 1 {
        v.y
    } else {
        v.z
    }
}

/// The axis across face `f` of a cube whose faces come in the order left,
/// right, up, down, forward, behind: X for the first two, Y for the next
/// two, Z for the last two.
pub open spec fn face_axis(f: int) -> int {
    f / 2
}

/// Where face `f` lies on its axis: at the negation of `size` for left, up
/// and forward, at `size` for right, down and behind.
pub open spec fn face_side(size: u32, f: int) -> u32 {
    if f % 2 == 0 {
        negated_bits(size)
    } else {
        size
    }
}

/// Whether two vertices are opposite corners of a square across `axis`:
/// they differ in both other coordinates.
pub open spec fn opposite_corners(a: StaticVertex, b: StaticVertex, axis: int) -> bool {
    forall|other: int| 0 <= other < 3 && other != axis ==> axis_coord(a, other) != axis_coord(b, other)
}

/// Whether six vertices per face, for six faces, draw a cube of half-size
/// `size`: every vertex of face `f` lies on that face's plane, and each face
/// is two triangles `(c0, c1, c2)` and `(c2, c4, c0)` over its four corners,
/// `c0` and `c2` being opposite corners, and `c1` and `c4` the other two.
pub open spec fn draws_cube_faces(vs: Seq<StaticVertex>, size: u32) -> bool {
    &&& vs.len() == 36
    &&& forall|f: int, i: int|
        0 <= f < 6 && 0 <= i < 6 ==> axis_coord(#[trigger] vs[6 * f + i], face_axis(f))
            == face_side(size, f)
    &&& forall|f: int|
        0 <= f < 6 ==> {
            &&& #[trigger] vs[6 * f + 3] == vs[6 * f + 2]
            &&& vs[6 * f + 5] == vs[6 * f]
            &&& opposite_corners(vs[6 * f], vs[6 * f + 2], face_axis(f))
            &&& opposite_corners(vs[6 * f + 1], vs[6 * f + 4], face_axis(f))
            &&& vs[6 * f + 1] != vs[6 * f]
            &&& vs[6 * f + 1] != vs[6 * f + 2]
        }
}

/// The skybox draws the six faces of the cube of half-size `size`: each
/// face's vertices lie on its plane (left at x = -size, right at x = size,
/// up at y = -size, down at y = size, forward at z = -size, behind at
/// z = size), and its two triangles cover it.
pub proof fn lemma_skybox_draws_cube_faces(size: u32)
    ensures
        draws_cube_faces(skybox_vertices(size), size),
{
    let vs = skybox_vertices(size);
    let neg = negated_bits(size);
    assert(size ^ 0x8000_0000u32 != size) by (bit_vector);
    assert(neg != size);
    assert forall|f: int, i: int| 0 <= f < 6 && 0 <= i < 6 implies axis_coord(
        #[trigger] vs[6 * f + i],
        face_axis(f),
    ) == face_side(size, f) by {
        if f == 0 {} else if f == 1 {} else if f == 2 {} else if f == 3 {} else if f == 4 {} else {}
    }
    assert forall|f: int| 0 <= f < 6 implies {
        &&& #[trigger] vs[6 * f + 3] == vs[6 * f + 2]
        &&& vs[6 * f + 5] == vs[6 * f]
        &&& opposite_corners(vs[6 * f], vs[6 * f + 2], face_axis(f))
        &&& opposite_corners(vs[6 * f + 1], vs[6 * f + 4], face_axis(f))
        &&& vs[6 * f + 1] != vs[6 * f]
        &&& vs[6 * f + 1] != vs[6 * f + 2]
    } by {
        if f == 0 {} else if f == 1 {} else if f == 2 {} else if f == 3 {} else if f == 4 {} else {}
    }
}

/// Whether a vertex sits at position `(x, y)` with texture coordinate
/// `(u, v)`.
pub open spec fn at_corner(vtx: StaticVertex, x: u32, y: u32, u: u32, v: u32) -> bool {
    vtx.x == x && vtx.y == y && vtx.u == u && vtx.v == v
}

/// Whether `vs` draws each rectangle of `source` (position `[left, top,
/// right, bottom]`, then texture `[left, top, right, bottom]`) as six
/// vertices: the triangle left-top, left-bottom, right-bottom, then the
/// triangle right-bottom, right-top, left-top, so that the two share their
/// diagonal and together cover the rectangle; every vertex lies at depth zero
/// with its normal along negative Z.
pub open spec fn draws_ui_rects(vs: Seq<StaticVertex>, source: Seq<[u32; 8]>) -> bool {
    &&& vs.len() == 6 * source.len()
    &&& forall|k: int|
        0 <= k < source.len() ==> {
            let s = #[trigger] source[k]@;
            let b = 6 * k;
            &&& at_corner(vs[b], s[0], s[1], s[4], s[5])
            &&& at_corner(vs[b + 1], s[0], s[3], s[4], s[7])
            &&& at_corner(vs[b + 2], s[2], s[3], s[6], s[7])
            &&& vs[b + 3] == vs[b + 2]
            &&& at_corner(vs[b + 4], s[2], s[1], s[6], s[5])
            &&& vs[b + 5] == vs[b]
        }
    &&& forall|j: int|
        0 <= j < vs.len() ==> {
            &&& (#[trigger] vs[j]).z == FLOAT_ZERO_BITS
            &&& vs[j].nx == FLOAT_ZERO_BITS
            &&& vs[j].ny == FLOAT_ZERO_BITS
            &&& vs[j].nz == FLOAT_MINUS_ONE_BITS
        }
}

/// The vertices of rectangle `k` are the six starting at `6 * k`.
proof fn lemma_ui_rects_index(source: Seq<[u32; 8]>, k: int, i: int)
    requires
        0 <= k < source.len(),
        0 <= i < 6,
    ensures
        ui_rects_vertices(source).len() == 6 * source.len(),
        ui_rects_vertices(source)[6 * k + i] == ui_rect_vertices(source[k]@)[i],
    decreases source.len(),
{
    lemma_ui_rects_count(source);
    let p = source.drop_last();
    lemma_ui_rects_count(p);
    if k < source.len() - 1 {
        lemma_ui_rects_index(p, k, i);
    }
}

/// Every UI rectangle becomes two triangles that cover it exactly, at depth
/// zero and facing negative Z (see [`draws_ui_rects`]).
pub proof fn lemma_ui_rects_cover_rectangles(source: Seq<[u32; 8]>)
    ensures
        draws_ui_rects(ui_rects_vertices(source), source),
{
    let vs = ui_rects_vertices(source);
    lemma_ui_rects_count(source);
    assert forall|k: int| 0 <= k < source.len() implies {
        let s = #[trigger] source[k]@;
        let b = 6 * k;
        &&& at_corner(vs[b], s[0], s[1], s[4], s[5])
        &&& at_corner(vs[b + 1], s[0], s[3], s[4], s[7])
        &&& at_corner(vs[b + 2], s[2], s[3], s[6], s[7])
        &&& vs[b + 3] == vs[b + 2]
        &&& at_corner(vs[b + 4], s[2], s[1], s[6], s[5])
        &&& vs[b + 5] == vs[b]
    } by {
        lemma_ui_rects_index(source, k, 0);
        lemma_ui_rects_index(source, k, 1);
        lemma_ui_rects_index(source, k, 2);
        lemma_ui_rects_index(source, k, 3);
        lemma_ui_rects_index(source, k, 4);
        lemma_ui_rects_index(source, k, 5);
    }
    assert forall|j: int| 0 <= j < vs.len() implies {
        &&& (#[trigger] vs[j]).z == FLOAT_ZERO_BITS
        &&& vs[j].nx == FLOAT_ZERO_BITS
        &&& vs[j].ny == FLOAT_ZERO_BITS
        &&& vs[j].nz == FLOAT_MINUS_ONE_BITS
    } by {
        let k = j / 6;
        let i = j % 6;
        assert(j == 6 * k + i);
        lemma_ui_rects_index(source, k, i);
    }
}

} // verus!
