//! The static vertex type and the binary model file format.
//!
//! A vertex holds eight IEEE-754 single-precision components (position,
//! normal, texture coordinate), each kept as its 32-bit pattern, which is
//! exactly what the binary file stores.
//!
//! Binary layout (little-endian): the byte length `n` of the UTF-8 name as a
//! `u32`, the `n` name bytes, the vertex count `c` as a `u32`, then `c`
//! vertices of 32 bytes each, every component a `u32` in order
//! `x y z nx ny nz u v`. Bytes after the last vertex are ignored.
//!
//! The byte order is fixed rather than the host's, so that a file means the
//! same on every machine and reading back what was written is provable; on
//! little-endian hosts it is also the host's order.

use vstd::prelude::*;
use vstd::utf8::*;

verus! {

/// Size of one vertex in the binary format.
pub const VERTEX_SIZE_BYTES: usize = 32;

/// Number of single-precision components in a vertex.
pub const VERTEX_FLOAT_COUNT: usize = 8;

/// Bit pattern of the single-precision value `0.0`.
pub const FLOAT_ZERO_BITS: u32 = 0x0000_0000;

/// Bit pattern of the single-precision value `1.0`.
pub const FLOAT_ONE_BITS: u32 = 0x3f80_0000;

/// Bit pattern of the single-precision value `-1.0`.
pub const FLOAT_MINUS_ONE_BITS: u32 = 0xbf80_0000;

/// The sign bit of a single-precision value.
pub const FLOAT_SIGN_BIT: u32 = 0x8000_0000;

/// A three-dimensional vertex with a position, a normal and a two-dimensional
/// texture coordinate; every component is the bit pattern of an `f32`.
#[derive(Copy, Clone, Debug, PartialEq, Eq, Structural)]
pub struct StaticVertex {
    pub x: u32,
    pub y: u32,
    pub z: u32,
    pub nx: u32,
    pub ny: u32,
    pub nz: u32,
    pub u: u32,
    pub v: u32,
}

impl StaticVertex {
    /// Construct a new instance from individual components.
    pub fn from_components(
        x: u32,
        y: u32,
        z: u32,
        nx: u32,
        ny: u32,
        nz: u32,
        u: u32,
        v: u32,
    ) -> (r: StaticVertex)
        ensures
            r == (StaticVertex { x, y, z, nx, ny, nz, u, v }),
    {
        StaticVertex { x, y, z, nx, ny, nz, u, v }
    }
}

impl Default for StaticVertex {
    /// Position at the origin, texture coordinates at the origin, and a normal
    /// pointing in the positive Z direction.
    fn default() -> (r: Self)
        ensures
            r == (StaticVertex {
                x: FLOAT_ZERO_BITS,
                y: FLOAT_ZERO_BITS,
                z: FLOAT_ZERO_BITS,
                nx: FLOAT_ZERO_BITS,
                ny: FLOAT_ZERO_BITS,
                nz: FLOAT_ONE_BITS,
                u: FLOAT_ZERO_BITS,
                v: FLOAT_ZERO_BITS,
            }),
    {
        StaticVertex {
            x: FLOAT_ZERO_BITS,
            y: FLOAT_ZERO_BITS,
            z: FLOAT_ZERO_BITS,
            nx: FLOAT_ZERO_BITS,
            ny: FLOAT_ZERO_BITS,
            nz: FLOAT_ONE_BITS,
            u: FLOAT_ZERO_BITS,
            v: FLOAT_ZERO_BITS,
        }
    }
}

/// A named set of static vertices.
pub struct Model {
    pub name: String,
    pub vertices: Vec<StaticVertex>,
}

/// The four little-endian bytes of a `u32`.
pub open spec fn u32_le_bytes(v: u32) -> Seq<u8> {
    seq![
        (v & 0xff) as u8,
        ((v >> 8u32) & 0xff) as u8,
        ((v >> 16u32) & 0xff) as u8,
        ((v >> 24u32) & 0xff) as u8,
    ]
}

/// The `u32` whose little-endian bytes are the first four of `b`.
pub open spec fn u32_from_le(b: Seq<u8>) -> u32 {
    (b[0] as u32) | ((b[1] as u32) << 8u32) | ((b[2] as u32) << 16u32) | ((b[3] as u32) << 24u32)
}

/// The 32 bytes of one vertex.
pub open spec fn vertex_bytes(v: StaticVertex) -> Seq<u8> {
    u32_le_bytes(v.x) + u32_le_bytes(v.y) + u32_le_bytes(v.z) + u32_le_bytes(v.nx) + u32_le_bytes(
        v.ny,
    ) + u32_le_bytes(v.nz) + u32_le_bytes(v.u) + u32_le_bytes(v.v)
}

/// The vertex stored in the first 32 bytes of `b`.
pub open spec fn vertex_from_bytes(b: Seq<u8>) -> StaticVertex {
    StaticVertex {
        x: u32_from_le(b.subrange(0, 4)),
        y: u32_from_le(b.subrange(4, 8)),
        z: u32_from_le(b.subrange(8, 12)),
        nx: u32_from_le(b.subrange(12, 16)),
        ny: u32_from_le(b.subrange(16, 20)),
        nz: u32_from_le(b.subrange(20, 24)),
        u: u32_from_le(b.subrange(24, 28)),
        v: u32_from_le(b.subrange(28, 32)),
    }
}

/// The bytes of a sequence of vertices, one after another.
pub open spec fn vertices_bytes(vs: Seq<StaticVertex>) -> Seq<u8>
    decreases vs.len(),
{
    if vs.len() == 0 {
        Seq::empty()
    } else {
        vertices_bytes(vs.drop_last()) + vertex_bytes(vs.last())
    }
}

/// The binary file contents of a model. Each length is stored truncated to
/// 32 bits.
pub open spec fn model_bytes(name: Seq<char>, vs: Seq<StaticVertex>) -> Seq<u8> {
    let nb = encode_utf8(name);
    u32_le_bytes(nb.len() as u32) + nb + u32_le_bytes(vs.len() as u32) + vertices_bytes(vs)
}

/// Offset of the first vertex in a file whose name takes `n` bytes.
pub open spec fn vertex_base(n: int) -> int {
    8 + n
}

/// What a binary model file holds: its name and its vertices, or `None` when
/// the bytes are too short for the lengths they state or the name is not
/// UTF-8.
pub open spec fn parse_model(b: Seq<u8>) -> Option<(Seq<char>, Seq<StaticVertex>)> {
    if b.len() < 4 {
        None
    } else {
        let n = u32_from_le(b.subrange(0, 4)) as int;
        if b.len() < 8 + n {
            None
        } else {
            let nb = b.subrange(4, 4 + n);
            if !valid_utf8(nb) {
                None
            } else {
                let count = u32_from_le(b.subrange(4 + n, 8 + n)) as int;
                if b.len() < vertex_base(n) + count * 32 {
                    None
                } else {
                    Some(
                        (
                            decode_utf8(nb),
                            Seq::new(
                                count as nat,
                                |i: int|
                                    vertex_from_bytes(
                                        b.subrange(
                                            vertex_base(n) + i * 32,
                                            vertex_base(n) + i * 32 + 32,
                                        ),
                                    ),
                            ),
                        ),
                    )
                }
            }
        }
    }
}

/// `std::str::from_utf8`: succeeds exactly on valid UTF-8, and the string it
/// gives has those bytes.
#[verifier::external_body]
fn utf8_str(bytes: &[u8]) -> (r: Option<&str>)
    ensures
        r is Some <==> valid_utf8(bytes@),
        r matches Some(s) ==> encode_utf8(s@) == bytes@,
{
    std::str::from_utf8(bytes).ok()
}

/// Read a little-endian `u32` at `off`.
fn read_u32_le(b: &[u8], off: usize) -> (r: u32)
    requires
        off + 4 <= b@.len(),
    ensures
        r == u32_from_le(b@.subrange(off as int, off + 4)),
{
    let b0 = b[off] as u32;
    let b1 = b[off + 1] as u32;
    let b2 = b[off + 2] as u32;
    let b3 = b[off + 3] as u32;
    let ghost s = b@.subrange(off as int, off + 4);
    assert(s[0] == b@[off as int] && s[1] == b@[off + 1] && s[2] == b@[off + 2] && s[3] == b@[off
        + 3]);
    b0 | (b1 << 8u32) | (b2 << 16u32) | (b3 << 24u32)
}

/// Append the little-endian bytes of `v`.
fn push_u32_le(out: &mut Vec<u8>, v: u32)
    ensures
        final(out)@ == old(out)@ + u32_le_bytes(v),
{
    out.push((v & 0xff) as u8);
    out.push(((v >> 8u32) & 0xff) as u8);
    out.push(((v >> 16u32) & 0xff) as u8);
    out.push(((v >> 24u32) & 0xff) as u8);
    assert(out@ =~= old(out)@ + u32_le_bytes(v));
}


/// Append the 32 bytes of one vertex.
fn push_vertex(out: &mut Vec<u8>, v: &StaticVertex)
    ensures
        final(out)@ == old(out)@ + vertex_bytes(*v),
{
    push_u32_le(out, v.x);
    push_u32_le(out, v.y);
    push_u32_le(out, v.z);
    push_u32_le(out, v.nx);
    push_u32_le(out, v.ny);
    push_u32_le(out, v.nz);
    push_u32_le(out, v.u);
    push_u32_le(out, v.v);
    assert(out@ =~= old(out)@ + vertex_bytes(*v));
}

/// Read the vertex stored at `off`.
fn read_vertex(b: &[u8], off: usize) -> (r: StaticVertex)
    requires
        off + 32 <= b@.len(),
    ensures
        r == vertex_from_bytes(b@.subrange(off as int, off + 32)),
{
    let _len = b.len();
    let ghost s = b@.subrange(off as int, off + 32);
    let r = StaticVertex {
        x: read_u32_le(b, off),
        y: read_u32_le(b, off + 4),
        z: read_u32_le(b, off + 8),
        nx: read_u32_le(b, off + 12),
        ny: read_u32_le(b, off + 16),
        nz: read_u32_le(b, off + 20),
        u: read_u32_le(b, off + 24),
        v: read_u32_le(b, off + 28),
    };
    assert(s.subrange(0, 4) =~= b@.subrange(off as int, off + 4));
    assert(s.subrange(4, 8) =~= b@.subrange(off + 4, off + 8));
    assert(s.subrange(8, 12) =~= b@.subrange(off + 8, off + 12));
    assert(s.subrange(12, 16) =~= b@.subrange(off + 12, off + 16));
    assert(s.subrange(16, 20) =~= b@.subrange(off + 16, off + 20));
    assert(s.subrange(20, 24) =~= b@.subrange(off + 20, off + 24));
    assert(s.subrange(24, 28) =~= b@.subrange(off + 24, off + 28));
    assert(s.subrange(28, 32) =~= b@.subrange(off + 28, off + 32));
    r
}

impl Model {
    /// Construct a new instance from a name and a set of vertices.
    pub fn new_from_components(name: String, vertices: Vec<StaticVertex>) -> (m: Model)
        ensures
            m.name@ == name@,
            m.vertices@ == vertices@,
    {
        Model { name, vertices }
    }

    /// The binary file contents for this model (see the module documentation);
    /// the name length and the vertex count are written truncated to 32 bits.
    pub fn to_bytes(&self) -> (r: Vec<u8>)
        ensures
            r@ == model_bytes(self.name@, self.vertices@),
    {
        let name_bytes = self.name.as_str().as_bytes();
        let ghost nb = encode_utf8(self.name@);
        assert(name_bytes@ == nb);
        let mut out: Vec<u8> = Vec::new();
        push_u32_le(&mut out, name_bytes.len() as u32);
        let ghost head = out@;
        let mut i: usize = 0;
        while i < name_bytes.len()
            invariant
                name_bytes@ == nb,
                0 <= i <= nb.len(),
                out@ == head + nb.take(i as int),
            decreases nb.len() - i,
        {
            out.push(name_bytes[i]);
            assert(nb.take(i + 1) =~= nb.take(i as int).push(nb[i as int]));
            i = i + 1;
        }
        assert(nb.take(nb.len() as int) =~= nb);
        push_u32_le(&mut out, self.vertices.len() as u32);
        let ghost head2 = out@;
        let ghost vs = self.vertices@;
        let mut j: usize = 0;
        assert(vs.take(0) =~= Seq::<StaticVertex>::empty());
        assert(head2 + vertices_bytes(vs.take(0)) =~= head2);
        while j < self.vertices.len()
            invariant
                vs == self.vertices@,
                0 <= j <= vs.len(),
                out@ == head2 + vertices_bytes(vs.take(j as int)),
            decreases vs.len() - j,
        {
            push_vertex(&mut out, &self.vertices[j]);
            assert(vs.take(j + 1).drop_last() =~= vs.take(j as int));
            assert(out@ =~= head2 + vertices_bytes(vs.take(j + 1)));
            j = j + 1;
        }
        assert(vs.take(vs.len() as int) =~= vs);
        assert(out@ =~= model_bytes(self.name@, self.vertices@));
        out
    }

    /// Read a model from binary file contents (see the module documentation).
    /// Fails when the bytes are shorter than the lengths they state, or when
    /// the name is not UTF-8.
    pub fn new_from_bytes(bytes: &[u8]) -> (r: Result<Model, String>)
        ensures
            match parse_model(bytes@) {
                Some((name, vs)) => r matches Ok(m) && m.name@ == name && m.vertices@ == vs,
                None => r matches Err(e) && e@ == "Malformed model data"@,
            },
    {
        let len = bytes.len();
        if len < 8 {
            return Err(String::from_str("Malformed model data"));
        }
        let n32 = read_u32_le(bytes, 0);
        let n = n32 as usize;
        if len - 8 < n {
            return Err(String::from_str("Malformed model data"));
        }
        let name_slice = vstd::slice::slice_subrange(bytes, 4, 4 + n);
        let name = match utf8_str(name_slice) {
            Some(s) => s.to_owned(),
            None => {
                return Err(String::from_str("Malformed model data"));
            },
        };
        proof {
            vstd::utf8::encode_utf8_decode_utf8(name@);
        }
        let count = read_u32_le(bytes, 4 + n) as usize;
        let base: usize = 8 + n;
        let avail: usize = len - base;
        if count > avail / 32 {
            assert(count * 32 > avail) by (nonlinear_arith)
                requires
                    count > avail / 32,
            ;
            return Err(String::from_str("Malformed model data"));
        }
        assert(count * 32 <= avail) by (nonlinear_arith)
            requires
                count <= avail / 32,
        ;
        let ghost b = bytes@;
        let ghost expected = Seq::new(
            count as nat,
            |i: int| vertex_from_bytes(b.subrange(vertex_base(n as int) + i * 32, vertex_base(n as int) + i * 32 + 32)),
        );
        let mut vertices: Vec<StaticVertex> = Vec::new();
        let mut i: usize = 0;
        while i < count
            invariant
                b == bytes@,
                len == b.len(),
                base == vertex_base(n as int),
                base + count * 32 <= len,
                0 <= i <= count,
                vertices@ == expected.take(i as int),
                expected.len() == count,
                forall|k: int| 0 <= k < count ==> #[trigger] expected[k] == vertex_from_bytes(b.subrange(base + k * 32, base + k * 32 + 32)),
            decreases count - i,
        {
            let off = base + i * 32;
            let vtx = read_vertex(bytes, off);
            vertices.push(vtx);
            assert(expected.take(i + 1) =~= expected.take(i as int).push(expected[i as int]));
            i = i + 1;
        }
        assert(expected.take(count as int) =~= expected);
        Ok(Model { name, vertices })
    }
}


proof fn lemma_u32_le_roundtrip(v: u32)
    ensures
        u32_from_le(u32_le_bytes(v)) == v,
{
    let b = u32_le_bytes(v);
    let b0 = (v & 0xff) as u8;
    let b1 = ((v >> 8u32) & 0xff) as u8;
    let b2 = ((v >> 16u32) & 0xff) as u8;
    let b3 = ((v >> 24u32) & 0xff) as u8;
    assert(b[0] == b0 && b[1] == b1 && b[2] == b2 && b[3] == b3);
    assert((b0 as u32) | ((b1 as u32) << 8u32) | ((b2 as u32) << 16u32) | ((b3 as u32) << 24u32)
        == v) by (bit_vector)
        requires
            b0 == (v & 0xff) as u8,
            b1 == ((v >> 8u32) & 0xff) as u8,
            b2 == ((v >> 16u32) & 0xff) as u8,
            b3 == ((v >> 24u32) & 0xff) as u8,
    ;
}

proof fn lemma_vertex_roundtrip(v: StaticVertex)
    ensures
        vertex_from_bytes(vertex_bytes(v)) == v,
{
    let b = vertex_bytes(v);
    assert(b.len() == 32);
    assert(b.subrange(0, 4) =~= u32_le_bytes(v.x));
    assert(b.subrange(4, 8) =~= u32_le_bytes(v.y));
    assert(b.subrange(8, 12) =~= u32_le_bytes(v.z));
    assert(b.subrange(12, 16) =~= u32_le_bytes(v.nx));
    assert(b.subrange(16, 20) =~= u32_le_bytes(v.ny));
    assert(b.subrange(20, 24) =~= u32_le_bytes(v.nz));
    assert(b.subrange(24, 28) =~= u32_le_bytes(v.u));
    assert(b.subrange(28, 32) =~= u32_le_bytes(v.v));
    lemma_u32_le_roundtrip(v.x);
    lemma_u32_le_roundtrip(v.y);
    lemma_u32_le_roundtrip(v.z);
    lemma_u32_le_roundtrip(v.nx);
    lemma_u32_le_roundtrip(v.ny);
    lemma_u32_le_roundtrip(v.nz);
    lemma_u32_le_roundtrip(v.u);
    lemma_u32_le_roundtrip(v.v);
}

proof fn lemma_vertices_bytes_len(vs: Seq<StaticVertex>)
    ensures
        vertices_bytes(vs).len() == vs.len() * 32,
    decreases vs.len(),
{
    if vs.len() > 0 {
        lemma_vertices_bytes_len(vs.drop_last());
    }
}

proof fn lemma_vertices_bytes_chunk(vs: Seq<StaticVertex>, i: int)
    requires
        0 <= i < vs.len(),
    ensures
        vertices_bytes(vs).subrange(i * 32, i * 32 + 32) == vertex_bytes(vs[i]),
    decreases vs.len(),
{
    let prefix = vs.drop_last();
    lemma_vertices_bytes_len(prefix);
    let whole = vertices_bytes(vs);
    if i == vs.len() - 1 {
        assert(whole.subrange(i * 32, i * 32 + 32) =~= vertex_bytes(vs.last()));
    } else {
        lemma_vertices_bytes_chunk(prefix, i);
        assert(whole.subrange(i * 32, i * 32 + 32) =~= vertices_bytes(prefix).subrange(
            i * 32,
            i * 32 + 32,
        ));
    }
}

/// Reading back the binary contents written for a model gives that model,
/// its name and its vertices, whatever bytes follow them; this holds whenever
/// the name's UTF-8 length and the vertex count fit in the 32-bit fields.
pub proof fn lemma_model_bytes_roundtrip(name: Seq<char>, vs: Seq<StaticVertex>, extra: Seq<u8>)
    requires
        encode_utf8(name).len() <= u32::MAX,
        vs.len() <= u32::MAX,
    ensures
        parse_model(model_bytes(name, vs) + extra) == Some((name, vs)),
{
    let nb = encode_utf8(name);
    let n = nb.len() as int;
    let c = vs.len() as int;
    let vb = vertices_bytes(vs);
    let b = model_bytes(name, vs) + extra;
    lemma_vertices_bytes_len(vs);
    assert(b =~= u32_le_bytes(n as u32) + nb + u32_le_bytes(c as u32) + vb + extra);
    assert(b.subrange(0, 4) =~= u32_le_bytes(n as u32));
    lemma_u32_le_roundtrip(n as u32);
    assert(b.subrange(4, 4 + n) =~= nb);
    vstd::utf8::encode_utf8_valid_utf8(name);
    vstd::utf8::encode_utf8_decode_utf8(name);
    assert(b.subrange(4 + n, 8 + n) =~= u32_le_bytes(c as u32));
    lemma_u32_le_roundtrip(c as u32);
    let base = vertex_base(n);
    assert(b.len() >= base + c * 32);
    let parsed = Seq::new(
        c as nat,
        |i: int| vertex_from_bytes(b.subrange(base + i * 32, base + i * 32 + 32)),
    );
    assert forall|i: int| 0 <= i < c implies #[trigger] parsed[i] == vs[i] by {
        lemma_vertices_bytes_chunk(vs, i);
        assert(b.subrange(base + i * 32, base + i * 32 + 32) =~= vb.subrange(i * 32, i * 32 + 32));
        lemma_vertex_roundtrip(vs[i]);
    }
    assert(parsed =~= vs);
}


proof fn lemma_u32_from_le_roundtrip(b: Seq<u8>)
    requires
        b.len() == 4,
    ensures
        u32_le_bytes(u32_from_le(b)) == b,
{
    let b0 = b[0];
    let b1 = b[1];
    let b2 = b[2];
    let b3 = b[3];
    let v = u32_from_le(b);
    assert(v == (b0 as u32) | ((b1 as u32) << 8u32) | ((b2 as u32) << 16u32) | ((b3 as u32)
        << 24u32));
    assert((v & 0xff) as u8 == b0 && ((v >> 8u32) & 0xff) as u8 == b1 && ((v >> 16u32) & 0xff) as u8
        == b2 && ((v >> 24u32) & 0xff) as u8 == b3) by (bit_vector)
        requires
            v == (b0 as u32) | ((b1 as u32) << 8u32) | ((b2 as u32) << 16u32) | ((b3 as u32)
                << 24u32),
    ;
    assert(u32_le_bytes(v) =~= b);
}

proof fn lemma_vertex_from_bytes_roundtrip(b: Seq<u8>)
    requires
        b.len() == 32,
    ensures
        vertex_bytes(vertex_from_bytes(b)) == b,
{
    let v = vertex_from_bytes(b);
    lemma_u32_from_le_roundtrip(b.subrange(0, 4));
    lemma_u32_from_le_roundtrip(b.subrange(4, 8));
    lemma_u32_from_le_roundtrip(b.subrange(8, 12));
    lemma_u32_from_le_roundtrip(b.subrange(12, 16));
    lemma_u32_from_le_roundtrip(b.subrange(16, 20));
    lemma_u32_from_le_roundtrip(b.subrange(20, 24));
    lemma_u32_from_le_roundtrip(b.subrange(24, 28));
    lemma_u32_from_le_roundtrip(b.subrange(28, 32));
    assert(vertex_bytes(v) =~= b);
}

/// The bytes a model file was read from begin with exactly the binary
/// contents written for the model that was read: nothing a file holds before
/// its last vertex is lost or changed by reading it.
pub proof fn lemma_parse_model_bytes(b: Seq<u8>)
    requires
        parse_model(b) is Some,
    ensures
        ({
            let (name, vs) = parse_model(b).unwrap();
            let len = model_bytes(name, vs).len();
            len <= b.len() && model_bytes(name, vs) == b.subrange(0, len as int)
        }),
{
    let (name, vs) = parse_model(b).unwrap();
    let n = u32_from_le(b.subrange(0, 4)) as int;
    let nb = b.subrange(4, 4 + n);
    let c = u32_from_le(b.subrange(4 + n, 8 + n)) as int;
    let base = vertex_base(n);
    vstd::utf8::decode_utf8_encode_utf8(nb);
    assert(encode_utf8(name) == nb);
    lemma_u32_from_le_roundtrip(b.subrange(0, 4));
    lemma_u32_from_le_roundtrip(b.subrange(4 + n, 8 + n));
    assert(vs.len() == c);
    let vb = vertices_bytes(vs);
    lemma_vertices_bytes_len(vs);
    let region = b.subrange(base, base + c * 32);
    assert forall|i: int| 0 <= i < c implies #[trigger] vb.subrange(i * 32, i * 32 + 32)
        == region.subrange(i * 32, i * 32 + 32) by {
        lemma_vertices_bytes_chunk(vs, i);
        assert(region.subrange(i * 32, i * 32 + 32) =~= b.subrange(
            base + i * 32,
            base + i * 32 + 32,
        ));
        lemma_vertex_from_bytes_roundtrip(b.subrange(base + i * 32, base + i * 32 + 32));
    }
    assert(vb =~= region) by {
        assert forall|k: int| 0 <= k < vb.len() implies vb[k] == region[k] by {
            let i = k / 32;
            assert(0 <= i < c && i * 32 <= k < i * 32 + 32) by (nonlinear_arith)
                requires
                    0 <= k < c * 32,
                    i == k / 32,
            ;
            assert(vb.subrange(i * 32, i * 32 + 32)[k - i * 32] == vb[k]);
            assert(region.subrange(i * 32, i * 32 + 32)[k - i * 32] == region[k]);
        }
    }
    let mb = model_bytes(name, vs);
    assert(mb =~= b.subrange(0, mb.len() as int));
}

} // verus!
