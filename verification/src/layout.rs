use vstd::prelude::*;

verus! {

/// Bytes per agent record: two 32-bit position lanes then two velocity lanes.
pub const BOID_STRIDE: u64 = 16;
/// Byte offset of the position lanes inside a record.
pub const POSITION_OFFSET: u64 = 0;
/// Byte offset of the velocity lanes inside a record.
pub const VELOCITY_OFFSET: u64 = 8;
/// Bytes per shared-mesh vertex: one pair of 32-bit lanes.
pub const MESH_VERTEX_STRIDE: u64 = 8;
/// Vertices in the shared triangle mesh, drawn once per instance.
pub const MESH_VERTICES: u32 = 3;

/// One agent record as the host handles it: four opaque 32-bit lanes, the
/// position pair then the velocity pair. The host never interprets the lanes;
/// it only lays them out byte-exactly for the kernels.
#[derive(Clone, Copy, Debug, PartialEq, Eq, Structural)]
pub struct Boid {
    /// First position lane.
    pub pos_x: u32,
    /// Second position lane.
    pub pos_y: u32,
    /// First velocity lane.
    pub vel_x: u32,
    /// Second velocity lane.
    pub vel_y: u32,
}

/// The four bytes of a 32-bit lane, least-significant first.
pub open spec fn u32_le_bytes(x: u32) -> Seq<u8> {
    seq![
        (x & 0xff) as u8,
        ((x >> 8) & 0xff) as u8,
        ((x >> 16) & 0xff) as u8,
        ((x >> 24) & 0xff) as u8,
    ]
}

/// The sixteen bytes of one record: position lanes at offset 0, velocity
/// lanes at offset 8, every lane little-endian.
pub open spec fn boid_bytes(b: Boid) -> Seq<u8> {
    u32_le_bytes(b.pos_x) + u32_le_bytes(b.pos_y) + u32_le_bytes(b.vel_x) + u32_le_bytes(b.vel_y)
}

/// The bytes of a whole agent array: the records in order, back to back.
pub open spec fn boids_bytes(s: Seq<Boid>) -> Seq<u8>
    decreases s.len(),
{
    if s.len() == 0 {
        Seq::empty()
    } else {
        boids_bytes(s.drop_last()) + boid_bytes(s.last())
    }
}

/// Appends the four little-endian bytes of one lane.
fn push_u32_le(out: &mut Vec<u8>, x: u32)
    ensures
        final(out)@ == old(out)@ + u32_le_bytes(x),
{
    out.push((x & 0xff) as u8);
    out.push(((x >> 8) & 0xff) as u8);
    out.push(((x >> 16) & 0xff) as u8);
    out.push(((x >> 24) & 0xff) as u8);
    proof {
        assert(out@ =~= old(out)@ + u32_le_bytes(x));
    }
}

/// Encodes one agent record into its sixteen bytes.
pub fn encode_boid(b: &Boid) -> (bytes: Vec<u8>)
    ensures
        bytes@ == boid_bytes(*b),
        bytes@.len() == BOID_STRIDE,
{
    let mut bytes: Vec<u8> = Vec::new();
    push_u32_le(&mut bytes, b.pos_x);
    push_u32_le(&mut bytes, b.pos_y);
    push_u32_le(&mut bytes, b.vel_x);
    push_u32_le(&mut bytes, b.vel_y);
    proof {
        assert(bytes@ =~= boid_bytes(*b));
    }
    bytes
}

/// The layout contract shared with both kernels: a record is sixteen bytes,
/// its position lanes the eight bytes from `POSITION_OFFSET` and its velocity
/// lanes the eight bytes from `VELOCITY_OFFSET`.
pub proof fn lemma_boid_layout(b: Boid)
    ensures
        boid_bytes(b).len() == BOID_STRIDE,
        boid_bytes(b).subrange(POSITION_OFFSET as int, POSITION_OFFSET + 8) =~= u32_le_bytes(
            b.pos_x,
        ) + u32_le_bytes(b.pos_y),
        boid_bytes(b).subrange(VELOCITY_OFFSET as int, VELOCITY_OFFSET + 8) =~= u32_le_bytes(
            b.vel_x,
        ) + u32_le_bytes(b.vel_y),
{
}

/// Every encoded array is exactly sixteen bytes per record.
pub proof fn lemma_boids_bytes_len(s: Seq<Boid>)
    ensures
        boids_bytes(s).len() == 16 * s.len(),
    decreases s.len(),
{
    if s.len() > 0 {
        lemma_boids_bytes_len(s.drop_last());
    }
}

/// The record of agent `i` sits at byte offset `16 * i` of the encoded array.
pub proof fn lemma_boids_bytes_index(s: Seq<Boid>, i: int)
    requires
        0 <= i < s.len(),
    ensures
        boids_bytes(s).subrange(16 * i, 16 * i + 16) =~= boid_bytes(s[i]),
    decreases s.len(),
{
    lemma_boids_bytes_len(s);
    lemma_boids_bytes_len(s.drop_last());
    if i == s.len() - 1 {
        assert(boids_bytes(s).subrange(16 * i, 16 * i + 16) =~= boid_bytes(s[i]));
    } else {
        lemma_boids_bytes_index(s.drop_last(), i);
        assert(boids_bytes(s).subrange(16 * i, 16 * i + 16) =~= boids_bytes(
            s.drop_last(),
        ).subrange(16 * i, 16 * i + 16));
    }
}

/// Encodes a whole agent array for upload, records in order, back to back.
pub fn encode_boids(list: &Vec<Boid>) -> (bytes: Vec<u8>)
    ensures
        bytes@ == boids_bytes(list@),
        bytes@.len() == 16 * list@.len(),
{
    let mut bytes: Vec<u8> = Vec::new();
    let mut idx: usize = 0;
    while idx < list.len()
        invariant
            idx <= list@.len(),
            bytes@ == boids_bytes(list@.take(idx as int)),
        decreases list@.len() - idx,
    {
        let b = list[idx];
        push_u32_le(&mut bytes, b.pos_x);
        push_u32_le(&mut bytes, b.pos_y);
        push_u32_le(&mut bytes, b.vel_x);
        push_u32_le(&mut bytes, b.vel_y);
        proof {
            assert(list@.take(idx + 1).drop_last() =~= list@.take(idx as int));
            assert(list@.take(idx + 1).last() == list@[idx as int]);
            assert(bytes@ =~= boids_bytes(list@.take(idx + 1)));
        }
        idx = idx + 1;
    }
    proof {
        assert(list@.take(list@.len() as int) =~= list@);
        lemma_boids_bytes_len(list@);
    }
    bytes
}

/// Exact byte size of one agent-state buffer for a population of `count`.
/// This size is also what the compute bindings advertise, so the kernel can
/// bounds-check against it.
pub fn buffer_size(count: u32) -> (size: u64)
    ensures
        size == count * BOID_STRIDE,
{
    (count as u64) * BOID_STRIDE
}

/// How a vertex stream steps through its buffer.
#[derive(Clone, Copy, Debug, PartialEq, Eq, Structural)]
pub enum StepMode {
    /// One element per mesh vertex.
    Vertex,
    /// One element per drawn instance.
    Instance,
}

/// One attribute of a vertex stream. Every attribute of this pipeline is a
/// pair of 32-bit lanes, so only its byte offset and its shader location vary.
#[derive(Clone, Copy, Debug, PartialEq, Eq, Structural)]
pub struct VertexAttribute {
    /// Byte offset of the attribute inside one stream element.
    pub offset: u64,
    /// Shader input slot the attribute feeds.
    pub shader_location: u32,
}

/// Description of one vertex stream, in plain values; the renderer turns it
/// into its own buffer-layout descriptor unchanged.
#[derive(Debug)]
pub struct VertexLayout {
    /// Bytes between consecutive stream elements.
    pub array_stride: u64,
    /// Whether the stream advances per vertex or per instance.
    pub step_mode: StepMode,
    /// The attributes of one stream element.
    pub attributes: Vec<VertexAttribute>,
}

impl Boid {
    /// Vertex-stream description of the per-instance agent buffer: one record
    /// per instance, `BOID_STRIDE` bytes apart, the position lanes feeding
    /// shader location 0 and the velocity lanes location 1.
    pub fn desc() -> (layout: VertexLayout)
        ensures
            layout.array_stride == BOID_STRIDE,
            layout.step_mode == StepMode::Instance,
            layout.attributes@.len() == 2,
            layout.attributes@[0] == (VertexAttribute {
                offset: POSITION_OFFSET,
                shader_location: 0,
            }),
            layout.attributes@[1] == (VertexAttribute {
                offset: VELOCITY_OFFSET,
                shader_location: 1,
            }),
    {
        let mut attributes: Vec<VertexAttribute> = Vec::new();
        attributes.push(VertexAttribute { offset: POSITION_OFFSET, shader_location: 0 });
        attributes.push(VertexAttribute { offset: VELOCITY_OFFSET, shader_location: 1 });
        VertexLayout { array_stride: BOID_STRIDE, step_mode: StepMode::Instance, attributes }
    }
}

/// Vertex-stream description of the shared triangle mesh: one vertex pair
/// per mesh vertex, feeding shader location 2.
pub fn triangle_buffer_layout() -> (layout: VertexLayout)
    ensures
        layout.array_stride == MESH_VERTEX_STRIDE,
        layout.step_mode == StepMode::Vertex,
        layout.attributes@.len() == 1,
        layout.attributes@[0] == (VertexAttribute { offset: 0, shader_location: 2 }),
{
    let mut attributes: Vec<VertexAttribute> = Vec::new();
    attributes.push(VertexAttribute { offset: 0, shader_location: 2 });
    VertexLayout { array_stride: MESH_VERTEX_STRIDE, step_mode: StepMode::Vertex, attributes }
}

/// One storage binding of the compute kernel's bind-group layout.
#[derive(Clone, Copy, Debug, PartialEq, Eq, Structural)]
pub struct StorageBinding {
    /// Binding slot inside the group.
    pub binding: u32,
    /// Whether the kernel may only read the bound buffer.
    pub read_only: bool,
    /// Least byte size the bound buffer must have.
    pub min_size: u64,
}

/// The compute kernel's binding contract for a population of `count`:
/// binding 0 is the read-only previous state and binding 1 the read-write
/// next state, each sized to exactly `count` records.
pub fn compute_bindings(count: u32) -> (bindings: (StorageBinding, StorageBinding))
    ensures
        bindings.0.binding == 0,
        bindings.0.read_only == true,
        bindings.0.min_size == count * BOID_STRIDE,
        bindings.1.binding == 1,
        bindings.1.read_only == false,
        bindings.1.min_size == count * BOID_STRIDE,
{
    let size: u64 = buffer_size(count);
    (
        StorageBinding { binding: 0, read_only: true, min_size: size },
        StorageBinding { binding: 1, read_only: false, min_size: size },
    )
}

} // verus!
