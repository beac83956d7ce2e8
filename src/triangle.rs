//! The per-frame plan of the triangle pipeline: how large its buffers must be,
//! where each mesh's geometry goes in them, and the draw call of each mesh.
use vstd::prelude::*;

verus! {

/// Size in bytes of one vertex: a position of two `f32` then a color of four.
pub const VERTEX_SIZE: u64 = 24;

/// Size in bytes of one index.
pub const INDEX_SIZE: u64 = 4;

/// Size in bytes of a mesh transform: a 4x4 matrix of `f32`.
pub const TRANSFORM_SIZE: u32 = 64;

/// Initial capacity, in records, of the uniform buffer.
pub const UNIFORM_BUFFER_SIZE: usize = 100;

/// Initial capacity, in vertices, of the vertex buffer.
pub const VERTEX_BUFFER_SIZE: usize = 10_000;

/// Initial capacity, in indices, of the index buffer.
pub const INDEX_BUFFER_SIZE: usize = 10_000;

/// A rectangle of whole pixels: its top-left corner and its size.
#[derive(Clone, Copy, Debug, PartialEq, Eq, Structural)]
pub struct Scissor {
    pub x: u32,
    pub y: u32,
    pub width: u32,
    pub height: u32,
}

/// What the pipeline needs to know of one mesh: how many vertices and indices
/// it has, and its clip bounds already scaled and snapped to pixels.
#[derive(Clone, Copy, Debug, PartialEq, Eq, Structural)]
pub struct MeshSpan {
    pub vertices: usize,
    pub indices: usize,
    pub clip: Scissor,
}

/// What a render pass does with the previous contents of its attachment.
#[derive(Clone, Copy, Debug, PartialEq, Eq, Structural)]
pub enum LoadOp {
    /// Keep them and draw on top.
    Load,
    /// Clear to transparent black first.
    Clear,
}

/// One indexed draw: where the mesh's geometry lies in the shared buffers,
/// which uniform record it reads, and the pixels it may touch.
#[derive(Clone, Copy, Debug, PartialEq, Eq, Structural)]
pub struct DrawCall {
    /// First vertex of the mesh in the vertex buffer.
    pub vertex_offset: u64,
    /// Number of vertices of the mesh.
    pub vertex_count: u64,
    /// First index of the mesh in the index buffer.
    pub index_offset: u64,
    /// Number of indices of the mesh, drawn as one instance.
    pub index_count: u32,
    /// Byte offset of the vertex data in the vertex buffer.
    pub vertex_byte_offset: u64,
    /// Byte offset of the index data in the index buffer.
    pub index_byte_offset: u64,
    /// Dynamic offset of the mesh's uniform record.
    pub uniform_offset: u32,
    /// The scissor rectangle, inside the target.
    pub scissor: Scissor,
}

/// Everything a frame of the triangle pipeline records, in order.
#[derive(Debug, PartialEq, Eq)]
pub struct FramePlan {
    /// Capacity the vertex buffer must have.
    pub total_vertices: usize,
    /// Capacity the index buffer must have.
    pub total_indices: usize,
    /// Capacity the uniform buffer must have, in records.
    pub total_uniforms: usize,
    /// Size of the single uniform upload.
    pub uniform_bytes: u64,
    /// How the render pass treats its attachment.
    pub load: LoadOp,
    /// Whether the pass renders into the multisampled attachment, which is
    /// then resolved and composited onto the target.
    pub multisampled: bool,
    /// One draw per mesh, in the order of the meshes.
    pub draws: Vec<DrawCall>,
}

/// Number of vertices of all the meshes together.
pub open spec fn vertex_total(meshes: Seq<MeshSpan>) -> nat
    decreases meshes.len(),
{
    if meshes.len() == 0 {
        0
    } else {
        (vertex_total(meshes.drop_last()) + meshes.last().vertices) as nat
    }
}

/// Number of indices of all the meshes together.
pub open spec fn index_total(meshes: Seq<MeshSpan>) -> nat
    decreases meshes.len(),
{
    if meshes.len() == 0 {
        0
    } else {
        (index_total(meshes.drop_last()) + meshes.last().indices) as nat
    }
}

/// The smaller of two integers.
pub open spec fn min(a: int, b: int) -> int {
    if a < b {
        a
    } else {
        b
    }
}

/// Whether the pixel `(px, py)` lies in the rectangle.
pub open spec fn covers(s: Scissor, px: int, py: int) -> bool {
    &&& s.x <= px < s.x + s.width
    &&& s.y <= py < s.y + s.height
}

/// The part of `clip` that lies inside a target of `width` by `height`.
pub open spec fn clamp_scissor(clip: Scissor, width: u32, height: u32) -> Scissor {
    let x = min(clip.x as int, width as int);
    let y = min(clip.y as int, height as int);
    let right = min(clip.x + clip.width, width as int);
    let bottom = min(clip.y + clip.height, height as int);
    Scissor { x: x as u32, y: y as u32, width: (right - x) as u32, height: (bottom - y) as u32 }
}

/// Whether the byte sizes and offsets of a frame of `meshes` fit the types the
/// device takes them in, with uniform records `stride` bytes apart.
pub open spec fn fits(meshes: Seq<MeshSpan>, stride: nat) -> bool {
    &&& vertex_total(meshes) * VERTEX_SIZE <= u64::MAX
    &&& index_total(meshes) * INDEX_SIZE <= u64::MAX
    &&& vertex_total(meshes) <= usize::MAX
    &&& index_total(meshes) <= usize::MAX
    &&& meshes.len() * stride <= u32::MAX
    &&& forall|i: int| 0 <= i < meshes.len() ==> #[trigger] meshes[i].indices <= u32::MAX
}

/// The draw call of the `i`-th mesh: its geometry follows that of all the
/// meshes before it, and its uniform record is the `i`-th.
pub open spec fn draw_for(meshes: Seq<MeshSpan>, i: int, stride: nat, width: u32, height: u32) -> DrawCall {
    let before = meshes.take(i);
    DrawCall {
        vertex_offset: vertex_total(before) as u64,
        vertex_count: meshes[i].vertices as u64,
        index_offset: index_total(before) as u64,
        index_count: meshes[i].indices as u32,
        vertex_byte_offset: (vertex_total(before) * VERTEX_SIZE) as u64,
        index_byte_offset: (index_total(before) * INDEX_SIZE) as u64,
        uniform_offset: (i * stride) as u32,
        scissor: clamp_scissor(meshes[i].clip, width, height),
    }
}


impl Scissor {
    /// The part of this rectangle that lies inside a target of `width` by
    /// `height`: empty when the rectangle lies outside it.
    pub fn clamped(&self, width: u32, height: u32) -> (r: Scissor)
        ensures
            r == clamp_scissor(*self, width, height),
    {
        let x = if self.x < width { self.x } else { width };
        let y = if self.y < height { self.y } else { height };
        let right_end = self.x as u64 + self.width as u64;
        let bottom_end = self.y as u64 + self.height as u64;
        let right = if right_end < width as u64 { right_end as u32 } else { width };
        let bottom = if bottom_end < height as u64 { bottom_end as u32 } else { height };
        Scissor { x, y, width: right - x, height: bottom - y }
    }
}

/// The pixels of a clamped scissor are exactly those of the clip bounds that
/// lie inside the target; so clip bounds entirely outside the target leave the
/// mesh no pixel at all.
pub proof fn lemma_clamped_scissor_pixels(clip: Scissor, width: u32, height: u32)
    ensures
        forall|px: int, py: int|
            covers(clamp_scissor(clip, width, height), px, py) <==> (covers(clip, px, py) && 0
                <= px < width && 0 <= py < height),
        (clip.x >= width || clip.y >= height) ==> forall|px: int, py: int|
            !covers(clamp_scissor(clip, width, height), px, py),
{
}

/// The stride of the uniform records: the smallest multiple of the device's
/// uniform offset alignment that holds a transform.
pub fn uniform_stride(alignment: u32) -> (r: u32)
    requires
        alignment > 0,
    ensures
        r as int % alignment as int == 0,
        TRANSFORM_SIZE <= r < TRANSFORM_SIZE + alignment,
{
    if alignment >= TRANSFORM_SIZE {
        proof {
            vstd::arithmetic::div_mod::lemma_mod_self_0(alignment as int);
        }
        alignment
    } else {
        let count: u32 = (TRANSFORM_SIZE + alignment - 1) / alignment;
        proof {
            let a = alignment as int;
            let t = TRANSFORM_SIZE as int;
            vstd::arithmetic::div_mod::lemma_fundamental_div_mod(t + a - 1, a);
            vstd::arithmetic::div_mod::lemma_mod_multiples_basic(count as int, a);
            assert(count * a <= t + a - 1) by (nonlinear_arith)
                requires count == (t + a - 1) / a, a > 0, t + a - 1 >= 0;
            assert(count * a + (t + a - 1) % a == t + a - 1) by (nonlinear_arith)
                requires t + a - 1 == a * ((t + a - 1) / a) + (t + a - 1) % a, count == (t + a - 1) / a;
        }
        count * alignment
    }
}


/// Plans the frame that draws `meshes`, in their order, onto a target of
/// `target_width` by `target_height`, with uniform records `uniform_stride`
/// bytes apart.
///
/// Each mesh's vertices and indices follow those of the meshes before it in
/// the shared buffers, its transform is the record of its own index, and its
/// scissor is its clip bounds clamped to the target. Without multisampling the
/// pass draws onto the target as it is; with it, the pass clears the
/// multisampled attachment, which is then composited onto the target.
///
/// Returns `None` exactly when the frame's sizes do not fit (see `fits`).
pub fn plan_frame(
    meshes: &Vec<MeshSpan>,
    uniform_stride: u32,
    target_width: u32,
    target_height: u32,
    multisampled: bool,
) -> (r: Option<FramePlan>)
    ensures
        r is Some <==> fits(meshes@, uniform_stride as nat),
        r matches Some(p) ==> {
            &&& p.total_vertices == vertex_total(meshes@)
            &&& p.total_indices == index_total(meshes@)
            &&& p.total_uniforms == meshes@.len()
            &&& p.uniform_bytes == meshes@.len() * uniform_stride
            &&& p.load == (if multisampled {
                LoadOp::Clear
            } else {
                LoadOp::Load
            })
            &&& p.multisampled == multisampled
            &&& p.draws@.len() == meshes@.len()
            &&& forall|i: int|
                0 <= i < meshes@.len() ==> #[trigger] p.draws@[i] == draw_for(
                    meshes@,
                    i,
                    uniform_stride as nat,
                    target_width,
                    target_height,
                )
        },
{
    let n = meshes.len();
    proof {
        assert(meshes@.take(n as int) =~= meshes@);
        let (a, b) = (n as int, uniform_stride as int);
        assert(a * b <= u128::MAX) by (nonlinear_arith)
            requires 0 <= a <= u64::MAX, 0 <= b <= u32::MAX;
    }
    if (n as u128) * (uniform_stride as u128) > u32::MAX as u128 {
        return None;
    }
    let mut total_v: u64 = 0;
    let mut total_i: u64 = 0;
    let mut k: usize = 0;
    while k < n
        invariant
            k <= n,
            n == meshes@.len(),
            meshes@.take(n as int) == meshes@,
            total_v == vertex_total(meshes@.take(k as int)),
            total_i == index_total(meshes@.take(k as int)),
            total_v * VERTEX_SIZE <= u64::MAX,
            total_i * INDEX_SIZE <= u64::MAX,
            total_v <= usize::MAX,
            total_i <= usize::MAX,
            forall|i: int| 0 <= i < k ==> #[trigger] meshes@[i].indices <= u32::MAX,
        decreases n - k,
    {
        let m = meshes[k];
        proof {
            lemma_totals_step(meshes@, k as int);
            lemma_totals_monotonic(meshes@, k as int + 1, n as int);
        }
        if m.indices > u32::MAX as usize {
            return None;
        }
        let v = total_v as u128 + m.vertices as u128;
        let ix = total_i as u128 + m.indices as u128;
        if v * (VERTEX_SIZE as u128) > u64::MAX as u128 || v > usize::MAX as u128 {
            return None;
        }
        if ix > (u64::MAX / INDEX_SIZE) as u128 || ix > usize::MAX as u128 {
            return None;
        }
        total_v = v as u64;
        total_i = ix as u64;
        k = k + 1;
    }
    let mut draws: Vec<DrawCall> = Vec::with_capacity(n);
    let mut last_vertex: u64 = 0;
    let mut last_index: u64 = 0;
    let mut k: usize = 0;
    while k < n
        invariant
            k <= n,
            n == meshes@.len(),
            meshes@.take(n as int) == meshes@,
            fits(meshes@, uniform_stride as nat),
            total_v == vertex_total(meshes@),
            total_i == index_total(meshes@),
            draws@.len() == k,
            last_vertex == vertex_total(meshes@.take(k as int)),
            last_index == index_total(meshes@.take(k as int)),
            forall|i: int|
                0 <= i < k ==> #[trigger] draws@[i] == draw_for(
                    meshes@,
                    i,
                    uniform_stride as nat,
                    target_width,
                    target_height,
                ),
        decreases n - k,
    {
        let m = meshes[k];
        proof {
            lemma_totals_step(meshes@, k as int);
            lemma_totals_monotonic(meshes@, k as int + 1, n as int);
            assert(k * uniform_stride <= n * uniform_stride) by (nonlinear_arith)
                requires k <= n;
        }
        let uniform_offset = ((k as u128) * (uniform_stride as u128)) as u32;
        let draw = DrawCall {
            vertex_offset: last_vertex,
            vertex_count: m.vertices as u64,
            index_offset: last_index,
            index_count: m.indices as u32,
            vertex_byte_offset: last_vertex * VERTEX_SIZE,
            index_byte_offset: last_index * INDEX_SIZE,
            uniform_offset,
            scissor: m.clip.clamped(target_width, target_height),
        };
        draws.push(draw);
        last_vertex = last_vertex + m.vertices as u64;
        last_index = last_index + m.indices as u64;
        k = k + 1;
    }
    let load = if multisampled {
        LoadOp::Clear
    } else {
        LoadOp::Load
    };
    Some(
        FramePlan {
            total_vertices: total_v as usize,
            total_indices: total_i as usize,
            total_uniforms: n,
            uniform_bytes: (n as u64) * (uniform_stride as u64),
            load,
            multisampled,
            draws,
        },
    )
}


/// The geometry of the meshes lies packed in the shared buffers, in the order
/// of the meshes: the first starts at zero, each starts where the one before it
/// ends, and all end within the totals the buffers are grown to.
pub proof fn lemma_ranges_packed(meshes: Seq<MeshSpan>, stride: nat, width: u32, height: u32, i: int)
    requires
        fits(meshes, stride),
        0 <= i < meshes.len(),
    ensures
        i == 0 ==> draw_for(meshes, i, stride, width, height).vertex_offset == 0
            && draw_for(meshes, i, stride, width, height).index_offset == 0,
        draw_for(meshes, i, stride, width, height).vertex_offset + draw_for(
            meshes,
            i,
            stride,
            width,
            height,
        ).vertex_count <= vertex_total(meshes),
        draw_for(meshes, i, stride, width, height).index_offset + draw_for(
            meshes,
            i,
            stride,
            width,
            height,
        ).index_count <= index_total(meshes),
        i + 1 < meshes.len() ==> draw_for(meshes, i + 1, stride, width, height).vertex_offset
            == draw_for(meshes, i, stride, width, height).vertex_offset + draw_for(
            meshes,
            i,
            stride,
            width,
            height,
        ).vertex_count,
        i + 1 < meshes.len() ==> draw_for(meshes, i + 1, stride, width, height).index_offset
            == draw_for(meshes, i, stride, width, height).index_offset + draw_for(
            meshes,
            i,
            stride,
            width,
            height,
        ).index_count,
{
    lemma_totals_step(meshes, i);
    lemma_totals_monotonic(meshes, i + 1, meshes.len() as int);
    assert(meshes.take(meshes.len() as int) =~= meshes);
    assert(meshes.take(0) =~= Seq::<MeshSpan>::empty());
}

/// The totals only grow as more meshes are counted.
pub proof fn lemma_totals_monotonic(meshes: Seq<MeshSpan>, j: int, k: int)
    requires
        0 <= j <= k <= meshes.len(),
    ensures
        vertex_total(meshes.take(j)) <= vertex_total(meshes.take(k)),
        index_total(meshes.take(j)) <= index_total(meshes.take(k)),
    decreases k - j,
{
    if j < k {
        lemma_totals_monotonic(meshes, j, k - 1);
        assert(meshes.take(k).drop_last() =~= meshes.take(k - 1));
    }
}

/// Counting one more mesh adds its vertices and indices to the totals.
pub proof fn lemma_totals_step(meshes: Seq<MeshSpan>, i: int)
    requires
        0 <= i < meshes.len(),
    ensures
        vertex_total(meshes.take(i + 1)) == vertex_total(meshes.take(i)) + meshes[i].vertices,
        index_total(meshes.take(i + 1)) == index_total(meshes.take(i)) + meshes[i].indices,
{
    assert(meshes.take(i + 1).drop_last() =~= meshes.take(i));
}

} // verus!
