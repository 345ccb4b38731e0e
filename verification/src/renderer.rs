//! Data the renderer uploads to the GPU and the per-frame schedule of the
//! light simulation.
//!
//! Single-precision values are carried as their IEEE-754 bit patterns (`u32`):
//! the library only lays them out and copies them; the arithmetic on them is
//! done by the caller.
use crate::encoding::{
    le_word_at, lemma_words_le_bytes_decode, lemma_words_le_bytes_layout, push_words_le,
    words_le_bytes,
};
use vstd::prelude::*;

verus! {

broadcast use vstd::layout::layout_of_primitives;

/// Bit pattern of `0.0f32`.
pub const F32_ZERO: u32 = 0x0000_0000;

/// Bit pattern of `1.0f32`.
pub const F32_ONE: u32 = 0x3f80_0000;

/// Bit pattern of `-1.0f32`.
pub const F32_MINUS_ONE: u32 = 0xbf80_0000;

/// Bit pattern of `-0.09f32 * 1E-15f32`, the initial simulation time.
pub const DEFAULT_TIME: u32 = 0xa4cf_86a0;

/// Bit pattern of `0.09f32 * 1E-15f32`, the time step.
pub const DEFAULT_TIME_DELTA: u32 = 0x24cf_86a0;

/// Bit pattern of `3f32 * 1E8f32`, the speed of light.
pub const DEFAULT_LIGHTSPEED: u32 = 0x4d8f_0d18;

/// Bit pattern of `500f32 * 1E-9f32`, the wavelength.
pub const DEFAULT_WAVELENGTH: u32 = 0x3506_37bd;

/// Bit pattern of `50f32 * 1E-9f32`, the simulated cell width and height.
pub const DEFAULT_CELL_SIZE: u32 = 0x3356_bf94;

/// Frames between two presentations of the simulated field.
pub const PRESENT_INTERVAL: u64 = 5;

/// Bytes of the accumulator buffer cleared at each frame.
pub const ACCUMULATOR_CLEAR_LEN: usize = 8;

/// A 2D vertex of the full-screen quad; `position` holds the bit patterns of
/// its two `f32` coordinates.
#[derive(Clone, Copy, Debug)]
pub struct Vertex {
    pub position: [u32; 2],
}

impl From<[u32; 2]> for Vertex {
    fn from(value: [u32; 2]) -> (v: Self)
        ensures
            v.position[0] == value[0],
            v.position[1] == value[1],
    {
        Vertex { position: value }
    }
}

impl vstd::std_specs::convert::FromSpecImpl<[u32; 2]> for Vertex {
    open spec fn obeys_from_spec() -> bool {
        true
    }

    open spec fn from_spec(v: [u32; 2]) -> Self {
        Vertex { position: v }
    }
}

impl Vertex {
    /// The two coordinate words of the vertex, x first.
    pub open spec fn words(self) -> Seq<u32> {
        self.position@
    }

    /// The bytes of the vertex as the vertex buffer holds them.
    pub fn transmute(&self) -> (bytes: Vec<u8>)
        ensures
            bytes@ == words_le_bytes(self.words()),
    {
        let mut bytes: Vec<u8> = Vec::new();
        push_words_le(&mut bytes, self.position.as_slice());
        assert(bytes@ =~= words_le_bytes(self.words()));
        bytes
    }

    /// Distance in bytes between two consecutive vertices in the vertex buffer:
    /// two 32-bit coordinates.
    pub fn array_stride() -> (stride: u64)
        ensures
            stride == 8,
            stride == 2 * vstd::layout::size_of::<u32>(),
    {
        core::mem::size_of::<u32>() as u64 * 2
    }

    /// The attribute format of a vertex position: two 32-bit floats.
    pub fn format() -> (f: VertexFormat)
        ensures
            f == VertexFormat::Float32x2,
    {
        VertexFormat::Float32x2
    }
}

/// Attribute formats a vertex buffer can hold.
#[derive(Clone, Copy, Debug, PartialEq, Eq)]
pub enum VertexFormat {
    /// Two 32-bit floats.
    Float32x2,
}

/// Bytes one attribute of the format occupies.
pub open spec fn vertex_format_size(f: VertexFormat) -> u64 {
    match f {
        VertexFormat::Float32x2 => 8,
    }
}

/// 32-bit components one attribute of the format holds.
pub open spec fn vertex_format_components(f: VertexFormat) -> nat {
    match f {
        VertexFormat::Float32x2 => 2,
    }
}

impl VertexFormat {
    /// Bytes one attribute of this format occupies.
    pub fn size(&self) -> (bytes: u64)
        ensures
            bytes == vertex_format_size(*self),
    {
        match self {
            VertexFormat::Float32x2 => 8,
        }
    }
}

/// How the vertices of a draw are joined into primitives.
#[derive(Clone, Copy, Debug, PartialEq, Eq)]
pub enum PrimitiveTopology {
    /// Each vertex after the first two closes a triangle with the two before it.
    TriangleStrip,
}

/// Triangles a draw of `n` vertices produces with topology `t`.
pub open spec fn triangle_count(t: PrimitiveTopology, n: nat) -> nat {
    match t {
        PrimitiveTopology::TriangleStrip => if n >= 2 {
            (n - 2) as nat
        } else {
            0
        },
    }
}

/// The vertex format fits the vertex layout: its size is the stride, and it
/// holds as many components as a vertex has words.
pub proof fn lemma_vertex_format_matches_layout(v: Vertex)
    ensures
        vertex_format_size(VertexFormat::Float32x2) == 8,
        vertex_format_components(VertexFormat::Float32x2) == v.words().len(),
        vertex_format_size(VertexFormat::Float32x2) == words_le_bytes(v.words()).len(),
{
    lemma_words_le_bytes_layout(v.words());
}

/// The coordinate words of a sequence of vertices, vertex after vertex.
pub open spec fn vertex_words(vs: Seq<Vertex>) -> Seq<u32>
    decreases vs.len(),
{
    if vs.len() == 0 {
        Seq::empty()
    } else {
        vertex_words(vs.drop_last()) + vs.last().words()
    }
}

/// The four corners of the full-screen quad, in triangle-strip order:
/// (-1, -1), (1, -1), (-1, 1), (1, 1).
pub open spec fn quad_vertices() -> Seq<Vertex> {
    seq![
        Vertex { position: [F32_MINUS_ONE, F32_MINUS_ONE] },
        Vertex { position: [F32_ONE, F32_MINUS_ONE] },
        Vertex { position: [F32_MINUS_ONE, F32_ONE] },
        Vertex { position: [F32_ONE, F32_ONE] },
    ]
}

/// The vertices drawn by the render pass.
pub struct VertexHandler {
    vertex_array: Vec<Vertex>,
}

impl View for VertexHandler {
    type V = Seq<Vertex>;

    closed spec fn view(&self) -> Seq<Vertex> {
        self.vertex_array@
    }
}

impl VertexHandler {
    /// The topology the vertices are drawn with.
    pub fn topology() -> (t: PrimitiveTopology)
        ensures
            t == PrimitiveTopology::TriangleStrip,
    {
        PrimitiveTopology::TriangleStrip
    }

    pub fn new(vertex: Vec<Vertex>) -> (h: Self)
        ensures
            h@ == vertex@,
    {
        VertexHandler { vertex_array: vertex }
    }

    /// The bytes of the whole vertex buffer: every vertex's bytes, in order.
    pub fn transmute(&self) -> (bytes: Vec<u8>)
        ensures
            bytes@ == words_le_bytes(vertex_words(self@)),
    {
        let mut bytes: Vec<u8> = Vec::new();
        let mut i: usize = 0;
        while i < self.vertex_array.len()
            invariant
                0 <= i <= self@.len(),
                bytes@ == words_le_bytes(vertex_words(self@.subrange(0, i as int))),
            decreases self@.len() - i,
        {
            let v = &self.vertex_array[i];
            push_words_le(&mut bytes, v.position.as_slice());
            proof {
                let prefix = self@.subrange(0, i as int);
                let next = self@.subrange(0, i + 1);
                assert(next.drop_last() =~= prefix);
                assert(next.last() == self@[i as int]);
                lemma_words_le_bytes_append(vertex_words(prefix), v.words());
            }
            i = i + 1;
        }
        assert(self@.subrange(0, self@.len() as int) =~= self@);
        bytes
    }
}

impl Default for VertexHandler {
    fn default() -> (h: Self)
        ensures
            h@ == quad_vertices(),
    {
        let h = VertexHandler::new(
            vec![
                Vertex::from([F32_MINUS_ONE, F32_MINUS_ONE]),
                Vertex::from([F32_ONE, F32_MINUS_ONE]),
                Vertex::from([F32_MINUS_ONE, F32_ONE]),
                Vertex::from([F32_ONE, F32_ONE]),
            ],
        );
        assert(h@ =~= quad_vertices());
        h
    }
}

/// Parameters of the light simulation, read by the compute and fragment
/// shaders from a uniform buffer. The `f32` fields hold bit patterns.
#[derive(Clone, Copy, Debug)]
pub struct ComputeShaderLightData {
    /// Width and height of the simulated field in cells; also the number of
    /// compute workgroups dispatched along x and y.
    pub size: (u32, u32),
    pub time: u32,
    pub time_delta: u32,
    pub lightspeed: u32,
    pub wavelength: u32,
    pub size_w: u32,
    pub size_h: u32,
    /// Which of the two field textures is current; flips every frame.
    pub ping_pong: bool,
    pub key_flags: u32,
}

/// The word a flag is uploaded as: 1 for `true`, 0 for `false`.
pub open spec fn flag_word(b: bool) -> u32 {
    if b {
        1
    } else {
        0
    }
}

impl ComputeShaderLightData {
    /// The words of the uniform buffer, in the order the shaders read them.
    /// `size` and `key_flags` are not uploaded.
    pub open spec fn uniform_words(self) -> Seq<u32> {
        seq![
            self.time,
            self.time_delta,
            self.lightspeed,
            self.wavelength,
            self.size_w,
            self.size_h,
            flag_word(self.ping_pong),
        ]
    }

    /// The bytes of the uniform buffer.
    pub fn transmute(&self) -> (bytes: Vec<u8>)
        ensures
            bytes@ == words_le_bytes(self.uniform_words()),
    {
        let flag: u32 = if self.ping_pong {
            1
        } else {
            0
        };
        let words: [u32; 7] = [
            self.time,
            self.time_delta,
            self.lightspeed,
            self.wavelength,
            self.size_w,
            self.size_h,
            flag,
        ];
        let mut bytes: Vec<u8> = Vec::new();
        push_words_le(&mut bytes, words.as_slice());
        assert(words@ =~= self.uniform_words());
        assert(bytes@ =~= words_le_bytes(self.uniform_words()));
        bytes
    }
}

/// The parameters the simulation starts with.
pub open spec fn default_light_data() -> ComputeShaderLightData {
    ComputeShaderLightData {
        size: (0, 0),
        time: DEFAULT_TIME,
        time_delta: DEFAULT_TIME_DELTA,
        lightspeed: DEFAULT_LIGHTSPEED,
        wavelength: DEFAULT_WAVELENGTH,
        size_w: DEFAULT_CELL_SIZE,
        size_h: DEFAULT_CELL_SIZE,
        ping_pong: true,
        key_flags: 0,
    }
}

impl Default for ComputeShaderLightData {
    fn default() -> (d: Self)
        ensures
            d == default_light_data(),
    {
        ComputeShaderLightData {
            size: (0, 0),
            time: DEFAULT_TIME,
            time_delta: DEFAULT_TIME_DELTA,
            lightspeed: DEFAULT_LIGHTSPEED,
            wavelength: DEFAULT_WAVELENGTH,
            size_w: DEFAULT_CELL_SIZE,
            size_h: DEFAULT_CELL_SIZE,
            ping_pong: true,
            key_flags: 0,
        }
    }
}

/// The initial contents of the accumulator storage buffer: the `f32` values
/// 0, 0, 1, 1.
pub open spec fn accumulator_initial_words() -> Seq<u32> {
    seq![F32_ZERO, F32_ZERO, F32_ONE, F32_ONE]
}

/// The bytes the accumulator storage buffer is created with.
pub fn accumulator_initial_bytes() -> (bytes: Vec<u8>)
    ensures
        bytes@ == words_le_bytes(accumulator_initial_words()),
{
    let words: [u32; 4] = [F32_ZERO, F32_ZERO, F32_ONE, F32_ONE];
    let mut bytes: Vec<u8> = Vec::new();
    push_words_le(&mut bytes, words.as_slice());
    assert(words@ =~= accumulator_initial_words());
    assert(bytes@ =~= words_le_bytes(accumulator_initial_words()));
    bytes
}

/// What the GPU side does in one frame.
pub struct FramePlan {
    /// New contents of the uniform buffer, written at offset 0.
    pub uniform_bytes: Vec<u8>,
    /// Offset in the accumulator buffer of the half that is cleared.
    pub accumulator_clear_offset: u64,
    /// The bytes written there.
    pub accumulator_clear: Vec<u8>,
    /// Compute workgroups to dispatch along x, y and z.
    pub workgroups: (u32, u32, u32),
    /// Whether this frame also renders the field and presents it.
    pub present: bool,
}

/// The state the frame loop carries from one frame to the next.
pub struct Data {
    /// Frames begun so far.
    pub step: u64,
    pub vertex: VertexHandler,
    pub compute_data: ComputeShaderLightData,
}

/// The simulation parameters after one frame whose time became `time`.
pub open spec fn next_light_data(c: ComputeShaderLightData, time: u32) -> ComputeShaderLightData {
    ComputeShaderLightData { time, ping_pong: !c.ping_pong, ..c }
}

/// Offset of the accumulator half cleared when the flag is `ping_pong`.
pub open spec fn clear_offset(ping_pong: bool) -> u64 {
    if ping_pong {
        8
    } else {
        0
    }
}

/// Whether the frame numbered `step` (counting from 1) presents.
pub open spec fn presents(step: int) -> bool {
    step % (PRESENT_INTERVAL as int) == 0
}

impl Data {
    /// The state before the first frame.
    pub fn new() -> (d: Self)
        ensures
            d.step == 0,
            d.vertex@ == quad_vertices(),
            d.compute_data == default_light_data(),
    {
        Data {
            step: 0,
            vertex: VertexHandler::default(),
            compute_data: ComputeShaderLightData::default(),
        }
    }

    /// Begins a frame: counts it, stores the advanced simulation time, flips
    /// the ping-pong flag, and says what to upload, which half of the
    /// accumulator to clear, how many workgroups to dispatch and whether to
    /// present.
    pub fn begin_frame(&mut self, advanced_time: u32) -> (plan: FramePlan)
        requires
            old(self).step < u64::MAX,
        ensures
            final(self).step == old(self).step + 1,
            final(self).vertex@ == old(self).vertex@,
            final(self).compute_data == next_light_data(old(self).compute_data, advanced_time),
            plan.uniform_bytes@ == words_le_bytes(final(self).compute_data.uniform_words()),
            plan.accumulator_clear_offset == clear_offset(final(self).compute_data.ping_pong),
            final(self).compute_data.ping_pong == !old(self).compute_data.ping_pong,
            final(self).compute_data.time == advanced_time,
            final(self).compute_data.ping_pong ==> plan.accumulator_clear_offset == 8,
            !final(self).compute_data.ping_pong ==> plan.accumulator_clear_offset == 0,
            plan.present == (final(self).step % 5 == 0),
            plan.accumulator_clear@ == Seq::new(ACCUMULATOR_CLEAR_LEN as nat, |i: int| 0u8),
            plan.workgroups == (old(self).compute_data.size.0, old(self).compute_data.size.1, 1u32),
            plan.present == presents(final(self).step as int),
    {
        self.step = self.step + 1;
        self.compute_data.time = advanced_time;
        self.compute_data.ping_pong = !self.compute_data.ping_pong;
        let uniform_bytes = self.compute_data.transmute();
        let accumulator_clear_offset: u64 = if self.compute_data.ping_pong {
            8
        } else {
            0
        };
        let accumulator_clear: Vec<u8> = vec![0u8; ACCUMULATOR_CLEAR_LEN];
        assert(accumulator_clear@ =~= Seq::new(ACCUMULATOR_CLEAR_LEN as nat, |i: int| 0u8));
        let workgroups = (self.compute_data.size.0, self.compute_data.size.1, 1u32);
        let present = self.step % PRESENT_INTERVAL == 0;
        FramePlan { uniform_bytes, accumulator_clear_offset, accumulator_clear, workgroups, present }
    }
}

/// Every vertex takes `array_stride` bytes of the vertex buffer.
pub proof fn lemma_vertex_bytes_match_stride(v: Vertex)
    ensures
        words_le_bytes(v.words()).len() == 8,
{
    lemma_words_le_bytes_layout(v.words());
}

/// The coordinate words of vertex `i` sit at positions `2 * i` and `2 * i + 1`.
pub proof fn lemma_vertex_words_layout(vs: Seq<Vertex>)
    ensures
        vertex_words(vs).len() == 2 * vs.len(),
        forall|i: int|
            0 <= i < vs.len() ==> #[trigger] vertex_words(vs)[2 * i] == vs[i].position[0]
                && vertex_words(vs)[2 * i + 1] == vs[i].position[1],
    decreases vs.len(),
{
    if vs.len() > 0 {
        let init = vs.drop_last();
        lemma_vertex_words_layout(init);
        assert forall|i: int| 0 <= i < vs.len() implies #[trigger] vertex_words(vs)[2 * i]
            == vs[i].position[0] && vertex_words(vs)[2 * i + 1] == vs[i].position[1] by {
            if i < init.len() {
                assert(init[i] == vs[i]);
            }
        }
    }
}

/// The vertex buffer is laid out with stride 8: its length is 8 bytes per
/// vertex, and the x and y of vertex `i` are read back from words `2 * i` and
/// `2 * i + 1`.
pub proof fn lemma_vertex_buffer_layout(vs: Seq<Vertex>, i: int)
    requires
        0 <= i < vs.len(),
    ensures
        words_le_bytes(vertex_words(vs)).len() == 8 * vs.len(),
        le_word_at(words_le_bytes(vertex_words(vs)), 2 * i) == vs[i].position[0],
        le_word_at(words_le_bytes(vertex_words(vs)), 2 * i + 1) == vs[i].position[1],
{
    lemma_vertex_words_layout(vs);
    lemma_words_le_bytes_layout(vertex_words(vs));
    lemma_words_le_bytes_decode(vertex_words(vs), 2 * i);
    lemma_words_le_bytes_decode(vertex_words(vs), 2 * i + 1);
}

/// The uniform buffer is 28 bytes; the shaders read back time, time step,
/// speed of light, wavelength, cell width and cell height from words 0 to 5,
/// and the ping-pong flag as 1 or 0 from word 6.
pub proof fn lemma_light_uniform_layout(c: ComputeShaderLightData)
    ensures
        words_le_bytes(c.uniform_words()).len() == 28,
        le_word_at(words_le_bytes(c.uniform_words()), 0) == c.time,
        le_word_at(words_le_bytes(c.uniform_words()), 1) == c.time_delta,
        le_word_at(words_le_bytes(c.uniform_words()), 2) == c.lightspeed,
        le_word_at(words_le_bytes(c.uniform_words()), 3) == c.wavelength,
        le_word_at(words_le_bytes(c.uniform_words()), 4) == c.size_w,
        le_word_at(words_le_bytes(c.uniform_words()), 5) == c.size_h,
        le_word_at(words_le_bytes(c.uniform_words()), 6) == (if c.ping_pong {
            1int
        } else {
            0int
        }),
{
    let w = c.uniform_words();
    lemma_words_le_bytes_layout(w);
    lemma_words_le_bytes_decode(w, 0);
    lemma_words_le_bytes_decode(w, 1);
    lemma_words_le_bytes_decode(w, 2);
    lemma_words_le_bytes_decode(w, 3);
    lemma_words_le_bytes_decode(w, 4);
    lemma_words_le_bytes_decode(w, 5);
    lemma_words_le_bytes_decode(w, 6);
}

/// Over two consecutive frames the ping-pong flag comes back to where it was,
/// and the two frames clear different halves of the accumulator, together
/// covering offsets 0 and 8.
pub proof fn lemma_two_frames_alternate(c: ComputeShaderLightData, t1: u32, t2: u32)
    ensures
        next_light_data(next_light_data(c, t1), t2).ping_pong == c.ping_pong,
        clear_offset(next_light_data(c, t1).ping_pong) != clear_offset(
            next_light_data(next_light_data(c, t1), t2).ping_pong,
        ),
        clear_offset(next_light_data(c, t1).ping_pong) + clear_offset(
            next_light_data(next_light_data(c, t1), t2).ping_pong,
        ) == 8,
{
}

/// A frame changes nothing of the simulation parameters but the time and the
/// flag.
pub proof fn lemma_frame_keeps_parameters(c: ComputeShaderLightData, t: u32)
    ensures
        next_light_data(c, t).size == c.size,
        next_light_data(c, t).time_delta == c.time_delta,
        next_light_data(c, t).lightspeed == c.lightspeed,
        next_light_data(c, t).wavelength == c.wavelength,
        next_light_data(c, t).size_w == c.size_w,
        next_light_data(c, t).size_h == c.size_h,
        next_light_data(c, t).key_flags == c.key_flags,
{
}

/// Of any five consecutive frames, exactly one presents.
pub proof fn lemma_one_present_in_five(s: int)
    requires
        0 <= s,
    ensures
        exists|k: int|
            1 <= k <= 5 && #[trigger] presents(s + k) && forall|j: int|
                1 <= j <= 5 && j != k ==> !#[trigger] presents(s + j),
{
    let k = 5 - s % 5;
    assert(presents(s + k));
    assert forall|j: int| 1 <= j <= 5 && j != k implies !#[trigger] presents(s + j) by {}
}

/// The four vertices of the default quad, drawn as a strip, make two
/// triangles: the whole quad.
pub proof fn lemma_quad_is_two_triangles()
    ensures
        triangle_count(PrimitiveTopology::TriangleStrip, quad_vertices().len()) == 2,
{
}

/// The simulation parameters after a frame for each time in `times`, in order.
pub open spec fn light_after_frames(c: ComputeShaderLightData, times: Seq<u32>) -> ComputeShaderLightData
    decreases times.len(),
{
    if times.len() == 0 {
        c
    } else {
        next_light_data(light_after_frames(c, times.drop_last()), times.last())
    }
}

/// How many of the `n` frames after frame `s0` present.
pub open spec fn present_count(s0: int, n: nat) -> nat
    decreases n,
{
    if n == 0 {
        0
    } else {
        present_count(s0, (n - 1) as nat) + if presents(s0 + n) {
            1nat
        } else {
            0nat
        }
    }
}

proof fn lemma_div5_step(x: int)
    requires
        x >= 1,
    ensures
        x / 5 - (x - 1) / 5 == (if x % 5 == 0 {
            1int
        } else {
            0int
        }),
{
}

/// After `n` consecutive frames from step `s0` with parameters `c`: the
/// flag has flipped `n` times, the time is the last one given, every other
/// parameter is unchanged, and the frames that presented are exactly the
/// multiples of 5 in `s0 + 1 ..= s0 + n`, that is `(s0 + n) / 5 - s0 / 5` of
/// them: one in every five.
pub proof fn lemma_n_frames(c: ComputeShaderLightData, times: Seq<u32>, s0: int)
    requires
        0 <= s0,
    ensures
        light_after_frames(c, times).ping_pong == (c.ping_pong != (times.len() % 2 == 1)),
        times.len() > 0 ==> light_after_frames(c, times).time == times.last(),
        times.len() == 0 ==> light_after_frames(c, times).time == c.time,
        light_after_frames(c, times).size == c.size,
        light_after_frames(c, times).time_delta == c.time_delta,
        light_after_frames(c, times).lightspeed == c.lightspeed,
        light_after_frames(c, times).wavelength == c.wavelength,
        light_after_frames(c, times).size_w == c.size_w,
        light_after_frames(c, times).size_h == c.size_h,
        light_after_frames(c, times).key_flags == c.key_flags,
        present_count(s0, times.len()) == (s0 + times.len()) / 5 - s0 / 5,
    decreases times.len(),
{
    if times.len() > 0 {
        lemma_n_frames(c, times.drop_last(), s0);
        lemma_div5_step(s0 + times.len());
    }
}

/// The bytes of a concatenation are the concatenation of the bytes.
pub proof fn lemma_words_le_bytes_append(a: Seq<u32>, b: Seq<u32>)
    ensures
        words_le_bytes(a + b) == words_le_bytes(a) + words_le_bytes(b),
    decreases b.len(),
{
    if b.len() == 0 {
        assert(a + b =~= a);
        assert(words_le_bytes(a) + words_le_bytes(b) =~= words_le_bytes(a));
    } else {
        let b0 = b.drop_last();
        lemma_words_le_bytes_append(a, b0);
        assert((a + b).drop_last() =~= a + b0);
        assert((a + b).last() == b.last());
        assert(words_le_bytes(a + b) =~= words_le_bytes(a) + words_le_bytes(b));
    }
}

} // verus!
