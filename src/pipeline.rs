use vstd::prelude::*;

use crate::window::Window;

verus! {

/// Vertices held by the vertex buffer.
pub const VERTEX_COUNT: u32 = 4;

/// 32-bit float components per vertex (x, y, z, w).
pub const FLOATS_PER_VERTEX: u32 = 4;

/// Bytes from one vertex to the next in the vertex buffer.
pub const VERTEX_STRIDE: u32 = 16;

/// Size of the vertex buffer in bytes.
pub const VERTEX_BUFFER_BYTES: u32 = VERTEX_COUNT * VERTEX_STRIDE;

/// Vertices consumed by the per-frame draw.
pub const DRAW_VERTEX_COUNT: u32 = 3;

/// IEEE-754 single-precision bit patterns of the components used.
pub const F32_ZERO: u32 = 0x0000_0000;

pub const F32_ONE: u32 = 0x3F80_0000;

pub const F32_MINUS_ONE: u32 = 0xBF80_0000;

/// How a GPU resource is used.
#[derive(Copy, Clone, PartialEq, Eq, Structural, Debug)]
pub enum Usage {
    /// Read and written by the GPU.
    Default,
    /// Written once at creation, never again.
    Immutable,
}

/// What a resource is bound to the pipeline as.
#[derive(Copy, Clone, PartialEq, Eq, Structural, Debug)]
pub enum Bind {
    VertexBuffer,
    DepthStencil,
    RenderTargetOutput,
}

/// Pixel and vertex formats used.
#[derive(Copy, Clone, PartialEq, Eq, Structural, Debug)]
pub enum Format {
    /// 8-bit unsigned normalised red, green, blue, alpha.
    R8G8B8A8Unorm,
    /// 32-bit float depth.
    D32Float,
    /// Four 32-bit float components.
    R32G32B32A32Float,
}

/// The description of the vertex buffer and how it is bound.
#[derive(Copy, Clone, PartialEq, Eq, Structural, Debug)]
pub struct BufferDesc {
    pub byte_width: u32,
    pub stride: u32,
    pub offset: u32,
    pub usage: Usage,
    pub bind: Bind,
}

/// A non-indexed draw.
#[derive(Copy, Clone, PartialEq, Eq, Structural, Debug)]
pub struct DrawCall {
    pub vertex_count: u32,
    pub start_vertex: u32,
}

/// A 2D texture description.
#[derive(Copy, Clone, PartialEq, Eq, Structural, Debug)]
pub struct TextureDesc {
    pub width: u32,
    pub height: u32,
    pub mip_levels: u32,
    pub array_size: u32,
    pub format: Format,
    pub sample_count: u32,
    pub sample_quality: u32,
    pub usage: Usage,
    pub bind: Bind,
}

/// A swap chain description.
#[derive(Copy, Clone, PartialEq, Eq, Structural, Debug)]
pub struct SwapChainDesc {
    pub width: u32,
    pub height: u32,
    pub format: Format,
    pub sample_count: u32,
    pub sample_quality: u32,
    pub buffer_count: u32,
    pub usage: Bind,
}

/// The single vertex attribute the vertex shader reads.
#[derive(Copy, Clone, PartialEq, Eq, Structural, Debug)]
pub struct InputElement {
    pub semantic_index: u32,
    pub format: Format,
    pub input_slot: u32,
    pub byte_offset: u32,
}

/// The vertex data: four clip-space positions (x, y, z, w), each component
/// an IEEE-754 single-precision bit pattern.
pub open spec fn vertex_words_spec() -> Seq<u32> {
    seq![
        F32_ZERO, F32_MINUS_ONE, F32_ZERO, F32_ONE,
        F32_MINUS_ONE, F32_ONE, F32_ZERO, F32_ONE,
        F32_ONE, F32_ONE, F32_ZERO, F32_ONE,
        F32_ONE, F32_MINUS_ONE, F32_ZERO, F32_ONE,
    ]
}

/// The four bytes of `w`, least significant first.
pub open spec fn le_bytes(w: u32) -> Seq<u8> {
    seq![
        (w % 256) as u8,
        ((w / 256) % 256) as u8,
        ((w / 65536) % 256) as u8,
        (w / 16777216) as u8,
    ]
}

/// The words of `ws`, one after the other, each in little-endian byte order.
pub open spec fn words_bytes(ws: Seq<u32>) -> Seq<u8>
    decreases ws.len(),
{
    if ws.len() == 0 {
        seq![]
    } else {
        words_bytes(ws.drop_last()) + le_bytes(ws.last())
    }
}

pub proof fn lemma_words_bytes_len(ws: Seq<u32>)
    ensures
        words_bytes(ws).len() == 4 * ws.len(),
    decreases ws.len(),
{
    if ws.len() > 0 {
        lemma_words_bytes_len(ws.drop_last());
    }
}

/// The vertex data as words.
pub fn vertex_words() -> (r: Vec<u32>)
    ensures
        r@ == vertex_words_spec(),
{
    let r: Vec<u32> = vec![
        F32_ZERO, F32_MINUS_ONE, F32_ZERO, F32_ONE,
        F32_MINUS_ONE, F32_ONE, F32_ZERO, F32_ONE,
        F32_ONE, F32_ONE, F32_ZERO, F32_ONE,
        F32_ONE, F32_MINUS_ONE, F32_ZERO, F32_ONE,
    ];
    assert(r@ =~= vertex_words_spec());
    r
}

/// `words` laid out as bytes, little-endian, as uploaded to the GPU.
pub fn to_le_bytes(words: &Vec<u32>) -> (r: Vec<u8>)
    ensures
        r@ == words_bytes(words@),
        r@.len() == 4 * words@.len(),
{
    let mut r: Vec<u8> = Vec::new();
    let mut i: usize = 0;
    while i < words.len()
        invariant
            i <= words@.len(),
            r@ == words_bytes(words@.subrange(0, i as int)),
        decreases words@.len() - i,
    {
        let w = words[i];
        r.push((w % 256) as u8);
        r.push(((w / 256) % 256) as u8);
        r.push(((w / 65536) % 256) as u8);
        r.push((w / 16777216) as u8);
        let ghost prev = words@.subrange(0, i as int);
        i = i + 1;
        assert(words@.subrange(0, i as int).drop_last() =~= prev);
        assert(r@ =~= words_bytes(words@.subrange(0, i as int)));
    }
    assert(words@.subrange(0, words@.len() as int) =~= words@);
    proof {
        lemma_words_bytes_len(words@);
    }
    r
}

/// The bytes uploaded into the vertex buffer: the vertex data, little-endian.
pub fn vertex_buffer_bytes() -> (r: Vec<u8>)
    ensures
        r@ == words_bytes(vertex_words_spec()),
        r@.len() == VERTEX_COUNT * VERTEX_STRIDE,
{
    let words = vertex_words();
    to_le_bytes(&words)
}

/// The vertex buffer's description: as large as the vertex data, immutable,
/// bound as a vertex buffer with a 16-byte stride from offset 0.
pub fn vertex_buffer_desc() -> (d: BufferDesc)
    ensures
        d == (BufferDesc {
            byte_width: VERTEX_BUFFER_BYTES,
            stride: VERTEX_STRIDE,
            offset: 0,
            usage: Usage::Immutable,
            bind: Bind::VertexBuffer,
        }),
{
    BufferDesc {
        byte_width: VERTEX_BUFFER_BYTES,
        stride: VERTEX_STRIDE,
        offset: 0,
        usage: Usage::Immutable,
        bind: Bind::VertexBuffer,
    }
}

/// The draw issued each frame: three vertices from the first.
pub fn draw_call() -> (c: DrawCall)
    ensures
        c == (DrawCall { vertex_count: DRAW_VERTEX_COUNT, start_vertex: 0 }),
{
    DrawCall { vertex_count: DRAW_VERTEX_COUNT, start_vertex: 0 }
}

/// The input layout's one element, "POSITION": four floats at offset 0 of
/// slot 0.
pub fn position_element() -> (e: InputElement)
    ensures
        e == (InputElement {
            semantic_index: 0,
            format: Format::R32G32B32A32Float,
            input_slot: 0,
            byte_offset: 0,
        }),
{
    InputElement { semantic_index: 0, format: Format::R32G32B32A32Float, input_slot: 0, byte_offset: 0 }
}

/// The depth texture behind the depth-stencil view: the window's size, one
/// array slice, 32-bit float depth, no multisampling.
pub fn depth_texture_desc(window: &Window) -> (d: TextureDesc)
    ensures
        d == (TextureDesc {
            width: window.width,
            height: window.height,
            mip_levels: 0,
            array_size: 1,
            format: Format::D32Float,
            sample_count: 1,
            sample_quality: 0,
            usage: Usage::Default,
            bind: Bind::DepthStencil,
        }),
{
    TextureDesc {
        width: window.width,
        height: window.height,
        mip_levels: 0,
        array_size: 1,
        format: Format::D32Float,
        sample_count: 1,
        sample_quality: 0,
        usage: Usage::Default,
        bind: Bind::DepthStencil,
    }
}

/// The swap chain: one 8-bit RGBA back buffer the window's size, used as
/// render-target output, no multisampling.
pub fn swap_chain_desc(window: &Window) -> (d: SwapChainDesc)
    ensures
        d == (SwapChainDesc {
            width: window.width,
            height: window.height,
            format: Format::R8G8B8A8Unorm,
            sample_count: 1,
            sample_quality: 0,
            buffer_count: 1,
            usage: Bind::RenderTargetOutput,
        }),
{
    SwapChainDesc {
        width: window.width,
        height: window.height,
        format: Format::R8G8B8A8Unorm,
        sample_count: 1,
        sample_quality: 0,
        buffer_count: 1,
        usage: Bind::RenderTargetOutput,
    }
}

/// The vertex buffer holds four vertices of four 4-byte floats, 16 bytes
/// apart, whatever the draw call consumes; the draw consumes three of them.
pub proof fn lemma_vertex_buffer_layout()
    ensures
        vertex_words_spec().len() == VERTEX_COUNT * FLOATS_PER_VERTEX,
        words_bytes(vertex_words_spec()).len() == VERTEX_COUNT * VERTEX_STRIDE,
        VERTEX_STRIDE == FLOATS_PER_VERTEX * 4,
        DRAW_VERTEX_COUNT < VERTEX_COUNT,
{
    lemma_words_bytes_len(vertex_words_spec());
}

} // verus!
