use vstd::prelude::*;

use crate::buffer::{BackedBuffer, grown_capacity};
use crate::commands::{BindingRef, BufferRef, PipelineKind, RenderCommand, RenderPass};
use crate::pipeline::{
    BinderLayouts, ColorTarget, FragmentDesc, PipelineDesc, PipelineError, RenderPipelineBuilder,
    VertexDesc, VertexLayouts, binders_for,
};

verus! {

/// Where a glyph's quad lies relative to the pen (in layout units, `y` down)
/// and which texel rectangle of the atlas it samples.
#[derive(Clone, Copy, Debug, PartialEq, Eq, Structural)]
pub struct GlyphQuad {
    pub left: i32,
    pub top: i32,
    pub right: i32,
    pub bottom: i32,
    pub u0: u32,
    pub v0: u32,
    pub u1: u32,
    pub v1: u32,
}

/// Metrics of one glyph of the atlas. A glyph without a quad (a space) only
/// moves the pen.
#[derive(Clone, Copy, Debug, PartialEq, Eq, Structural)]
pub struct Glyph {
    pub ch: char,
    pub advance: i32,
    pub quad: Option<GlyphQuad>,
}

/// Extra pen movement between two given glyphs.
#[derive(Clone, Copy, Debug, PartialEq, Eq, Structural)]
pub struct KerningPair {
    pub left: char,
    pub right: char,
    pub adjust: i32,
}

/// A signed-distance glyph atlas: its glyph metrics, kerning table, the glyph
/// that stands in for characters it lacks, its line height and its size in texels.
pub struct Font {
    pub glyphs: Vec<Glyph>,
    pub kerning: Vec<KerningPair>,
    pub fallback: char,
    pub line_height: i32,
    pub atlas_width: u32,
    pub atlas_height: u32,
}

/// One corner of a glyph quad: position in layout units and atlas texel.
#[derive(Clone, Copy, Debug, PartialEq, Eq, Structural)]
pub struct UiVertex {
    pub x: i64,
    pub y: i64,
    pub u: u32,
    pub v: u32,
}

/// Longest text, in characters, that can be laid out: four vertices per
/// glyph must stay addressable by 32-bit indices.
pub const MAX_TEXT_CHARS: usize = 1073741823;

/// Why a text could not be buffered.
#[derive(Clone, Copy, Debug, PartialEq, Eq, Structural)]
pub enum TextError {
    /// The text has more than [`MAX_TEXT_CHARS`] characters.
    TooLong,
}

/// Why a font atlas was refused as malformed.
#[derive(Clone, Copy, Debug, PartialEq, Eq, Structural)]
pub enum FontError {
    /// The atlas pixels are not `width × height` RGBA texels.
    AtlasSizeMismatch,
    /// A glyph's texel rectangle is inverted or leaves the atlas.
    GlyphOutsideAtlas(char),
}

/// Whether glyph `g` samples a proper rectangle inside a `w × h` atlas.
pub open spec fn glyph_fits(g: Glyph, w: u32, h: u32) -> bool {
    match g.quad {
        None => true,
        Some(q) => q.u0 <= q.u1 <= w && q.v0 <= q.v1 <= h,
    }
}

/// Whether `bytes` bytes are exactly the RGBA texels of a `w × h` atlas.
pub open spec fn atlas_size_matches(w: u32, h: u32, bytes: usize) -> bool {
    bytes as int == w as int * h as int * 4
}

/// The first glyph of `glyphs` for character `c`.
pub open spec fn first_glyph(glyphs: Seq<Glyph>, c: char) -> Option<Glyph>
    decreases glyphs.len(),
{
    if glyphs.len() == 0 {
        None
    } else if glyphs[0].ch == c {
        Some(glyphs[0])
    } else {
        first_glyph(glyphs.drop_first(), c)
    }
}

/// The first adjustment of `pairs` between `l` and `r`; zero when none.
pub open spec fn kerning_of(pairs: Seq<KerningPair>, l: char, r: char) -> int
    decreases pairs.len(),
{
    if pairs.len() == 0 {
        0
    } else if pairs[0].left == l && pairs[0].right == r {
        pairs[0].adjust as int
    } else {
        kerning_of(pairs.drop_first(), l, r)
    }
}

/// The glyph drawn for `c`: its own, else the fallback glyph, else none.
pub open spec fn resolve_glyph(font: Font, c: char) -> Option<Glyph> {
    match first_glyph(font.glyphs@, c) {
        Some(g) => Some(g),
        None => first_glyph(font.glyphs@, font.fallback),
    }
}

/// Layout progress: pen position, the glyph before the pen, and the geometry so far.
pub struct LayoutState {
    pub pen_x: int,
    pub pen_y: int,
    pub prev: Option<char>,
    pub vertices: Seq<UiVertex>,
    pub indices: Seq<u32>,
}

/// The four corners of a glyph quad whose pen stands at `(x, y)`, clockwise
/// from top-left on screen.
pub open spec fn quad_vertices(q: GlyphQuad, x: int, y: int) -> Seq<UiVertex> {
    seq![
        UiVertex { x: (x + q.left) as i64, y: (y + q.top) as i64, u: q.u0, v: q.v0 },
        UiVertex { x: (x + q.right) as i64, y: (y + q.top) as i64, u: q.u1, v: q.v0 },
        UiVertex { x: (x + q.right) as i64, y: (y + q.bottom) as i64, u: q.u1, v: q.v1 },
        UiVertex { x: (x + q.left) as i64, y: (y + q.bottom) as i64, u: q.u0, v: q.v1 },
    ]
}

/// The two triangles of a quad whose first corner is vertex `base`.
pub open spec fn quad_indices(base: int) -> Seq<u32> {
    seq![
        base as u32,
        (base + 1) as u32,
        (base + 2) as u32,
        base as u32,
        (base + 2) as u32,
        (base + 3) as u32,
    ]
}

/// One character of layout. A newline moves the pen to the start of the next
/// line. Another character draws its glyph's quad (if it has one) after the
/// kerning from the glyph before, then advances the pen; a character with no
/// glyph and no fallback is passed over.
pub open spec fn layout_step(font: Font, st: LayoutState, c: char) -> LayoutState {
    if c == '\n' {
        LayoutState {
            pen_x: 0,
            pen_y: st.pen_y + font.line_height,
            prev: None,
            vertices: st.vertices,
            indices: st.indices,
        }
    } else {
        match resolve_glyph(font, c) {
            None => st,
            Some(g) => {
                let x = st.pen_x + match st.prev {
                    Some(p) => kerning_of(font.kerning@, p, g.ch),
                    None => 0,
                };
                let (vertices, indices) = match g.quad {
                    Some(q) => (
                        st.vertices + quad_vertices(q, x, st.pen_y),
                        st.indices + quad_indices(st.vertices.len() as int),
                    ),
                    None => (st.vertices, st.indices),
                };
                LayoutState {
                    pen_x: x + g.advance,
                    pen_y: st.pen_y,
                    prev: Some(g.ch),
                    vertices,
                    indices,
                }
            },
        }
    }
}

/// Layout of `chars`, left to right and line by line, from the origin.
pub open spec fn layout(font: Font, chars: Seq<char>) -> LayoutState
    decreases chars.len(),
{
    if chars.len() == 0 {
        LayoutState {
            pen_x: 0,
            pen_y: 0,
            prev: None,
            vertices: Seq::empty(),
            indices: Seq::empty(),
        }
    } else {
        layout_step(font, layout(font, chars.drop_last()), chars.last())
    }
}

/// Whether character `c` draws a quad.
pub open spec fn draws_quad(font: Font, c: char) -> bool {
    c != '\n' && resolve_glyph(font, c) is Some && resolve_glyph(font, c)->0.quad is Some
}

/// Number of characters of `chars` that draw a quad.
pub open spec fn visible_count(font: Font, chars: Seq<char>) -> nat
    decreases chars.len(),
{
    if chars.len() == 0 {
        0
    } else {
        visible_count(font, chars.drop_last()) + if draws_quad(font, chars.last()) {
            1nat
        } else {
            0nat
        }
    }
}

/// A laid-out text has four vertices and six indices per visible glyph, and
/// every index names one of its vertices.
pub proof fn lemma_layout_counts(font: Font, chars: Seq<char>)
    requires
        chars.len() <= MAX_TEXT_CHARS,
    ensures
        layout(font, chars).vertices.len() == 4 * visible_count(font, chars),
        layout(font, chars).indices.len() == 6 * visible_count(font, chars),
        forall|k: int|
            0 <= k < layout(font, chars).indices.len() ==> (#[trigger] layout(
                font,
                chars,
            ).indices[k] as int) < layout(font, chars).vertices.len(),
    decreases chars.len(),
{
    if chars.len() > 0 {
        let rest = chars.drop_last();
        lemma_layout_counts(font, rest);
        lemma_visible_bound(font, rest);
        let st = layout(font, rest);
        let n = st.vertices.len() as int;
        let c = chars.last();
        if draws_quad(font, c) {
            let ix = layout(font, chars).indices;
            assert forall|k: int| 0 <= k < ix.len() implies (#[trigger] ix[k] as int) < layout(
                font,
                chars,
            ).vertices.len() by {
                if k >= st.indices.len() {
                    assert(ix[k] == quad_indices(n)[k - st.indices.len()]);
                } else {
                    assert(ix[k] == st.indices[k]);
                }
            }
        }
    }
}

proof fn lemma_visible_bound(font: Font, chars: Seq<char>)
    ensures
        visible_count(font, chars) <= chars.len(),
    decreases chars.len(),
{
    if chars.len() > 0 {
        lemma_visible_bound(font, chars.drop_last());
    }
}

/// The characters of `s`, in order.
pub fn chars_of(s: &str) -> (r: Vec<char>)
    ensures
        r@ == s@,
{
    let n = s.unicode_len();
    let mut r: Vec<char> = Vec::new();
    let mut i: usize = 0;
    while i < n
        invariant
            n == s@.len(),
            i <= n,
            r@ == s@.subrange(0, i as int),
        decreases n - i,
    {
        r.push(s.get_char(i));
        i = i + 1;
        assert(r@ =~= s@.subrange(0, i as int));
    }
    assert(s@.subrange(0, n as int) =~= s@);
    r
}

impl Font {
    /// The first glyph for `c`, if the atlas has one.
    pub fn glyph(&self, c: char) -> (r: Option<Glyph>)
        ensures
            r == first_glyph(self.glyphs@, c),
    {
        let mut i: usize = 0;
        assert(self.glyphs@.subrange(0, self.glyphs@.len() as int) =~= self.glyphs@);
        while i < self.glyphs.len()
            invariant
                i <= self.glyphs@.len(),
                first_glyph(self.glyphs@, c) == first_glyph(
                    self.glyphs@.subrange(i as int, self.glyphs@.len() as int),
                    c,
                ),
            decreases self.glyphs@.len() - i,
        {
            let g = self.glyphs[i];
            assert(self.glyphs@.subrange(i as int, self.glyphs@.len() as int).drop_first()
                =~= self.glyphs@.subrange(i + 1, self.glyphs@.len() as int));
            if g.ch == c {
                return Some(g);
            }
            i = i + 1;
        }
        None
    }

    /// Checks the atlas against `atlas_bytes` bytes of RGBA pixel data: the
    /// sizes must agree, and every glyph's texel rectangle must be proper and
    /// lie inside the atlas (the first glyph that does not is reported).
    pub fn validate(&self, atlas_bytes: usize) -> (r: Result<(), FontError>)
        ensures
            !atlas_size_matches(self.atlas_width, self.atlas_height, atlas_bytes) ==> r == Err::<
                (),
                FontError,
            >(FontError::AtlasSizeMismatch),
            atlas_size_matches(self.atlas_width, self.atlas_height, atlas_bytes) ==> (r is Ok
                <==> forall|i: int|
                0 <= i < self.glyphs@.len() ==> glyph_fits(
                    #[trigger] self.glyphs@[i],
                    self.atlas_width,
                    self.atlas_height,
                )),
            r matches Err(FontError::GlyphOutsideAtlas(c)) ==> exists|i: int|
                0 <= i < self.glyphs@.len() && (#[trigger] self.glyphs@[i]).ch == c && !glyph_fits(
                    self.glyphs@[i],
                    self.atlas_width,
                    self.atlas_height,
                ) && forall|j: int|
                    0 <= j < i ==> glyph_fits(
                        #[trigger] self.glyphs@[j],
                        self.atlas_width,
                        self.atlas_height,
                    ),
    {
        assert(self.atlas_width as int * self.atlas_height as int <= u64::MAX) by (nonlinear_arith)
            requires
                self.atlas_width <= u32::MAX,
                self.atlas_height <= u32::MAX,
        ;
        let texels = self.atlas_width as u64 * self.atlas_height as u64;
        if texels > (usize::MAX / 4) as u64 || atlas_bytes != (texels as usize) * 4 {
            return Err(FontError::AtlasSizeMismatch);
        }
        let mut i: usize = 0;
        while i < self.glyphs.len()
            invariant
                atlas_size_matches(self.atlas_width, self.atlas_height, atlas_bytes),
                i <= self.glyphs@.len(),
                forall|j: int|
                    0 <= j < i ==> glyph_fits(#[trigger] self.glyphs@[j], self.atlas_width, self.atlas_height),
            decreases self.glyphs@.len() - i,
        {
            let g = self.glyphs[i];
            let fits = match g.quad {
                None => true,
                Some(q) => q.u0 <= q.u1 && q.u1 <= self.atlas_width && q.v0 <= q.v1 && q.v1
                    <= self.atlas_height,
            };
            if !fits {
                return Err(FontError::GlyphOutsideAtlas(g.ch));
            }
            i = i + 1;
        }
        Ok(())
    }

    /// The glyph drawn for `c`: its own, else the fallback glyph.
    pub fn resolve(&self, c: char) -> (r: Option<Glyph>)
        ensures
            r == resolve_glyph(*self, c),
    {
        match self.glyph(c) {
            Some(g) => Some(g),
            None => self.glyph(self.fallback),
        }
    }

    /// Kerning adjustment between glyphs `l` and `r`; zero when the table has none.
    pub fn kerning_between(&self, l: char, r: char) -> (a: i32)
        ensures
            a as int == kerning_of(self.kerning@, l, r),
    {
        let mut i: usize = 0;
        assert(self.kerning@.subrange(0, self.kerning@.len() as int) =~= self.kerning@);
        while i < self.kerning.len()
            invariant
                i <= self.kerning@.len(),
                kerning_of(self.kerning@, l, r) == kerning_of(
                    self.kerning@.subrange(i as int, self.kerning@.len() as int),
                    l,
                    r,
                ),
            decreases self.kerning@.len() - i,
        {
            let p = self.kerning[i];
            assert(self.kerning@.subrange(i as int, self.kerning@.len() as int).drop_first()
                =~= self.kerning@.subrange(i + 1, self.kerning@.len() as int));
            if p.left == l && p.right == r {
                return p.adjust;
            }
            i = i + 1;
        }
        0
    }
}

const PEN_STEP: i64 = 4294967296;

/// Lays out `chars` from the origin: one quad (four vertices, two triangles)
/// per visible glyph.
pub fn layout_text(font: &Font, chars: &Vec<char>) -> (r: (Vec<UiVertex>, Vec<u32>))
    requires
        chars@.len() <= MAX_TEXT_CHARS,
    ensures
        r.0@ == layout(*font, chars@).vertices,
        r.1@ == layout(*font, chars@).indices,
        r.0@.len() == 4 * visible_count(*font, chars@),
        r.1@.len() == 6 * visible_count(*font, chars@),
{
    let mut pen_x: i64 = 0;
    let mut pen_y: i64 = 0;
    let mut prev: Option<char> = None;
    let mut vertices: Vec<UiVertex> = Vec::new();
    let mut indices: Vec<u32> = Vec::new();
    let mut i: usize = 0;
    while i < chars.len()
        invariant
            chars@.len() <= MAX_TEXT_CHARS,
            i <= chars@.len(),
            layout(*font, chars@.subrange(0, i as int)) == (LayoutState {
                pen_x: pen_x as int,
                pen_y: pen_y as int,
                prev,
                vertices: vertices@,
                indices: indices@,
            }),
            -(i as int) * PEN_STEP <= pen_x <= (i as int) * PEN_STEP,
            -(i as int) * PEN_STEP <= pen_y <= (i as int) * PEN_STEP,
            vertices@.len() <= 4 * i,
        decreases chars@.len() - i,
    {
        let c = chars[i];
        let ghost before = chars@.subrange(0, i as int);
        let ghost st = layout(*font, before);
        assert(chars@.subrange(0, i + 1).drop_last() =~= before);
        if c == '\n' {
            pen_x = 0;
            pen_y = pen_y + font.line_height as i64;
            prev = None;
        } else {
            match font.resolve(c) {
                None => {},
                Some(g) => {
                    let kern: i64 = match prev {
                        Some(p) => font.kerning_between(p, g.ch) as i64,
                        None => 0,
                    };
                    let x = pen_x + kern;
                    match g.quad {
                        Some(q) => {
                            let base = vertices.len() as u32;
                            let y = pen_y;
                            vertices.push(UiVertex { x: x + q.left as i64, y: y + q.top as i64, u: q.u0, v: q.v0 });
                            vertices.push(UiVertex { x: x + q.right as i64, y: y + q.top as i64, u: q.u1, v: q.v0 });
                            vertices.push(UiVertex { x: x + q.right as i64, y: y + q.bottom as i64, u: q.u1, v: q.v1 });
                            vertices.push(UiVertex { x: x + q.left as i64, y: y + q.bottom as i64, u: q.u0, v: q.v1 });
                            indices.push(base);
                            indices.push(base + 1);
                            indices.push(base + 2);
                            indices.push(base);
                            indices.push(base + 2);
                            indices.push(base + 3);
                        },
                        None => {},
                    }
                    pen_x = x + g.advance as i64;
                    prev = Some(g.ch);
                },
            }
        }
        i = i + 1;
        proof {
            let s = layout(*font, chars@.subrange(0, i as int));
            assert(s == layout_step(*font, st, c));
            assert(s.vertices =~= vertices@);
            assert(s.indices =~= indices@);
        }
    }
    assert(chars@.subrange(0, chars@.len() as int) =~= chars@);
    proof {
        lemma_layout_counts(*font, chars@);
    }
    (vertices, indices)
}

/// Whether `b` is what replacing the whole content of `a` leaves: room
/// grown (double or exact) only when the new content does not fit, all of it
/// pending upload, and a reallocation pending when the room changed.
pub open spec fn replaced_in<T>(a: BackedBuffer<T>, b: BackedBuffer<T>) -> bool {
    &&& b.spec_capacity() as nat == grown_capacity(a.spec_capacity() as nat, b@.len())
    &&& b@.len() <= b.spec_capacity()
    &&& b.spec_dirty_from() == 0
    &&& b.spec_reallocate() == (a.spec_reallocate() || b.spec_capacity() != a.spec_capacity())
}

/// GPU geometry of one buffered text: its quads' vertices and indices.
pub struct TextBuffer {
    vertices: BackedBuffer<UiVertex>,
    indices: BackedBuffer<u32>,
}

impl TextBuffer {
    pub closed spec fn spec_vertices(&self) -> BackedBuffer<UiVertex> {
        self.vertices
    }

    pub closed spec fn spec_indices(&self) -> BackedBuffer<u32> {
        self.indices
    }

    /// Both buffers are valid and hold whole quads: six indices per four vertices.
    pub closed spec fn wf(&self) -> bool {
        &&& self.vertices.wf()
        &&& self.indices.wf()
        &&& self.vertices@.len() % 4 == 0
        &&& self.indices@.len() == self.vertices@.len() / 4 * 6
    }

    /// Geometry of `chars` laid out with `font`, still to be uploaded.
    fn from_layout(font: &Font, chars: &Vec<char>) -> (r: Self)
        requires
            chars@.len() <= MAX_TEXT_CHARS,
        ensures
            r.wf(),
            r.spec_vertices()@ == layout(*font, chars@).vertices,
            r.spec_indices()@ == layout(*font, chars@).indices,
            r.spec_vertices().spec_reallocate(),
            r.spec_indices().spec_reallocate(),
            r.spec_vertices().spec_capacity() == r.spec_vertices()@.len(),
            r.spec_indices().spec_capacity() == r.spec_indices()@.len(),
            r.spec_vertices().spec_dirty_from() == 0,
            r.spec_indices().spec_dirty_from() == 0,
    {
        let (v, ix) = layout_text(font, chars);
        TextBuffer { vertices: BackedBuffer::with_data(v), indices: BackedBuffer::with_data(ix) }
    }

    /// Number of glyph quads held.
    pub fn glyph_count(&self) -> (r: usize)
        requires
            self.wf(),
        ensures
            r == self.spec_vertices()@.len() / 4,
    {
        self.vertices.len() / 4
    }

    pub fn vertices(&self) -> (r: &[UiVertex])
        ensures
            r@ == self.spec_vertices()@,
    {
        self.vertices.as_slice()
    }

    pub fn indices(&self) -> (r: &[u32])
        ensures
            r@ == self.spec_indices()@,
    {
        self.indices.as_slice()
    }

    /// Hands out the pending uploads of the vertex and the index buffer.
    pub fn flush(&mut self) -> (r: (crate::buffer::BufferUpload, crate::buffer::BufferUpload))
        requires
            old(self).wf(),
        ensures
            final(self).wf(),
            final(self).spec_vertices()@ == old(self).spec_vertices()@,
            final(self).spec_indices()@ == old(self).spec_indices()@,
            final(self).spec_vertices().spec_capacity() == old(self).spec_vertices().spec_capacity(),
            final(self).spec_indices().spec_capacity() == old(self).spec_indices().spec_capacity(),
            !final(self).spec_vertices().spec_reallocate(),
            !final(self).spec_indices().spec_reallocate(),
            r.0 == crate::buffer::upload_for(
                old(self).spec_vertices().spec_reallocate(),
                old(self).spec_vertices().spec_capacity(),
                old(self).spec_vertices().spec_dirty_from(),
                old(self).spec_vertices()@.len(),
            ),
            r.1 == crate::buffer::upload_for(
                old(self).spec_indices().spec_reallocate(),
                old(self).spec_indices().spec_capacity(),
                old(self).spec_indices().spec_dirty_from(),
                old(self).spec_indices()@.len(),
            ),
    {
        let v = self.vertices.flush();
        let ix = self.indices.flush();
        (v, ix)
    }
}

/// The commands that draw text `id`: pipeline, atlas at group 0, camera at
/// group 1, its buffers, and one indexed draw over all its indices.
pub open spec fn text_draw_commands(id: usize, camera: BindingRef, index_count: usize) -> Seq<
    RenderCommand,
> {
    seq![
        RenderCommand::SetPipeline(PipelineKind::Text),
        RenderCommand::SetBindGroup { slot: 0, binding: BindingRef::FontAtlas },
        RenderCommand::SetBindGroup { slot: 1, binding: camera },
        RenderCommand::SetVertexBuffer { slot: 0, buffer: BufferRef::TextVertices(id) },
        RenderCommand::SetIndexBuffer(BufferRef::TextIndices(id)),
        RenderCommand::DrawIndexed { index_count, instance_count: 1 },
    ]
}

/// What drawing text `id` adds to a pass: nothing when it has no glyph.
pub open spec fn text_draw(id: usize, camera: BindingRef, buffer: TextBuffer) -> Seq<RenderCommand> {
    if buffer.spec_vertices()@.len() == 0 {
        Seq::empty()
    } else {
        text_draw_commands(id, camera, buffer.spec_indices()@.len() as usize)
    }
}

/// Shader module of the text pipeline.
pub const TEXT_SHADER: &'static str = "shaders/text.wgsl";

/// The text pipeline: samples the glyph atlas, blends by alpha, no depth.
pub struct TextPipeline {
    pub desc: PipelineDesc,
}

/// The text pipeline as [`TextPipeline::new`] builds it: atlas at group 0 and
/// camera at group 1; vertex stage `text_vertex` of the text shader over glyph
/// corners; fragment stage `text_fragment` with one alpha-blended target; no
/// culling and no depth test.
pub open spec fn text_pipeline_as_built(p: TextPipeline) -> bool {
    let d = p.desc;
    &&& d.label is None
    &&& d.binders@ == binders_for(seq![BinderLayouts::SampledTexture, BinderLayouts::Camera])
    &&& d.vertex.shader@ == TEXT_SHADER@
    &&& d.vertex.entry_point@ == "text_vertex"@
    &&& d.vertex.buffer_layouts@ == seq![VertexLayouts::UiVertex]
    &&& d.depth is None
    &&& d.cull_mode is None
    &&& d.fragment is Some
    &&& d.fragment->0.entry_point@ == "text_fragment"@
    &&& d.fragment->0.targets@ == seq![ColorTarget::AlphaBlend]
}

impl TextPipeline {
    /// Builds the text pipeline (see [`text_pipeline_as_built`]).
    pub fn new() -> (r: Result<Self, PipelineError>)
        ensures
            r is Ok,
            text_pipeline_as_built(r->Ok_0),
    {
        let mut layouts: Vec<BinderLayouts> = Vec::new();
        layouts.push(BinderLayouts::SampledTexture);
        layouts.push(BinderLayouts::Camera);
        let mut buffers: Vec<VertexLayouts> = Vec::new();
        buffers.push(VertexLayouts::UiVertex);
        let mut targets: Vec<ColorTarget> = Vec::new();
        targets.push(ColorTarget::AlphaBlend);
        assert(layouts@ =~= seq![BinderLayouts::SampledTexture, BinderLayouts::Camera]);
        assert(buffers@ =~= seq![VertexLayouts::UiVertex]);
        assert(targets@ =~= seq![ColorTarget::AlphaBlend]);
        let desc = RenderPipelineBuilder::new().layout(layouts).vertex(
            VertexDesc {
                shader: String::from_str(TEXT_SHADER),
                entry_point: String::from_str("text_vertex"),
                buffer_layouts: buffers,
            },
        ).fragment(
            FragmentDesc { entry_point: String::from_str("text_fragment"), targets },
        ).build()?;
        Ok(TextPipeline { desc })
    }

    /// Lays out `text` with `font` and holds its geometry, still to be
    /// uploaded. Fails when the text is longer than [`MAX_TEXT_CHARS`].
    pub fn buffer_text(&self, font: &Font, text: &str) -> (r: Result<TextBuffer, TextError>)
        ensures
            text@.len() > MAX_TEXT_CHARS ==> r == Err::<TextBuffer, TextError>(TextError::TooLong),
            text@.len() <= MAX_TEXT_CHARS ==> r is Ok,
            r is Ok ==> {
                &&& r->Ok_0.wf()
                &&& r->Ok_0.spec_vertices()@ == layout(*font, text@).vertices
                &&& r->Ok_0.spec_indices()@ == layout(*font, text@).indices
                &&& r->Ok_0.spec_vertices().spec_reallocate()
                &&& r->Ok_0.spec_indices().spec_reallocate()
                &&& r->Ok_0.spec_vertices().spec_capacity() == r->Ok_0.spec_vertices()@.len()
                &&& r->Ok_0.spec_indices().spec_capacity() == r->Ok_0.spec_indices()@.len()
                &&& r->Ok_0.spec_vertices().spec_dirty_from() == 0
                &&& r->Ok_0.spec_indices().spec_dirty_from() == 0
            },
    {
        if text.unicode_len() > MAX_TEXT_CHARS {
            return Err(TextError::TooLong);
        }
        let chars = chars_of(text);
        Ok(TextBuffer::from_layout(font, &chars))
    }

    /// Regenerates the whole geometry of `buffer` for `text` (no incremental
    /// patching). Fails, leaving `buffer` as it was, when the text is longer
    /// than [`MAX_TEXT_CHARS`].
    pub fn update_text(&self, font: &Font, text: &str, buffer: &mut TextBuffer) -> (r: Result<
        (),
        TextError,
    >)
        requires
            old(buffer).wf(),
        ensures
            final(buffer).wf(),
            text@.len() > MAX_TEXT_CHARS ==> r == Err::<(), TextError>(TextError::TooLong),
            text@.len() <= MAX_TEXT_CHARS ==> r is Ok,
            r is Err ==> *final(buffer) == *old(buffer),
            r is Ok ==> {
                &&& final(buffer).spec_vertices()@ == layout(*font, text@).vertices
                &&& final(buffer).spec_indices()@ == layout(*font, text@).indices
                &&& replaced_in(old(buffer).spec_vertices(), final(buffer).spec_vertices())
                &&& replaced_in(old(buffer).spec_indices(), final(buffer).spec_indices())
            },
    {
        if text.unicode_len() > MAX_TEXT_CHARS {
            return Err(TextError::TooLong);
        }
        let chars = chars_of(text);
        let (v, ix) = layout_text(font, &chars);
        buffer.vertices.replace(v);
        buffer.indices.replace(ix);
        Ok(())
    }

    /// Records the draw of text `id`; records nothing when it has no glyph.
    pub fn draw_text(&self, pass: &mut RenderPass, id: usize, buffer: &TextBuffer, camera: BindingRef)
        ensures
            final(pass).kind == old(pass).kind,
            final(pass).commands@ == old(pass).commands@ + text_draw(id, camera, *buffer),
    {
        if buffer.vertices.len() == 0 {
            assert(old(pass).commands@ + Seq::<RenderCommand>::empty() =~= old(pass).commands@);
            return ;
        }
        let mut cmds: Vec<RenderCommand> = Vec::new();
        cmds.push(RenderCommand::SetPipeline(PipelineKind::Text));
        cmds.push(RenderCommand::SetBindGroup { slot: 0, binding: BindingRef::FontAtlas });
        cmds.push(RenderCommand::SetBindGroup { slot: 1, binding: camera });
        cmds.push(RenderCommand::SetVertexBuffer { slot: 0, buffer: BufferRef::TextVertices(id) });
        cmds.push(RenderCommand::SetIndexBuffer(BufferRef::TextIndices(id)));
        cmds.push(RenderCommand::DrawIndexed { index_count: buffer.indices.len(), instance_count: 1 });
        assert(cmds@ =~= text_draw(id, camera, *buffer));
        pass.record(cmds);
    }
}

} // verus!
