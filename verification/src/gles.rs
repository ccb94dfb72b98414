//! Decision logic of the GLES renderer: quad batch bookkeeping, the index
//! pattern that turns quads into triangles, the fallback order of EGL
//! framebuffer configurations and the size check of texture uploads.

use vstd::prelude::*;

verus! {

/// EGL attribute: end of an attribute list.
pub const EGL_NONE: i32 = 0x3038;
/// EGL surface type bit: window surfaces.
pub const EGL_WINDOW_BIT: i32 = 0x0004;
/// EGL renderable type bit: OpenGL ES 2.
pub const EGL_OPENGL_ES2_BIT: i32 = 0x0004;
/// EGL renderable type bit: OpenGL ES 3.
pub const EGL_OPENGL_ES3_BIT: i32 = 0x0040;
/// EGL attribute: renderable type.
pub const EGL_RENDERABLE_TYPE: i32 = 0x3040;
/// EGL attribute: surface type.
pub const EGL_SURFACE_TYPE: i32 = 0x3033;
/// EGL attribute: red channel bits.
pub const EGL_RED_SIZE: i32 = 0x3024;
/// EGL attribute: green channel bits.
pub const EGL_GREEN_SIZE: i32 = 0x3023;
/// EGL attribute: blue channel bits.
pub const EGL_BLUE_SIZE: i32 = 0x3022;
/// EGL attribute: alpha channel bits.
pub const EGL_ALPHA_SIZE: i32 = 0x3021;
/// EGL attribute: depth buffer bits.
pub const EGL_DEPTH_SIZE: i32 = 0x3025;
/// EGL attribute: stencil buffer bits.
pub const EGL_STENCIL_SIZE: i32 = 0x3028;
/// EGL attribute: configuration caveat.
pub const EGL_CONFIG_CAVEAT: i32 = 0x3027;
/// EGL context attribute: client API version.
pub const EGL_CONTEXT_CLIENT_VERSION: i32 = 0x3098;

/// Error code: no EGL display.
pub const ERR_NO_DISPLAY: i32 = 0x3008;
/// Error code: no EGL configuration matched any fallback.
pub const ERR_NO_CONFIG: i32 = 0x3001;
/// Error code: the shader object could not be created.
pub const ERR_SHADER_CREATE: i32 = 0x9999;
/// Error code: the shader did not compile.
pub const ERR_SHADER_COMPILE: i32 = 0x9998;
/// Error code: the program object could not be created.
pub const ERR_PROGRAM_CREATE: i32 = 0x9997;
/// Error code: the program did not link.
pub const ERR_PROGRAM_LINK: i32 = 0x9996;
/// Error code: the buffer object could not be created.
pub const ERR_BUFFER_CREATE: i32 = 0x9995;
/// Error code: the texture object could not be created.
pub const ERR_TEXTURE_CREATE: i32 = 0x9994;
/// Error code: a batch with room for no vertex or no index.
pub const ERR_EMPTY_BATCH: i32 = 0x9993;

/// Vertices of one quad.
pub const QUAD_VERTICES: usize = 4;
/// Indices of one quad (two triangles).
pub const QUAD_INDICES: usize = 6;

// ---------------------------------------------------------------------------
// Quad index pattern
// ---------------------------------------------------------------------------

/// Index `k` of the quad index buffer of a batch with room for
/// `max_vertices` vertices and `max_indices` indices. Quad `q` owns indices
/// `6q .. 6q + 6`, which name its corners `b, b+1, b+2, b, b+2, b+3` with
/// `b = 4q` (kept to 16 bits); a quad is only laid out when all of its 4
/// vertices and 6 indices fit. Every other index is 0.
pub open spec fn quad_index_at(k: int, max_vertices: int, max_indices: int) -> u16 {
    let q = k / 6;
    let r = k % 6;
    if 0 <= k && q < max_vertices / 4 && 6 * q + 5 < max_indices {
        let base = (4 * q) as u16;
        if r == 0 || r == 3 {
            base
        } else if r == 1 {
            (base + 1) as u16
        } else if r == 2 || r == 4 {
            (base + 2) as u16
        } else {
            (base + 3) as u16
        }
    } else {
        0
    }
}

/// The index buffer of a batch: two triangles per quad, for as many quads
/// as fit in both `MAX_VERTICES` and `MAX_INDICES`, zeros after them.
pub fn quad_indices<const MAX_VERTICES: usize, const MAX_INDICES: usize>() -> (v: Vec<u16>)
    requires
        MAX_INDICES <= isize::MAX / 2,
    ensures
        v@.len() == MAX_INDICES,
        forall|k: int|
            0 <= k < MAX_INDICES ==> #[trigger] v@[k] == quad_index_at(
                k,
                MAX_VERTICES as int,
                MAX_INDICES as int,
            ),
{
    let mut indices: Vec<u16> = Vec::new();
    let mut j: usize = 0;
    while j < MAX_INDICES
        invariant
            j <= MAX_INDICES,
            indices@.len() == j,
            forall|k: int| 0 <= k < j ==> indices@[k] == 0u16,
        decreases MAX_INDICES - j,
    {
        indices.push(0u16);
        j += 1;
    }
    let max_quads = MAX_VERTICES / 4;
    let mut i: usize = 0;
    while i < max_quads && i * 6 + 5 < MAX_INDICES
        invariant
            MAX_INDICES <= isize::MAX / 2,
            max_quads == MAX_VERTICES / 4,
            i <= max_quads,
            i == 0 || 6 * (i - 1) + 5 < MAX_INDICES,
            indices@.len() == MAX_INDICES,
            forall|k: int|
                0 <= k < MAX_INDICES ==> #[trigger] indices@[k] == (if k < 6 * i {
                    quad_index_at(k, MAX_VERTICES as int, MAX_INDICES as int)
                } else {
                    0u16
                }),
        decreases max_quads - i,
    {
        let idx = i * 6;
        let base = (i * 4) as u16;
        assert(base <= 65532) by (bit_vector)
            requires
                base == ((i * 4) as u16),
        ;
        indices.set(idx, base);
        indices.set(idx + 1, base + 1);
        indices.set(idx + 2, base + 2);
        indices.set(idx + 3, base);
        indices.set(idx + 4, base + 2);
        indices.set(idx + 5, base + 3);
        proof {
            assert forall|k: int| 0 <= k < MAX_INDICES implies #[trigger] indices@[k] == (if k < 6
                * (i + 1) {
                quad_index_at(k, MAX_VERTICES as int, MAX_INDICES as int)
            } else {
                0u16
            }) by {
                if 6 * i <= k < 6 * (i + 1) {
                    assert(k / 6 == i as int);
                    assert(k % 6 == k - 6 * i);
                    assert((4 * (i as int)) as u16 == base);
                }
            }
        }
        i += 1;
    }
    proof {
        assert forall|k: int| 0 <= k < MAX_INDICES implies #[trigger] indices@[k] == quad_index_at(
            k,
            MAX_VERTICES as int,
            MAX_INDICES as int,
        ) by {
            if k >= 6 * i {
                assert(k / 6 >= i);
            }
        }
    }
    indices
}

/// Indices of quads that do not fit (past the last quad whose 4 vertices
/// and 6 indices fit) are 0.
pub proof fn law_quad_indices_are_zero_past_the_last_quad(k: int, max_vertices: int, max_indices: int)
    requires
        0 <= k,
        k / 6 >= max_vertices / 4 || 6 * (k / 6) + 5 >= max_indices,
    ensures
        quad_index_at(k, max_vertices, max_indices) == 0,
{
}

/// Every quad that fits (its 4 vertices in `max_vertices`, its 6 indices in
/// `max_indices`, its last corner below 65536) is drawn as the two triangles
/// `4q, 4q+1, 4q+2` and `4q, 4q+2, 4q+3`, at indices `6q .. 6q + 6`.
pub proof fn law_quad_indices_name_the_quads_corners(q: int, max_vertices: int, max_indices: int)
    requires
        0 <= q,
        q < max_vertices / 4,
        6 * q + 5 < max_indices,
        4 * q + 3 < 65536,
    ensures
        quad_index_at(6 * q, max_vertices, max_indices) as int == 4 * q,
        quad_index_at(6 * q + 1, max_vertices, max_indices) as int == 4 * q + 1,
        quad_index_at(6 * q + 2, max_vertices, max_indices) as int == 4 * q + 2,
        quad_index_at(6 * q + 3, max_vertices, max_indices) as int == 4 * q,
        quad_index_at(6 * q + 4, max_vertices, max_indices) as int == 4 * q + 2,
        quad_index_at(6 * q + 5, max_vertices, max_indices) as int == 4 * q + 3,
{
    assert forall|j: int| 0 <= j < 6 implies (#[trigger] ((6 * q + j) / 6)) == q && (6 * q + j) % 6
        == j by {
        assert((6 * q + j) / 6 == q && (6 * q + j) % 6 == j) by (nonlinear_arith)
            requires
                0 <= j < 6,
                0 <= q,
        ;
    }
    assert((4 * q) as u16 == 4 * q);
    assert((6 * q + 0) / 6 == q);
    assert((6 * q + 1) / 6 == q);
    assert((6 * q + 2) / 6 == q);
    assert((6 * q + 3) / 6 == q);
    assert((6 * q + 4) / 6 == q);
    assert((6 * q + 5) / 6 == q);
}

// ---------------------------------------------------------------------------
// Quad batch bookkeeping
// ---------------------------------------------------------------------------

/// Checks the capacities of a batch: it needs room for at least one vertex
/// and one index.
pub fn check_batch_capacity(max_vertices: usize, max_indices: usize) -> (r: Result<(), i32>)
    ensures
        r is Ok <==> (max_vertices != 0 && max_indices != 0),
        r is Err ==> r == Err::<(), i32>(ERR_EMPTY_BATCH),
{
    if max_vertices == 0 || max_indices == 0 {
        Err(ERR_EMPTY_BATCH)
    } else {
        Ok(())
    }
}

/// How many vertices and indices a frame's batch holds, against the room of
/// `MAX_VERTICES` vertices and `MAX_INDICES` indices.
pub struct QuadBatch<const MAX_VERTICES: usize, const MAX_INDICES: usize> {
    vertex_count: usize,
    index_count: usize,
}

impl<const MAX_VERTICES: usize, const MAX_INDICES: usize> QuadBatch<MAX_VERTICES, MAX_INDICES> {
    /// Well-formedness: the counts never exceed the room.
    pub closed spec fn wf(&self) -> bool {
        &&& MAX_VERTICES <= isize::MAX / 20
        &&& MAX_INDICES <= isize::MAX / 2
        &&& self.vertex_count <= MAX_VERTICES
        &&& self.index_count <= MAX_INDICES
    }

    /// Vertices in the batch.
    pub closed spec fn spec_vertex_count(&self) -> usize {
        self.vertex_count
    }

    /// Indices in the batch.
    pub closed spec fn spec_index_count(&self) -> usize {
        self.index_count
    }

    /// Whether one more quad fits.
    pub open spec fn quad_fits(&self) -> bool {
        self.spec_vertex_count() + QUAD_VERTICES <= MAX_VERTICES && self.spec_index_count()
            + QUAD_INDICES <= MAX_INDICES
    }

    /// An empty batch. (A batch's vertices take 20 bytes each and its
    /// indices 2 bytes each, so no more of them can exist than `isize::MAX`
    /// bytes hold.)
    pub fn new() -> (b: Self)
        requires
            MAX_VERTICES <= isize::MAX / 20,
            MAX_INDICES <= isize::MAX / 2,
        ensures
            b.wf(),
            b.spec_vertex_count() == 0,
            b.spec_index_count() == 0,
    {
        QuadBatch { vertex_count: 0, index_count: 0 }
    }

    /// Empties the batch for a new frame.
    pub fn begin_frame(&mut self)
        requires
            old(self).wf(),
        ensures
            final(self).wf(),
            final(self).spec_vertex_count() == 0,
            final(self).spec_index_count() == 0,
    {
        self.vertex_count = 0;
        self.index_count = 0;
    }

    /// Makes room for one quad: returns the index of its first vertex and
    /// counts its 4 vertices and 6 indices; `None`, with nothing changed, when
    /// the quad does not fit (the quad is silently dropped).
    pub fn reserve_quad(&mut self) -> (r: Option<usize>)
        requires
            old(self).wf(),
        ensures
            final(self).wf(),
            old(self).quad_fits() ==> {
                &&& r == Some(old(self).spec_vertex_count())
                &&& final(self).spec_vertex_count() == old(self).spec_vertex_count() + QUAD_VERTICES
                &&& final(self).spec_index_count() == old(self).spec_index_count() + QUAD_INDICES
            },
            !old(self).quad_fits() ==> r is None && *final(self) == *old(self),
    {
        if self.vertex_count + QUAD_VERTICES > MAX_VERTICES || self.index_count + QUAD_INDICES
            > MAX_INDICES {
            return None;
        }
        let base = self.vertex_count;
        self.vertex_count = base + QUAD_VERTICES;
        self.index_count = self.index_count + QUAD_INDICES;
        Some(base)
    }

    /// Vertices in the batch.
    pub fn vertex_count(&self) -> (n: usize)
        ensures
            n == self.spec_vertex_count(),
    {
        self.vertex_count
    }

    /// Indices in the batch.
    pub fn index_count(&self) -> (n: usize)
        ensures
            n == self.spec_index_count(),
    {
        self.index_count
    }
}

// ---------------------------------------------------------------------------
// Texture uploads
// ---------------------------------------------------------------------------

/// Checks that `len` bytes are exactly the RGBA pixels of a `width` x
/// `height` texture (the size computed in `i32` and taken as `usize`).
pub fn check_rgba_len(width: i32, height: i32, len: usize) -> (r: Result<(), &'static str>)
    requires
        i32::MIN <= width * height * 4 <= i32::MAX,
    ensures
        r is Ok <==> len == ((width * height * 4) as i32) as usize,
        r matches Err(m) ==> m@ == "RGBA size mismatch"@,
{
    let expected = (width * height * 4) as usize;
    if len != expected {
        return Err("RGBA size mismatch");
    }
    Ok(())
}


// ---------------------------------------------------------------------------
// EGL configuration fallback
// ---------------------------------------------------------------------------

/// Number of framebuffer configurations tried, best first.
pub const FALLBACK_CONFIG_COUNT: usize = 5;

/// Attribute list of fallback configuration `i`: RGBA8 with depth and
/// stencil, RGBA8 with depth, RGBA8 alone, RGBA8 on ES 3, and any ES 2
/// window configuration.
pub open spec fn fallback_attribs(i: int) -> Seq<i32> {
    if i == 0 {
        seq![
            EGL_SURFACE_TYPE, EGL_WINDOW_BIT, EGL_RENDERABLE_TYPE, EGL_OPENGL_ES2_BIT,
            EGL_RED_SIZE, 8, EGL_GREEN_SIZE, 8, EGL_BLUE_SIZE, 8, EGL_ALPHA_SIZE, 8,
            EGL_DEPTH_SIZE, 16, EGL_STENCIL_SIZE, 8, EGL_NONE,
        ]
    } else if i == 1 {
        seq![
            EGL_SURFACE_TYPE, EGL_WINDOW_BIT, EGL_RENDERABLE_TYPE, EGL_OPENGL_ES2_BIT,
            EGL_RED_SIZE, 8, EGL_GREEN_SIZE, 8, EGL_BLUE_SIZE, 8, EGL_ALPHA_SIZE, 8,
            EGL_DEPTH_SIZE, 16, EGL_NONE,
        ]
    } else if i == 2 {
        seq![
            EGL_SURFACE_TYPE, EGL_WINDOW_BIT, EGL_RENDERABLE_TYPE, EGL_OPENGL_ES2_BIT,
            EGL_RED_SIZE, 8, EGL_GREEN_SIZE, 8, EGL_BLUE_SIZE, 8, EGL_ALPHA_SIZE, 8, EGL_NONE,
        ]
    } else if i == 3 {
        seq![
            EGL_SURFACE_TYPE, EGL_WINDOW_BIT, EGL_RENDERABLE_TYPE, EGL_OPENGL_ES3_BIT,
            EGL_RED_SIZE, 8, EGL_GREEN_SIZE, 8, EGL_BLUE_SIZE, 8, EGL_ALPHA_SIZE, 8, EGL_NONE,
        ]
    } else {
        seq![EGL_SURFACE_TYPE, EGL_WINDOW_BIT, EGL_RENDERABLE_TYPE, EGL_OPENGL_ES2_BIT, EGL_NONE]
    }
}

/// The fallback configurations, best first, each asking for less than the
/// one before: RGBA8 with a 16-bit depth and an 8-bit stencil buffer; the
/// same without the stencil request; the same without the depth request;
/// that last one on OpenGL ES 3 in place of ES 2; and any ES 2 window
/// configuration. Every list ends with `EGL_NONE`.
pub proof fn law_fallback_configs_ask_for_less_and_less()
    ensures
        fallback_attribs(0).len() == 17,
        fallback_attribs(0)[0] == 0x3033 && fallback_attribs(0)[1] == 0x0004,
        fallback_attribs(0)[2] == 0x3040 && fallback_attribs(0)[3] == 0x0004,
        fallback_attribs(0)[4] == 0x3024 && fallback_attribs(0)[5] == 8,
        fallback_attribs(0)[6] == 0x3023 && fallback_attribs(0)[7] == 8,
        fallback_attribs(0)[8] == 0x3022 && fallback_attribs(0)[9] == 8,
        fallback_attribs(0)[10] == 0x3021 && fallback_attribs(0)[11] == 8,
        fallback_attribs(0)[12] == 0x3025 && fallback_attribs(0)[13] == 16,
        fallback_attribs(0)[14] == 0x3028 && fallback_attribs(0)[15] == 8,
        fallback_attribs(0)[16] == 0x3038,
        fallback_attribs(1) == fallback_attribs(0).subrange(0, 14).push(0x3038),
        fallback_attribs(2) == fallback_attribs(0).subrange(0, 12).push(0x3038),
        fallback_attribs(3) == fallback_attribs(2).update(3, 0x0040),
        fallback_attribs(4) == fallback_attribs(0).subrange(0, 4).push(0x3038),
{
    assert(fallback_attribs(1) =~= fallback_attribs(0).subrange(0, 14).push(0x3038));
    assert(fallback_attribs(2) =~= fallback_attribs(0).subrange(0, 12).push(0x3038));
    assert(fallback_attribs(3) =~= fallback_attribs(2).update(3, 0x0040));
    assert(fallback_attribs(4) =~= fallback_attribs(0).subrange(0, 4).push(0x3038));
}

/// The attribute list of fallback configuration `i`.
pub fn fallback_config_attribs(i: usize) -> (v: Vec<i32>)
    requires
        i < FALLBACK_CONFIG_COUNT,
    ensures
        v@ == fallback_attribs(i as int),
{
    if i == 0 {
        vec![
            EGL_SURFACE_TYPE, EGL_WINDOW_BIT, EGL_RENDERABLE_TYPE, EGL_OPENGL_ES2_BIT,
            EGL_RED_SIZE, 8, EGL_GREEN_SIZE, 8, EGL_BLUE_SIZE, 8, EGL_ALPHA_SIZE, 8,
            EGL_DEPTH_SIZE, 16, EGL_STENCIL_SIZE, 8, EGL_NONE,
        ]
    } else if i == 1 {
        vec![
            EGL_SURFACE_TYPE, EGL_WINDOW_BIT, EGL_RENDERABLE_TYPE, EGL_OPENGL_ES2_BIT,
            EGL_RED_SIZE, 8, EGL_GREEN_SIZE, 8, EGL_BLUE_SIZE, 8, EGL_ALPHA_SIZE, 8,
            EGL_DEPTH_SIZE, 16, EGL_NONE,
        ]
    } else if i == 2 {
        vec![
            EGL_SURFACE_TYPE, EGL_WINDOW_BIT, EGL_RENDERABLE_TYPE, EGL_OPENGL_ES2_BIT,
            EGL_RED_SIZE, 8, EGL_GREEN_SIZE, 8, EGL_BLUE_SIZE, 8, EGL_ALPHA_SIZE, 8, EGL_NONE,
        ]
    } else if i == 3 {
        vec![
            EGL_SURFACE_TYPE, EGL_WINDOW_BIT, EGL_RENDERABLE_TYPE, EGL_OPENGL_ES3_BIT,
            EGL_RED_SIZE, 8, EGL_GREEN_SIZE, 8, EGL_BLUE_SIZE, 8, EGL_ALPHA_SIZE, 8, EGL_NONE,
        ]
    } else {
        vec![EGL_SURFACE_TYPE, EGL_WINDOW_BIT, EGL_RENDERABLE_TYPE, EGL_OPENGL_ES2_BIT, EGL_NONE]
    }
}

/// The log line announcing that fallback configuration `i` was chosen.
pub open spec fn fallback_label(i: int) -> Seq<char> {
    if i == 0 {
        "Config1: RGBA8+Depth+Stencil"@
    } else if i == 1 {
        "Config2: RGBA8+Depth"@
    } else if i == 2 {
        "Config3: RGBA8 only"@
    } else if i == 3 {
        "Config4: ES3 fallback"@
    } else {
        "Config5: Minimal"@
    }
}

/// The log line announcing that fallback configuration `i` was chosen.
pub fn fallback_config_label(i: usize) -> (s: &'static str)
    requires
        i < FALLBACK_CONFIG_COUNT,
    ensures
        s@ == fallback_label(i as int),
{
    if i == 0 {
        "Config1: RGBA8+Depth+Stencil"
    } else if i == 1 {
        "Config2: RGBA8+Depth"
    } else if i == 2 {
        "Config3: RGBA8 only"
    } else if i == 3 {
        "Config4: ES3 fallback"
    } else {
        "Config5: Minimal"
    }
}

/// What the configuration search asks for next.
#[derive(Debug, Clone, Copy, PartialEq, Eq, Structural)]
pub enum ConfigStep {
    /// Ask the display for fallback configuration `i`.
    Try(usize),
    /// Fallback configuration `i` was accepted: use it.
    Chosen(usize),
    /// Every fallback was refused: fail with this error code.
    Exhausted(i32),
}

/// Search for a framebuffer configuration: the fallbacks are tried best
/// first, and the first that the display accepts is chosen.
pub struct ConfigSearch {
    tried: usize,
    chosen: Option<usize>,
    outcomes: Ghost<Seq<bool>>,
}

impl ConfigSearch {
    /// Well-formedness: every configuration tried before the chosen one (or
    /// all of them, when none is chosen) was refused.
    pub closed spec fn wf(&self) -> bool {
        &&& self.tried <= FALLBACK_CONFIG_COUNT
        &&& forall|j: int| 0 <= j < self.tried ==> !self.outcomes@[j]
        &&& match self.chosen {
            Some(i) => {
                &&& i == self.tried
                &&& i < FALLBACK_CONFIG_COUNT
                &&& self.outcomes@.len() == i + 1
                &&& self.outcomes@[i as int]
            },
            None => self.outcomes@.len() == self.tried,
        }
    }

    /// Whether the display accepted each configuration tried so far, in
    /// order.
    pub closed spec fn outcomes(&self) -> Seq<bool> {
        self.outcomes@
    }

    /// What the search asks for next, given the outcomes so far.
    pub open spec fn spec_next(&self) -> ConfigStep {
        let o = self.outcomes();
        if o.len() > 0 && o.last() {
            ConfigStep::Chosen((o.len() - 1) as usize)
        } else if o.len() < FALLBACK_CONFIG_COUNT {
            ConfigStep::Try(o.len() as usize)
        } else {
            ConfigStep::Exhausted(ERR_NO_CONFIG)
        }
    }

    /// A search that has tried nothing yet.
    pub fn new() -> (s: Self)
        ensures
            s.wf(),
            s.outcomes() == Seq::<bool>::empty(),
    {
        ConfigSearch { tried: 0, chosen: None, outcomes: Ghost(Seq::empty()) }
    }

    /// What to do next: try the next fallback, use the accepted one, or
    /// give up when all were refused.
    pub fn next(&self) -> (step: ConfigStep)
        requires
            self.wf(),
        ensures
            step == self.spec_next(),
            step matches ConfigStep::Chosen(i) ==> self.outcomes()[i as int] && forall|j: int|
                0 <= j < i ==> !self.outcomes()[j],
            step matches ConfigStep::Try(i) ==> i < FALLBACK_CONFIG_COUNT && forall|j: int|
                0 <= j < i ==> !self.outcomes()[j],
            step matches ConfigStep::Exhausted(_) ==> self.outcomes().len() == FALLBACK_CONFIG_COUNT
                && forall|j: int| 0 <= j < FALLBACK_CONFIG_COUNT ==> !self.outcomes()[j],
    {
        match self.chosen {
            Some(i) => ConfigStep::Chosen(i),
            None => {
                if self.tried < FALLBACK_CONFIG_COUNT {
                    ConfigStep::Try(self.tried)
                } else {
                    ConfigStep::Exhausted(ERR_NO_CONFIG)
                }
            },
        }
    }

    /// Records whether the display accepted the configuration that
    /// [`ConfigSearch::next`] asked to try.
    pub fn record(&mut self, accepted: bool)
        requires
            old(self).wf(),
            old(self).spec_next() is Try,
        ensures
            final(self).wf(),
            final(self).outcomes() == old(self).outcomes().push(accepted),
    {
        proof {
            self.outcomes@ = self.outcomes@.push(accepted);
        }
        if accepted {
            self.chosen = Some(self.tried);
        } else {
            self.tried = self.tried + 1;
        }
    }
}

} // verus!
