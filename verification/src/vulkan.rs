//! Decision logic of the Vulkan renderer: configuration, choice of device
//! and queue families, swapchain parameters, frame rotation and the frame's
//! vertex staging.

use vstd::prelude::*;
use crate::error::K1Error;

verus! {

/// Frames in flight (triple buffering).
pub const MAX_FRAMES_IN_FLIGHT: usize = 3;
/// Most vertices of one frame.
pub const MAX_VERTICES_PER_FRAME: usize = 65536;
/// Most textures.
pub const MAX_TEXTURES: usize = 256;
/// Most command buffers.
pub const MAX_COMMAND_BUFFERS: usize = 16;

/// Vulkan present mode code: wait for the next vertical blank, never tear.
pub const PRESENT_MODE_FIFO: i32 = 2;
/// Vulkan present mode code: replace the queued image, never tear.
pub const PRESENT_MODE_MAILBOX: i32 = 1;

/// Renderer configuration.
#[derive(Clone, Debug)]
pub struct RendererConfig {
    pub width: u32,
    pub height: u32,
    pub enable_validation: bool,
    pub vsync: bool,
}

impl RendererConfig {
    /// A `width` x `height` configuration with vsync on and validation off.
    pub fn new(width: u32, height: u32) -> (c: Self)
        ensures
            c.width == width,
            c.height == height,
            !c.enable_validation,
            c.vsync,
    {
        RendererConfig { width, height, enable_validation: false, vsync: true }
    }
}

/// What a queue family of a device offers.
#[derive(Clone, Copy, Debug, PartialEq, Eq, Structural)]
pub struct QueueFamilyInfo {
    /// Whether it runs graphics work.
    pub graphics: bool,
    /// Whether it can present to the window's surface.
    pub present: bool,
}

/// The last of the first `n` families that runs graphics work.
pub open spec fn last_graphics(f: Seq<QueueFamilyInfo>, n: int) -> Option<int>
    decreases n,
{
    if n <= 0 {
        None
    } else if f[n - 1].graphics {
        Some(n - 1)
    } else {
        last_graphics(f, n - 1)
    }
}

/// The last of the first `n` families that can present.
pub open spec fn last_present(f: Seq<QueueFamilyInfo>, n: int) -> Option<int>
    decreases n,
{
    if n <= 0 {
        None
    } else if f[n - 1].present {
        Some(n - 1)
    } else {
        last_present(f, n - 1)
    }
}

/// `o` as a queue family index.
pub open spec fn as_family(o: Option<int>) -> Option<u32> {
    match o {
        Some(i) => Some(i as u32),
        None => None,
    }
}

/// The graphics and the present queue family of a device: for each, the
/// last family that offers it.
pub fn select_queue_families(families: &[QueueFamilyInfo]) -> (r: (Option<u32>, Option<u32>))
    requires
        families@.len() <= u32::MAX,
    ensures
        r.0 == as_family(last_graphics(families@, families@.len() as int)),
        r.1 == as_family(last_present(families@, families@.len() as int)),
{
    let mut graphics: Option<u32> = None;
    let mut present: Option<u32> = None;
    let mut i: usize = 0;
    while i < families.len()
        invariant
            families@.len() <= u32::MAX,
            i <= families@.len(),
            graphics == as_family(last_graphics(families@, i as int)),
            present == as_family(last_present(families@, i as int)),
        decreases families@.len() - i,
    {
        if families[i].graphics {
            graphics = Some(i as u32);
        }
        if families[i].present {
            present = Some(i as u32);
        }
        i += 1;
    }
    (graphics, present)
}

/// Whether device `d` (given by its queue families) has a graphics and a
/// present family.
pub open spec fn device_usable(d: Seq<QueueFamilyInfo>) -> bool {
    last_graphics(d, d.len() as int) is Some && last_present(d, d.len() as int) is Some
}

/// The first usable device with its graphics and present queue families;
/// `NotSupported` when no device is usable.
pub fn select_physical_device(devices: &[Vec<QueueFamilyInfo>]) -> (r: Result<(usize, u32, u32), K1Error>)
    requires
        forall|d: int| 0 <= d < devices@.len() ==> #[trigger] devices@[d]@.len() <= u32::MAX,
    ensures
        r is Err <==> forall|d: int| 0 <= d < devices@.len() ==> !device_usable(#[trigger] devices@[d]@),
        r is Err ==> r == Err::<(usize, u32, u32), K1Error>(K1Error::NotSupported),
        r matches Ok((d, g, p)) ==> {
            &&& d < devices@.len()
            &&& device_usable(devices@[d as int]@)
            &&& forall|e: int| 0 <= e < d ==> !device_usable(#[trigger] devices@[e]@)
            &&& Some(g) == as_family(last_graphics(devices@[d as int]@, devices@[d as int]@.len() as int))
            &&& Some(p) == as_family(last_present(devices@[d as int]@, devices@[d as int]@.len() as int))
        },
{
    let mut d: usize = 0;
    while d < devices.len()
        invariant
            d <= devices@.len(),
            forall|e: int| 0 <= e < devices@.len() ==> #[trigger] devices@[e]@.len() <= u32::MAX,
            forall|e: int| 0 <= e < d ==> !device_usable(#[trigger] devices@[e]@),
        decreases devices@.len() - d,
    {
        let (g, p) = select_queue_families(devices[d].as_slice());
        match (g, p) {
            (Some(g), Some(p)) => {
                return Ok((d, g, p));
            },
            _ => {},
        }
        d += 1;
    }
    Err(K1Error::NotSupported)
}

/// The queue families to create queues on: one when graphics and present
/// share a family, both otherwise.
pub fn queue_families_to_create(graphics: u32, present: u32) -> (v: Vec<u32>)
    ensures
        graphics == present ==> v@ == seq![graphics],
        graphics != present ==> v@ == seq![graphics, present],
{
    if graphics == present {
        vec![graphics]
    } else {
        vec![graphics, present]
    }
}

/// How swapchain images are shared between queue families.
#[derive(Debug, Clone, Copy, PartialEq, Eq, Structural)]
pub enum SharingMode {
    /// Owned by one family at a time.
    Exclusive,
    /// Used by several families at once.
    Concurrent,
}

/// Images are shared concurrently exactly when graphics and present run on
/// different families.
pub fn image_sharing_mode(graphics: u32, present: u32) -> (m: SharingMode)
    ensures
        m == (if graphics != present {
            SharingMode::Concurrent
        } else {
            SharingMode::Exclusive
        }),
{
    if graphics != present {
        SharingMode::Concurrent
    } else {
        SharingMode::Exclusive
    }
}

/// The present mode: FIFO with vsync; without it, mailbox when the surface
/// offers it and FIFO otherwise.
pub fn choose_present_mode(vsync: bool, available: &[i32]) -> (m: i32)
    ensures
        m == (if vsync {
            PRESENT_MODE_FIFO
        } else if available@.contains(PRESENT_MODE_MAILBOX) {
            PRESENT_MODE_MAILBOX
        } else {
            PRESENT_MODE_FIFO
        }),
{
    if vsync {
        return PRESENT_MODE_FIFO;
    }
    let mut i: usize = 0;
    while i < available.len()
        invariant
            !vsync,
            i <= available@.len(),
            forall|j: int| 0 <= j < i ==> available@[j] != PRESENT_MODE_MAILBOX,
        decreases available@.len() - i,
    {
        if available[i] == PRESENT_MODE_MAILBOX {
            assert(available@[i as int] == PRESENT_MODE_MAILBOX);
            return PRESENT_MODE_MAILBOX;
        }
        i += 1;
    }
    PRESENT_MODE_FIFO
}

/// A two-dimensional size in pixels.
#[derive(Debug, Clone, Copy, PartialEq, Eq, Structural)]
pub struct Extent2D {
    pub width: u32,
    pub height: u32,
}

/// `v` clamped to `lo ..= hi`.
pub open spec fn clamp_u32(v: u32, lo: u32, hi: u32) -> u32 {
    if v < lo {
        lo
    } else if v > hi {
        hi
    } else {
        v
    }
}

/// Clamping keeps a value inside `lo ..= hi` as it is, and otherwise gives
/// the nearer bound: the result is always inside the bounds, and moves the
/// value as little as that allows.
pub proof fn law_clamp_keeps_values_inside(v: u32, lo: u32, hi: u32)
    requires
        lo <= hi,
    ensures
        lo <= clamp_u32(v, lo, hi) <= hi,
        lo <= v <= hi ==> clamp_u32(v, lo, hi) == v,
        v < lo ==> clamp_u32(v, lo, hi) == lo,
        hi < v ==> clamp_u32(v, lo, hi) == hi,
{
}

/// `v` clamped to `lo ..= hi`, as `Ord::clamp` does it (`lo` when `v` is
/// below it, `hi` when `v` is above it).
pub fn clamp_to(v: u32, lo: u32, hi: u32) -> (r: u32)
    requires
        lo <= hi,
    ensures
        r == clamp_u32(v, lo, hi),
{
    if v < lo {
        lo
    } else if v > hi {
        hi
    } else {
        v
    }
}

/// The swapchain size: the surface's current size when it states one (a
/// width of `u32::MAX` means it does not); otherwise the configured size
/// clamped to the surface's limits.
pub fn choose_swap_extent(current: Extent2D, min: Extent2D, max: Extent2D, config: &RendererConfig) -> (e: Extent2D)
    requires
        current.width == u32::MAX ==> min.width <= max.width && min.height <= max.height,
    ensures
        current.width != u32::MAX ==> e == current,
        current.width == u32::MAX ==> e == (Extent2D {
            width: clamp_u32(config.width, min.width, max.width),
            height: clamp_u32(config.height, min.height, max.height),
        }),
{
    if current.width != u32::MAX {
        current
    } else {
        Extent2D {
            width: clamp_to(config.width, min.width, max.width),
            height: clamp_to(config.height, min.height, max.height),
        }
    }
}

/// Swapchain images to ask for: one more than the surface's minimum, but no
/// more than its maximum.
pub fn swap_image_count(min_image_count: u32, max_image_count: u32) -> (n: u32)
    requires
        min_image_count < u32::MAX,
    ensures
        n == (if min_image_count + 1 <= max_image_count {
            min_image_count + 1
        } else {
            max_image_count as int
        }),
{
    let count = min_image_count + 1;
    count.min(max_image_count)
}

/// The frame slot used after slot `frame`, cycling through
/// [`MAX_FRAMES_IN_FLIGHT`] slots.
pub fn next_frame_index(frame: usize) -> (n: usize)
    requires
        frame < usize::MAX,
    ensures
        n == (frame + 1) % (MAX_FRAMES_IN_FLIGHT as int),
        n < MAX_FRAMES_IN_FLIGHT,
{
    (frame + 1) % MAX_FRAMES_IN_FLIGHT
}

/// The vertex staging of one frame: the mapped vertex memory and the count
/// of vertices written to it so far.
pub struct FrameContext<'a, V> {
    pub vertices: &'a mut [V],
    pub vertex_count: &'a mut usize,
}

impl<'a, V: Copy> FrameContext<'a, V> {
    /// Appends `verts` after the vertices already written; `OutOfMemory`,
    /// with nothing changed, when they do not all fit.
    pub fn push_vertices(&mut self, verts: &[V]) -> (r: Result<(), K1Error>)
        ensures
            ({
                let start = *old(self).vertex_count as int;
                let n = verts@.len() as int;
                &&& start + n > old(self).vertices@.len() ==> {
                    &&& r == Err::<(), K1Error>(K1Error::OutOfMemory)
                    &&& final(self).vertices@ == old(self).vertices@
                    &&& *final(self).vertex_count == *old(self).vertex_count
                }
                &&& start + n <= old(self).vertices@.len() ==> {
                    &&& r is Ok
                    &&& *final(self).vertex_count == start + n
                    &&& final(self).vertices@ == old(self).vertices@.subrange(0, start) + verts@
                        + old(self).vertices@.subrange(start + n, old(self).vertices@.len() as int)
                }
            }),
    {
        let start = *self.vertex_count;
        // `start + verts.len() > self.vertices.len()`, without overflow.
        if start > self.vertices.len() || verts.len() > self.vertices.len() - start {
            return Err(K1Error::OutOfMemory);
        }
        let mut i: usize = 0;
        while i < verts.len()
            invariant
                start == *old(self).vertex_count,
                start + verts@.len() <= usize::MAX,
                start + verts@.len() <= self.vertices@.len(),
                self.vertices@.len() == old(self).vertices@.len(),
                *self.vertex_count == start,
                i <= verts@.len(),
                forall|j: int| 0 <= j < self.vertices@.len() ==> #[trigger] self.vertices@[j] == (
                if start <= j < start + i {
                    verts@[j - start]
                } else {
                    old(self).vertices@[j]
                }),
            decreases verts@.len() - i,
        {
            self.vertices[start + i] = verts[i];
            i += 1;
        }
        *self.vertex_count = start + verts.len();
        assert(self.vertices@ =~= old(self).vertices@.subrange(0, start as int) + verts@
            + old(self).vertices@.subrange(start + verts@.len(), old(self).vertices@.len() as int));
        Ok(())
    }
}

/// Repeating [`next_frame_index`] once per frame slot comes back to the
/// slot it started from.
pub proof fn law_frame_rotation_cycles(frame: int)
    requires
        0 <= frame < MAX_FRAMES_IN_FLIGHT,
    ensures
        ((((frame + 1) % 3) + 1) % 3 + 1) % 3 == frame,
        forall|k: int| 1 <= k < 3 ==> #[trigger] ((frame + k) % 3) != frame,
{
}

} // verus!
