//! Device, memory, swapchain and barrier parameter selection for the Vulkan
//! renderer.
//! Vulkan enums and flag sets are carried as their raw integer values.

use vstd::prelude::*;

verus! {

/// `VkFormat` `B8G8R8A8_UNORM`.
pub const FORMAT_B8G8R8A8_UNORM: i32 = 44;
/// `VkColorSpaceKHR` `SRGB_NONLINEAR`.
pub const COLOR_SPACE_SRGB_NONLINEAR: i32 = 0;
/// `VkPresentModeKHR` `MAILBOX`.
pub const PRESENT_MODE_MAILBOX: i32 = 1;
/// `VkPresentModeKHR` `FIFO`.
pub const PRESENT_MODE_FIFO: i32 = 2;
/// `VkCompositeAlphaFlagBitsKHR` values.
pub const COMPOSITE_ALPHA_OPAQUE: u32 = 0b1;
pub const COMPOSITE_ALPHA_PRE_MULTIPLIED: u32 = 0b10;
pub const COMPOSITE_ALPHA_POST_MULTIPLIED: u32 = 0b100;
pub const COMPOSITE_ALPHA_INHERIT: u32 = 0b1000;
/// `VkQueueFlagBits` `GRAPHICS`.
pub const QUEUE_GRAPHICS: u32 = 0b1;
/// `VkResult` `ERROR_OUT_OF_DATE_KHR`.
pub const ERROR_OUT_OF_DATE_KHR: i32 = -1000001004;
/// `VkImageLayout` values.
pub const IMAGE_LAYOUT_UNDEFINED: i32 = 0;
pub const IMAGE_LAYOUT_SHADER_READ_ONLY_OPTIMAL: i32 = 5;
pub const IMAGE_LAYOUT_TRANSFER_DST_OPTIMAL: i32 = 7;
/// `VkAccessFlagBits` values.
pub const ACCESS_NONE: u32 = 0;
pub const ACCESS_SHADER_READ: u32 = 0b10_0000;
pub const ACCESS_TRANSFER_WRITE: u32 = 0b1_0000_0000_0000;
/// `VkPipelineStageFlagBits` values.
pub const STAGE_TOP_OF_PIPE: u32 = 0b1;
pub const STAGE_FRAGMENT_SHADER: u32 = 0b1000_0000;
pub const STAGE_TRANSFER: u32 = 0b1_0000_0000_0000;
pub const STAGE_BOTTOM_OF_PIPE: u32 = 0b10_0000_0000_0000;
/// Number of frames recorded ahead of the GPU.
pub const FRAMES_IN_FLIGHT: usize = 2;
/// Capacity of each per-frame instance buffer.
pub const MAX_INSTANCES: usize = 8192;

/// Flag set `set` holds every flag of `other`.
pub open spec fn flags_contain(set: u32, other: u32) -> bool {
    set & other == other
}

/// Bit `i` of `bits` is set.
pub open spec fn bit_set(bits: u32, i: u32) -> bool {
    bits & (1u32 << i) != 0
}

/// Whether memory type `i` may back an allocation: it is allowed by the
/// requirement mask `bits` and has every property in `flags`.
pub open spec fn memory_type_fits(type_flags: Seq<u32>, bits: u32, flags: u32, i: u32) -> bool {
    bit_set(bits, i) && flags_contain(type_flags[i as int], flags)
}

/// Flag-set inclusion on raw Vulkan flags.
pub fn contains(set: u32, other: u32) -> (b: bool)
    ensures
        b == flags_contain(set, other),
{
    set & other == other
}

/// The first of the `memory_type_count` memory types that fits the
/// allocation, or `None` when none does.
pub fn find_memory_type(type_flags: &[u32], memory_type_count: u32, bits: u32, flags: u32) -> (r:
    Option<u32>)
    requires
        memory_type_count <= type_flags@.len(),
        memory_type_count <= 32,
    ensures
        match r {
            Some(i) => {
                &&& i < memory_type_count
                &&& memory_type_fits(type_flags@, bits, flags, i)
                &&& forall|j: u32| j < i ==> !memory_type_fits(type_flags@, bits, flags, j)
            },
            None => forall|j: u32|
                j < memory_type_count ==> !memory_type_fits(type_flags@, bits, flags, j),
        },
{
    let mut i: u32 = 0;
    while i < memory_type_count
        invariant
            i <= memory_type_count,
            memory_type_count <= type_flags@.len(),
            memory_type_count <= 32,
            forall|j: u32| j < i ==> !memory_type_fits(type_flags@, bits, flags, j),
        decreases memory_type_count - i,
    {
        if (bits & (1u32 << i)) != 0 && contains(type_flags[i as usize], flags) {
            return Some(i);
        }
        i = i + 1;
    }
    None
}

/// Composite-alpha modes in order of preference.
pub open spec fn composite_alpha_preference() -> Seq<u32> {
    seq![
        COMPOSITE_ALPHA_PRE_MULTIPLIED,
        COMPOSITE_ALPHA_POST_MULTIPLIED,
        COMPOSITE_ALPHA_INHERIT,
        COMPOSITE_ALPHA_OPAQUE,
    ]
}

/// The most preferred composite-alpha mode in `supported`, falling back to
/// opaque composition when the surface supports none of them.
pub open spec fn composite_alpha_spec(supported: u32) -> u32 {
    if flags_contain(supported, COMPOSITE_ALPHA_PRE_MULTIPLIED) {
        COMPOSITE_ALPHA_PRE_MULTIPLIED
    } else if flags_contain(supported, COMPOSITE_ALPHA_POST_MULTIPLIED) {
        COMPOSITE_ALPHA_POST_MULTIPLIED
    } else if flags_contain(supported, COMPOSITE_ALPHA_INHERIT) {
        COMPOSITE_ALPHA_INHERIT
    } else {
        COMPOSITE_ALPHA_OPAQUE
    }
}

/// Pick the composite-alpha mode for the swapchain.
pub fn choose_composite_alpha(supported: u32) -> (mode: u32)
    ensures
        mode == composite_alpha_spec(supported),
{
    if contains(supported, COMPOSITE_ALPHA_PRE_MULTIPLIED) {
        COMPOSITE_ALPHA_PRE_MULTIPLIED
    } else if contains(supported, COMPOSITE_ALPHA_POST_MULTIPLIED) {
        COMPOSITE_ALPHA_POST_MULTIPLIED
    } else if contains(supported, COMPOSITE_ALPHA_INHERIT) {
        COMPOSITE_ALPHA_INHERIT
    } else {
        COMPOSITE_ALPHA_OPAQUE
    }
}

/// The chosen composite-alpha mode is one of the four single modes; it is
/// supported by the surface unless it is the opaque fallback, and no mode the
/// surface supports is preferred over it.
pub proof fn lemma_composite_alpha_choice(supported: u32)
    ensures
        composite_alpha_preference().contains(composite_alpha_spec(supported)),
        composite_alpha_spec(supported) != COMPOSITE_ALPHA_OPAQUE ==> flags_contain(
            supported,
            composite_alpha_spec(supported),
        ),
        forall|k: int|
            0 <= k < 4 && composite_alpha_preference()[k] == composite_alpha_spec(supported)
                ==> forall|j: int|
                0 <= j < k ==> !flags_contain(supported, #[trigger] composite_alpha_preference()[j]),
{
    assert(composite_alpha_preference()[0] == COMPOSITE_ALPHA_PRE_MULTIPLIED);
    assert(composite_alpha_preference()[1] == COMPOSITE_ALPHA_POST_MULTIPLIED);
    assert(composite_alpha_preference()[2] == COMPOSITE_ALPHA_INHERIT);
    assert(composite_alpha_preference()[3] == COMPOSITE_ALPHA_OPAQUE);
}

/// A surface format is the preferred 8-bit BGRA sRGB one.
pub open spec fn is_preferred_format(f: (i32, i32)) -> bool {
    f.0 == FORMAT_B8G8R8A8_UNORM && f.1 == COLOR_SPACE_SRGB_NONLINEAR
}

/// Pick the swapchain surface format (`(format, color space)`) among those
/// the surface reports: the preferred BGRA sRGB format if offered, else the
/// first one; `None` when the surface reports no format.
pub fn choose_surface_format(formats: &[(i32, i32)]) -> (r: Option<(i32, i32)>)
    ensures
        r == (if exists|k: int| 0 <= k < formats@.len() && is_preferred_format(formats@[k]) {
            Some((FORMAT_B8G8R8A8_UNORM, COLOR_SPACE_SRGB_NONLINEAR))
        } else if formats@.len() > 0 {
            Some(formats@[0])
        } else {
            None
        }),
{
    let mut i: usize = 0;
    while i < formats.len()
        invariant
            i <= formats@.len(),
            forall|k: int| 0 <= k < i ==> !is_preferred_format(formats@[k]),
        decreases formats@.len() - i,
    {
        let f = formats[i];
        if f.0 == FORMAT_B8G8R8A8_UNORM && f.1 == COLOR_SPACE_SRGB_NONLINEAR {
            return Some(f);
        }
        i = i + 1;
    }
    if formats.len() > 0 {
        Some(formats[0])
    } else {
        None
    }
}

/// Pick the present mode: mailbox when the surface offers it, else FIFO
/// (which every surface supports).
pub fn choose_present_mode(modes: &[i32]) -> (mode: i32)
    ensures
        mode == (if modes@.contains(PRESENT_MODE_MAILBOX) {
            PRESENT_MODE_MAILBOX
        } else {
            PRESENT_MODE_FIFO
        }),
{
    let mut i: usize = 0;
    while i < modes.len()
        invariant
            i <= modes@.len(),
            forall|k: int| 0 <= k < i ==> modes@[k] != PRESENT_MODE_MAILBOX,
        decreases modes@.len() - i,
    {
        if modes[i] == PRESENT_MODE_MAILBOX {
            return PRESENT_MODE_MAILBOX;
        }
        i = i + 1;
    }
    PRESENT_MODE_FIFO
}

/// `value` clamped into `[lo, hi]`.
pub open spec fn clamp_spec(value: u32, lo: u32, hi: u32) -> u32 {
    if value < lo {
        lo
    } else if value > hi {
        hi
    } else {
        value
    }
}

/// Clamping keeps a value inside `[lo, hi]`, returns a value already
/// inside unchanged, and moves one outside to the nearer limit.
pub proof fn lemma_clamp_within_limits(value: u32, lo: u32, hi: u32)
    requires
        lo <= hi,
    ensures
        lo <= clamp_spec(value, lo, hi) <= hi,
        lo <= value <= hi ==> clamp_spec(value, lo, hi) == value,
        value < lo ==> clamp_spec(value, lo, hi) == lo,
        value > hi ==> clamp_spec(value, lo, hi) == hi,
{
}

/// Where the surface leaves the extent to the window, the swapchain takes
/// the window's size within the surface limits, and a window size already
/// within them unchanged.
pub proof fn lemma_window_extent_within_limits(
    window: (u32, u32),
    min: (u32, u32),
    max: (u32, u32),
)
    requires
        min.0 <= max.0,
        min.1 <= max.1,
    ensures
        ({
            let e = (clamp_spec(window.0, min.0, max.0), clamp_spec(window.1, min.1, max.1));
            &&& min.0 <= e.0 <= max.0
            &&& min.1 <= e.1 <= max.1
            &&& min.0 <= window.0 <= max.0 && min.1 <= window.1 <= max.1 ==> e == window
        }),
{
    lemma_clamp_within_limits(window.0, min.0, max.0);
    lemma_clamp_within_limits(window.1, min.1, max.1);
}

/// `value` clamped into `[lo, hi]` (`Ord::clamp`, which panics when
/// `lo > hi`).
fn clamp_u32(value: u32, lo: u32, hi: u32) -> (r: u32)
    requires
        lo <= hi,
    ensures
        r == clamp_spec(value, lo, hi),
        lo <= r <= hi,
        lo <= value <= hi ==> r == value,
{
    if value < lo {
        lo
    } else if value > hi {
        hi
    } else {
        value
    }
}

/// The swapchain extent: the surface's current extent when it fixes one,
/// otherwise the window size clamped to the surface's limits.
pub fn swapchain_extent(
    current: (u32, u32),
    window: (u32, u32),
    min: (u32, u32),
    max: (u32, u32),
) -> (extent: (u32, u32))
    requires
        current.0 == u32::MAX ==> min.0 <= max.0 && min.1 <= max.1,
    ensures
        extent == (if current.0 != u32::MAX {
            current
        } else {
            (clamp_spec(window.0, min.0, max.0), clamp_spec(window.1, min.1, max.1))
        }),
        current.0 == u32::MAX ==> min.0 <= extent.0 <= max.0 && min.1 <= extent.1 <= max.1,
        current.0 == u32::MAX && min.0 <= window.0 <= max.0 ==> extent.0 == window.0,
        current.0 == u32::MAX && min.1 <= window.1 <= max.1 ==> extent.1 == window.1,
{
    proof {
        if current.0 == u32::MAX {
            lemma_clamp_within_limits(window.0, min.0, max.0);
            lemma_clamp_within_limits(window.1, min.1, max.1);
        }
    }
    if current.0 != u32::MAX {
        current
    } else {
        (clamp_u32(window.0, min.0, max.0), clamp_u32(window.1, min.1, max.1))
    }
}

/// Number of swapchain images to request: one more than the surface minimum,
/// capped by the surface maximum when it has one (a maximum of 0 means none).
pub fn swapchain_image_count(min_image_count: u32, max_image_count: u32) -> (n: u32)
    requires
        min_image_count < u32::MAX,
    ensures
        n == (if max_image_count > 0 && min_image_count + 1 > max_image_count {
            max_image_count as int
        } else {
            min_image_count + 1
        }),
{
    let mut n = min_image_count + 1;
    if max_image_count > 0 && n > max_image_count {
        n = max_image_count;
    }
    n
}

/// A queue family can draw and present to the surface.
pub open spec fn family_usable(f: (u32, bool)) -> bool {
    flags_contain(f.0, QUEUE_GRAPHICS) && f.1
}

/// Pick the first physical device (in enumeration order) with a queue family
/// that supports graphics and can present to the surface, together with the
/// first such family of that device. Each family is given as its raw queue
/// flags and whether it can present.
pub fn pick_device(devices: &Vec<Vec<(u32, bool)>>) -> (r: Option<(usize, u32)>)
    requires
        forall|d: int| 0 <= d < devices@.len() ==> devices@[d]@.len() <= u32::MAX,
    ensures
        match r {
            Some((d, q)) => {
                &&& d < devices@.len()
                &&& q < devices@[d as int]@.len()
                &&& family_usable(devices@[d as int]@[q as int])
                &&& forall|k: int| 0 <= k < q ==> !family_usable(devices@[d as int]@[k])
                &&& forall|e: int, k: int|
                    0 <= e < d && 0 <= k < devices@[e]@.len() ==> !family_usable(devices@[e]@[k])
            },
            None => forall|e: int, k: int|
                0 <= e < devices@.len() && 0 <= k < devices@[e]@.len() ==> !family_usable(
                    devices@[e]@[k],
                ),
        },
{
    let mut d: usize = 0;
    while d < devices.len()
        invariant
            d <= devices@.len(),
            forall|dd: int| 0 <= dd < devices@.len() ==> devices@[dd]@.len() <= u32::MAX,
            forall|e: int, k: int|
                0 <= e < d && 0 <= k < devices@[e]@.len() ==> !family_usable(devices@[e]@[k]),
        decreases devices@.len() - d,
    {
        let families = &devices[d];
        let mut q: usize = 0;
        while q < families.len()
            invariant
                q <= families@.len(),
                d < devices@.len(),
                families@ == devices@[d as int]@,
                forall|e: int, k: int|
                    0 <= e < d && 0 <= k < devices@[e]@.len() ==> !family_usable(devices@[e]@[k]),
                families@.len() <= u32::MAX,
                forall|k: int| 0 <= k < q ==> !family_usable(families@[k]),
            decreases families@.len() - q,
        {
            let f = families[q];
            if contains(f.0, QUEUE_GRAPHICS) && f.1 {
                return Some((d, q as u32));
            }
            q = q + 1;
        }
        d = d + 1;
    }
    None
}

/// Access masks and pipeline stages `(src access, dst access, src stage,
/// dst stage)` of the barrier moving a texture image from layout `old` to
/// layout `new`: an upload target first waits for nothing and is written by
/// transfers; an uploaded image is then made visible to fragment shaders.
/// Any other transition is an execution-only barrier.
pub open spec fn layout_barrier_spec(old: i32, new: i32) -> (u32, u32, u32, u32) {
    if old == IMAGE_LAYOUT_UNDEFINED && new == IMAGE_LAYOUT_TRANSFER_DST_OPTIMAL {
        (ACCESS_NONE, ACCESS_TRANSFER_WRITE, STAGE_TOP_OF_PIPE, STAGE_TRANSFER)
    } else if old == IMAGE_LAYOUT_TRANSFER_DST_OPTIMAL && new
        == IMAGE_LAYOUT_SHADER_READ_ONLY_OPTIMAL {
        (ACCESS_TRANSFER_WRITE, ACCESS_SHADER_READ, STAGE_TRANSFER, STAGE_FRAGMENT_SHADER)
    } else {
        (ACCESS_NONE, ACCESS_NONE, STAGE_TOP_OF_PIPE, STAGE_BOTTOM_OF_PIPE)
    }
}

/// The barrier masks for an image layout transition.
pub fn layout_barrier(old: i32, new: i32) -> (b: (u32, u32, u32, u32))
    ensures
        b == layout_barrier_spec(old, new),
{
    if old == IMAGE_LAYOUT_UNDEFINED && new == IMAGE_LAYOUT_TRANSFER_DST_OPTIMAL {
        (ACCESS_NONE, ACCESS_TRANSFER_WRITE, STAGE_TOP_OF_PIPE, STAGE_TRANSFER)
    } else if old == IMAGE_LAYOUT_TRANSFER_DST_OPTIMAL && new
        == IMAGE_LAYOUT_SHADER_READ_ONLY_OPTIMAL {
        (ACCESS_TRANSFER_WRITE, ACCESS_SHADER_READ, STAGE_TRANSFER, STAGE_FRAGMENT_SHADER)
    } else {
        (ACCESS_NONE, ACCESS_NONE, STAGE_TOP_OF_PIPE, STAGE_BOTTOM_OF_PIPE)
    }
}

/// The two barriers of a texture upload chain: the first waits for nothing
/// (the old contents are discarded) and makes the image ready for the
/// transfer that writes it; the second waits for exactly those transfer
/// writes and makes them visible to fragment-shader reads.
pub proof fn lemma_upload_barriers_chain()
    ensures
        ({
            let first = layout_barrier_spec(
                IMAGE_LAYOUT_UNDEFINED,
                IMAGE_LAYOUT_TRANSFER_DST_OPTIMAL,
            );
            let second = layout_barrier_spec(
                IMAGE_LAYOUT_TRANSFER_DST_OPTIMAL,
                IMAGE_LAYOUT_SHADER_READ_ONLY_OPTIMAL,
            );
            &&& first.0 == ACCESS_NONE
            &&& first.2 == STAGE_TOP_OF_PIPE
            &&& first.1 == ACCESS_TRANSFER_WRITE
            &&& first.3 == STAGE_TRANSFER
            &&& second.0 == first.1
            &&& second.2 == first.3
            &&& second.1 == ACCESS_SHADER_READ
            &&& second.3 == STAGE_FRAGMENT_SHADER
        }),
{
}

/// Index of the frame slot after `frame` in the ring of in-flight frames.
pub fn next_frame(frame: usize) -> (next: usize)
    requires
        frame < FRAMES_IN_FLIGHT,
    ensures
        next == (frame + 1) % (FRAMES_IN_FLIGHT as int),
        next < FRAMES_IN_FLIGHT,
{
    (frame + 1) % FRAMES_IN_FLIGHT
}

/// The frame slots are used in strict alternation: two steps return to the
/// starting slot and one step never does.
pub proof fn lemma_frame_ring_alternates(frame: int)
    requires
        0 <= frame < FRAMES_IN_FLIGHT,
    ensures
        (frame + 1) % (FRAMES_IN_FLIGHT as int) != frame,
        (((frame + 1) % (FRAMES_IN_FLIGHT as int)) + 1) % (FRAMES_IN_FLIGHT as int) == frame,
{
}

/// How many of the frame's instances are uploaded: all of them, up to the
/// capacity of the instance buffer.
pub fn upload_count(len: usize) -> (n: usize)
    ensures
        n == (if len < MAX_INSTANCES { len } else { MAX_INSTANCES }),
{
    if len < MAX_INSTANCES {
        len
    } else {
        MAX_INSTANCES
    }
}

/// Whether a resize to `size` rebuilds the swapchain; a zero-sized window
/// (minimised) leaves it alone until a real size arrives.
pub fn resize_rebuilds_swapchain(size: (u32, u32)) -> (b: bool)
    ensures
        b == (size.0 != 0 && size.1 != 0),
{
    !(size.0 == 0 || size.1 == 0)
}

/// Resources released by each in-flight frame slot, waiting to be destroyed
/// until the GPU has finished that slot's previous frame.
pub struct FrameDeferred<T> {
    slots: Vec<Vec<T>>,
}

impl<T> View for FrameDeferred<T> {
    type V = Seq<Seq<T>>;

    /// The pending items of each frame slot.
    closed spec fn view(&self) -> Seq<Seq<T>> {
        Seq::new(self.slots@.len(), |i: int| self.slots@[i]@)
    }
}

impl<T> FrameDeferred<T> {
    #[verifier::type_invariant]
    spec fn inv(self) -> bool {
        self.slots@.len() == FRAMES_IN_FLIGHT
    }

    /// One empty slot per in-flight frame.
    pub fn new() -> (d: Self)
        ensures
            d@.len() == FRAMES_IN_FLIGHT,
            forall|f: int| 0 <= f < FRAMES_IN_FLIGHT ==> (#[trigger] d@[f]).len() == 0,
    {
        let mut slots: Vec<Vec<T>> = Vec::new();
        slots.push(Vec::new());
        slots.push(Vec::new());
        let d = FrameDeferred { slots };
        assert(d@[0] =~= Seq::<T>::empty());
        assert(d@[1] =~= Seq::<T>::empty());
        d
    }

    /// Whether slot `frame` has nothing pending.
    pub fn is_empty(&self, frame: usize) -> (b: bool)
        requires
            frame < FRAMES_IN_FLIGHT,
        ensures
            b == (self@[frame as int].len() == 0),
    {
        proof {
            use_type_invariant(self);
        }
        self.slots[frame].len() == 0
    }

    fn spare_slots() -> (slots: Vec<Vec<T>>)
        ensures
            slots@.len() == FRAMES_IN_FLIGHT,
    {
        let mut slots: Vec<Vec<T>> = Vec::new();
        slots.push(Vec::new());
        slots.push(Vec::new());
        slots
    }

    /// Hand out everything pending in slot `frame`, leaving it empty and the
    /// other slots untouched. Called when the slot's previous frame has
    /// completed.
    #[verifier::spinoff_prover]
    pub fn take(&mut self, frame: usize) -> (items: Vec<T>)
        requires
            frame < FRAMES_IN_FLIGHT,
        ensures
            items@ == old(self)@[frame as int],
            final(self)@ == old(self)@.update(frame as int, Seq::<T>::empty()),
    {
        proof {
            use_type_invariant(&*self);
        }
        let mut slots = Self::spare_slots();
        std::mem::swap(&mut slots, &mut self.slots);
        let items = slots.remove(frame);
        slots.insert(frame, Vec::new());
        self.slots = slots;
        assert(self@ =~= old(self)@.update(frame as int, Seq::<T>::empty()));
        items
    }

    /// Queue `items` in slot `frame`, after what it already holds, leaving
    /// the other slots untouched.
    #[verifier::spinoff_prover]
    pub fn defer(&mut self, frame: usize, items: Vec<T>)
        requires
            frame < FRAMES_IN_FLIGHT,
        ensures
            final(self)@ == old(self)@.update(frame as int, old(self)@[frame as int] + items@),
    {
        proof {
            use_type_invariant(&*self);
        }
        let ghost queued = items@;
        let mut items = items;
        let mut slots = Self::spare_slots();
        std::mem::swap(&mut slots, &mut self.slots);
        let mut slot = slots.remove(frame);
        slot.append(&mut items);
        slots.insert(frame, slot);
        self.slots = slots;
        assert(self@ =~= old(self)@.update(frame as int, old(self)@[frame as int] + queued));
    }
}

/// The pending items of every slot after one frame rendered in slot
/// `frame`: the slot's earlier items are handed out (the frame that queued
/// them has completed) and the items this frame releases are queued there.
pub open spec fn frame_step<T>(pending: Seq<Seq<T>>, frame: int, released: Seq<T>) -> Seq<Seq<T>> {
    pending.update(frame, released)
}

/// Items released while rendering in one slot are handed out exactly when
/// that slot comes round again, after the other slot's frame, and not
/// before: the other slot's frame neither hands them out nor adds to them.
pub proof fn lemma_release_waits_one_full_cycle<T>(
    pending: Seq<Seq<T>>,
    frame: int,
    released: Seq<T>,
    other_released: Seq<T>,
)
    requires
        pending.len() == FRAMES_IN_FLIGHT,
        0 <= frame < FRAMES_IN_FLIGHT,
    ensures
        ({
            let other = (frame + 1) % (FRAMES_IN_FLIGHT as int);
            let after_this = frame_step(pending, frame, released);
            let after_other = frame_step(after_this, other, other_released);
            &&& other != frame
            &&& after_this[other] == pending[other]
            &&& after_other[frame] == released
        }),
{
}

/// Outcome of acquiring the next swapchain image.
#[derive(Debug, Clone, Copy, PartialEq, Eq, Structural)]
pub enum AcquireOutcome {
    /// Render into this image.
    Image(u32),
    /// The swapchain is out of date; report that it must be recreated.
    Recreate,
    /// Any other failure (raw `VkResult`).
    Failed(i32),
}

/// Interpret the result of `vkAcquireNextImageKHR`: an image index (whether
/// or not the swapchain is suboptimal), or the raw error code.
pub fn acquire_outcome(result: Result<u32, i32>) -> (o: AcquireOutcome)
    ensures
        o == (match result {
            Ok(idx) => AcquireOutcome::Image(idx),
            Err(e) => if e == ERROR_OUT_OF_DATE_KHR {
                AcquireOutcome::Recreate
            } else {
                AcquireOutcome::Failed(e)
            },
        }),
{
    match result {
        Ok(idx) => AcquireOutcome::Image(idx),
        Err(e) => if e == ERROR_OUT_OF_DATE_KHR {
            AcquireOutcome::Recreate
        } else {
            AcquireOutcome::Failed(e)
        },
    }
}

/// Interpret the result of `vkQueuePresentKHR` (`Ok(suboptimal)` or the raw
/// error code) as the frame's result: `Ok(true)` when the frame was shown on
/// an up-to-date swapchain, `Ok(false)` when the swapchain must be recreated
/// (suboptimal or out of date), and the error otherwise.
pub fn present_outcome(result: Result<bool, i32>) -> (r: Result<bool, i32>)
    ensures
        r == (match result {
            Ok(suboptimal) => Ok(!suboptimal),
            Err(e) => if e == ERROR_OUT_OF_DATE_KHR {
                Ok(false)
            } else {
                Err(e)
            },
        }),
{
    match result {
        Ok(false) => Ok(true),
        Ok(true) => Ok(false),
        Err(e) => if e == ERROR_OUT_OF_DATE_KHR {
            Ok(false)
        } else {
            Err(e)
        },
    }
}

} // verus!
