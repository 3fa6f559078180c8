//! Compositor backend: presents frames to a compositor surface through a
//! shared memory pool holding one exchangeable buffer object.
//!
//! The pool is created once and only ever grown in place, rounded up to
//! powers of two; the buffer object is recreated at each new size over the
//! same pool.  Submitting a frame attaches the buffer object, which marks
//! it in flight until the compositor sends its asynchronous release event.
//! This backend deliberately does not wait for that event before handing
//! the buffer out again: the protocol pushes the release notification
//! asynchronously, and this path accepts the write-after-submit window as
//! a known performance trade-off rather than blocking every frame.  The
//! unverified shell performs the pool, attach, damage, commit and flush
//! requests each returned plan and action describe.

use vstd::prelude::*;

use crate::error::AccessError;
use crate::error::InitError;
use crate::error::PresentError;
use crate::error::ResizeError;
use crate::handle::HandleKind;
use crate::num::grown_capacity;
use crate::num::lemma_next_pow2_bounds;
use crate::num::next_pow2;
use crate::num::spec_next_pow2;
use crate::rect::Rect;
use crate::rect::rect_in_bounds;
use crate::rect::rect_within;

verus! {

/// One damaged region in the compositor's signed coordinates.
#[derive(Clone, Copy, Debug, PartialEq, Eq, Structural)]
pub struct DamageBox {
    /// Left edge.
    pub x: i32,
    /// Top edge.
    pub y: i32,
    /// Width of the region.
    pub width: i32,
    /// Height of the region.
    pub height: i32,
}

/// The damage a validated rectangle turns into.
pub open spec fn spec_box(r: Rect) -> DamageBox {
    DamageBox { x: r.x as i32, y: r.y as i32, width: r.width as i32, height: r.height as i32 }
}

/// A damage rectangle this backend can submit: within the negotiated size.
pub open spec fn wl_rect_ok(r: Rect, w: u32, h: u32) -> bool {
    rect_in_bounds(r, w, h)
}

/// What the shell must request for one frame, after attaching the buffer
/// object: damage, then commit and flush.
#[derive(Debug)]
pub enum WaylandPlan {
    /// The surface predates per-buffer damage; mark the whole surface.
    DamageFull,
    /// Mark each region in the order given, without deduplication.
    DamageRects(Vec<DamageBox>),
}

/// What the shell must do after a size negotiation.
#[derive(Clone, Copy, Debug, PartialEq, Eq, Structural)]
pub enum WaylandResizeAction {
    /// The size is unchanged; nothing to do.
    Unchanged,
    /// Create the memory file and pool at `pool_size` bytes and a buffer
    /// object of the given dimensions over it.
    CreatePool {
        /// Byte capacity of the pool to create.
        pool_size: u32,
        /// Width of the buffer object.
        width: u32,
        /// Height of the buffer object.
        height: u32,
    },
    /// Recreate the buffer object at the given dimensions, growing the
    /// pool in place first when `grow_pool_to` is set.
    RecreateBuffer {
        /// New byte capacity of the pool, when it must grow.
        grow_pool_to: Option<u32>,
        /// Width of the buffer object.
        width: u32,
        /// Height of the buffer object.
        height: u32,
    },
}

/// Dimensions this backend can negotiate: the pool size, rounded up to a
/// power of two, must fit the protocol's signed 32-bit lengths.
pub open spec fn wl_dims_ok(w: u32, h: u32) -> bool {
    &&& w >= 1
    &&& h >= 1
    &&& spec_next_pow2((4 * w * h) as nat) <= i32::MAX
}

/// Index of the first rectangle this backend cannot submit, if any.
fn first_bad_wl_rect(damage: &Vec<Rect>, w: u32, h: u32) -> (r: Option<usize>)
    ensures
        match r {
            Some(i) => i < damage@.len() && !wl_rect_ok(damage@[i as int], w, h),
            None => forall|k: int| 0 <= k < damage@.len() ==> wl_rect_ok(#[trigger] damage@[k], w, h),
        },
{
    let mut i: usize = 0;
    while i < damage.len()
        invariant
            0 <= i <= damage@.len(),
            forall|k: int| 0 <= k < i ==> wl_rect_ok(#[trigger] damage@[k], w, h),
        decreases damage@.len() - i,
    {
        if !rect_within(&damage[i], w, h) {
            return Some(i);
        }
        i = i + 1;
    }
    None
}

/// Turn validated damage rectangles into damage regions, one per
/// rectangle, in the order given, without deduplication.
fn build_boxes(damage: &Vec<Rect>, w: u32, h: u32) -> (boxes: Vec<DamageBox>)
    requires
        w <= i32::MAX,
        h <= i32::MAX,
        forall|k: int| 0 <= k < damage@.len() ==> wl_rect_ok(#[trigger] damage@[k], w, h),
    ensures
        boxes@.len() == damage@.len(),
        forall|k: int| 0 <= k < damage@.len() ==> boxes@[k] == spec_box(#[trigger] damage@[k]),
{
    let mut boxes: Vec<DamageBox> = Vec::new();
    let mut j: usize = 0;
    while j < damage.len()
        invariant
            0 <= j <= damage@.len(),
            boxes@.len() == j,
            w <= i32::MAX,
            h <= i32::MAX,
            forall|k: int| 0 <= k < damage@.len() ==> wl_rect_ok(#[trigger] damage@[k], w, h),
            forall|k: int| 0 <= k < j ==> boxes@[k] == spec_box(#[trigger] damage@[k]),
        decreases damage@.len() - j,
    {
        let rect = damage[j];
        boxes.push(
            DamageBox {
                x: rect.x as i32,
                y: rect.y as i32,
                width: rect.width as i32,
                height: rect.height as i32,
            },
        );
        j = j + 1;
    }
    boxes
}

/// The buffer object bound to the memory pool: its dimensions, the pixels
/// of the mapped pool prefix it covers, and the release flag shared with
/// the compositor.
#[derive(Debug)]
pub struct WaylandBuffer {
    pool_size: u32,
    width: u32,
    height: u32,
    pixels: Vec<u32>,
    released: bool,
    pool_grows: u64,
}

/// The compositor presentation backend.
#[derive(Debug)]
pub struct WaylandImpl {
    surface_version: u32,
    size: Option<(u32, u32)>,
    buffer: Option<WaylandBuffer>,
}

impl WaylandImpl {
    /// Structural invariant: a buffer object exists exactly while a size is
    /// negotiated, its dimensions are that size, it holds one pixel slot
    /// per coordinate, and the pool covers the rounded byte request while
    /// staying within the protocol's signed lengths.
    pub closed spec fn wf(self) -> bool {
        match (self.size, self.buffer) {
            (None, None) => true,
            (Some((w, h)), Some(b)) => {
                &&& b.width == w
                &&& b.height == h
                &&& w >= 1
                &&& h >= 1
                &&& b.pixels@.len() == w * h
                &&& b.pool_size >= spec_next_pow2((4 * w * h) as nat)
                &&& b.pool_size <= i32::MAX
            },
            _ => false,
        }
    }

    /// Whether a size has been negotiated.
    pub closed spec fn has_size(self) -> bool {
        self.size is Some
    }

    /// The negotiated width.
    pub closed spec fn spec_width(self) -> u32 {
        match self.size {
            Some((w, h)) => w,
            None => 0,
        }
    }

    /// The negotiated height.
    pub closed spec fn spec_height(self) -> u32 {
        match self.size {
            Some((w, h)) => h,
            None => 0,
        }
    }

    /// Number of pixel slots the caller can write.
    pub closed spec fn pixel_count(self) -> nat {
        self.spec_pixels().len()
    }

    /// The pixels of the buffer.
    pub closed spec fn spec_pixels(self) -> Seq<u32> {
        match self.buffer {
            Some(b) => b.pixels@,
            None => Seq::empty(),
        }
    }

    /// Byte capacity of the memory pool; zero before the first negotiation.
    pub closed spec fn spec_capacity(self) -> nat {
        match self.buffer {
            Some(b) => b.pool_size as nat,
            None => 0,
        }
    }

    /// Whether the compositor has released the buffer object.  It starts
    /// released; submitting a frame marks it in flight; only the
    /// compositor's release event, handed in through `mark_released`,
    /// marks it safe again.
    pub closed spec fn spec_released(self) -> bool {
        match self.buffer {
            Some(b) => b.released,
            None => true,
        }
    }

    /// The version of the surface protocol, which decides whether damage
    /// can be reported per buffer region.
    pub closed spec fn spec_surface_version(self) -> u32 {
        self.surface_version
    }

    /// How many times the pool grew in place.
    pub closed spec fn spec_pool_grows(self) -> nat {
        match self.buffer {
            Some(b) => b.pool_grows as nat,
            None => 0,
        }
    }

    /// Construct the backend for a compositor surface.  Both raw handles
    /// must have the compositor shape; the surface's protocol version
    /// decides the damage style.
    pub fn new(window_kind: HandleKind, display_kind: HandleKind, surface_version: u32) -> (r:
        Result<Self, InitError>)
        ensures
            match r {
                Result::Ok(b) => {
                    &&& window_kind == HandleKind::Wayland
                    &&& display_kind == HandleKind::Wayland
                    &&& b.wf()
                    &&& !b.has_size()
                    &&& b.spec_released()
                    &&& b.spec_surface_version() == surface_version
                    &&& b.spec_capacity() == 0
                    &&& b.pixel_count() == 0
                    &&& b.spec_pool_grows() == 0
                },
                Result::Err(e) => {
                    &&& e == InitError::UnsupportedHandle
                    &&& !(window_kind == HandleKind::Wayland && display_kind
                        == HandleKind::Wayland)
                },
            },
    {
        let window_ok = match window_kind {
            HandleKind::Wayland => true,
            _ => false,
        };
        let display_ok = match display_kind {
            HandleKind::Wayland => true,
            _ => false,
        };
        if !window_ok || !display_ok {
            return Err(InitError::UnsupportedHandle);
        }
        Ok(WaylandImpl { surface_version, size: None, buffer: None })
    }

    /// Negotiate a buffer size.  The first negotiation creates the pool at
    /// the rounded byte size; later ones grow it in place when the rounded
    /// request exceeds it, never shrink it, and recreate the buffer object
    /// at the new dimensions.  An unchanged size does nothing.
    pub fn resize(&mut self, width: u32, height: u32) -> (r: Result<
        WaylandResizeAction,
        ResizeError,
    >)
        requires
            old(self).wf(),
            width >= 1,
            height >= 1,
            old(self).spec_pool_grows() < u64::MAX,
        ensures
            final(self).wf(),
            final(self).spec_surface_version() == old(self).spec_surface_version(),
            match r {
                Result::Ok(action) => {
                    &&& wl_dims_ok(width, height)
                    &&& final(self).has_size()
                    &&& final(self).spec_width() == width
                    &&& final(self).spec_height() == height
                    &&& final(self).pixel_count() == width * height
                    &&& old(self).spec_capacity() <= final(self).spec_capacity()
                    &&& final(self).spec_capacity() == grown_capacity(
                        old(self).spec_capacity(),
                        (4 * width * height) as nat,
                    )
                    &&& final(self).spec_released() == old(self).spec_released()
                    &&& (action == WaylandResizeAction::Unchanged <==> (old(self).has_size()
                        && old(self).spec_width() == width && old(self).spec_height() == height))
                    &&& (action == WaylandResizeAction::Unchanged ==> *final(self) == *old(self))
                    &&& match action {
                        WaylandResizeAction::CreatePool { pool_size, width: aw, height: ah } => {
                            &&& !old(self).has_size()
                            &&& pool_size == spec_next_pow2((4 * width * height) as nat)
                            &&& aw == width
                            &&& ah == height
                            &&& final(self).spec_released()
                            &&& final(self).spec_pool_grows() == 0
                        },
                        WaylandResizeAction::RecreateBuffer { grow_pool_to, width: aw, height: ah } => {
                            &&& old(self).has_size()
                            &&& aw == width
                            &&& ah == height
                            &&& (match grow_pool_to {
                                Some(p) => p == spec_next_pow2((4 * width * height) as nat) && p
                                    > old(self).spec_capacity() && final(self).spec_pool_grows()
                                    == old(self).spec_pool_grows() + 1,
                                None => final(self).spec_capacity() == old(self).spec_capacity()
                                    && final(self).spec_pool_grows() == old(
                                    self,
                                ).spec_pool_grows(),
                            })
                        },
                        WaylandResizeAction::Unchanged => true,
                    }
                },
                Result::Err(e) => {
                    &&& e == ResizeError::DimensionsTooLarge
                    &&& !wl_dims_ok(width, height)
                    &&& *final(self) == *old(self)
                },
            },
    {
        let wu = width as u64;
        let hu = height as u64;
        assert(wu * hu <= 0xffffffff * 0xffffffff) by (nonlinear_arith)
            requires
                wu <= 0xffffffff,
                hu <= 0xffffffff,
        ;
        let area: u64 = wu * hu;
        proof {
            assert(4 * (width as int) * (height as int) == 4 * ((width as int) * (height
                as int))) by (nonlinear_arith);
            lemma_next_pow2_bounds((4 * (width as int) * (height as int)) as nat);
        }
        if area > 0x7fffffff {
            return Err(ResizeError::DimensionsTooLarge);
        }
        let bytes4: u64 = 4 * area;
        if bytes4 > 0x7fffffff {
            return Err(ResizeError::DimensionsTooLarge);
        }
        let pool_needed = next_pow2(bytes4 as usize);
        if pool_needed > 0x7fffffff {
            return Err(ResizeError::DimensionsTooLarge);
        }
        match self.size {
            Some((cw, ch)) => {
                if cw == width && ch == height {
                    return Ok(WaylandResizeAction::Unchanged);
                }
            },
            None => {},
        }
        let count = (width as usize) * (height as usize);
        match &mut self.buffer {
            None => {
                let pixels = vec![0u32; count];
                self.buffer = Some(
                    WaylandBuffer {
                        pool_size: pool_needed as u32,
                        width,
                        height,
                        pixels,
                        released: true,
                        pool_grows: 0,
                    },
                );
                self.size = Some((width, height));
                Ok(
                    WaylandResizeAction::CreatePool {
                        pool_size: pool_needed as u32,
                        width,
                        height,
                    },
                )
            },
            Some(b) => {
                let grow_pool_to: Option<u32> = if pool_needed > b.pool_size as usize {
                    b.pool_size = pool_needed as u32;
                    b.pool_grows = b.pool_grows + 1;
                    Some(pool_needed as u32)
                } else {
                    None
                };
                b.pixels.resize(count, 0u32);
                b.width = width;
                b.height = height;
                self.size = Some((width, height));
                Ok(WaylandResizeAction::RecreateBuffer { grow_pool_to, width, height })
            },
        }
    }

    /// Hand out the pixel buffer.  Fails only before the first successful
    /// `resize`.  No release wait happens here: the caller may overwrite a
    /// buffer the compositor has not yet released, a documented limitation
    /// of this protocol path.
    pub fn buffer_mut(&mut self) -> (r: Result<&mut [u32], AccessError>)
        requires
            old(self).wf(),
        ensures
            match r {
                Result::Ok(buf) => {
                    &&& old(self).has_size()
                    &&& buf@ == old(self).spec_pixels()
                    &&& buf@.len() == old(self).spec_width() * old(self).spec_height()
                    &&& final(self).spec_pixels() == final(buf)@
                    &&& final(self).has_size()
                    &&& final(self).spec_width() == old(self).spec_width()
                    &&& final(self).spec_height() == old(self).spec_height()
                    &&& final(self).spec_capacity() == old(self).spec_capacity()
                    &&& final(self).spec_released() == old(self).spec_released()
                    &&& final(self).spec_surface_version() == old(self).spec_surface_version()
                    &&& final(self).spec_pool_grows() == old(self).spec_pool_grows()
                    &&& (final(buf)@.len() == old(self).spec_pixels().len() ==> final(self).wf())
                },
                Result::Err(e) => {
                    &&& *final(self) == *old(self)
                    &&& e == AccessError::NotResized
                    &&& !old(self).has_size()
                },
            },
    {
        proof {
            if old(self).has_size() {
                old(self).lemma_pixel_count();
            }
        }
        match &mut self.buffer {
            Some(b) => Ok(b.pixels.as_mut_slice()),
            None => Err(AccessError::NotResized),
        }
    }

    /// Submit one frame with the given damage rectangles.  The buffer
    /// object is attached, marking it in flight; surfaces older than
    /// version four damage the whole surface, newer ones each region in
    /// the order given, without deduplication.  A rectangle outside the
    /// negotiated size rejects the whole call, changing nothing.
    pub fn present_with_damage(&mut self, damage: &Vec<Rect>) -> (r: Result<
        WaylandPlan,
        PresentError,
    >)
        requires
            old(self).wf(),
            old(self).has_size(),
        ensures
            final(self).wf(),
            final(self).has_size(),
            final(self).spec_width() == old(self).spec_width(),
            final(self).spec_height() == old(self).spec_height(),
            final(self).spec_pixels() == old(self).spec_pixels(),
            final(self).spec_capacity() == old(self).spec_capacity(),
            final(self).spec_surface_version() == old(self).spec_surface_version(),
            final(self).spec_pool_grows() == old(self).spec_pool_grows(),
            match r {
                Result::Ok(plan) => {
                    &&& (forall|i: int|
                        0 <= i < damage@.len() ==> wl_rect_ok(
                            #[trigger] damage@[i],
                            old(self).spec_width(),
                            old(self).spec_height(),
                        ))
                    &&& !final(self).spec_released()
                    &&& (old(self).spec_surface_version() < 4 ==> plan is DamageFull)
                    &&& (old(self).spec_surface_version() >= 4 ==> (plan matches
                        WaylandPlan::DamageRects(boxes) && boxes@.len() == damage@.len() && (
                    forall|i: int|
                        0 <= i < damage@.len() ==> boxes@[i] == spec_box(#[trigger] damage@[i]))))
                },
                Result::Err(e) => {
                    &&& e == PresentError::DamageOutOfRange
                    &&& (exists|i: int|
                        0 <= i < damage@.len() && !wl_rect_ok(
                            #[trigger] damage@[i],
                            old(self).spec_width(),
                            old(self).spec_height(),
                        ))
                    &&& *final(self) == *old(self)
                },
            },
    {
        let (w, h) = self.size.unwrap();
        match first_bad_wl_rect(damage, w, h) {
            Some(i) => {
                assert(!wl_rect_ok(damage@[i as int], w, h));
                return Err(PresentError::DamageOutOfRange);
            },
            None => {},
        }
        let version = self.surface_version;
        proof {
            old(self).lemma_pixel_count();
        }
        let plan = if version < 4 {
            WaylandPlan::DamageFull
        } else {
            WaylandPlan::DamageRects(build_boxes(damage, w, h))
        };
        match &mut self.buffer {
            Some(b) => {
                b.released = false;
            },
            None => {
                proof {
                    assert(false);
                }
            },
        }
        Ok(plan)
    }

    /// Submit one frame damaging the whole negotiated size.
    pub fn present(&mut self) -> (r: Result<WaylandPlan, PresentError>)
        requires
            old(self).wf(),
            old(self).has_size(),
        ensures
            final(self).wf(),
            final(self).has_size(),
            final(self).spec_width() == old(self).spec_width(),
            final(self).spec_height() == old(self).spec_height(),
            final(self).spec_pixels() == old(self).spec_pixels(),
            final(self).spec_capacity() == old(self).spec_capacity(),
            final(self).spec_surface_version() == old(self).spec_surface_version(),
            final(self).spec_pool_grows() == old(self).spec_pool_grows(),
            r is Ok,
            !final(self).spec_released(),
            match r {
                Result::Ok(plan) => {
                    &&& (old(self).spec_surface_version() < 4 ==> plan is DamageFull)
                    &&& (old(self).spec_surface_version() >= 4 ==> (plan matches
                        WaylandPlan::DamageRects(boxes) && boxes@.len() == 1 && boxes@[0]
                        == spec_box(
                        (Rect {
                            x: 0,
                            y: 0,
                            width: old(self).spec_width(),
                            height: old(self).spec_height(),
                        }),
                    )))
                },
                Result::Err(_) => false,
            },
    {
        let (w, h) = self.size.unwrap();
        let full = Rect { x: 0, y: 0, width: w, height: h };
        assert(wl_rect_ok(full, w, h));
        let damage = vec![full];
        let r = self.present_with_damage(&damage);
        match r {
            Ok(plan) => Ok(plan),
            Err(e) => {
                proof {
                    assert(false);
                }
                Err(e)
            },
        }
    }

    /// Record the compositor's asynchronous release event: the buffer
    /// object is safe to write again.
    pub fn mark_released(&mut self)
        requires
            old(self).wf(),
        ensures
            final(self).wf(),
            final(self).spec_released(),
            final(self).has_size() == old(self).has_size(),
            final(self).spec_width() == old(self).spec_width(),
            final(self).spec_height() == old(self).spec_height(),
            final(self).spec_pixels() == old(self).spec_pixels(),
            final(self).spec_capacity() == old(self).spec_capacity(),
            final(self).spec_surface_version() == old(self).spec_surface_version(),
            final(self).spec_pool_grows() == old(self).spec_pool_grows(),
    {
        match &mut self.buffer {
            Some(b) => {
                b.released = true;
            },
            None => {},
        }
    }

    /// Whether the compositor has released the buffer object.
    pub fn is_released(&self) -> (r: bool)
        ensures
            r == self.spec_released(),
    {
        match &self.buffer {
            Some(b) => b.released,
            None => true,
        }
    }

    /// Byte capacity of the memory pool; zero before the first
    /// negotiation.
    pub fn capacity(&self) -> (r: u32)
        ensures
            r == self.spec_capacity(),
    {
        match &self.buffer {
            Some(b) => b.pool_size,
            None => 0,
        }
    }

    /// How many times the pool grew in place.
    pub fn pool_growth_count(&self) -> (r: u64)
        ensures
            r == self.spec_pool_grows(),
    {
        match &self.buffer {
            Some(b) => b.pool_grows,
            None => 0,
        }
    }

    /// With a size negotiated, the buffer holds exactly one pixel slot per
    /// coordinate and the pool fits the protocol's lengths.
    pub proof fn lemma_pixel_count(self)
        requires
            self.wf(),
            self.has_size(),
        ensures
            self.pixel_count() == self.spec_width() * self.spec_height(),
            self.spec_width() <= i32::MAX,
            self.spec_height() <= i32::MAX,
            self.spec_capacity() >= spec_next_pow2(
                (4 * self.spec_width() * self.spec_height()) as nat,
            ),
    {
        let w = self.spec_width();
        let h = self.spec_height();
        lemma_next_pow2_bounds((4 * w * h) as nat);
        assert(4 * (w as int) * (h as int) == 4 * ((w as int) * (h as int))) by (nonlinear_arith);
        assert((w as int) <= (w as int) * (h as int) && (h as int) <= (w as int) * (h as int))
            by (nonlinear_arith)
            requires
                w >= 1,
                h >= 1,
        ;
    }
}

} // verus!
