//! Display-server backend: presents frames to a server-managed window,
//! through a shared-memory segment when the server supports it and by
//! sending the whole pixel buffer over the wire when it does not.
//!
//! Every decision is made here and verified: handle normalization, visual
//! validation, mode selection from the probe result, power-of-two segment
//! growth, damage validation and conversion to the protocol's narrower
//! integer types, and the completion handshake that keeps the caller from
//! writing into memory the server may still be reading.  The unverified
//! shell performs the requests each returned plan describes and hands the
//! resulting sequence number and reply back in.

use vstd::prelude::*;

use crate::error::AccessError;
use crate::error::InitError;
use crate::error::PresentError;
use crate::error::ResizeError;
use crate::handle::HandleKind;
use crate::num::grown_capacity;
use crate::num::lemma_next_pow2_bounds;
use crate::num::next_pow2;
use crate::num::spec_next_pow2;
use crate::num::total_len;
use crate::rect::Rect;
use crate::rect::rect_in_bounds;
use crate::rect::rect_within;
use crate::segment::ShmSegment;

verus! {

/// One pixel-format entry of the server's setup data.
#[derive(Clone, Copy, Debug, PartialEq, Eq, Structural)]
pub struct PixmapFormat {
    /// Color depth of the format.
    pub depth: u8,
    /// Bits each pixel occupies in transported images.
    pub bits_per_pixel: u8,
}

/// The color class of a visual.
#[derive(Clone, Copy, Debug, PartialEq, Eq, Structural)]
pub enum VisualClassKind {
    /// Decomposed color with a writable palette lookup.
    DirectColor,
    /// Decomposed color with a read-only palette lookup.
    TrueColor,
    /// Grayscale or palette visuals; never supported.
    Other,
}

/// One visual of the server's setup data.
#[derive(Clone, Copy, Debug, PartialEq, Eq, Structural)]
pub struct VisualSpec {
    /// Identifier the server knows the visual by.
    pub visual_id: u32,
    /// Color depth of the visual.
    pub depth: u8,
    /// Color class of the visual.
    pub class: VisualClassKind,
    /// Bit mask of the red channel.
    pub red_mask: u32,
    /// Bit mask of the green channel.
    pub green_mask: u32,
    /// Bit mask of the blue channel.
    pub blue_mask: u32,
}

/// Some format of depth 24 or 32 transports 32 bits per pixel.
pub open spec fn has_32bit_format(formats: Seq<PixmapFormat>) -> bool {
    exists|i: int|
        0 <= i < formats.len() && ((#[trigger] formats[i]).depth == 24 || formats[i].depth == 32)
            && formats[i].bits_per_pixel == 32
}

/// The channel masks a visual must carry: red, green and blue of the
/// rasterizer's packed format, byte-swapped when the server's image byte
/// order differs from the client's.
pub open spec fn expected_masks(byte_order_matches: bool) -> (u32, u32, u32) {
    if byte_order_matches {
        (0xff0000u32, 0xff00u32, 0xffu32)
    } else {
        (0xff00u32, 0xff0000u32, 0xff000000u32)
    }
}

/// The visual carries the rasterizer's pixel layout.
pub open spec fn visual_matches(v: VisualSpec, byte_order_matches: bool) -> bool {
    &&& (v.depth == 24 || v.depth == 32)
    &&& (v.class == VisualClassKind::TrueColor || v.class == VisualClassKind::DirectColor)
    &&& (v.red_mask, v.green_mask, v.blue_mask) == expected_masks(byte_order_matches)
}

fn check_visual_matches(v: &VisualSpec, byte_order_matches: bool) -> (b: bool)
    ensures
        b == visual_matches(*v, byte_order_matches),
{
    let (red, green, blue) = if byte_order_matches {
        (0xff0000u32, 0xff00u32, 0xffu32)
    } else {
        (0xff00u32, 0xff0000u32, 0xff000000u32)
    };
    (v.depth == 24 || v.depth == 32) && (v.class == VisualClassKind::TrueColor || v.class
        == VisualClassKind::DirectColor) && v.red_mask == red && v.green_mask == green
        && v.blue_mask == blue
}

/// The identifiers of the visuals that carry the rasterizer's pixel
/// format, in the order they occur.
pub open spec fn matching_ids(visuals: Seq<VisualSpec>, byte_order_matches: bool) -> Seq<u32>
    decreases visuals.len(),
{
    if visuals.len() == 0 {
        Seq::empty()
    } else {
        let rest = matching_ids(visuals.drop_last(), byte_order_matches);
        if visual_matches(visuals.last(), byte_order_matches) {
            rest.push(visuals.last().visual_id)
        } else {
            rest
        }
    }
}

/// Collect the identifiers of the visuals that carry the rasterizer's pixel
/// format.  When no setup format of depth 24 or 32 transports 32 bits per
/// pixel, no visual is usable and the result is empty.
pub fn supported_visuals(
    formats: &Vec<PixmapFormat>,
    visuals: &Vec<VisualSpec>,
    byte_order_matches: bool,
) -> (r: Vec<u32>)
    ensures
        !has_32bit_format(formats@) ==> r@.len() == 0,
        has_32bit_format(formats@) ==> r@ == matching_ids(visuals@, byte_order_matches),
{
    let mut found = false;
    let mut i: usize = 0;
    while i < formats.len()
        invariant
            0 <= i <= formats@.len(),
            found == exists|k: int|
                0 <= k < i && ((#[trigger] formats@[k]).depth == 24 || formats@[k].depth == 32)
                    && formats@[k].bits_per_pixel == 32,
        decreases formats@.len() - i,
    {
        let f = formats[i];
        if (f.depth == 24 || f.depth == 32) && f.bits_per_pixel == 32 {
            found = true;
        }
        i = i + 1;
    }
    if !found {
        return Vec::new();
    }
    let mut r: Vec<u32> = Vec::new();
    let mut j: usize = 0;
    while j < visuals.len()
        invariant
            0 <= j <= visuals@.len(),
            r@ == matching_ids(visuals@.take(j as int), byte_order_matches),
        decreases visuals@.len() - j,
    {
        let v = visuals[j];
        proof {
            let t1 = visuals@.take(j as int + 1);
            assert(t1.drop_last() =~= visuals@.take(j as int));
            assert(t1.last() == visuals@[j as int]);
        }
        if check_visual_matches(&v, byte_order_matches) {
            r.push(v.visual_id);
        }
        j = j + 1;
    }
    proof {
        assert(visuals@.take(visuals@.len() as int) =~= visuals@);
    }
    r
}

/// Whether `x` occurs in `v`.
fn contains_u32(v: &Vec<u32>, x: u32) -> (b: bool)
    ensures
        b == v@.contains(x),
{
    let mut i: usize = 0;
    while i < v.len()
        invariant
            0 <= i <= v@.len(),
            forall|k: int| 0 <= k < i ==> v@[k] != x,
        decreases v@.len() - i,
    {
        if v[i] == x {
            return true;
        }
        i = i + 1;
    }
    false
}

/// Parameters of one shared-memory image-draw request.
#[derive(Clone, Copy, Debug, PartialEq, Eq, Structural)]
pub struct ShmPutParams {
    /// Width of the whole buffer the segment holds.
    pub total_width: u16,
    /// Height of the whole buffer the segment holds.
    pub total_height: u16,
    /// Left edge of the damaged region inside the buffer.
    pub src_x: u16,
    /// Top edge of the damaged region inside the buffer.
    pub src_y: u16,
    /// Width of the damaged region.
    pub width: u16,
    /// Height of the damaged region.
    pub height: u16,
    /// Left edge of the destination inside the window.
    pub dst_x: i16,
    /// Top edge of the destination inside the window.
    pub dst_y: i16,
    /// Color depth to draw with.
    pub depth: u8,
}

/// The image-draw request a damage rectangle turns into.
pub open spec fn spec_put(r: Rect, w: u16, h: u16, depth: u8) -> ShmPutParams {
    ShmPutParams {
        total_width: w,
        total_height: h,
        src_x: r.x as u16,
        src_y: r.y as u16,
        width: r.width as u16,
        height: r.height as u16,
        dst_x: r.x as i16,
        dst_y: r.y as i16,
        depth,
    }
}

/// A damage rectangle this backend can submit: within the negotiated size
/// and with a destination corner that fits the protocol's signed 16-bit
/// coordinates.
pub open spec fn x11_rect_ok(r: Rect, w: u16, h: u16) -> bool {
    &&& rect_in_bounds(r, w as u32, h as u32)
    &&& r.x <= 32767
    &&& r.y <= 32767
}

fn check_x11_rect(r: &Rect, w: u16, h: u16) -> (b: bool)
    ensures
        b == x11_rect_ok(*r, w, h),
{
    rect_within(r, w as u32, h as u32) && r.x <= 32767 && r.y <= 32767
}

/// Index of the first rectangle this backend cannot submit, if any.
fn first_bad_rect(damage: &Vec<Rect>, w: u16, h: u16) -> (r: Option<usize>)
    ensures
        match r {
            Some(i) => i < damage@.len() && !x11_rect_ok(damage@[i as int], w, h),
            None => forall|k: int| 0 <= k < damage@.len() ==> x11_rect_ok(#[trigger] damage@[k], w, h),
        },
{
    let mut i: usize = 0;
    while i < damage.len()
        invariant
            0 <= i <= damage@.len(),
            forall|k: int| 0 <= k < i ==> x11_rect_ok(#[trigger] damage@[k], w, h),
        decreases damage@.len() - i,
    {
        if !check_x11_rect(&damage[i], w, h) {
            return Some(i);
        }
        i = i + 1;
    }
    None
}

/// Turn validated damage rectangles into draw requests, one per rectangle,
/// in the order given, without deduplication.
fn build_puts(damage: &Vec<Rect>, w: u16, h: u16, depth: u8) -> (puts: Vec<ShmPutParams>)
    requires
        forall|k: int| 0 <= k < damage@.len() ==> x11_rect_ok(#[trigger] damage@[k], w, h),
    ensures
        puts@.len() == damage@.len(),
        forall|k: int|
            0 <= k < damage@.len() ==> puts@[k] == spec_put(#[trigger] damage@[k], w, h, depth),
{
    let mut puts: Vec<ShmPutParams> = Vec::new();
    let mut j: usize = 0;
    while j < damage.len()
        invariant
            0 <= j <= damage@.len(),
            puts@.len() == j,
            forall|k: int| 0 <= k < damage@.len() ==> x11_rect_ok(#[trigger] damage@[k], w, h),
            forall|k: int|
                0 <= k < j ==> puts@[k] == spec_put(#[trigger] damage@[k], w, h, depth),
        decreases damage@.len() - j,
    {
        let rect = damage[j];
        puts.push(
            ShmPutParams {
                total_width: w,
                total_height: h,
                src_x: rect.x as u16,
                src_y: rect.y as u16,
                width: rect.width as u16,
                height: rect.height as u16,
                dst_x: rect.x as i16,
                dst_y: rect.y as i16,
                depth,
            },
        );
        j = j + 1;
    }
    puts
}

/// What the shell must submit for one frame.
#[derive(Debug)]
pub enum X11Plan {
    /// Send the whole pixel buffer as one inline image-draw request.
    Wire {
        /// Width of the buffer being sent.
        width: u16,
        /// Height of the buffer being sent.
        height: u16,
        /// Color depth to draw with.
        depth: u8,
    },
    /// Issue one shared-memory draw request per damage rectangle, in the
    /// order given, then one trivial request, handing its sequence number
    /// back through `note_submitted`.
    Shm {
        /// The draw requests, one per damage rectangle, in order.
        puts: Vec<ShmPutParams>,
    },
}

/// What the shell must do after a size negotiation.
#[derive(Clone, Copy, Debug, PartialEq, Eq, Structural)]
pub enum X11ResizeAction {
    /// The size is unchanged; nothing to do.
    Unchanged,
    /// The in-process wire buffer was adjusted; nothing to do.
    WireResized,
    /// The attached segment was re-used at the new size; nothing to do.
    SegmentReused,
    /// A fresh segment of `size` bytes must be created and attached; when
    /// `detach_old` holds, the previously attached segment must be detached
    /// once the new one is in place.
    SegmentAllocated {
        /// Byte capacity of the segment to create.
        size: usize,
        /// Whether an earlier segment must be detached afterwards.
        detach_old: bool,
    },
}

/// Dimensions this backend can negotiate: they fit the protocol's 16-bit
/// coordinates and their byte size fits the address space.
pub open spec fn x11_dims_ok(w: u32, h: u32) -> bool {
    &&& w <= 65535
    &&& h <= 65535
    &&& 4 * w * h <= usize::MAX / 2 + 1
}

/// The buffer a display-server backend draws into: a shared-memory segment
/// with its completion bookkeeping, or an in-process vector sent over the
/// wire.
#[derive(Debug)]
pub enum X11Buffer {
    /// Shared-memory transfer.
    Shm(ShmBuffer),
    /// Inline wire transfer.
    Wire(Vec<u32>),
}

/// Shared-memory bookkeeping: the active segment, the completion handshake
/// state, and how many segments were ever attached and detached.
#[derive(Debug)]
pub struct ShmBuffer {
    seg: Option<ShmSegment>,
    awaiting: bool,
    marker: Option<u64>,
    segs_created: u64,
    segs_detached: u64,
}

/// The display-server presentation backend.
#[derive(Debug)]
pub struct X11DisplayImpl {
    depth: u8,
    visual_id: u32,
    buffer: X11Buffer,
    buffer_presented: bool,
    size: Option<(u16, u16)>,
}

impl X11DisplayImpl {
    /// Structural invariant: the completion marker only exists while a
    /// submission is outstanding, a submission is only outstanding in
    /// shared-memory mode with a live segment, the segment's in-use length
    /// always matches the negotiated size, and every allocated segment but
    /// the live one has been detached.
    pub closed spec fn wf(self) -> bool {
        match self.buffer {
            X11Buffer::Shm(shm) => {
                &&& (shm.marker is Some ==> shm.awaiting)
                &&& shm.segs_created == shm.segs_detached + (
                if shm.seg is Some {
                    1int
                } else {
                    0int
                })
                &&& match (self.size, shm.seg) {
                    (None, None) => !shm.awaiting,
                    (Some((w, h)), Some(seg)) => {
                        &&& seg.wf()
                        &&& seg.spec_buffer_size() == 4 * w * h
                        &&& seg.spec_size() >= spec_next_pow2((4 * w * h) as nat)
                        &&& w >= 1
                        &&& h >= 1
                    },
                    _ => false,
                }
            },
            X11Buffer::Wire(v) => {
                match self.size {
                    None => v@.len() == 0,
                    Some((w, h)) => v@.len() == w * h && w >= 1 && h >= 1,
                }
            },
        }
    }

    /// Whether the backend transfers frames over the wire.
    pub closed spec fn is_wire(self) -> bool {
        self.buffer is Wire
    }

    /// Whether a size has been negotiated.
    pub closed spec fn has_size(self) -> bool {
        self.size is Some
    }

    /// The negotiated width.
    pub closed spec fn spec_width(self) -> u16 {
        match self.size {
            Some((w, h)) => w,
            None => 0,
        }
    }

    /// The negotiated height.
    pub closed spec fn spec_height(self) -> u16 {
        match self.size {
            Some((w, h)) => h,
            None => 0,
        }
    }

    /// Number of pixel slots the caller can write.
    pub closed spec fn pixel_count(self) -> nat {
        self.spec_pixels().len()
    }

    /// The pixels of the buffer.
    pub closed spec fn spec_pixels(self) -> Seq<u32> {
        match self.buffer {
            X11Buffer::Shm(shm) => match shm.seg {
                Some(seg) => seg.spec_pixels(),
                None => Seq::empty(),
            },
            X11Buffer::Wire(v) => v@,
        }
    }

    /// Byte capacity of the backing segment; zero in wire mode or before
    /// the first negotiation.
    pub closed spec fn spec_capacity(self) -> nat {
        match self.buffer {
            X11Buffer::Shm(shm) => match shm.seg {
                Some(seg) => seg.spec_size(),
                None => 0,
            },
            X11Buffer::Wire(_) => 0,
        }
    }

    /// Whether a shared-memory submission is outstanding.
    pub closed spec fn awaiting(self) -> bool {
        match self.buffer {
            X11Buffer::Shm(shm) => shm.awaiting,
            X11Buffer::Wire(_) => false,
        }
    }

    /// The recorded sequence number of the outstanding submission's
    /// trailing request, once the shell has handed it in.
    pub closed spec fn spec_marker(self) -> Option<u64> {
        match self.buffer {
            X11Buffer::Shm(shm) => shm.marker,
            X11Buffer::Wire(_) => None,
        }
    }

    /// The window's color depth.
    pub closed spec fn spec_depth(self) -> u8 {
        self.depth
    }

    /// The window's visual identifier.
    pub closed spec fn spec_visual_id(self) -> u32 {
        self.visual_id
    }

    /// Whether a frame has been presented since the last size change.
    pub closed spec fn spec_presented(self) -> bool {
        self.buffer_presented
    }

    /// How many segments were ever allocated and attached.
    pub closed spec fn spec_segs_created(self) -> nat {
        match self.buffer {
            X11Buffer::Shm(shm) => shm.segs_created as nat,
            X11Buffer::Wire(_) => 0,
        }
    }

    /// How many segments were detached again.
    pub closed spec fn spec_segs_detached(self) -> nat {
        match self.buffer {
            X11Buffer::Shm(shm) => shm.segs_detached as nat,
            X11Buffer::Wire(_) => 0,
        }
    }

    /// Whether a segment is currently attached.
    pub closed spec fn has_segment(self) -> bool {
        match self.buffer {
            X11Buffer::Shm(shm) => shm.seg is Some,
            X11Buffer::Wire(_) => false,
        }
    }

    /// With a size negotiated, the buffer holds exactly one pixel slot per
    /// coordinate, and in shared-memory mode the capacity covers the
    /// rounded byte request.
    pub proof fn lemma_pixel_count(self)
        requires
            self.wf(),
            self.has_size(),
        ensures
            self.pixel_count() == self.spec_width() * self.spec_height(),
            !self.is_wire() ==> self.spec_capacity() >= spec_next_pow2(
                (4 * self.spec_width() * self.spec_height()) as nat,
            ),
            !self.is_wire() ==> self.has_segment(),
    {
        let w = self.spec_width();
        let h = self.spec_height();
        match self.buffer {
            X11Buffer::Shm(shm) => {
                match shm.seg {
                    Some(seg) => {
                        seg.lemma_wf();
                        assert(seg.spec_buffer_size() == 4 * w * h);
                        assert(seg.spec_pixels().len() * 4 == 4 * (w * h)) by (nonlinear_arith)
                            requires
                                seg.spec_pixels().len() * 4 == 4 * (w as int) * (h as int),
                        ;
                        assert(4 * self.spec_width() * self.spec_height() == 4 * (
                        self.spec_width() * self.spec_height())) by (nonlinear_arith);
                    },
                    None => {},
                }
            },
            X11Buffer::Wire(_) => {},
        }
    }

    /// No leaked segments: every segment ever allocated has been detached,
    /// except the one still attached.
    pub proof fn lemma_no_segment_leak(self)
        requires
            self.wf(),
        ensures
            self.spec_segs_created() == self.spec_segs_detached() + (
            if self.has_segment() {
                1int
            } else {
                0int
            }),
    {
    }

    /// The handle shapes the backend accepts.
    pub open spec fn handle_ok(
        window_kind: HandleKind,
        window_id: u32,
        display_kind: HandleKind,
    ) -> bool {
        &&& (window_kind == HandleKind::Xcb || window_kind == HandleKind::Xlib)
        &&& window_id != 0
        &&& (display_kind == HandleKind::Xcb || display_kind == HandleKind::Xlib)
    }

    /// Construct the backend from the probed facts about the window: the
    /// shapes of the raw handles, whether the live shared-memory probe
    /// succeeded, the window's visual and depth, and the visuals that carry
    /// the rasterizer's pixel format.  Construction succeeds whenever the
    /// handles have a supported shape and the visual is supported; a failed
    /// probe only selects the wire fallback, never a failure.
    pub fn new(
        window_kind: HandleKind,
        window_id: u32,
        display_kind: HandleKind,
        shm_available: bool,
        visual_id: u32,
        supported: &Vec<u32>,
        depth: u8,
    ) -> (r: Result<Self, InitError>)
        ensures
            match r {
                Result::Ok(b) => {
                    &&& Self::handle_ok(window_kind, window_id, display_kind)
                    &&& supported@.contains(visual_id)
                    &&& b.wf()
                    &&& !b.has_size()
                    &&& b.is_wire() == !shm_available
                    &&& !b.awaiting()
                    &&& b.spec_marker() is None
                    &&& b.spec_depth() == depth
                    &&& b.spec_visual_id() == visual_id
                    &&& !b.spec_presented()
                    &&& b.spec_segs_created() == 0
                    &&& b.spec_segs_detached() == 0
                    &&& b.spec_capacity() == 0
                    &&& b.pixel_count() == 0
                },
                Result::Err(InitError::UnsupportedHandle) => !Self::handle_ok(
                    window_kind,
                    window_id,
                    display_kind,
                ),
                Result::Err(InitError::UnsupportedVisual) => Self::handle_ok(
                    window_kind,
                    window_id,
                    display_kind,
                ) && !supported@.contains(visual_id),
                Result::Err(_) => false,
            },
    {
        let window_shape_ok = match window_kind {
            HandleKind::Xcb => true,
            HandleKind::Xlib => true,
            _ => false,
        };
        let display_shape_ok = match display_kind {
            HandleKind::Xcb => true,
            HandleKind::Xlib => true,
            _ => false,
        };
        if !window_shape_ok || window_id == 0 || !display_shape_ok {
            return Err(InitError::UnsupportedHandle);
        }
        if !contains_u32(supported, visual_id) {
            return Err(InitError::UnsupportedVisual);
        }
        let buffer = if shm_available {
            X11Buffer::Shm(
                ShmBuffer {
                    seg: None,
                    awaiting: false,
                    marker: None,
                    segs_created: 0,
                    segs_detached: 0,
                },
            )
        } else {
            X11Buffer::Wire(Vec::new())
        };
        Ok(X11DisplayImpl { depth, visual_id, buffer, buffer_presented: false, size: None })
    }

    /// Negotiate a buffer size.  In shared-memory mode the segment is
    /// re-used when its capacity covers the rounded request and replaced by
    /// a larger one otherwise, so the capacity never shrinks; in wire mode
    /// the in-process buffer is adjusted.  An unchanged size does nothing.
    pub fn resize(&mut self, width: u32, height: u32) -> (r: Result<X11ResizeAction, ResizeError>)
        requires
            old(self).wf(),
            !old(self).awaiting(),
            width >= 1,
            height >= 1,
            old(self).spec_segs_created() < u64::MAX,
        ensures
            final(self).wf(),
            final(self).is_wire() == old(self).is_wire(),
            !final(self).awaiting(),
            final(self).spec_marker() is None,
            final(self).spec_depth() == old(self).spec_depth(),
            final(self).spec_visual_id() == old(self).spec_visual_id(),
            match r {
                Result::Ok(action) => {
                    &&& x11_dims_ok(width, height)
                    &&& final(self).has_size()
                    &&& final(self).spec_width() == width
                    &&& final(self).spec_height() == height
                    &&& final(self).pixel_count() == width * height
                    &&& old(self).spec_capacity() <= final(self).spec_capacity()
                    &&& (!old(self).is_wire() ==> final(self).spec_capacity() == grown_capacity(
                        old(self).spec_capacity(),
                        (4 * width * height) as nat,
                    ))
                    &&& (action == X11ResizeAction::Unchanged <==> (old(self).has_size() && old(
                        self,
                    ).spec_width() == width && old(self).spec_height() == height))
                    &&& (action == X11ResizeAction::Unchanged ==> *final(self) == *old(self))
                    &&& match action {
                        X11ResizeAction::SegmentAllocated { size, detach_old } => {
                            &&& size == spec_next_pow2((4 * width * height) as nat)
                            &&& detach_old == old(self).has_segment()
                            &&& final(self).spec_segs_created() == old(self).spec_segs_created()
                                + 1
                            &&& final(self).spec_segs_detached() == old(self).spec_segs_detached()
                                + (
                            if detach_old {
                                1int
                            } else {
                                0int
                            })
                        },
                        _ => {
                            &&& final(self).spec_segs_created() == old(self).spec_segs_created()
                            &&& final(self).spec_segs_detached() == old(self).spec_segs_detached()
                        },
                    }
                    &&& (action != X11ResizeAction::Unchanged ==> !final(self).spec_presented())
                },
                Result::Err(e) => {
                    &&& e == ResizeError::DimensionsTooLarge
                    &&& !x11_dims_ok(width, height)
                    &&& *final(self) == *old(self)
                },
            },
    {
        if width > 65535 || height > 65535 {
            return Err(ResizeError::DimensionsTooLarge);
        }
        let w = width as u16;
        let h = height as u16;
        let wu = w as u64;
        let hu = h as u64;
        assert(wu * hu <= 65535 * 65535) by (nonlinear_arith)
            requires
                wu <= 65535,
                hu <= 65535,
        ;
        let area: u64 = wu * hu;
        let bytes4: u64 = 4 * area;
        proof {
            assert(4 * (width as int) * (height as int) == 4 * ((width as int) * (height
                as int))) by (nonlinear_arith);
        }
        if bytes4 > (usize::MAX as u64) / 2 + 1 {
            return Err(ResizeError::DimensionsTooLarge);
        }
        match self.size {
            Some((cw, ch)) => {
                if cw == w && ch == h {
                    proof {
                        old(self).lemma_pixel_count();
                    }
                    return Ok(X11ResizeAction::Unchanged);
                }
            },
            None => {},
        }
        self.buffer_presented = false;
        match &mut self.buffer {
            X11Buffer::Wire(v) => {
                let count = (width as usize) * (height as usize);
                v.resize(count, 0u32);
                self.size = Some((w, h));
                Ok(X11ResizeAction::WireResized)
            },
            X11Buffer::Shm(shm) => {
                let buffer_bytes = total_len(w, h);
                proof {
                    lemma_next_pow2_bounds(buffer_bytes as nat);
                }
                let seg_size = next_pow2(buffer_bytes);
                let do_alloc: bool = match &shm.seg {
                    Some(seg) => seg.size() < seg_size,
                    None => true,
                };
                if do_alloc {
                    assert(buffer_bytes % 4 == 0);
                    let new_seg = ShmSegment::new(seg_size, buffer_bytes);
                    let detach_old = shm.seg.is_some();
                    shm.seg = Some(new_seg);
                    shm.segs_created = shm.segs_created + 1;
                    if detach_old {
                        shm.segs_detached = shm.segs_detached + 1;
                    }
                    self.size = Some((w, h));
                    Ok(X11ResizeAction::SegmentAllocated { size: seg_size, detach_old })
                } else {
                    assert(buffer_bytes % 4 == 0);
                    match &mut shm.seg {
                        Some(seg) => {
                            seg.set_buffer_size(buffer_bytes);
                        },
                        None => {
                            proof {
                                assert(false);
                            }
                        },
                    }
                    self.size = Some((w, h));
                    Ok(X11ResizeAction::SegmentReused)
                }
            },
        }
    }

    /// Hand out the pixel buffer.  Fails before the first successful
    /// `resize`, and while a shared-memory submission is outstanding whose
    /// completion has not yet been confirmed — the caller must fetch the
    /// reply to the recorded marker and call `confirm_completion` first.
    pub fn buffer_mut(&mut self) -> (r: Result<&mut [u32], AccessError>)
        requires
            old(self).wf(),
        ensures
            match r {
                Result::Ok(buf) => {
                    &&& old(self).has_size()
                    &&& !old(self).awaiting()
                    &&& buf@ == old(self).spec_pixels()
                    &&& buf@.len() == old(self).spec_width() * old(self).spec_height()
                    &&& final(self).spec_pixels() == final(buf)@
                    &&& final(self).has_size()
                    &&& final(self).spec_width() == old(self).spec_width()
                    &&& final(self).spec_height() == old(self).spec_height()
                    &&& final(self).is_wire() == old(self).is_wire()
                    &&& !final(self).awaiting()
                    &&& final(self).spec_marker() is None
                    &&& final(self).spec_capacity() == old(self).spec_capacity()
                    &&& final(self).spec_segs_created() == old(self).spec_segs_created()
                    &&& final(self).spec_segs_detached() == old(self).spec_segs_detached()
                    &&& final(self).spec_presented() == old(self).spec_presented()
                    &&& final(self).spec_depth() == old(self).spec_depth()
                    &&& (final(buf)@.len() == old(self).spec_pixels().len() ==> final(self).wf())
                },
                Result::Err(e) => {
                    &&& *final(self) == *old(self)
                    &&& (e == AccessError::NotResized <==> !old(self).has_size())
                    &&& (e == AccessError::AwaitingCompletion <==> old(self).has_size() && old(
                        self,
                    ).awaiting())
                },
            },
    {
        proof {
            if old(self).has_size() {
                old(self).lemma_pixel_count();
            }
        }
        let has_size = self.size.is_some();
        match &mut self.buffer {
            X11Buffer::Shm(shm) => {
                if !has_size {
                    return Err(AccessError::NotResized);
                }
                if shm.awaiting {
                    return Err(AccessError::AwaitingCompletion);
                }
                match &mut shm.seg {
                    Some(seg) => {
                        proof {
                            seg.lemma_wf();
                        }
                        Ok(seg.as_mut())
                    },
                    None => {
                        proof {
                            assert(false);
                        }
                        Err(AccessError::NotResized)
                    },
                }
            },
            X11Buffer::Wire(v) => {
                if !has_size {
                    return Err(AccessError::NotResized);
                }
                Ok(v.as_mut_slice())
            },
        }
    }

    /// Submit one frame with the given damage rectangles.  In wire mode the
    /// whole buffer is sent and the rectangles only validated; in
    /// shared-memory mode each rectangle becomes one draw request, in the
    /// order given, without deduplication, and a submission becomes
    /// outstanding until `confirm_completion`.  A rectangle outside the
    /// negotiated size or the protocol's coordinate range rejects the whole
    /// call, changing nothing.
    pub fn present_with_damage(&mut self, damage: &Vec<Rect>) -> (r: Result<
        X11Plan,
        PresentError,
    >)
        requires
            old(self).wf(),
            old(self).has_size(),
            !old(self).awaiting(),
        ensures
            final(self).wf(),
            final(self).is_wire() == old(self).is_wire(),
            final(self).has_size(),
            final(self).spec_width() == old(self).spec_width(),
            final(self).spec_height() == old(self).spec_height(),
            final(self).spec_pixels() == old(self).spec_pixels(),
            final(self).spec_capacity() == old(self).spec_capacity(),
            final(self).spec_segs_created() == old(self).spec_segs_created(),
            final(self).spec_segs_detached() == old(self).spec_segs_detached(),
            final(self).spec_marker() is None,
            final(self).spec_depth() == old(self).spec_depth(),
            match r {
                Result::Ok(plan) => {
                    &&& (forall|i: int|
                        0 <= i < damage@.len() ==> x11_rect_ok(
                            #[trigger] damage@[i],
                            old(self).spec_width(),
                            old(self).spec_height(),
                        ))
                    &&& final(self).spec_presented()
                    &&& (old(self).is_wire() ==> !final(self).awaiting() && (plan matches
                        X11Plan::Wire {
                        width,
                        height,
                        depth,
                    } && width == old(self).spec_width() && height == old(self).spec_height()
                        && depth == old(self).spec_depth()))
                    &&& (!old(self).is_wire() ==> final(self).awaiting() && (plan matches
                        X11Plan::Shm { puts } && puts@.len() == damage@.len() && (forall|i: int|
                        0 <= i < damage@.len() ==> puts@[i] == spec_put(
                            #[trigger] damage@[i],
                            old(self).spec_width(),
                            old(self).spec_height(),
                            old(self).spec_depth(),
                        ))))
                },
                Result::Err(e) => {
                    &&& e == PresentError::DamageOutOfRange
                    &&& (exists|i: int|
                        0 <= i < damage@.len() && !x11_rect_ok(
                            #[trigger] damage@[i],
                            old(self).spec_width(),
                            old(self).spec_height(),
                        ))
                    &&& *final(self) == *old(self)
                },
            },
    {
        let (w, h) = self.size.unwrap();
        match first_bad_rect(damage, w, h) {
            Some(i) => {
                assert(!x11_rect_ok(damage@[i as int], w, h));
                return Err(PresentError::DamageOutOfRange);
            },
            None => {},
        }
        let depth = self.depth;
        let is_wire = match &self.buffer {
            X11Buffer::Wire(_) => true,
            X11Buffer::Shm(_) => false,
        };
        if is_wire {
            self.buffer_presented = true;
            return Ok(X11Plan::Wire { width: w, height: h, depth });
        }
        let puts = build_puts(damage, w, h, depth);
        match &mut self.buffer {
            X11Buffer::Shm(shm) => {
                shm.awaiting = true;
            },
            X11Buffer::Wire(_) => {
                proof {
                    assert(false);
                }
            },
        }
        self.buffer_presented = true;
        Ok(X11Plan::Shm { puts })
    }

    /// Submit one frame damaging the whole negotiated size.
    pub fn present(&mut self) -> (r: Result<X11Plan, PresentError>)
        requires
            old(self).wf(),
            old(self).has_size(),
            !old(self).awaiting(),
        ensures
            final(self).wf(),
            final(self).is_wire() == old(self).is_wire(),
            final(self).has_size(),
            final(self).spec_width() == old(self).spec_width(),
            final(self).spec_height() == old(self).spec_height(),
            final(self).spec_pixels() == old(self).spec_pixels(),
            final(self).spec_capacity() == old(self).spec_capacity(),
            final(self).spec_segs_created() == old(self).spec_segs_created(),
            final(self).spec_segs_detached() == old(self).spec_segs_detached(),
            final(self).spec_marker() is None,
            final(self).spec_depth() == old(self).spec_depth(),
            r is Ok,
            final(self).spec_presented(),
            old(self).is_wire() ==> !final(self).awaiting(),
            !old(self).is_wire() ==> final(self).awaiting(),
            match r {
                Result::Ok(plan) => {
                    &&& (old(self).is_wire() ==> (plan matches X11Plan::Wire {
                        width,
                        height,
                        depth,
                    } && width == old(self).spec_width() && height == old(self).spec_height()
                        && depth == old(self).spec_depth()))
                    &&& (!old(self).is_wire() ==> (plan matches X11Plan::Shm { puts } && puts@.len()
                        == 1 && puts@[0] == spec_put(
                        (Rect {
                            x: 0,
                            y: 0,
                            width: old(self).spec_width() as u32,
                            height: old(self).spec_height() as u32,
                        }),
                        old(self).spec_width(),
                        old(self).spec_height(),
                        old(self).spec_depth(),
                    )))
                },
                Result::Err(_) => false,
            },
    {
        let (w, h) = self.size.unwrap();
        let full = Rect { x: 0, y: 0, width: w as u32, height: h as u32 };
        assert(x11_rect_ok(full, w, h));
        let damage = vec![full];
        let r = self.present_with_damage(&damage);
        match r {
            Ok(plan) => Ok(plan),
            Err(e) => {
                proof {
                    assert(false);
                }
                Err(e)
            },
        }
    }

    /// Record the sequence number of the trailing trivial request the shell
    /// sent after the draw requests of an outstanding submission.
    pub fn note_submitted(&mut self, seq: u64)
        requires
            old(self).wf(),
            old(self).awaiting(),
            old(self).spec_marker() is None,
        ensures
            final(self).wf(),
            final(self).spec_marker() == Some(seq),
            final(self).awaiting(),
            final(self).is_wire() == old(self).is_wire(),
            final(self).has_size() == old(self).has_size(),
            final(self).spec_width() == old(self).spec_width(),
            final(self).spec_height() == old(self).spec_height(),
            final(self).spec_pixels() == old(self).spec_pixels(),
            final(self).spec_capacity() == old(self).spec_capacity(),
            final(self).spec_segs_created() == old(self).spec_segs_created(),
            final(self).spec_segs_detached() == old(self).spec_segs_detached(),
            final(self).spec_presented() == old(self).spec_presented(),
    {
        match &mut self.buffer {
            X11Buffer::Shm(shm) => {
                shm.marker = Some(seq);
            },
            X11Buffer::Wire(_) => {
                proof {
                    assert(false);
                }
            },
        }
    }

    /// The marker whose reply the shell must fetch before the buffer can be
    /// touched again, if one is outstanding.
    pub fn pending_marker(&self) -> (r: Option<u64>)
        ensures
            r == self.spec_marker(),
    {
        match &self.buffer {
            X11Buffer::Shm(shm) => shm.marker,
            X11Buffer::Wire(_) => None,
        }
    }

    /// Confirm that the display server has finished reading the segment:
    /// the shell fetched the reply to the recorded marker, or there was
    /// nothing outstanding.  Clears the handshake; the buffer is writable
    /// again afterwards.
    pub fn confirm_completion(&mut self)
        requires
            old(self).wf(),
        ensures
            final(self).wf(),
            !final(self).awaiting(),
            final(self).spec_marker() is None,
            final(self).is_wire() == old(self).is_wire(),
            final(self).has_size() == old(self).has_size(),
            final(self).spec_width() == old(self).spec_width(),
            final(self).spec_height() == old(self).spec_height(),
            final(self).spec_pixels() == old(self).spec_pixels(),
            final(self).spec_capacity() == old(self).spec_capacity(),
            final(self).spec_segs_created() == old(self).spec_segs_created(),
            final(self).spec_segs_detached() == old(self).spec_segs_detached(),
            final(self).spec_presented() == old(self).spec_presented(),
    {
        match &mut self.buffer {
            X11Buffer::Shm(shm) => {
                shm.awaiting = false;
                shm.marker = None;
            },
            X11Buffer::Wire(_) => {},
        }
    }

    /// Whether the backend is in wire mode.
    pub fn mode_is_wire(&self) -> (r: bool)
        ensures
            r == self.is_wire(),
    {
        match &self.buffer {
            X11Buffer::Shm(_) => false,
            X11Buffer::Wire(_) => true,
        }
    }

    /// Byte capacity of the backing segment; zero in wire mode or before
    /// the first negotiation.
    pub fn capacity(&self) -> (r: usize)
        ensures
            r == self.spec_capacity(),
    {
        match &self.buffer {
            X11Buffer::Shm(shm) => match &shm.seg {
                Some(seg) => seg.size(),
                None => 0,
            },
            X11Buffer::Wire(_) => 0,
        }
    }

    /// How many segments were ever allocated.
    pub fn segments_created(&self) -> (r: u64)
        ensures
            r == self.spec_segs_created(),
    {
        match &self.buffer {
            X11Buffer::Shm(shm) => shm.segs_created,
            X11Buffer::Wire(_) => 0,
        }
    }

    /// How many segments were detached again.
    pub fn segments_detached(&self) -> (r: u64)
        ensures
            r == self.spec_segs_detached(),
    {
        match &self.buffer {
            X11Buffer::Shm(shm) => shm.segs_detached,
            X11Buffer::Wire(_) => 0,
        }
    }
}

} // verus!
