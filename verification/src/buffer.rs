//! The presentation facade: one closed, exhaustively matched variant over
//! the two backends, exposing `resize`, `buffer_mut`, `present` and
//! `present_with_damage` uniformly, plus the session probe that decides
//! which backend to construct.

use vstd::prelude::*;
use vstd::string::StringSliceAdditionalSpecFns;

use crate::error::AccessError;
use crate::error::PresentError;
use crate::error::ResizeError;
use crate::num::grown_capacity;
use crate::rect::Rect;
use crate::wayland::WaylandImpl;
use crate::wayland::WaylandPlan;
use crate::wayland::WaylandResizeAction;
use crate::wayland::spec_box;
use crate::wayland::wl_rect_ok;
use crate::x11::X11DisplayImpl;
use crate::x11::X11Plan;
use crate::x11::X11ResizeAction;
use crate::x11::spec_put;
use crate::x11::x11_rect_ok;

verus! {

/// Lower-case image of an ASCII byte.
pub open spec fn to_lower_byte(b: u8) -> u8 {
    if 65 <= b <= 90 {
        (b + 32) as u8
    } else {
        b
    }
}

/// The bytes at `i` spell the compositor protocol's name, ignoring case.
pub open spec fn wayland_at(s: Seq<u8>, i: int) -> bool {
    &&& 0 <= i
    &&& i + 7 <= s.len()
    &&& to_lower_byte(s[i]) == 119
    &&& to_lower_byte(s[i + 1]) == 97
    &&& to_lower_byte(s[i + 2]) == 121
    &&& to_lower_byte(s[i + 3]) == 108
    &&& to_lower_byte(s[i + 4]) == 97
    &&& to_lower_byte(s[i + 5]) == 110
    &&& to_lower_byte(s[i + 6]) == 100
}

/// The string mentions the compositor protocol, ignoring case.
pub open spec fn mentions_wayland(s: Seq<u8>) -> bool {
    exists|i: int| wayland_at(s, i)
}

fn lower_byte(b: u8) -> (r: u8)
    ensures
        r == to_lower_byte(b),
{
    if 65 <= b && b <= 90 {
        b + 32
    } else {
        b
    }
}

/// Whether a session-type indicator selects the compositor backend: it
/// mentions the compositor protocol's name, in any case.
pub fn session_prefers_wayland(value: &str) -> (b: bool)
    ensures
        b == mentions_wayland(value.spec_bytes()),
{
    let bytes = value.as_bytes();
    let n = bytes.len();
    if n < 7 {
        return false;
    }
    let mut i: usize = 0;
    while i <= n - 7
        invariant
            0 <= i,
            n >= 7,
            i <= n,
            n == bytes@.len(),
            bytes@ == value.spec_bytes(),
            forall|k: int| 0 <= k < i ==> !wayland_at(value.spec_bytes(), k),
        decreases n - i,
    {
        if lower_byte(bytes[i]) == 119 && lower_byte(bytes[i + 1]) == 97 && lower_byte(
            bytes[i + 2],
        ) == 121 && lower_byte(bytes[i + 3]) == 108 && lower_byte(bytes[i + 4]) == 97
            && lower_byte(bytes[i + 5]) == 110 && lower_byte(bytes[i + 6]) == 100 {
            assert(wayland_at(value.spec_bytes(), i as int));
            return true;
        }
        assert(!wayland_at(value.spec_bytes(), i as int));
        i = i + 1;
    }
    false
}

/// The submission plan of one frame, for whichever backend is active.
#[derive(Debug)]
pub enum Plan {
    /// The compositor backend's plan.
    Wayland(WaylandPlan),
    /// The display-server backend's plan.
    X11(X11Plan),
}

/// What the shell must do after a size negotiation, for whichever backend
/// is active.
#[derive(Clone, Copy, Debug, PartialEq, Eq, Structural)]
pub enum ResizeAction {
    /// The compositor backend's action.
    Wayland(WaylandResizeAction),
    /// The display-server backend's action.
    X11(X11ResizeAction),
}

/// The presentation interface: one of the two backends, selected at
/// construction time.
#[derive(Debug)]
pub enum Buffer {
    /// The compositor backend.
    Wayland(WaylandImpl),
    /// The display-server backend.
    X11(X11DisplayImpl),
}

impl Buffer {
    /// The active backend's structural invariant.
    pub open spec fn wf(self) -> bool {
        match self {
            Buffer::Wayland(b) => b.wf(),
            Buffer::X11(b) => b.wf(),
        }
    }

    /// Whether the compositor backend is active.
    pub open spec fn is_wayland(self) -> bool {
        self is Wayland
    }

    /// Whether a size has been negotiated.
    pub open spec fn has_size(self) -> bool {
        match self {
            Buffer::Wayland(b) => b.has_size(),
            Buffer::X11(b) => b.has_size(),
        }
    }

    /// The negotiated width.
    pub open spec fn spec_width(self) -> u32 {
        match self {
            Buffer::Wayland(b) => b.spec_width(),
            Buffer::X11(b) => b.spec_width() as u32,
        }
    }

    /// The negotiated height.
    pub open spec fn spec_height(self) -> u32 {
        match self {
            Buffer::Wayland(b) => b.spec_height(),
            Buffer::X11(b) => b.spec_height() as u32,
        }
    }

    /// Number of pixel slots the caller can write.
    pub open spec fn pixel_count(self) -> nat {
        match self {
            Buffer::Wayland(b) => b.pixel_count(),
            Buffer::X11(b) => b.pixel_count(),
        }
    }

    /// The pixels of the buffer.
    pub open spec fn spec_pixels(self) -> Seq<u32> {
        match self {
            Buffer::Wayland(b) => b.spec_pixels(),
            Buffer::X11(b) => b.spec_pixels(),
        }
    }

    /// Byte capacity of the backing pool or segment; zero before the first
    /// negotiation and on the wire path.
    pub open spec fn spec_capacity(self) -> nat {
        match self {
            Buffer::Wayland(b) => b.spec_capacity(),
            Buffer::X11(b) => b.spec_capacity(),
        }
    }

    /// Whether a shared-memory submission is outstanding, barring buffer
    /// access until its completion is confirmed.  Only the display-server
    /// backend defers completion this way.
    pub open spec fn awaiting(self) -> bool {
        match self {
            Buffer::Wayland(_) => false,
            Buffer::X11(b) => b.awaiting(),
        }
    }

    /// The recorded completion marker, if any.
    pub open spec fn spec_marker(self) -> Option<u64> {
        match self {
            Buffer::Wayland(_) => None,
            Buffer::X11(b) => b.spec_marker(),
        }
    }

    /// Whether the active backend grows a shared segment or pool.
    pub open spec fn uses_segment(self) -> bool {
        match self {
            Buffer::Wayland(_) => true,
            Buffer::X11(b) => !b.is_wire(),
        }
    }

    /// The dimensions the active backend can negotiate.
    pub open spec fn dims_ok(self, w: u32, h: u32) -> bool {
        match self {
            Buffer::Wayland(_) => crate::wayland::wl_dims_ok(w, h),
            Buffer::X11(_) => crate::x11::x11_dims_ok(w, h),
        }
    }

    /// The damage rectangles the active backend can submit.
    pub open spec fn damage_ok(self, r: Rect) -> bool {
        match self {
            Buffer::Wayland(b) => wl_rect_ok(r, b.spec_width(), b.spec_height()),
            Buffer::X11(b) => x11_rect_ok(r, b.spec_width(), b.spec_height()),
        }
    }

    /// The backend's budget for further growth bookkeeping.
    pub open spec fn growth_budget_ok(self) -> bool {
        match self {
            Buffer::Wayland(b) => b.spec_pool_grows() < u64::MAX,
            Buffer::X11(b) => b.spec_segs_created() < u64::MAX,
        }
    }

    /// Whether the backend mode of `self` equals that of `other`.
    pub open spec fn same_mode(self, other: Self) -> bool {
        match (self, other) {
            (Buffer::Wayland(_), Buffer::Wayland(_)) => true,
            (Buffer::X11(a), Buffer::X11(b)) => a.is_wire() == b.is_wire(),
            _ => false,
        }
    }

    /// For every negotiated size, the buffer holds exactly one pixel slot
    /// per coordinate: what `resize` negotiates is what `buffer_mut` hands
    /// out.
    pub proof fn lemma_buffer_len_matches_size(self)
        requires
            self.wf(),
            self.has_size(),
        ensures
            self.pixel_count() == self.spec_width() * self.spec_height(),
    {
        match self {
            Buffer::Wayland(b) => b.lemma_pixel_count(),
            Buffer::X11(b) => b.lemma_pixel_count(),
        }
    }

    /// Negotiate a buffer size: afterwards the buffer holds exactly one
    /// pixel slot per coordinate, and any backing segment or pool has only
    /// grown.  An unchanged size does nothing.
    pub fn resize(&mut self, width: u32, height: u32) -> (r: Result<ResizeAction, ResizeError>)
        requires
            old(self).wf(),
            !old(self).awaiting(),
            width >= 1,
            height >= 1,
            old(self).growth_budget_ok(),
        ensures
            final(self).wf(),
            final(self).same_mode(*old(self)),
            !final(self).awaiting(),
            match r {
                Result::Ok(action) => {
                    &&& old(self).dims_ok(width, height)
                    &&& final(self).has_size()
                    &&& final(self).spec_width() == width
                    &&& final(self).spec_height() == height
                    &&& final(self).pixel_count() == width * height
                    &&& old(self).spec_capacity() <= final(self).spec_capacity()
                    &&& (old(self).uses_segment() ==> final(self).spec_capacity()
                        == grown_capacity(old(self).spec_capacity(), (4 * width * height) as nat))
                    &&& (action is Wayland <==> old(self).is_wayland())
                },
                Result::Err(e) => {
                    &&& e == ResizeError::DimensionsTooLarge
                    &&& !old(self).dims_ok(width, height)
                    &&& *final(self) == *old(self)
                },
            },
    {
        match self {
            Buffer::Wayland(b) => match b.resize(width, height) {
                Ok(action) => Ok(ResizeAction::Wayland(action)),
                Err(e) => Err(e),
            },
            Buffer::X11(b) => match b.resize(width, height) {
                Ok(action) => Ok(ResizeAction::X11(action)),
                Err(e) => Err(e),
            },
        }
    }

    /// Hand out the pixel buffer: exactly `width * height` slots.  Fails
    /// before the first successful `resize`, and on the display-server
    /// shared-memory path while a submission's completion has not been
    /// confirmed.
    pub fn buffer_mut(&mut self) -> (r: Result<&mut [u32], AccessError>)
        requires
            old(self).wf(),
        ensures
            match r {
                Result::Ok(buf) => {
                    &&& old(self).has_size()
                    &&& !old(self).awaiting()
                    &&& buf@ == old(self).spec_pixels()
                    &&& buf@.len() == old(self).spec_width() * old(self).spec_height()
                    &&& final(self).spec_pixels() == final(buf)@
                    &&& final(self).has_size()
                    &&& final(self).spec_width() == old(self).spec_width()
                    &&& final(self).spec_height() == old(self).spec_height()
                    &&& final(self).same_mode(*old(self))
                    &&& !final(self).awaiting()
                    &&& final(self).spec_capacity() == old(self).spec_capacity()
                    &&& (final(buf)@.len() == old(self).spec_pixels().len() ==> final(self).wf())
                },
                Result::Err(e) => {
                    &&& *final(self) == *old(self)
                    &&& (e == AccessError::NotResized <==> !old(self).has_size())
                    &&& (e == AccessError::AwaitingCompletion <==> old(self).has_size() && old(
                        self,
                    ).awaiting())
                },
            },
    {
        match self {
            Buffer::Wayland(b) => b.buffer_mut(),
            Buffer::X11(b) => b.buffer_mut(),
        }
    }

    /// Submit one frame with the given damage rectangles.  Every rectangle
    /// is forwarded to the active backend in the order supplied, without
    /// deduplication; a rectangle outside the negotiated size or the
    /// protocol's coordinate range rejects the whole call, changing
    /// nothing.
    pub fn present_with_damage(&mut self, damage: &Vec<Rect>) -> (r: Result<Plan, PresentError>)
        requires
            old(self).wf(),
            old(self).has_size(),
            !old(self).awaiting(),
        ensures
            final(self).wf(),
            final(self).same_mode(*old(self)),
            final(self).has_size(),
            final(self).spec_width() == old(self).spec_width(),
            final(self).spec_height() == old(self).spec_height(),
            final(self).spec_pixels() == old(self).spec_pixels(),
            final(self).spec_capacity() == old(self).spec_capacity(),
            match r {
                Result::Ok(plan) => {
                    &&& (forall|i: int|
                        0 <= i < damage@.len() ==> old(self).damage_ok(#[trigger] damage@[i]))
                    &&& match plan {
                        Plan::Wayland(wp) => {
                            &&& old(self).is_wayland()
                            &&& !final(self).awaiting()
                            &&& (*old(self) matches Buffer::Wayland(ob) && {
                                &&& (ob.spec_surface_version() < 4 ==> wp is DamageFull)
                                &&& (ob.spec_surface_version() >= 4 ==> (wp matches
                                    WaylandPlan::DamageRects(boxes) && boxes@.len()
                                    == damage@.len() && (forall|i: int|
                                    0 <= i < damage@.len() ==> boxes@[i] == spec_box(
                                        #[trigger] damage@[i],
                                    ))))
                            })
                        },
                        Plan::X11(xp) => {
                            &&& !old(self).is_wayland()
                            &&& (*old(self) matches Buffer::X11(ob) && {
                                &&& (!ob.is_wire() ==> final(self).awaiting() && (xp matches
                                    X11Plan::Shm { puts } && puts@.len() == damage@.len() && (
                                forall|i: int|
                                    0 <= i < damage@.len() ==> puts@[i] == spec_put(
                                        #[trigger] damage@[i],
                                        ob.spec_width(),
                                        ob.spec_height(),
                                        ob.spec_depth(),
                                    ))))
                                &&& (ob.is_wire() ==> !final(self).awaiting() && (xp matches
                                    X11Plan::Wire { width, height, depth } && width
                                    == ob.spec_width() && height == ob.spec_height() && depth
                                    == ob.spec_depth()))
                            })
                        },
                    }
                },
                Result::Err(e) => {
                    &&& e == PresentError::DamageOutOfRange
                    &&& (exists|i: int|
                        0 <= i < damage@.len() && !old(self).damage_ok(#[trigger] damage@[i]))
                    &&& *final(self) == *old(self)
                },
            },
    {
        match self {
            Buffer::Wayland(b) => match b.present_with_damage(damage) {
                Ok(plan) => Ok(Plan::Wayland(plan)),
                Err(e) => Err(e),
            },
            Buffer::X11(b) => match b.present_with_damage(damage) {
                Ok(plan) => Ok(Plan::X11(plan)),
                Err(e) => Err(e),
            },
        }
    }

    /// Submit one frame damaging the whole negotiated size.
    pub fn present(&mut self) -> (r: Result<Plan, PresentError>)
        requires
            old(self).wf(),
            old(self).has_size(),
            !old(self).awaiting(),
        ensures
            final(self).wf(),
            final(self).same_mode(*old(self)),
            final(self).has_size(),
            final(self).spec_width() == old(self).spec_width(),
            final(self).spec_height() == old(self).spec_height(),
            final(self).spec_pixels() == old(self).spec_pixels(),
            final(self).spec_capacity() == old(self).spec_capacity(),
            r is Ok,
    {
        match self {
            Buffer::Wayland(b) => match b.present() {
                Ok(plan) => Ok(Plan::Wayland(plan)),
                Err(e) => Err(e),
            },
            Buffer::X11(b) => match b.present() {
                Ok(plan) => Ok(Plan::X11(plan)),
                Err(e) => Err(e),
            },
        }
    }

    /// The completion marker whose reply the shell must fetch, if any.
    pub fn pending_marker(&self) -> (r: Option<u64>)
        ensures
            r == self.spec_marker(),
    {
        match self {
            Buffer::Wayland(_) => None,
            Buffer::X11(b) => b.pending_marker(),
        }
    }

    /// Record the sequence number of the trailing request of an
    /// outstanding display-server submission.
    pub fn note_submitted(&mut self, seq: u64)
        requires
            old(self).wf(),
            old(self).awaiting(),
            old(self).spec_marker() is None,
        ensures
            final(self).wf(),
            final(self).spec_marker() == Some(seq),
            final(self).same_mode(*old(self)),
            final(self).has_size() == old(self).has_size(),
            final(self).spec_pixels() == old(self).spec_pixels(),
            final(self).spec_width() == old(self).spec_width(),
            final(self).spec_height() == old(self).spec_height(),
            final(self).spec_capacity() == old(self).spec_capacity(),
    {
        match self {
            Buffer::Wayland(_) => {
                proof {
                    assert(false);
                }
            },
            Buffer::X11(b) => b.note_submitted(seq),
        }
    }

    /// Confirm completion of any outstanding display-server submission;
    /// the buffer is accessible again afterwards.
    pub fn confirm_completion(&mut self)
        requires
            old(self).wf(),
        ensures
            final(self).wf(),
            !final(self).awaiting(),
            final(self).spec_marker() is None,
            final(self).same_mode(*old(self)),
            final(self).has_size() == old(self).has_size(),
            final(self).spec_pixels() == old(self).spec_pixels(),
            final(self).spec_width() == old(self).spec_width(),
            final(self).spec_height() == old(self).spec_height(),
            final(self).spec_capacity() == old(self).spec_capacity(),
    {
        match self {
            Buffer::Wayland(_) => {},
            Buffer::X11(b) => b.confirm_completion(),
        }
    }
}

} // verus!
