//! Verified core of an on-screen-display frame presentation layer.
//!
//! The library models the cross-backend shared-memory presentation pipeline:
//! a caller negotiates a pixel buffer size, writes packed `0xAARRGGBB` pixels
//! into it, and submits damage rectangles for compositing.  Two backends are
//! modelled: a compositor memory-pool protocol and a display-server protocol
//! with a shared-memory fast path and a wire-transfer fallback.  All decision
//! logic (sizing, growth, damage validation, completion synchronization) is
//! verified here; the process that performs the actual protocol I/O consumes
//! the plans these functions return.

mod action;
mod battery;
mod buffer;
mod color;
mod config;
mod error;
mod handle;
mod num;
mod rect;
mod segment;
mod singletone;
mod urgency;
mod wayland;
mod x11;

pub use action::Action;
pub use action::InputAction;
pub use action::InputEvent;
pub use action::InputModifier;
pub use action::NotificationAction;
pub use battery::Battery;
pub use battery::BatteryState;
pub use battery::battery_energy;
pub use battery::InvalidBatteryState;
pub use battery::energy_from_charge;
pub use battery::level_from_energy;
pub use battery::name_to_battery_state;
pub use buffer::Buffer;
pub use buffer::Plan;
pub use buffer::ResizeAction;
pub use buffer::session_prefers_wayland;
pub use color::Color;
pub use color::ToColor;
pub use color::is_valid_hex_color;
pub use color::parse_hex_color;
pub use config::OsdPosition;
pub use config::OsdType;
pub use config::swap_option;
pub use error::AccessError;
pub use error::IconError;
pub use error::InitError;
pub use error::PresentError;
pub use error::ResizeError;
pub use handle::HandleKind;
pub use num::next_pow2;
pub use num::total_len;
pub use rect::Rect;
pub use segment::ShmSegment;
pub use singletone::GenericMessage;
pub use singletone::SingletoneListener;
pub use urgency::Urgency;
pub use wayland::DamageBox;
pub use wayland::WaylandImpl;
pub use wayland::WaylandPlan;
pub use wayland::WaylandResizeAction;
pub use x11::PixmapFormat;
pub use x11::ShmPutParams;
pub use x11::VisualClassKind;
pub use x11::VisualSpec;
pub use x11::X11DisplayImpl;
pub use x11::X11Plan;
pub use x11::X11ResizeAction;
pub use x11::supported_visuals;
