//! Safe, verified core of a userspace interface to a kernel display
//! subsystem: owning wrappers for kernel-populated records (connectors,
//! encoders, CRTCs, resource lists), a mode descriptor value type, the
//! mode-setting facade, and the event-dispatch logic.
//!
//! Kernel calls themselves live outside this crate; the functions here take
//! the plain values a kernel reply carries and are verified for every such
//! value. An explicit allocation registry models the lifetime of each
//! kernel-owned record, so that single-release and no-use-after-release are
//! proved rather than assumed.

pub mod registry;

pub mod mode_info;

pub mod connector;

pub mod crtc;

pub mod encoder;

pub mod resources;

pub mod drm;

pub mod drm_mode;

pub mod wire;

pub mod vblank;

pub mod event_handler;

