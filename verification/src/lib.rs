//! A safe, verified model of a display controller's mode-setting interface:
//! discovery of the output topology (connectors, encoders, CRTCs, planes),
//! per-object property introspection, scan-out buffer bookkeeping, and the
//! atomic transaction builder that batches property writes into the
//! object-grouped parallel-array format the kernel's atomic commit expects.
//!
//! Everything here works on plain values. The raw transport — the ioctl
//! calling convention, memory mapping, and the system calls themselves —
//! lives outside this library and hands in typed request/response data.

#![allow(non_camel_case_types)]

mod buffer;
mod connector;
mod crtc;
mod device;
mod encoder;
mod error;
mod format;
mod mode;
mod object;
mod output;
mod plane;
mod property;
mod raw;
mod transaction;

pub use crate::buffer::AllocationInfo;
pub use crate::buffer::Buffer;
pub use crate::buffer::Framebuffer;
pub use crate::buffer::Type as BufferType;
pub use crate::connector::Connector;
pub use crate::connector::ConnectorInfo;
pub use crate::connector::Modes;
pub use crate::crtc::Crtc;
pub use crate::device::Device;
pub use crate::device::DeviceHandle;
pub use crate::encoder::Encoder;
pub use crate::encoder::EncoderInfo;
pub use crate::error::Error;
pub use crate::format::Format;
pub use crate::mode::Mode;
pub use crate::mode::ModeInfo;
pub use crate::object::Object;
pub use crate::object::PropertyListing;
pub use crate::output::CommitContext;
pub use crate::output::ConnectorUpdate;
pub use crate::output::ObjectProperties;
pub use crate::output::ObjectUpdate;
pub use crate::output::Output;
pub use crate::output::PendingProperty;
pub use crate::output::PlaneUpdate;
pub use crate::output::Update;
pub use crate::plane::Formats;
pub use crate::plane::Plane;
pub use crate::plane::PlaneInfo;
pub use crate::plane::PlaneType;
pub use crate::property::Property;
pub use crate::raw::drm_connector_status as ConnectorStatus;
pub use crate::raw::drm_mode_connector_type as ConnectorType;
pub use crate::raw::drm_mode_encoder_type as EncoderType;
pub use crate::raw::drm_mode_object_type as ObjectType;
pub use crate::raw::drm_mode_type as ModeType;
pub use crate::transaction::assemble_request;
pub use crate::transaction::ATOMIC_ALLOW_MODESET;
pub use crate::transaction::AtomicRequest;
pub use crate::transaction::PropertyWrite;
