//! Protocol constants and the per-device configuration.
//!
//! The GUD wire protocol identifies every control transfer by a one-byte
//! request code; the codes, the descriptor magic number and the small
//! fixed reply values all live here, so that the rest of the crate has a
//! single place to point at.

use vstd::prelude::*;

verus! {

/// Magic number opening every display descriptor.
pub const GUD_DISPLAY_MAGIC: u32 = 0x1d50614d;

/// Protocol version advertised in the display descriptor.
pub const GUD_PROTOCOL_VERSION: u8 = 1;

// Device-to-host request codes: the host polls for data.
pub const GUD_REQ_GET_STATUS: u8 = 0x00;
pub const GUD_REQ_GET_DESCRIPTOR: u8 = 0x01;
pub const GUD_REQ_GET_FORMATS: u8 = 0x40;
pub const GUD_REQ_GET_PROPERTIES: u8 = 0x41;
pub const GUD_REQ_GET_CONNECTORS: u8 = 0x50;
pub const GUD_REQ_GET_CONNECTOR_PROPERTIES: u8 = 0x51;
pub const GUD_REQ_GET_CONNECTOR_STATUS: u8 = 0x54;
pub const GUD_REQ_GET_CONNECTOR_MODES: u8 = 0x55;
pub const GUD_REQ_GET_CONNECTOR_EDID: u8 = 0x56;

// Host-to-device request codes: the host pushes data.
pub const GUD_REQ_SET_CONNECTOR_FORCE_DETECT: u8 = 0x53;
pub const GUD_REQ_SET_BUFFER: u8 = 0x60;
pub const GUD_REQ_SET_STATE_CHECK: u8 = 0x61;
pub const GUD_REQ_SET_STATE_COMMIT: u8 = 0x62;
pub const GUD_REQ_SET_CONTROLLER_ENABLE: u8 = 0x63;
pub const GUD_REQ_SET_DISPLAY_ENABLE: u8 = 0x64;

/// Status byte answering a status query: everything is fine.
pub const GUD_STATUS_OK: u8 = 0;

/// Connector status byte: a display is connected.
pub const GUD_CONNECTOR_STATUS_CONNECTED: u8 = 0x01;

/// The one connector type this device reports.
pub const GUD_CONNECTOR_TYPE_PANEL: u8 = 0;

// Pixel format codes from the protocol's fixed enumeration.
pub const GUD_PIXEL_FORMAT_RGB565: u8 = 0x40;
pub const GUD_PIXEL_FORMAT_RGB888: u8 = 0x50;
pub const GUD_PIXEL_FORMAT_XRGB8888: u8 = 0x80;

/// Compression scheme tag: LZ4 block compression.
pub const GUD_COMPRESSION_LZ4: u8 = 0x01;

/// The pixel formats this device can advertise.
#[derive(Clone, Copy, Debug, PartialEq, Eq, Structural)]
pub enum PixelFormat {
    Rgb565,
    Rgb888,
    Xrgb8888,
}

impl PixelFormat {
    /// The format's one-byte code on the wire.
    pub open spec fn spec_wire_code(self) -> u8 {
        match self {
            PixelFormat::Rgb565 => GUD_PIXEL_FORMAT_RGB565,
            PixelFormat::Rgb888 => GUD_PIXEL_FORMAT_RGB888,
            PixelFormat::Xrgb8888 => GUD_PIXEL_FORMAT_XRGB8888,
        }
    }

    /// Bytes per pixel of the format.
    pub open spec fn spec_bytes_per_pixel(self) -> int {
        match self {
            PixelFormat::Rgb565 => 2,
            PixelFormat::Rgb888 => 3,
            PixelFormat::Xrgb8888 => 4,
        }
    }

    pub fn wire_code(self) -> (r: u8)
        ensures
            r == self.spec_wire_code(),
    {
        match self {
            PixelFormat::Rgb565 => GUD_PIXEL_FORMAT_RGB565,
            PixelFormat::Rgb888 => GUD_PIXEL_FORMAT_RGB888,
            PixelFormat::Xrgb8888 => GUD_PIXEL_FORMAT_XRGB8888,
        }
    }

    pub fn bytes_per_pixel(self) -> (r: u32)
        ensures
            r == self.spec_bytes_per_pixel(),
    {
        match self {
            PixelFormat::Rgb565 => 2,
            PixelFormat::Rgb888 => 3,
            PixelFormat::Xrgb8888 => 4,
        }
    }
}

/// One consistent behaviour per device: which pixel format is advertised
/// and whether the descriptor offers LZ4 block compression.
#[derive(Clone, Copy, Debug, PartialEq, Eq, Structural)]
pub struct GadgetConfig {
    /// The single pixel format the device advertises.
    pub format: PixelFormat,
    /// Whether the descriptor advertises LZ4 block compression.
    pub lz4: bool,
}

impl GadgetConfig {
    /// The compression bitmask carried in the display descriptor.
    pub open spec fn spec_compression_mask(self) -> u8 {
        if self.lz4 {
            GUD_COMPRESSION_LZ4
        } else {
            0
        }
    }

    pub fn compression_mask(self) -> (r: u8)
        ensures
            r == self.spec_compression_mask(),
    {
        if self.lz4 {
            GUD_COMPRESSION_LZ4
        } else {
            0
        }
    }
}

} // verus!
