//! Control-request dispatcher.
//!
//! Every SETUP transaction of the protocol is classified here.  A
//! device-to-host request is either answered immediately with a small
//! fixed reply, or yields a pending-request value that the embedding
//! loop completes by supplying data (the device descriptor, the mode
//! list) and encoding it through `send_descriptor` / `send_modes`.  A
//! host-to-device request either carries a buffer-update header, is
//! accepted with no effect, or is unknown; in every case the caller
//! drains the payload so the control endpoint stays consistent.

use crate::codec::{
    encode_modes, modes_to_bytes, set_buffer_of_bytes, ConnectorDescriptor, DisplayDescriptor,
    DisplayMode, ProtocolError, SetBuffer, connector_to_bytes, descriptor_to_bytes,
};
use crate::proto::{
    GadgetConfig, GUD_CONNECTOR_STATUS_CONNECTED, GUD_CONNECTOR_TYPE_PANEL, GUD_DISPLAY_MAGIC,
    GUD_PROTOCOL_VERSION, GUD_REQ_GET_CONNECTORS, GUD_REQ_GET_CONNECTOR_EDID,
    GUD_REQ_GET_CONNECTOR_MODES, GUD_REQ_GET_CONNECTOR_PROPERTIES, GUD_REQ_GET_CONNECTOR_STATUS,
    GUD_REQ_GET_DESCRIPTOR, GUD_REQ_GET_FORMATS, GUD_REQ_GET_PROPERTIES, GUD_REQ_GET_STATUS,
    GUD_REQ_SET_BUFFER, GUD_REQ_SET_CONNECTOR_FORCE_DETECT, GUD_REQ_SET_CONTROLLER_ENABLE,
    GUD_REQ_SET_DISPLAY_ENABLE, GUD_REQ_SET_STATE_CHECK, GUD_REQ_SET_STATE_COMMIT, GUD_STATUS_OK,
};
use vstd::prelude::*;

verus! {

/// A still-open descriptor query: the caller owns it until it answers
/// with `send_descriptor`, which consumes it.
pub struct GetDescriptorRequest {
    /// The transfer's maximum response size in bytes.
    pub capacity: usize,
}

/// A still-open mode-list query: the caller owns it until it answers
/// with `send_modes`, which consumes it.
pub struct GetDisplayModesRequest {
    /// The transfer's maximum response size in bytes.
    pub capacity: usize,
}

/// What the embedding loop must do with a device-to-host request.
pub enum DeviceToHostAction {
    /// Send these bytes on the control endpoint.
    Reply(Vec<u8>),
    /// Answer the descriptor query by supplying the device limits.
    GetDescriptor(GetDescriptorRequest),
    /// Answer the mode-list query by supplying the display modes.
    GetDisplayModes(GetDisplayModesRequest),
    /// Unknown request code: leave it unanswered.
    Ignore,
}

/// What the embedding loop must do with a host-to-device request whose
/// payload has been drained.
#[derive(Clone, Copy, Debug, PartialEq, Eq, Structural)]
pub enum HostToDeviceAction {
    /// A buffer update: this many pixel bytes follow on the bulk
    /// endpoint.
    Buffer(SetBuffer),
    /// Accepted for protocol completeness; nothing to do.
    Handled,
    /// Unknown request code; nothing to do.
    Unknown,
}

/// A run of `n` zero bytes.
pub open spec fn zero_bytes(n: nat) -> Seq<u8> {
    Seq::new(n, |i: int| 0u8)
}

/// The fixed reply to a device-to-host request that the dispatcher can
/// answer by itself, or `None` where the caller must supply data or
/// the code is unknown.
pub open spec fn immediate_reply(cfg: GadgetConfig, request: u8) -> Option<Seq<u8>> {
    if request == GUD_REQ_GET_STATUS {
        Some(seq![GUD_STATUS_OK])
    } else if request == GUD_REQ_GET_FORMATS {
        Some(seq![cfg.format.spec_wire_code()])
    } else if request == GUD_REQ_GET_PROPERTIES {
        Some(zero_bytes(10))
    } else if request == GUD_REQ_GET_CONNECTORS {
        Some(
            connector_to_bytes(
                ConnectorDescriptor { connector_type: GUD_CONNECTOR_TYPE_PANEL, flags: 0 },
            ),
        )
    } else if request == GUD_REQ_GET_CONNECTOR_PROPERTIES {
        Some(zero_bytes(10))
    } else if request == GUD_REQ_GET_CONNECTOR_STATUS {
        Some(seq![GUD_CONNECTOR_STATUS_CONNECTED])
    } else if request == GUD_REQ_GET_CONNECTOR_EDID {
        Some(seq![0u8])
    } else {
        None
    }
}

/// Builds a ten-byte all-zero property block.
fn zero_block() -> (r: Vec<u8>)
    ensures
        r@ == zero_bytes(10),
{
    let r = vec![0u8, 0u8, 0u8, 0u8, 0u8, 0u8, 0u8, 0u8, 0u8, 0u8];
    assert(r@ =~= zero_bytes(10));
    r
}

/// Classifies a device-to-host request: answers the fixed queries
/// itself, yields a pending request for the descriptor and mode-list
/// queries, and leaves unknown codes unanswered.
pub fn handle_device_to_host(cfg: GadgetConfig, request: u8, capacity: usize) -> (a:
    DeviceToHostAction)
    ensures
        a is Reply <==> immediate_reply(cfg, request) is Some,
        a matches DeviceToHostAction::Reply(b) ==> immediate_reply(cfg, request) == Some(b@),
        a is GetDescriptor <==> request == GUD_REQ_GET_DESCRIPTOR,
        a matches DeviceToHostAction::GetDescriptor(p) ==> p.capacity == capacity,
        a is GetDisplayModes <==> request == GUD_REQ_GET_CONNECTOR_MODES,
        a matches DeviceToHostAction::GetDisplayModes(p) ==> p.capacity == capacity,
{
    if request == GUD_REQ_GET_STATUS {
        let r = vec![GUD_STATUS_OK];
        assert(r@ =~= seq![GUD_STATUS_OK]);
        DeviceToHostAction::Reply(r)
    } else if request == GUD_REQ_GET_DESCRIPTOR {
        DeviceToHostAction::GetDescriptor(GetDescriptorRequest { capacity })
    } else if request == GUD_REQ_GET_FORMATS {
        let r = vec![cfg.format.wire_code()];
        assert(r@ =~= seq![cfg.format.spec_wire_code()]);
        DeviceToHostAction::Reply(r)
    } else if request == GUD_REQ_GET_PROPERTIES {
        DeviceToHostAction::Reply(zero_block())
    } else if request == GUD_REQ_GET_CONNECTORS {
        let connector = ConnectorDescriptor { connector_type: GUD_CONNECTOR_TYPE_PANEL, flags: 0 };
        DeviceToHostAction::Reply(connector.encode())
    } else if request == GUD_REQ_GET_CONNECTOR_PROPERTIES {
        DeviceToHostAction::Reply(zero_block())
    } else if request == GUD_REQ_GET_CONNECTOR_MODES {
        DeviceToHostAction::GetDisplayModes(GetDisplayModesRequest { capacity })
    } else if request == GUD_REQ_GET_CONNECTOR_EDID {
        let r = vec![0u8];
        assert(r@ =~= seq![0u8]);
        DeviceToHostAction::Reply(r)
    } else if request == GUD_REQ_GET_CONNECTOR_STATUS {
        let r = vec![GUD_CONNECTOR_STATUS_CONNECTED];
        assert(r@ =~= seq![GUD_CONNECTOR_STATUS_CONNECTED]);
        DeviceToHostAction::Reply(r)
    } else {
        DeviceToHostAction::Ignore
    }
}

/// Classifies a host-to-device request whose payload has been drained:
/// decodes the buffer-update header (rejecting a short payload),
/// accepts the state and enable requests with no effect, and reports
/// unknown codes.
pub fn handle_host_to_device(request: u8, payload: &Vec<u8>) -> (r: Result<
    HostToDeviceAction,
    ProtocolError,
>)
    ensures
        r is Err <==> request == GUD_REQ_SET_BUFFER && payload@.len() < 25,
        r is Err ==> r == Err::<HostToDeviceAction, ProtocolError>(ProtocolError::Truncated),
        request == GUD_REQ_SET_BUFFER && payload@.len() >= 25 ==> r == Ok::<
            HostToDeviceAction,
            ProtocolError,
        >(HostToDeviceAction::Buffer(set_buffer_of_bytes(payload@))),
        (request == GUD_REQ_SET_CONNECTOR_FORCE_DETECT || request == GUD_REQ_SET_STATE_CHECK
            || request == GUD_REQ_SET_STATE_COMMIT || request == GUD_REQ_SET_CONTROLLER_ENABLE
            || request == GUD_REQ_SET_DISPLAY_ENABLE) ==> r == Ok::<
            HostToDeviceAction,
            ProtocolError,
        >(HostToDeviceAction::Handled),
        !(request == GUD_REQ_SET_BUFFER || request == GUD_REQ_SET_CONNECTOR_FORCE_DETECT || request
            == GUD_REQ_SET_STATE_CHECK || request == GUD_REQ_SET_STATE_COMMIT || request
            == GUD_REQ_SET_CONTROLLER_ENABLE || request == GUD_REQ_SET_DISPLAY_ENABLE) ==> r == Ok::<
            HostToDeviceAction,
            ProtocolError,
        >(HostToDeviceAction::Unknown),
{
    if request == GUD_REQ_SET_BUFFER {
        match SetBuffer::decode(payload) {
            Ok(header) => Ok(HostToDeviceAction::Buffer(header)),
            Err(e) => Err(e),
        }
    } else if request == GUD_REQ_SET_CONNECTOR_FORCE_DETECT || request == GUD_REQ_SET_STATE_CHECK
        || request == GUD_REQ_SET_STATE_COMMIT || request == GUD_REQ_SET_CONTROLLER_ENABLE
        || request == GUD_REQ_SET_DISPLAY_ENABLE {
        Ok(HostToDeviceAction::Handled)
    } else {
        Ok(HostToDeviceAction::Unknown)
    }
}

/// The descriptor this device advertises for the given limits: the
/// protocol magic and version, the configured compression bitmask, and
/// a buffer budget of four bytes per pixel of the largest mode.
pub open spec fn descriptor_for(
    cfg: GadgetConfig,
    min_width: u32,
    min_height: u32,
    max_width: u32,
    max_height: u32,
) -> DisplayDescriptor {
    DisplayDescriptor {
        magic: GUD_DISPLAY_MAGIC,
        version: GUD_PROTOCOL_VERSION,
        flags: 0,
        compression: cfg.spec_compression_mask(),
        max_buffer_size: (max_width as int * max_height as int * 4) as u32,
        min_width,
        max_width,
        min_height,
        max_height,
    }
}

impl GetDescriptorRequest {
    /// Answers the descriptor query: encodes the 30-byte descriptor for
    /// the supplied device limits.  The caller sends the bytes on the
    /// control endpoint.
    pub fn send_descriptor(
        self,
        cfg: GadgetConfig,
        min_width: u32,
        min_height: u32,
        max_width: u32,
        max_height: u32,
    ) -> (r: Vec<u8>)
        requires
            max_width as int * max_height as int * 4 <= u32::MAX,
        ensures
            r@ == descriptor_to_bytes(
                descriptor_for(cfg, min_width, min_height, max_width, max_height),
            ),
            r@.len() == 30,
    {
        proof {
            assert(0 <= max_width as int * (max_height as int)) by (nonlinear_arith);
        }
        let descriptor = DisplayDescriptor {
            magic: GUD_DISPLAY_MAGIC,
            version: GUD_PROTOCOL_VERSION,
            flags: 0,
            compression: cfg.compression_mask(),
            max_buffer_size: max_width * max_height * 4,
            min_width,
            max_width,
            min_height,
            max_height,
        };
        descriptor.encode()
    }
}

impl GetDisplayModesRequest {
    /// Answers the mode-list query: encodes the modes at 24 bytes each,
    /// after checking that the encoding fits the transfer's response
    /// budget.  Exceeding the budget is reported, never truncated.
    pub fn send_modes(self, modes: &Vec<DisplayMode>) -> (r: Result<Vec<u8>, ProtocolError>)
        ensures
            r is Ok <==> 24 * modes@.len() <= self.capacity,
            r matches Ok(b) ==> b@ == modes_to_bytes(modes@) && b@.len() == 24 * modes@.len(),
            r is Err ==> r == Err::<Vec<u8>, ProtocolError>(ProtocolError::ResponseTooLong),
    {
        if modes.len() > self.capacity / 24 {
            return Err(ProtocolError::ResponseTooLong);
        }
        Ok(encode_modes(modes))
    }
}

} // verus!
