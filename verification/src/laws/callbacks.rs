//! Callbacks, byte by byte.

use vstd::prelude::*;

use crate::ezsp::callback::{Callback, CallbackModel};
use crate::ezsp::codec::Extent;
use crate::ezsp::error::EzspError;
use crate::ezsp::frame::FrameId;
use crate::ezsp::version::ProtocolVersion;
use crate::laws::bytes::{address, cut_inside, numbers_are_read_little_endian, word};
use crate::laws::commands::tag_len;
use crate::laws::values::{
    aps_headers_hold_their_fields, is_aps_header, status_len, status_number,
    statuses_are_their_numbers,
};
use crate::types::aps::ApsFrame;

verus! {

/// A join report is five fields in fourteen bytes: the device's short address,
/// its permanent address, what happened, what was decided, and the parent. Put
/// together from these in that order, with anything behind, it reads as these.
pub proof fn join_reports_are_laid_out(
    node: Seq<u8>,
    eui64: Seq<u8>,
    update: u8,
    decision: u8,
    parent: Seq<u8>,
    behind: Seq<u8>,
    version: ProtocolVersion,
)
    requires
        node.len() == 2,
        eui64.len() == 8,
        parent.len() == 2,
    ensures
        ({
            let bytes = node + eui64 + seq![update, decision] + parent + behind;
            let read = Callback::at_start_of(FrameId(0x0024), bytes, version);
            &&& Callback::layout(FrameId(0x0024), bytes, version) == Extent::Whole(14)
            &&& read matches CallbackModel::TrustCenterJoin {
                node_id,
                eui64: permanent,
                device_update,
                decision: decided,
                parent_node_id,
            } && {
                &&& node_id.0 == word(node, 0)
                &&& permanent.0 == address(eui64, 0)
                &&& device_update == update
                &&& decided == decision
                &&& parent_node_id.0 == word(parent, 0)
            }
        }),
        ({
            let n = behind.len();
            let layout = Callback::layout(FrameId(0x0024), behind, version);
            &&& cut_inside(layout, n, 0, 2)
            &&& cut_inside(layout, n, 2, 8)
            &&& cut_inside(layout, n, 10, 1)
            &&& cut_inside(layout, n, 11, 1)
            &&& cut_inside(layout, n, 12, 2)
        }),
{
    let bytes = node + eui64 + seq![update, decision] + parent + behind;
    numbers_are_read_little_endian(bytes, 2);
    assert(address(bytes, 2) == address(eui64, 0));
    assert(bytes[10] == update && bytes[11] == decision);
    assert(word(bytes, 0) == word(node, 0));
    assert(word(bytes, 12) == word(parent, 0));
}

/// A stack status is a status at the width of the version.
pub proof fn stack_statuses_are_laid_out(bytes: Seq<u8>, version: ProtocolVersion)
    ensures
        ({
            let n = bytes.len();
            let layout = Callback::layout(FrameId(0x0019), bytes, version);
            &&& n >= status_len(version) ==> layout == Extent::Whole(status_len(version))
            &&& cut_inside(layout, n, 0, status_len(version))
            &&& Callback::at_start_of(FrameId(0x0019), bytes, version)
                matches CallbackModel::StackStatus { status } && status.0 == status_number(
                bytes,
                0,
                version,
            )
        }),
{
    statuses_are_their_numbers(bytes, 0, version);
}

/// What the end of a layout says of a length at `at` and the bytes behind it.
pub open spec fn ends_in_payload(layout: Extent, bytes: Seq<u8>, at: nat) -> bool {
    let n = bytes.len();
    let length = bytes[at as int] as nat;
    &&& cut_inside(layout, n, at, 1)
    &&& at + 1 <= n < at + 1 + length ==> layout == (Extent::Fails {
        consumed: at,
        error: EzspError::TruncatedFrame {
            needed: length as usize,
            available: (n - at - 1) as usize,
        },
    })
    &&& n > at && n >= at + 1 + length ==> layout == Extent::Whole(at + 1 + length)
}

/// Whether a payload is the bytes that the length at `at` counts, in order.
pub open spec fn is_payload_at(payload: Seq<u8>, bytes: Seq<u8>, at: int) -> bool {
    &&& payload.len() == bytes[at]
    &&& forall|i: int| 0 <= i < payload.len() ==> #[trigger] payload[i] == bytes[at + 1 + i]
}

/// An incoming message is its type, the APS header, the link quality, the
/// signed signal strength, the sender, two table indices, and the payload
/// behind its length; what follows the payload is no part of it.
pub proof fn incoming_messages_are_laid_out(bytes: Seq<u8>, version: ProtocolVersion)
    ensures
        ({
            let n = bytes.len();
            let layout = Callback::layout(FrameId(0x0045), bytes, version);
            &&& cut_inside(layout, n, 0, 1)
            &&& cut_inside(layout, n, 1, 2)
            &&& cut_inside(layout, n, 3, 2)
            &&& cut_inside(layout, n, 5, 1)
            &&& cut_inside(layout, n, 6, 1)
            &&& cut_inside(layout, n, 7, 2)
            &&& cut_inside(layout, n, 9, 2)
            &&& cut_inside(layout, n, 11, 1)
            &&& cut_inside(layout, n, 12, 1)
            &&& cut_inside(layout, n, 13, 1)
            &&& cut_inside(layout, n, 14, 2)
            &&& cut_inside(layout, n, 16, 1)
            &&& cut_inside(layout, n, 17, 1)
            &&& ends_in_payload(layout, bytes, 18)
            &&& layout is Whole ==> {
                &&& Callback::at_start_of(FrameId(0x0045), bytes, version)
                    matches CallbackModel::IncomingMessage {
                    message_type,
                    aps_frame,
                    last_hop_lqi,
                    last_hop_rssi,
                    sender,
                    binding_index,
                    address_index,
                    payload,
                } && {
                    &&& message_type == bytes[0]
                    &&& is_aps_header(bytes.subrange(1, 12), aps_frame)
                    &&& last_hop_lqi == bytes[12]
                    &&& last_hop_rssi == if bytes[13] < 128 {
                        bytes[13] as int
                    } else {
                        bytes[13] - 256
                    }
                    &&& sender.0 == word(bytes, 14)
                    &&& binding_index == bytes[16]
                    &&& address_index == bytes[17]
                    &&& is_payload_at(payload, bytes, 18)
                }
            }
        }),
{
    if bytes.len() >= 1 {
        let behind = bytes.skip(1);
        aps_headers_hold_their_fields(
            ApsFrame::at_start_of(behind),
            behind,
            version,
        );
        if bytes.len() >= 12 {
            let header = bytes.subrange(1, 12);
            assert forall|i: int| 0 <= i < 11 implies header[i] == behind[i] by {}
        }
    }
}

/// A delivery report is the message's type, its destination, the APS header,
/// the tag and the status, each at the width of the version, and the payload
/// behind its length.
pub proof fn delivery_reports_are_laid_out(bytes: Seq<u8>, version: ProtocolVersion)
    ensures
        ({
            let n = bytes.len();
            let layout = Callback::layout(FrameId(0x003f), bytes, version);
            let tag = tag_len(version) as nat;
            let width = status_len(version);
            let at = 14 + tag + width;
            &&& cut_inside(layout, n, 0, 1)
            &&& cut_inside(layout, n, 1, 2)
            &&& cut_inside(layout, n, 3, 2)
            &&& cut_inside(layout, n, 5, 2)
            &&& cut_inside(layout, n, 7, 1)
            &&& cut_inside(layout, n, 8, 1)
            &&& cut_inside(layout, n, 9, 2)
            &&& cut_inside(layout, n, 11, 2)
            &&& cut_inside(layout, n, 13, 1)
            &&& cut_inside(layout, n, 14, tag)
            &&& cut_inside(layout, n, 14 + tag, width)
            &&& ends_in_payload(layout, bytes, at)
            &&& layout is Whole ==> {
                &&& Callback::at_start_of(FrameId(0x003f), bytes, version)
                    matches CallbackModel::MessageSent {
                    message_type,
                    index_or_destination,
                    aps_frame,
                    message_tag,
                    status,
                    payload,
                } && {
                    &&& message_type == bytes[0]
                    &&& index_or_destination == word(bytes, 1)
                    &&& is_aps_header(bytes.subrange(3, 14), aps_frame)
                    &&& message_tag == if version.0 >= 14 {
                        word(bytes, 14)
                    } else {
                        bytes[14] as int
                    }
                    &&& status.0 == status_number(bytes, 14 + tag as int, version)
                    &&& is_payload_at(payload, bytes, at as int)
                }
            }
        }),
{
    statuses_are_their_numbers(bytes, 14 + tag_len(version), version);
    if bytes.len() >= 3 {
        let behind = bytes.skip(3);
        aps_headers_hold_their_fields(
            ApsFrame::at_start_of(behind),
            behind,
            version,
        );
        if bytes.len() >= 14 {
            let header = bytes.subrange(3, 14);
            assert forall|i: int| 0 <= i < 11 implies header[i] == behind[i] by {}
        }
    }
}

/// Four callbacks are understood, by their numbers; any other is carried with
/// its id and its bytes.
pub proof fn other_callbacks_are_carried(
    frame_id: FrameId,
    bytes: Seq<u8>,
    version: ProtocolVersion,
)
    ensures
        frame_id.0 != 0x0019 && frame_id.0 != 0x0024 && frame_id.0 != 0x003f && frame_id.0
            != 0x0045 ==> {
            &&& Callback::layout(frame_id, bytes, version) is Whole
            &&& Callback::at_start_of(frame_id, bytes, version) == (CallbackModel::Unknown {
                frame_id,
                parameters: bytes,
            })
        },
        Callback::at_start_of(frame_id, bytes, version).id() == frame_id,
        Callback::understood(frame_id) <==> frame_id.0 == 0x0019 || frame_id.0 == 0x0024
            || frame_id.0 == 0x003f || frame_id.0 == 0x0045,
{
}

/// The model of a callback keeps every field in its place.
pub proof fn callbacks_are_modelled_field_by_field(callback: Callback)
    ensures
        match callback {
            Callback::StackStatus { status } => callback@ == (CallbackModel::StackStatus {
                status,
            }),
            Callback::TrustCenterJoin {
                node_id,
                eui64,
                device_update,
                decision,
                parent_node_id,
            } => callback@ == (CallbackModel::TrustCenterJoin {
                node_id,
                eui64,
                device_update,
                decision,
                parent_node_id,
            }),
            Callback::IncomingMessage {
                message_type,
                aps_frame,
                last_hop_lqi,
                last_hop_rssi,
                sender,
                binding_index,
                address_index,
                payload,
            } => callback@ == (CallbackModel::IncomingMessage {
                message_type,
                aps_frame,
                last_hop_lqi,
                last_hop_rssi,
                sender,
                binding_index,
                address_index,
                payload: payload@,
            }),
            Callback::MessageSent {
                message_type,
                index_or_destination,
                aps_frame,
                message_tag,
                status,
                payload,
            } => callback@ == (CallbackModel::MessageSent {
                message_type,
                index_or_destination,
                aps_frame,
                message_tag,
                status,
                payload: payload@,
            }),
            Callback::Unknown { frame_id, parameters } => callback@ == (CallbackModel::Unknown {
                frame_id,
                parameters: parameters@,
            }),
        },
        match callback@ {
            CallbackModel::StackStatus { .. } => callback@.id().0 == 0x0019,
            CallbackModel::TrustCenterJoin { .. } => callback@.id().0 == 0x0024,
            CallbackModel::MessageSent { .. } => callback@.id().0 == 0x003f,
            CallbackModel::IncomingMessage { .. } => callback@.id().0 == 0x0045,
            CallbackModel::Unknown { frame_id, .. } => callback@.id() == frame_id,
        },
{
}

} // verus!
