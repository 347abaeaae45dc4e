//! Asynchronous callbacks from the NCP.
//!
//! Only the callbacks this project has actually observed on hardware are
//! decoded. The rest are carried through as [`Callback::Unknown`] with their
//! bytes intact, which is deliberate: a callback nobody has captured cannot be
//! decoded reliably from a datasheet alone, and guessing its layout produces a
//! typed value that is confidently wrong.
//!
//! Every variant below records whether it has been seen on a device. The field
//! order is confirmed on EZSP 13; above 14 only the widths of the tag and the
//! status change.

use vstd::prelude::*;
use vstd::slice::slice_to_vec;

use crate::ezsp::codec::{
    field, le16, prefixed_at, prefixed_field, skips_add, skips_nothing, Extent, EzspDecode,
    EzspEncode, Reader,
};
use crate::ezsp::command::tag_bytes;
use crate::ezsp::error::EzspError;
use crate::ezsp::frame::FrameId;
use crate::ezsp::version::ProtocolVersion;
use crate::types::aps::ApsFrame;
use crate::types::network::{byte_to_signed, from_signed_byte, le64, Eui64, NodeId};
use crate::types::status::SlStatus;

verus! {

/// A decoded callback.
#[derive(Debug, Clone, PartialEq, Eq)]
#[non_exhaustive]
pub enum Callback {
    /// The stack's status changed. Frame id `0x0019`.
    ///
    /// `0x90` is network-up and `0x9c` is network-opened; both were observed
    /// during a real join.
    ///
    /// Hardware: confirmed (EZSP 13).
    StackStatus {
        /// The new status.
        status: SlStatus,
    },
    /// A device joined, rejoined or left. Frame id `0x0024`.
    ///
    /// The one callback that reports a join, and the reason a coordinator
    /// notices a device at all. Note that a *departure* arrives through this
    /// same callback, distinguished only by `device_update`: treating every
    /// one as an arrival resurrects devices that just left.
    ///
    /// Hardware: confirmed (EZSP 13) — a valve joining produced
    /// `device_update = 0` (standard security, unsecured join).
    TrustCenterJoin {
        /// The joining device's short address.
        node_id: NodeId,
        /// Its permanent address.
        eui64: Eui64,
        /// What happened: arrival, rejoin, or departure.
        device_update: u8,
        /// What the trust centre decided.
        decision: u8,
        /// The parent it joined through.
        parent_node_id: NodeId,
    },
    /// An application frame arrived. Frame id `0x0045`.
    ///
    /// The radio's view of the last hop and the sender stand between the APS
    /// header and the payload; some firmware appends a byte of its own behind
    /// the payload, which is no part of it.
    ///
    /// Hardware: confirmed (EZSP 13).
    IncomingMessage {
        /// Unicast, broadcast or multicast.
        message_type: u8,
        /// The APS header.
        aps_frame: ApsFrame,
        /// Link quality of the last hop.
        last_hop_lqi: u8,
        /// Signal strength of the last hop, in dBm.
        last_hop_rssi: i8,
        /// The short address of the sender.
        sender: NodeId,
        /// The binding table entry that matches the message, or `0xff`.
        binding_index: u8,
        /// The address table entry that matches the sender, or `0xff`.
        address_index: u8,
        /// The application payload.
        payload: Vec<u8>,
    },
    /// A sent message was delivered, or was not. Frame id `0x003f`.
    ///
    /// Hardware: confirmed (EZSP 13) — including `status = 102`
    /// (delivery failed) for a frame sent to a sleepy device that was not
    /// polling.
    MessageSent {
        /// How the message was addressed.
        message_type: u8,
        /// The destination, or an index into a table depending on the type.
        index_or_destination: u16,
        /// The APS header it was sent with.
        aps_frame: ApsFrame,
        /// The tag the send command carried.
        message_tag: u16,
        /// Whether it was delivered.
        status: SlStatus,
        /// The message itself, where the policy asks for it to be echoed.
        payload: Vec<u8>,
    },
    /// A callback this build does not decode.
    ///
    /// Carried rather than dropped so an unfamiliar firmware can be captured
    /// and reported. The bytes are exactly what arrived.
    Unknown {
        /// Which callback.
        frame_id: FrameId,
        /// Its undecoded parameters.
        parameters: Vec<u8>,
    },
}

/// A callback as a mathematical value: its payload is a sequence of bytes.
#[allow(inconsistent_fields)]
pub enum CallbackModel {
    /// The stack's status changed.
    StackStatus { status: SlStatus },
    /// A device joined, rejoined or left.
    TrustCenterJoin {
        node_id: NodeId,
        eui64: Eui64,
        device_update: u8,
        decision: u8,
        parent_node_id: NodeId,
    },
    /// An application frame arrived.
    IncomingMessage {
        message_type: u8,
        aps_frame: ApsFrame,
        last_hop_lqi: u8,
        last_hop_rssi: i8,
        sender: NodeId,
        binding_index: u8,
        address_index: u8,
        payload: Seq<u8>,
    },
    /// A sent message was delivered, or was not.
    MessageSent {
        message_type: u8,
        index_or_destination: u16,
        aps_frame: ApsFrame,
        message_tag: u16,
        status: SlStatus,
        payload: Seq<u8>,
    },
    /// A callback this build does not decode.
    Unknown { frame_id: FrameId, parameters: Seq<u8> },
}

impl CallbackModel {
    /// Which callback this is.
    pub open spec fn id(self) -> FrameId {
        match self {
            CallbackModel::StackStatus { .. } => FrameId(FrameId::STACK_STATUS_HANDLER),
            CallbackModel::TrustCenterJoin { .. } => FrameId(FrameId::TRUST_CENTER_JOIN_HANDLER),
            CallbackModel::IncomingMessage { .. } => FrameId(FrameId::INCOMING_MESSAGE_HANDLER),
            CallbackModel::MessageSent { .. } => FrameId(FrameId::MESSAGE_SENT_HANDLER),
            CallbackModel::Unknown { frame_id, .. } => frame_id,
        }
    }
}

impl View for Callback {
    type V = CallbackModel;

    open spec fn view(&self) -> CallbackModel {
        match *self {
            Callback::StackStatus { status } => CallbackModel::StackStatus { status },
            Callback::TrustCenterJoin {
                node_id,
                eui64,
                device_update,
                decision,
                parent_node_id,
            } => CallbackModel::TrustCenterJoin {
                node_id,
                eui64,
                device_update,
                decision,
                parent_node_id,
            },
            Callback::IncomingMessage {
                message_type,
                aps_frame,
                last_hop_lqi,
                last_hop_rssi,
                sender,
                binding_index,
                address_index,
                payload,
            } => CallbackModel::IncomingMessage {
                message_type,
                aps_frame,
                last_hop_lqi,
                last_hop_rssi,
                sender,
                binding_index,
                address_index,
                payload: payload@,
            },
            Callback::MessageSent {
                message_type,
                index_or_destination,
                aps_frame,
                message_tag,
                status,
                payload,
            } => CallbackModel::MessageSent {
                message_type,
                index_or_destination,
                aps_frame,
                message_tag,
                status,
                payload: payload@,
            },
            Callback::Unknown { frame_id, parameters } => CallbackModel::Unknown {
                frame_id,
                parameters: parameters@,
            },
        }
    }
}

/// The message tag at offset `at`, at the width of the version.
pub open spec fn tag_at(bytes: Seq<u8>, at: int, version: ProtocolVersion) -> u16 {
    if version.wide() {
        le16(bytes, at)
    } else {
        bytes[at] as u16
    }
}

/// Where a delivery report's payload length stands.
pub open spec fn report_payload_offset(version: ProtocolVersion) -> nat {
    14 + version.tag_width() + version.status_width()
}

impl Callback {
    /// The ids of the callbacks that this build decodes.
    pub open spec fn understood(frame_id: FrameId) -> bool {
        frame_id.0 == FrameId::STACK_STATUS_HANDLER || frame_id.0
            == FrameId::TRUST_CENTER_JOIN_HANDLER || frame_id.0
            == FrameId::MESSAGE_SENT_HANDLER || frame_id.0 == FrameId::INCOMING_MESSAGE_HANDLER
    }

    /// How far the layout of a callback goes in its parameters.
    ///
    /// ```text
    /// stackStatus      status
    /// trustCenterJoin  node id 2 | eui64 8 | update 1 | decision 1 | parent 2
    /// messageSent      type 1 | destination 2 | APS 11 | tag | status | length, message
    /// incomingMessage  type 1 | APS 11 | lqi 1 | rssi 1 | sender 2 | binding 1 | address 1
    ///                  | length, message
    /// ```
    pub open spec fn layout(
        frame_id: FrameId,
        bytes: Seq<u8>,
        version: ProtocolVersion,
    ) -> Extent {
        let n = bytes.len();
        if frame_id.0 == FrameId::STACK_STATUS_HANDLER {
            SlStatus::extent(bytes, version)
        } else if frame_id.0 == FrameId::TRUST_CENTER_JOIN_HANDLER {
            field(n, 0, 2, field(n, 2, 8, field(n, 10, 1, field(n, 11, 1, field(
                n,
                12,
                2,
                Extent::Whole(14),
            )))))
        } else if frame_id.0 == FrameId::MESSAGE_SENT_HANDLER {
            let tag = version.tag_width();
            let status = version.status_width();
            let header = ApsFrame::extent(bytes.skip(3), version).shifted(3);
            field(n, 0, 1, field(n, 1, 2, header)).and_then(
                field(
                    n,
                    14,
                    tag,
                    field(
                        n,
                        14 + tag,
                        status,
                        prefixed_field(bytes, report_payload_offset(version)),
                    ),
                ),
            )
        } else if frame_id.0 == FrameId::INCOMING_MESSAGE_HANDLER {
            field(n, 0, 1, ApsFrame::extent(bytes.skip(1), version).shifted(1)).and_then(
                field(n, 12, 1, field(n, 13, 1, field(n, 14, 2, field(n, 16, 1, field(
                    n,
                    17,
                    1,
                    prefixed_field(bytes, 18),
                ))))),
            )
        } else {
            Extent::Whole(n)
        }
    }

    /// What the parameters of a callback say, field by field.
    pub open spec fn at_start_of(
        frame_id: FrameId,
        bytes: Seq<u8>,
        version: ProtocolVersion,
    ) -> CallbackModel {
        if frame_id.0 == FrameId::STACK_STATUS_HANDLER {
            CallbackModel::StackStatus { status: SlStatus::at(bytes, 0, version) }
        } else if frame_id.0 == FrameId::TRUST_CENTER_JOIN_HANDLER {
            CallbackModel::TrustCenterJoin {
                node_id: NodeId(le16(bytes, 0)),
                eui64: Eui64(le64(bytes, 2)),
                device_update: bytes[10],
                decision: bytes[11],
                parent_node_id: NodeId(le16(bytes, 12)),
            }
        } else if frame_id.0 == FrameId::MESSAGE_SENT_HANDLER {
            CallbackModel::MessageSent {
                message_type: bytes[0],
                index_or_destination: le16(bytes, 1),
                aps_frame: ApsFrame::at_start_of(bytes.skip(3)),
                message_tag: tag_at(bytes, 14, version),
                status: SlStatus::at(bytes, 14 + version.tag_width() as int, version),
                payload: prefixed_at(bytes, report_payload_offset(version) as int),
            }
        } else if frame_id.0 == FrameId::INCOMING_MESSAGE_HANDLER {
            CallbackModel::IncomingMessage {
                message_type: bytes[0],
                aps_frame: ApsFrame::at_start_of(bytes.skip(1)),
                last_hop_lqi: bytes[12],
                last_hop_rssi: byte_to_signed(bytes[13]),
                sender: NodeId(le16(bytes, 14)),
                binding_index: bytes[16],
                address_index: bytes[17],
                payload: prefixed_at(bytes, 18),
            }
        } else {
            CallbackModel::Unknown { frame_id, parameters: bytes }
        }
    }

    /// Decodes a callback from its frame id and parameters.
    ///
    /// Never fails on an unrecognised id: that is an `Unknown`, not an error.
    /// It *does* fail when a callback this build claims to understand does not
    /// match its expected layout, because that means the layout is wrong for
    /// this firmware and silently accepting it would produce a typed value
    /// built from the wrong bytes.
    ///
    /// # Errors
    ///
    /// [`EzspError::TruncatedFrame`] where a field of the layout is not there.
    pub fn decode(
        frame_id: FrameId,
        parameters: &[u8],
        version: ProtocolVersion,
    ) -> (res: Result<Callback, EzspError>)
        ensures
            match res {
                Ok(callback) => {
                    &&& Callback::layout(frame_id, parameters@, version) is Whole
                    &&& callback@ == Callback::at_start_of(frame_id, parameters@, version)
                },
                Err(error) => Callback::layout(frame_id, parameters@, version).failure() == Some(
                    error,
                ),
            },
    {
        if frame_id.0 == FrameId::STACK_STATUS_HANDLER {
            let mut input = Reader::new(parameters, version);
            Ok(Callback::StackStatus { status: SlStatus::decode(&mut input)? })
        } else if frame_id.0 == FrameId::TRUST_CENTER_JOIN_HANDLER {
            decode_trust_center_join(parameters, version)
        } else if frame_id.0 == FrameId::MESSAGE_SENT_HANDLER {
            decode_message_sent(parameters, version)
        } else if frame_id.0 == FrameId::INCOMING_MESSAGE_HANDLER {
            decode_incoming_message(parameters, version)
        } else {
            Ok(Callback::Unknown { frame_id, parameters: slice_to_vec(parameters) })
        }
    }

    /// Which callback this is.
    pub fn frame_id(&self) -> (res: FrameId)
        ensures
            res == self@.id(),
    {
        match self {
            Callback::StackStatus { .. } => FrameId(FrameId::STACK_STATUS_HANDLER),
            Callback::TrustCenterJoin { .. } => FrameId(FrameId::TRUST_CENTER_JOIN_HANDLER),
            Callback::IncomingMessage { .. } => FrameId(FrameId::INCOMING_MESSAGE_HANDLER),
            Callback::MessageSent { .. } => FrameId(FrameId::MESSAGE_SENT_HANDLER),
            Callback::Unknown { frame_id, .. } => *frame_id,
        }
    }
}

/// Decodes the parameters of `trustCenterJoinHandler`.
fn decode_trust_center_join(parameters: &[u8], version: ProtocolVersion) -> (res: Result<
    Callback,
    EzspError,
>)
    ensures
        ({
            let frame_id = FrameId(FrameId::TRUST_CENTER_JOIN_HANDLER);
            let layout = Callback::layout(frame_id, parameters@, version);
            match res {
                Ok(callback) => layout is Whole && callback@ == Callback::at_start_of(
                    frame_id,
                    parameters@,
                    version,
                ),
                Err(error) => layout.failure() == Some(error),
            }
        }),
{
    broadcast use {skips_add, skips_nothing};

    let mut input = Reader::new(parameters, version);
    Ok(
        Callback::TrustCenterJoin {
            node_id: NodeId::decode(&mut input)?,
            eui64: Eui64::decode(&mut input)?,
            device_update: input.u8()?,
            decision: input.u8()?,
            parent_node_id: NodeId::decode(&mut input)?,
        },
    )
}

/// Reads a message tag at the width the version uses.
///
/// It follows the same boundary as the send command that set it: one byte
/// below EZSP 14, two at or above.
fn read_tag(input: &mut Reader<'_>) -> (res: Result<u16, EzspError>)
    ensures
        final(input).target() == old(input).target(),
        ({
            let width = old(input).target().tag_width();
            field(old(input).rest().len(), 0, width, Extent::Whole(width)).describes(
                *old(input),
                *final(input),
                res,
            )
        }),
        res matches Ok(tag) ==> tag == tag_at(old(input).rest(), 0, old(input).target()),
{
    if input.version().has_wide_message_tag() {
        input.u16()
    } else {
        match input.u8() {
            Ok(tag) => Ok(tag as u16),
            Err(error) => Err(error),
        }
    }
}

/// Decodes the parameters of `messageSentHandler`.
#[verifier::rlimit(40)]
fn decode_message_sent(parameters: &[u8], version: ProtocolVersion) -> (res: Result<
    Callback,
    EzspError,
>)
    ensures
        ({
            let frame_id = FrameId(FrameId::MESSAGE_SENT_HANDLER);
            let layout = Callback::layout(frame_id, parameters@, version);
            match res {
                Ok(callback) => layout is Whole && callback@ == Callback::at_start_of(
                    frame_id,
                    parameters@,
                    version,
                ),
                Err(error) => layout.failure() == Some(error),
            }
        }),
{
    broadcast use {skips_add, skips_nothing};

    let ghost bytes = parameters@;
    let ghost at = report_payload_offset(version) as int;
    let mut input = Reader::new(parameters, version);
    let message_type: u8 = input.u8()?;
    let index_or_destination: u16 = input.u16()?;
    let aps_frame = ApsFrame::decode(&mut input)?;
    proof {
        assert(input.rest() == bytes.skip(14));
    }
    let message_tag: u16 = read_tag(&mut input)?;
    proof {
        assert(input.rest() == bytes.skip(14 + version.tag_width() as int));
    }
    let status = SlStatus::decode(&mut input)?;
    proof {
        assert(input.rest() == bytes.skip(at));
    }
    let payload: Vec<u8> = slice_to_vec(input.length_prefixed()?);
    proof {
        assert(prefixed_at(bytes.skip(at), 0) =~= prefixed_at(bytes, at));
    }
    Ok(
        Callback::MessageSent {
            message_type,
            index_or_destination,
            aps_frame,
            message_tag,
            status,
            payload,
        },
    )
}

/// Decodes the parameters of `incomingMessageHandler`.
#[verifier::rlimit(40)]
fn decode_incoming_message(parameters: &[u8], version: ProtocolVersion) -> (res: Result<
    Callback,
    EzspError,
>)
    ensures
        ({
            let frame_id = FrameId(FrameId::INCOMING_MESSAGE_HANDLER);
            let layout = Callback::layout(frame_id, parameters@, version);
            match res {
                Ok(callback) => layout is Whole && callback@ == Callback::at_start_of(
                    frame_id,
                    parameters@,
                    version,
                ),
                Err(error) => layout.failure() == Some(error),
            }
        }),
{
    broadcast use {skips_add, skips_nothing};

    let ghost bytes = parameters@;
    let mut input = Reader::new(parameters, version);
    let message_type: u8 = input.u8()?;
    let aps_frame = ApsFrame::decode(&mut input)?;
    proof {
        assert(input.rest() == bytes.skip(12));
    }
    let last_hop_lqi: u8 = input.u8()?;
    let last_hop_rssi: i8 = from_signed_byte(input.u8()?);
    let sender = NodeId::decode(&mut input)?;
    proof {
        assert(input.rest() == bytes.skip(16));
    }
    let binding_index: u8 = input.u8()?;
    let address_index: u8 = input.u8()?;
    proof {
        assert(input.rest() == bytes.skip(18));
    }
    let payload: Vec<u8> = slice_to_vec(input.length_prefixed()?);
    proof {
        assert(prefixed_at(bytes.skip(18), 0) =~= prefixed_at(bytes, 18));
    }
    Ok(
        Callback::IncomingMessage {
            message_type,
            aps_frame,
            last_hop_lqi,
            last_hop_rssi,
            sender,
            binding_index,
            address_index,
            payload,
        },
    )
}

/// A callback keeps the id it was decoded under.
pub proof fn decoded_callbacks_keep_their_id(
    frame_id: FrameId,
    bytes: Seq<u8>,
    version: ProtocolVersion,
)
    ensures
        Callback::at_start_of(frame_id, bytes, version).id() == frame_id,
{
}

/// A callback that this build does not know is never an error and keeps its
/// bytes exactly.
pub proof fn unknown_callbacks_are_carried(
    frame_id: FrameId,
    bytes: Seq<u8>,
    version: ProtocolVersion,
)
    requires
        !Callback::understood(frame_id),
    ensures
        Callback::layout(frame_id, bytes, version) is Whole,
        Callback::at_start_of(frame_id, bytes, version) == (CallbackModel::Unknown {
            frame_id,
            parameters: bytes,
        }),
{
}

/// A known callback cut short anywhere is an error, never a guess: what
/// decodes does not decode with bytes missing from its end.
pub proof fn truncated_callbacks_are_refused(
    frame_id: FrameId,
    bytes: Seq<u8>,
    version: ProtocolVersion,
    kept: int,
)
    requires
        Callback::understood(frame_id),
        Callback::layout(frame_id, bytes, version) is Whole,
        0 <= kept < Callback::layout(frame_id, bytes, version).consumed(),
    ensures
        Callback::layout(frame_id, bytes.take(kept), version) is Fails,
{
    if frame_id.0 == FrameId::MESSAGE_SENT_HANDLER {
        assert(bytes.take(kept).skip(3) =~= bytes.skip(3).take(kept - 3) || kept < 3);
    }
}

/// What a delivery report says of its tag is what the send command put there,
/// as far as the width carries it.
pub proof fn report_tags_echo_send_tags(
    tag: u16,
    version: ProtocolVersion,
    before: Seq<u8>,
    behind: Seq<u8>,
)
    ensures
        tag_at(before + tag_bytes(tag, version) + behind, before.len() as int, version)
            == if version.wide() { tag } else { (tag % 0x100) as u16 },
        tag_bytes(tag, version).len() == version.tag_width(),
{
}

} // verus!
