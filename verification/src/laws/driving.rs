//! The steps that drive a conversation, for whoever takes them.

use vstd::prelude::*;

use crate::ash::codec::{decoded_models, wire, Decoded, DecoderModel};
use crate::ash::error::AshError;
use crate::ash::frame::FrameModel;
use crate::ash::state::ConnectionState;
use crate::ezsp::callback::Callback;
use crate::ezsp::command::{may_offer, Command, Version, VersionResponse};
use crate::ezsp::error::EzspError;
use crate::ezsp::frame::FrameId;
use crate::ezsp::version::ProtocolVersion;
use crate::ncp::{
    agreement_verdict, callback_models, framed_reply, is_decoding, next_version, offer_verdict,
    optional_bytes, resulting_bytes, Ncp, NcpModel, Negotiation, Progress, Received,
};

verus! {

/// A conversation tells its versions, its link and whether callbacks wait.
pub proof fn conversations_tell_their_state(
    ncp: Ncp,
    new: Ncp,
    version: ProtocolVersion,
    number: u16,
    yes: bool,
)
    ensures
        call_ensures(Ncp::new, (), new) ==> new@ == NcpModel::fresh() && new@.wf(),
        call_ensures(Ncp::version, (&ncp,), version) ==> version == ncp@.version,
        call_ensures(Ncp::stack_version, (&ncp,), number) ==> number == ncp@.stack_version,
        call_ensures(Ncp::is_connected, (&ncp,), yes) ==> (yes <==> ncp@.ash.state
            == ConnectionState::Connected),
        call_ensures(Ncp::has_callbacks, (&ncp,), yes) ==> (yes <==> ncp@.callbacks.len() > 0),
        call_ensures(Ncp::hides_inbound, (&ncp,), yes) ==> (yes <==> ncp@.hides()),
{
}

/// Callbacks and the answer are handed out whole and once, and taking them
/// changes nothing else.
pub proof fn results_are_taken_once(
    ncp: &mut Ncp,
    callbacks: Vec<Callback>,
    answer: Option<Vec<u8>>,
    progress: Progress,
)
    ensures
        ({
            let before = old(ncp)@;
            let after = final(ncp)@;
            &&& call_ensures(Ncp::take_callbacks, (ncp,), callbacks) ==> {
                &&& callback_models(callbacks@) == before.callbacks
                &&& after.callbacks.len() == 0
                &&& after == (NcpModel { callbacks: after.callbacks, ..before })
            }
            &&& call_ensures(Ncp::take_response, (ncp,), answer) ==> {
                &&& optional_bytes(answer) == before.response
                &&& after == (NcpModel { response: None, ..before })
            }
            &&& call_ensures(Ncp::progress, (ncp,), progress) ==> {
                &&& after == (NcpModel { response: None, ..before })
                &&& match before.response {
                    Some(parameters) => progress matches Progress::Answered(given) && given@
                        == parameters,
                    None => if !(before.ash.state == ConnectionState::Connected)
                        || before.reset_seen {
                        progress is Lost
                    } else {
                        progress is Waiting
                    },
                }
            }
        }),
{
}

/// A reset is asked for up to five times, each from an empty decoder; then, or
/// where the link has none left, it has failed.
pub proof fn resets_are_asked_for(ncp: &mut Ncp, attempt: u8, res: Result<Vec<u8>, EzspError>)
    requires
        old(ncp)@.wf(),
        call_ensures(Ncp::next_reset, (ncp, attempt), res),
    ensures
        ({
            let before = old(ncp)@;
            let after = final(ncp)@;
            let spent = match before.ash.state {
                ConnectionState::Resetting { attempts } => attempts >= 5,
                _ => false,
            };
            &&& after.wf()
            &&& after == if attempt >= 5 {
                before
            } else {
                NcpModel {
                    ash: before.ash.after_reset(),
                    decoder: DecoderModel::clean(),
                    ..before
                }
            }
            &&& if attempt >= 5 || spent {
                res == Err::<Vec<u8>, EzspError>(EzspError::Ash(AshError::ResetFailed))
            } else {
                res matches Ok(bytes) && bytes@ == wire(FrameModel::Rst)
            }
        }),
{
}

/// A reset has succeeded where its wait did not fail and the link is connected;
/// then nothing is outstanding, numbers start over and the next `version` goes
/// out legacy. Else nothing changes.
pub proof fn resets_are_finished(ncp: &mut Ncp, failed: bool, res: bool)
    requires
        old(ncp)@.wf(),
        call_ensures(Ncp::finish_reset, (ncp, failed), res),
    ensures
        ({
            let before = old(ncp)@;
            let after = final(ncp)@;
            &&& res <==> !failed && before.ash.state == ConnectionState::Connected
            &&& !res ==> after == before
            &&& res ==> {
                &&& after.correlator.pending is None
                &&& after.correlator.next_sequence == 0
                &&& after.correlator.stale_frames == 0
                &&& after.response is None
                &&& after.pending_format is None
                &&& !after.initial_version_sent
                &&& after.ash == before.ash
                &&& after.decoder == before.decoder
                &&& after.version == before.version
                &&& after.stack_version == before.stack_version
                &&& after.callbacks == before.callbacks
                &&& after.reset_seen == before.reset_seen
                &&& after.secrets_due == before.secrets_due
            }
        }),
{
}

/// Issuing a command: refused where its version may lack it, without a change,
/// and else what the conversation makes of its id and parameters.
pub proof fn commands_are_begun<C: Command>(
    ncp: &mut Ncp,
    command: C,
    res: Result<Vec<u8>, EzspError>,
)
    requires
        old(ncp)@.wf(),
        call_ensures(Ncp::begin_command::<C>, (ncp, &command), res),
    ensures
        ({
            let before = old(ncp)@;
            let id = FrameId(C::ID);
            let parameters = command.encoding(before.version);
            let failure = command.encode_failure(before.version);
            &&& final(ncp)@.wf()
            &&& !may_offer::<C>(before.version, true) ==> {
                &&& res == Err::<Vec<u8>, EzspError>(
                    EzspError::UnsupportedCommand { frame_id: id, version: before.version },
                )
                &&& final(ncp)@ == before
            }
            &&& !may_offer::<C>(before.version, false) ==> {
                &&& resulting_bytes(res) == before.issue(id, parameters, failure)
                &&& final(ncp)@ == before.after_issue(id, parameters, failure)
            }
        }),
{
}

/// Reading bytes: the frames they complete come out, and only the decoder has
/// changed.
pub proof fn bytes_are_fed(ncp: &mut Ncp, bytes: &[u8], res: Vec<Decoded>)
    requires
        old(ncp)@.wf(),
        call_ensures(Ncp::feed, (ncp, bytes), res),
    ensures
        final(ncp)@.wf(),
        decoded_models(res@) == old(ncp)@.decoder.yields_all(bytes@),
        final(ncp)@ == (NcpModel {
            decoder: old(ncp)@.decoder.after_all(bytes@),
            ..old(ncp)@
        }),
{
}

/// Handling a link frame: what to write and what it delivered, as the link has
/// it; and filing what was delivered.
pub proof fn frames_are_taken_in(
    ncp: &mut Ncp,
    decoded: Decoded,
    res: Result<Received, EzspError>,
    payload: &[u8],
)
    requires
        old(ncp)@.wf(),
    ensures
        call_ensures(Ncp::on_decoded, (ncp, &decoded), res) ==> {
            &&& final(ncp)@.wf()
            &&& final(ncp)@ == old(ncp)@.after_decoded(decoded@)
            &&& match res {
                Ok(received) => {
                    &&& framed_reply(old(ncp)@.reply(decoded@)) == Ok::<
                        Option<Seq<u8>>,
                        EzspError,
                    >(optional_bytes(received.reply))
                    &&& optional_bytes(received.payload) == old(ncp)@.delivery(decoded@)
                },
                Err(error) => framed_reply(old(ncp)@.reply(decoded@)) == Err::<
                    Option<Seq<u8>>,
                    EzspError,
                >(error),
            }
        },
        call_ensures(Ncp::dispatch, (ncp, payload), ()) ==> {
            &&& final(ncp)@.wf()
            &&& final(ncp)@ == old(ncp)@.dispatched(payload@)
        },
{
}

/// Ending a command: an answer that came is decoded, whatever else happened,
/// and changes nothing; without one the reason is given and the command ends.
pub proof fn commands_are_concluded<C: Command>(
    ncp: &mut Ncp,
    answer: Option<Vec<u8>>,
    outcome: Result<(), EzspError>,
    res: Result<C::Response, EzspError>,
    error: EzspError,
)
    requires
        old(ncp)@.wf(),
    ensures
        call_ensures(Ncp::conclude::<C>, (ncp, answer, outcome), res) ==> match answer {
            Some(parameters) => {
                &&& is_decoding::<C>(parameters@, old(ncp)@.version, res)
                &&& final(ncp)@ == old(ncp)@
            },
            None => {
                &&& res == Err::<C::Response, EzspError>(
                    old(ncp)@.unanswered(FrameId(C::ID), outcome),
                )
                &&& final(ncp)@ == old(ncp)@.after_unanswered(outcome)
            },
        },
        call_ensures(Ncp::give_up, (ncp, FrameId(C::ID), outcome), error) ==> {
            &&& error == old(ncp)@.unanswered(FrameId(C::ID), outcome)
            &&& final(ncp)@ == old(ncp)@.after_unanswered(outcome)
        },
{
}

/// Decoding an answer goes by the version in use.
pub proof fn answers_are_decoded<C: Command>(
    ncp: Ncp,
    parameters: &[u8],
    res: Result<C::Response, EzspError>,
)
    requires
        call_ensures(Ncp::decode_answer::<C>, (&ncp, parameters), res),
    ensures
        is_decoding::<C>(parameters@, ncp@.version, res),
{
}

/// Negotiating: nineteen is offered, answers are judged, and a version is
/// adopted where none is to be sent any more, and only there.
pub proof fn versions_are_agreed(
    ncp: &mut Ncp,
    sent: Version,
    answer: VersionResponse,
    offer: Version,
    offered: Result<Negotiation, EzspError>,
    agreed: Result<VersionResponse, EzspError>,
    res: Result<Option<Version>, EzspError>,
)
    requires
        old(ncp)@.wf(),
    ensures
        call_ensures(Ncp::offer, (), offer) ==> offer.desired.0 == 19,
        call_ensures(Ncp::judge_offer, (sent, answer), offered) ==> offered == offer_verdict(
            sent,
            answer,
        ),
        call_ensures(Ncp::judge_agreement, (sent, answer), agreed) ==> agreed
            == agreement_verdict(sent, answer),
        call_ensures(Ncp::settle, (ncp, answer), ()) ==> final(ncp)@ == old(ncp)@.settled(answer),
        call_ensures(Ncp::negotiate, (ncp, sent, answer), res) ==> {
            &&& res == next_version(sent, answer)
            &&& final(ncp)@ == if res == Ok::<Option<Version>, EzspError>(None) {
                old(ncp)@.settled(answer)
            } else {
                old(ncp)@
            }
        },
{
}

} // verus!
