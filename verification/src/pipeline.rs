//! The per-request pipeline: a received SMS is decoded, composed into an
//! email, handed out for one delivery attempt, and answered.
//!
//! The pipeline is a state machine. It decides and computes; the one piece of
//! outside work, the delivery, is done by its caller, who hands the outcome
//! back to `Pipeline::step`.

use crate::address::{parse_mailbox, parsed_mailbox, AddressError};
use crate::message::{
    body_text, compose, composable, composition_fault, subject_text, ComposedEmail,
    CompositionError, IncomingSms, TransferEncoding,
};
use crate::recipients::{join_addresses, joined, resolve, resolved, tokens};
use crate::timestamp::{decode_epoch_milliseconds, decoded, TimestampError};
use vstd::prelude::*;

verus! {

/// The status of a reply to a request that was carried out.
pub const STATUS_OK: u16 = 200;

/// The status of a reply to a request that failed.
pub const STATUS_FAILED: u16 = 500;

/// The settings of the gateway, loaded once when the process starts.
#[derive(Clone, Debug, PartialEq, Eq)]
pub struct GatewayConfig {
    /// Path of the private key of the listener.
    pub keyfile: String,
    /// Path of the certificate chain of the listener.
    pub cert: String,
    /// Host name of the SMTP relay.
    pub smtp_server: String,
    /// Port of the SMTP relay.
    pub smtp_port: u16,
    /// The address that the emails are sent from.
    pub sender_email: String,
    /// The addresses that the emails are sent to; each entry may itself be a
    /// delimited list.
    pub destination_emails: Vec<String>,
    /// Port that the listener binds to.
    pub server_port: u16,
}

/// The relay took the message.
#[derive(Clone, Copy, Debug, PartialEq, Eq, Structural)]
pub struct Ack {}

/// The relay did not take the message.
#[derive(Clone, Debug, PartialEq, Eq)]
pub struct DeliveryError {
    /// What the transport reported.
    pub description: String,
}

/// Why a request failed.
#[derive(Clone, Debug, PartialEq, Eq)]
pub enum RequestError {
    Timestamp(TimestampError),
    Address(AddressError),
    Composition(CompositionError),
    Delivery(DeliveryError),
}

impl RequestError {
    /// What went wrong, in words.
    pub open spec fn description(self) -> Seq<char> {
        match self {
            RequestError::Timestamp(e) => e.description(),
            RequestError::Address(e) => e.description(),
            RequestError::Composition(e) => e.description(),
            RequestError::Delivery(e) => e.description@,
        }
    }

    /// What went wrong, in words.
    pub fn describe(&self) -> (text: &str)
        ensures
            text@ == self.description(),
    {
        match self {
            RequestError::Timestamp(e) => e.describe(),
            RequestError::Address(e) => e.describe(),
            RequestError::Composition(e) => e.describe(),
            RequestError::Delivery(e) => e.description.as_str(),
        }
    }
}

/// Where a request stands.
#[derive(Clone, Copy, Debug, PartialEq, Eq, Structural)]
pub enum Stage {
    Received,
    Decoded,
    Composed,
    Sent,
    Failed,
}

/// What the caller of the pipeline has to do next.
#[derive(Clone, Copy, Debug, PartialEq, Eq, Structural)]
pub enum Action {
    /// Call `Pipeline::step` without a delivery outcome.
    Advance,
    /// Make the one delivery attempt for the composed email, and call
    /// `Pipeline::step` with its outcome.
    Deliver,
    /// Answer the request with `Pipeline::reply`; the request is over.
    Respond,
}

/// The answer to a request.
#[derive(Clone, Debug, PartialEq, Eq)]
pub enum Reply {
    /// The email was sent.
    Success { message: String },
    /// The request failed.
    Failure { error: String },
}

impl Reply {
    /// The status that this reply goes out with.
    pub open spec fn spec_status(&self) -> u16 {
        match *self {
            Reply::Success { .. } => STATUS_OK,
            Reply::Failure { .. } => STATUS_FAILED,
        }
    }

    /// The status that this reply goes out with.
    #[verifier::when_used_as_spec(spec_status)]
    pub fn status(&self) -> (status: u16)
        ensures
            status == self.spec_status(),
    {
        match self {
            Reply::Success { .. } => STATUS_OK,
            Reply::Failure { .. } => STATUS_FAILED,
        }
    }
}

/// The acknowledgment that answers a request whose email was sent.
pub open spec fn success_message() -> Seq<char> {
    "Email sent successfully"@
}

/// The message that answers a request that failed for the reason described.
pub open spec fn failure_message(description: Seq<char>) -> Seq<char> {
    "Failed to send email: "@ + description
}

/// The line to log for an email that was sent for an SMS from `origin`.
pub open spec fn success_log(origin: Seq<char>) -> Seq<char> {
    "Email sent successfully for SMS from "@ + origin
}

/// The state of one request.
#[derive(Clone, Debug, PartialEq, Eq)]
pub enum Pipeline {
    /// The request body was parsed.
    Received { sms: IncomingSms },
    /// Both timestamps were decoded.
    Decoded { sms: IncomingSms, sent_text: String, received_text: String },
    /// The email is ready for its one delivery attempt.
    Composed { origin: String, email: ComposedEmail },
    /// The relay took the email.
    Sent { origin: String },
    /// A stage failed.
    Failed { error: RequestError },
}

/// The place of a stage in the order of the pipeline; the two final stages
/// share the last place.
pub open spec fn rank(stage: Stage) -> int {
    match stage {
        Stage::Received => 0,
        Stage::Decoded => 1,
        Stage::Composed => 2,
        Stage::Sent => 3,
        Stage::Failed => 3,
    }
}

/// What a request in the stage `Received` becomes: `Decoded`, with both
/// texts, where both timestamps can be decoded; else `Failed`, with the fault
/// of the sent timestamp before that of the received one.
pub open spec fn after_received(sms: IncomingSms, next: Pipeline) -> bool {
    match decoded(sms.sent_stamp) {
        Err(e) => next == (Pipeline::Failed { error: RequestError::Timestamp(e) }),
        Ok(sent) => match decoded(sms.received_stamp) {
            Err(e) => next == (Pipeline::Failed { error: RequestError::Timestamp(e) }),
            Ok(received) => {
                &&& next matches Pipeline::Decoded { sms: kept, sent_text, received_text }
                &&& kept == sms
                &&& sent_text@ == sent
                &&& received_text@ == received
            },
        },
    }
}

/// What a request in the stage `Decoded` becomes: `Composed`, with the email
/// from the configured sender to the configured recipients, where sender and
/// recipients are addresses and a message can be assembled from them; else
/// `Failed`, with the fault of the sender before that of the recipients, and
/// a fault of parsing before one of assembling.
pub open spec fn after_decoded(
    sms: IncomingSms,
    sent_text: Seq<char>,
    received_text: Seq<char>,
    config: GatewayConfig,
    next: Pipeline,
) -> bool {
    match parsed_mailbox(config.sender_email@) {
        Err(e) => next == (Pipeline::Failed { error: RequestError::Address(e) }),
        Ok(sender) => match resolved(tokens(joined(config.destination_emails.deep_view()))) {
            Err(e) => next == (Pipeline::Failed { error: RequestError::Address(e) }),
            Ok(recipients) => if composable(sender, recipients) {
                &&& next matches Pipeline::Composed { origin, email }
                &&& origin@ == sms.from@
                &&& email@.from == sender
                &&& email@.to == recipients
                &&& email@.subject == subject_text(sms.from@)
                &&& email@.body == body_text(sms.from@, sent_text, received_text, sms.text@)
                &&& email@.encoding == TransferEncoding::EightBit
            } else {
                &&& next matches Pipeline::Failed { error: RequestError::Composition(fault) }
                &&& composition_fault(sender, recipients, fault)
            },
        },
    }
}

/// What a request in the stage `Composed` becomes: itself while no delivery
/// outcome is known, `Sent` when the relay took the email, else `Failed` with
/// the fault of the delivery.
pub open spec fn after_composed(
    origin: String,
    email: ComposedEmail,
    delivery: Option<Result<Ack, DeliveryError>>,
    next: Pipeline,
) -> bool {
    match delivery {
        None => next == (Pipeline::Composed { origin, email }),
        Some(Ok(_)) => next == (Pipeline::Sent { origin }),
        Some(Err(e)) => next == (Pipeline::Failed { error: RequestError::Delivery(e) }),
    }
}

/// The transition relation of the pipeline.
pub open spec fn steps_to(
    current: Pipeline,
    config: GatewayConfig,
    delivery: Option<Result<Ack, DeliveryError>>,
    next: Pipeline,
) -> bool {
    match current {
        Pipeline::Received { sms } => after_received(sms, next),
        Pipeline::Decoded { sms, sent_text, received_text } => after_decoded(
            sms,
            sent_text@,
            received_text@,
            config,
            next,
        ),
        Pipeline::Composed { origin, email } => after_composed(origin, email, delivery, next),
        Pipeline::Sent { .. } => next == current,
        Pipeline::Failed { .. } => next == current,
    }
}

impl Pipeline {
    /// The stage of this state.
    pub open spec fn spec_stage(&self) -> Stage {
        match *self {
            Pipeline::Received { .. } => Stage::Received,
            Pipeline::Decoded { .. } => Stage::Decoded,
            Pipeline::Composed { .. } => Stage::Composed,
            Pipeline::Sent { .. } => Stage::Sent,
            Pipeline::Failed { .. } => Stage::Failed,
        }
    }

    /// The stage of this state.
    #[verifier::when_used_as_spec(spec_stage)]
    pub fn stage(&self) -> (stage: Stage)
        ensures
            stage == self.spec_stage(),
    {
        match self {
            Pipeline::Received { .. } => Stage::Received,
            Pipeline::Decoded { .. } => Stage::Decoded,
            Pipeline::Composed { .. } => Stage::Composed,
            Pipeline::Sent { .. } => Stage::Sent,
            Pipeline::Failed { .. } => Stage::Failed,
        }
    }

    /// Starts the pipeline for a parsed request.
    pub fn start(sms: IncomingSms) -> (state: Pipeline)
        ensures
            state == (Pipeline::Received { sms }),
    {
        Pipeline::Received { sms }
    }

    /// What the caller has to do in this state.
    pub fn action(&self) -> (action: Action)
        ensures
            action == match self.stage() {
                Stage::Received => Action::Advance,
                Stage::Decoded => Action::Advance,
                Stage::Composed => Action::Deliver,
                Stage::Sent => Action::Respond,
                Stage::Failed => Action::Respond,
            },
    {
        match self {
            Pipeline::Received { .. } => Action::Advance,
            Pipeline::Decoded { .. } => Action::Advance,
            Pipeline::Composed { .. } => Action::Deliver,
            Pipeline::Sent { .. } => Action::Respond,
            Pipeline::Failed { .. } => Action::Respond,
        }
    }

    /// Takes the request one stage further. `delivery` is the outcome of the
    /// delivery attempt, which only the stage `Composed` looks at.
    pub fn step(
        self,
        config: &GatewayConfig,
        delivery: Option<Result<Ack, DeliveryError>>,
    ) -> (next: Pipeline)
        ensures
            steps_to(self, *config, delivery, next),
    {
        match self {
            Pipeline::Received { sms } => {
                let sent_text = match decode_epoch_milliseconds(sms.sent_stamp) {
                    Ok(text) => text,
                    Err(e) => {
                        return Pipeline::Failed { error: RequestError::Timestamp(e) };
                    },
                };
                let received_text = match decode_epoch_milliseconds(sms.received_stamp) {
                    Ok(text) => text,
                    Err(e) => {
                        return Pipeline::Failed { error: RequestError::Timestamp(e) };
                    },
                };
                Pipeline::Decoded { sms, sent_text, received_text }
            },
            Pipeline::Decoded { sms, sent_text, received_text } => {
                let sender = match parse_mailbox(config.sender_email.as_str()) {
                    Ok(sender) => sender,
                    Err(e) => {
                        return Pipeline::Failed { error: RequestError::Address(e) };
                    },
                };
                let list = join_addresses(&config.destination_emails);
                let recipients = match resolve(list.as_str()) {
                    Ok(recipients) => recipients,
                    Err(e) => {
                        return Pipeline::Failed { error: RequestError::Address(e) };
                    },
                };
                match compose(
                    sender,
                    recipients,
                    &sms,
                    sent_text.as_str(),
                    received_text.as_str(),
                ) {
                    Ok(email) => Pipeline::Composed { origin: sms.from, email },
                    Err(fault) => Pipeline::Failed { error: RequestError::Composition(fault) },
                }
            },
            Pipeline::Composed { origin, email } => match delivery {
                None => Pipeline::Composed { origin, email },
                Some(Ok(_)) => Pipeline::Sent { origin },
                Some(Err(e)) => Pipeline::Failed { error: RequestError::Delivery(e) },
            },
            Pipeline::Sent { origin } => Pipeline::Sent { origin },
            Pipeline::Failed { error } => Pipeline::Failed { error },
        }
    }

    /// The answer to the request, once it is over.
    pub fn reply(&self) -> (reply: Option<Reply>)
        ensures
            match *self {
                Pipeline::Sent { .. } => reply matches Some(Reply::Success { message })
                    && message@ == success_message(),
                Pipeline::Failed { error } => reply matches Some(Reply::Failure { error: text })
                    && text@ == failure_message(error.description()),
                _ => reply is None,
            },
    {
        match self {
            Pipeline::Sent { .. } => Some(
                Reply::Success { message: String::from_str("Email sent successfully") },
            ),
            Pipeline::Failed { error } => {
                let mut text = String::from_str("Failed to send email: ");
                text.append(error.describe());
                Some(Reply::Failure { error: text })
            },
            _ => None,
        }
    }

    /// The line to log for the request, once it is over.
    pub fn log_line(&self) -> (line: Option<String>)
        ensures
            match *self {
                Pipeline::Sent { origin } => line matches Some(text) && text@ == success_log(
                    origin@,
                ),
                Pipeline::Failed { error } => line matches Some(text) && text@ == failure_message(
                    error.description(),
                ),
                _ => line is None,
            },
    {
        match self {
            Pipeline::Sent { origin } => {
                let mut text = String::from_str("Email sent successfully for SMS from ");
                text.append(origin.as_str());
                Some(text)
            },
            Pipeline::Failed { error } => {
                let mut text = String::from_str("Failed to send email: ");
                text.append(error.describe());
                Some(text)
            },
            _ => None,
        }
    }
}

/// What the pipeline never does: go back. A step leaves the two final
/// stages as they are, keeps a composed email waiting while no delivery
/// outcome is known, and takes every other state to the next stage or to
/// `Failed`.
pub proof fn lemma_steps_go_forward(
    current: Pipeline,
    config: GatewayConfig,
    delivery: Option<Result<Ack, DeliveryError>>,
    next: Pipeline,
)
    requires
        steps_to(current, config, delivery, next),
    ensures
        rank(next.stage()) >= rank(current.stage()),
        current.stage() == Stage::Sent || current.stage() == Stage::Failed ==> next == current,
        current.stage() == Stage::Composed && delivery is None ==> next == current,
        rank(current.stage()) < 3 && !(current.stage() == Stage::Composed && delivery is None)
            ==> next.stage() == Stage::Failed || rank(next.stage()) == rank(current.stage()) + 1,
        next.stage() == Stage::Sent && current.stage() != Stage::Sent ==> current.stage()
            == Stage::Composed && delivery matches Some(Ok(_)),
{
}

} // verus!
