//! Composition of the outbound email from a received SMS.

use crate::address::{Mailbox, MailboxView};
use vstd::prelude::*;

verus! {

/// A notification of a received SMS, as the webhook delivers it.
#[derive(Clone, Debug, PartialEq, Eq)]
pub struct IncomingSms {
    /// Who sent the SMS.
    pub from: String,
    /// What the SMS says.
    pub text: String,
    /// When it was sent, in milliseconds since the Unix epoch.
    pub sent_stamp: u64,
    /// When it was received, in milliseconds since the Unix epoch.
    pub received_stamp: u64,
}

/// How the body of a message is marked for transfer.
#[derive(Clone, Copy, Debug, PartialEq, Eq, Structural)]
pub enum TransferEncoding {
    SevenBit,
    EightBit,
}

/// A complete outbound message in plain text.
#[derive(Clone, Debug, PartialEq, Eq)]
pub struct ComposedEmail {
    /// The sender.
    pub from: Mailbox,
    /// The recipients, at least one.
    pub to: Vec<Mailbox>,
    /// The subject line.
    pub subject: String,
    /// The body.
    pub body: String,
    /// The transfer encoding that the body is marked with.
    pub encoding: TransferEncoding,
}

/// What a `ComposedEmail` holds, as sequences.
pub struct ComposedEmailView {
    pub from: MailboxView,
    pub to: Seq<MailboxView>,
    pub subject: Seq<char>,
    pub body: Seq<char>,
    pub encoding: TransferEncoding,
}

impl View for ComposedEmail {
    type V = ComposedEmailView;

    open spec fn view(&self) -> ComposedEmailView {
        ComposedEmailView {
            from: self.from@,
            to: self.to.deep_view(),
            subject: self.subject@,
            body: self.body@,
            encoding: self.encoding,
        }
    }
}

/// Why no message could be assembled.
#[derive(Clone, Copy, Debug, PartialEq, Eq, Structural)]
pub enum CompositionError {
    /// The sender lacks its user or its domain.
    InvalidSender,
    /// There is no recipient.
    MissingRecipients,
    /// The recipient at this index, the first such, lacks its user or its
    /// domain.
    InvalidRecipient { index: usize },
}

impl CompositionError {
    /// What went wrong, in words.
    pub open spec fn description(self) -> Seq<char> {
        match self {
            CompositionError::InvalidSender => "sender address lacks its user or its domain"@,
            CompositionError::MissingRecipients => "missing destination address"@,
            CompositionError::InvalidRecipient { .. } =>
                "recipient address lacks its user or its domain"@,
        }
    }

    /// What went wrong, in words.
    pub fn describe(&self) -> (text: &'static str)
        ensures
            text@ == self.description(),
    {
        match self {
            CompositionError::InvalidSender => "sender address lacks its user or its domain",
            CompositionError::MissingRecipients => "missing destination address",
            CompositionError::InvalidRecipient { .. } => {
                "recipient address lacks its user or its domain"
            },
        }
    }
}

/// Whether a mailbox has the structure of an address: a user and a domain,
/// neither of them empty.
pub open spec fn has_both_parts(mailbox: MailboxView) -> bool {
    mailbox.user.len() > 0 && mailbox.domain.len() > 0
}

/// Whether the recipient at `k` is the first without the structure of an
/// address.
pub open spec fn first_invalid(recipients: Seq<MailboxView>, k: int) -> bool {
    &&& 0 <= k < recipients.len()
    &&& !has_both_parts(recipients[k])
    &&& forall|j: int| 0 <= j < k ==> has_both_parts(#[trigger] recipients[j])
}

/// Whether a message can be assembled from this sender and these
/// recipients.
pub open spec fn composable(sender: MailboxView, recipients: Seq<MailboxView>) -> bool {
    &&& has_both_parts(sender)
    &&& recipients.len() > 0
    &&& forall|i: int| 0 <= i < recipients.len() ==> has_both_parts(#[trigger] recipients[i])
}

/// Whether `fault` is what stands against assembling a message: the sender
/// is looked at first, then the number of recipients, then each recipient in
/// order.
pub open spec fn composition_fault(
    sender: MailboxView,
    recipients: Seq<MailboxView>,
    fault: CompositionError,
) -> bool {
    match fault {
        CompositionError::InvalidSender => !has_both_parts(sender),
        CompositionError::MissingRecipients => has_both_parts(sender) && recipients.len() == 0,
        CompositionError::InvalidRecipient { index } => has_both_parts(sender) && first_invalid(
            recipients,
            index as int,
        ),
    }
}

/// The subject line for an SMS from `from`.
pub open spec fn subject_text(from: Seq<char>) -> Seq<char> {
    "SMS from "@ + from
}

/// The body for an SMS: sender, the two decoded timestamps with a tab
/// between them, an empty line, and the text.
pub open spec fn body_text(
    from: Seq<char>,
    sent_text: Seq<char>,
    received_text: Seq<char>,
    text: Seq<char>,
) -> Seq<char> {
    "Sender: "@ + from + "\nSent: "@ + sent_text + "\tReceived: "@ + received_text
        + "\n\nMessage:\n"@ + text
}

impl ComposedEmailView {
    /// The invariant of a composed message: sender and recipients have the
    /// structure of an address, and there is at least one recipient.
    pub open spec fn well_formed(self) -> bool {
        composable(self.from, self.to)
    }
}

fn both_parts(mailbox: &Mailbox) -> (b: bool)
    ensures
        b == has_both_parts(mailbox@),
{
    !mailbox.user.as_str().is_empty() && !mailbox.domain.as_str().is_empty()
}

/// Assembles the message that forwards `sms` from `sender` to `recipients`.
/// `sent_text` and `received_text` are the decoded timestamps of the SMS.
pub fn compose(
    sender: Mailbox,
    recipients: Vec<Mailbox>,
    sms: &IncomingSms,
    sent_text: &str,
    received_text: &str,
) -> (r: Result<ComposedEmail, CompositionError>)
    ensures
        match r {
            Ok(email) => {
                &&& composable(sender@, recipients.deep_view())
                &&& email@.well_formed()
                &&& email.from == sender
                &&& email.to == recipients
                &&& email.subject@ == subject_text(sms.from@)
                &&& email.body@ == body_text(sms.from@, sent_text@, received_text@, sms.text@)
                &&& email.encoding == TransferEncoding::EightBit
            },
            Err(fault) => composition_fault(sender@, recipients.deep_view(), fault),
        },
{
    if !both_parts(&sender) {
        return Err(CompositionError::InvalidSender);
    }
    if recipients.len() == 0 {
        return Err(CompositionError::MissingRecipients);
    }
    let mut i: usize = 0;
    while i < recipients.len()
        invariant
            has_both_parts(sender@),
            i <= recipients.len(),
            forall|j: int| 0 <= j < i ==> has_both_parts(#[trigger] recipients.deep_view()[j]),
        decreases recipients.len() - i,
    {
        if !both_parts(&recipients[i]) {
            assert(recipients.deep_view()[i as int] == recipients[i as int]@);
            return Err(CompositionError::InvalidRecipient { index: i });
        }
        assert(recipients.deep_view()[i as int] == recipients[i as int]@);
        i += 1;
    }
    let mut subject = String::from_str("SMS from ");
    subject.append(sms.from.as_str());
    let mut body = String::from_str("Sender: ");
    body.append(sms.from.as_str());
    body.append("\nSent: ");
    body.append(sent_text);
    body.append("\tReceived: ");
    body.append(received_text);
    body.append("\n\nMessage:\n");
    body.append(sms.text.as_str());
    Ok(
        ComposedEmail {
            from: sender,
            to: recipients,
            subject,
            body,
            encoding: TransferEncoding::EightBit,
        },
    )
}

} // verus!
