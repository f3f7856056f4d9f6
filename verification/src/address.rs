//! Mailboxes: an email address with an optional display name, as plain
//! values, and the parser that validates them.

use vstd::prelude::*;

verus! {

/// A validated recipient or sender: `user@domain`, with the name to show
/// beside it where one was given.
#[derive(Clone, Debug, PartialEq, Eq)]
pub struct Mailbox {
    /// The display name.
    pub name: Option<String>,
    /// The part of the address before the `@`.
    pub user: String,
    /// The part of the address behind the `@`.
    pub domain: String,
}

/// What a `Mailbox` holds, as sequences of characters.
pub struct MailboxView {
    pub name: Option<Seq<char>>,
    pub user: Seq<char>,
    pub domain: Seq<char>,
}

impl View for Mailbox {
    type V = MailboxView;

    open spec fn view(&self) -> MailboxView {
        MailboxView {
            name: match self.name {
                Some(name) => Some(name@),
                None => None,
            },
            user: self.user@,
            domain: self.domain@,
        }
    }
}

impl DeepView for Mailbox {
    type V = MailboxView;

    open spec fn deep_view(&self) -> MailboxView {
        self.view()
    }
}

/// Why a text is no mailbox.
#[derive(Clone, Copy, Debug, PartialEq, Eq, Structural)]
pub enum AddressError {
    /// The text does not follow the grammar of a mailbox.
    InvalidInput,
    /// The part before the `@` is not a valid user.
    InvalidUser,
    /// The part behind the `@` is not a valid domain.
    InvalidDomain,
}

impl AddressError {
    /// What went wrong, in words.
    pub open spec fn description(self) -> Seq<char> {
        match self {
            AddressError::InvalidInput => "Invalid input"@,
            AddressError::InvalidUser => "Invalid email user"@,
            AddressError::InvalidDomain => "Invalid email domain"@,
        }
    }

    /// What went wrong, in words.
    pub fn describe(&self) -> (text: &'static str)
        ensures
            text@ == self.description(),
    {
        match self {
            AddressError::InvalidInput => "Invalid input",
            AddressError::InvalidUser => "Invalid email user",
            AddressError::InvalidDomain => "Invalid email domain",
        }
    }
}

/// What the mailbox parser of the `lettre` crate makes of `text`: the
/// mailbox it reads, or the reason for which it rejects the text.
pub uninterp spec fn parsed_mailbox(text: Seq<char>) -> Result<MailboxView, AddressError>;

/// Parses one mailbox by `lettre::message::Mailbox::from_str`.
///
/// Trusted, not proved: the outcome is a function of the text alone. Of a
/// mailbox the name, the user and the domain are handed on as they were
/// read. Of a rejection the reason is handed on: an invalid user, an invalid
/// domain, or, for every other reason, invalid input.
#[verifier::external_body]
pub(crate) fn parse_mailbox(text: &str) -> (r: Result<Mailbox, AddressError>)
    ensures
        match r {
            Ok(mailbox) => parsed_mailbox(text@) == Ok::<MailboxView, AddressError>(mailbox@),
            Err(e) => parsed_mailbox(text@) == Err::<MailboxView, AddressError>(e),
        },
{
    match text.parse::<lettre::message::Mailbox>() {
        Ok(m) => Ok(
            Mailbox {
                name: m.name,
                user: m.email.user().to_string(),
                domain: m.email.domain().to_string(),
            },
        ),
        Err(lettre::address::AddressError::InvalidUser) => Err(AddressError::InvalidUser),
        Err(lettre::address::AddressError::InvalidDomain) => Err(AddressError::InvalidDomain),
        Err(_) => Err(AddressError::InvalidInput),
    }
}

} // verus!
