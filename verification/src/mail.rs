//! The confirmation message: who sends it, who gets it, and the link that
//! it carries.
use crate::models::Confirmation;
use vstd::prelude::*;

verus! {

/// A plain-text message, ready to be handed to a mail relay.
#[derive(Debug)]
pub struct Mail {
    from: String,
    to: String,
    subject: String,
    body: String,
}

/// What a `Mail` stands for.
pub struct MailView {
    pub from: Seq<char>,
    pub to: Seq<char>,
    pub subject: Seq<char>,
    pub body: Seq<char>,
}

impl View for Mail {
    type V = MailView;

    closed spec fn view(&self) -> MailView {
        MailView { from: self.from@, to: self.to@, subject: self.subject@, body: self.body@ }
    }
}

impl Mail {
    pub fn from(&self) -> (r: &String)
        ensures
            r@ == self@.from,
    {
        &self.from
    }

    pub fn to(&self) -> (r: &String)
        ensures
            r@ == self@.to,
    {
        &self.to
    }

    pub fn subject(&self) -> (r: &String)
        ensures
            r@ == self@.subject,
    {
        &self.subject
    }

    pub fn body(&self) -> (r: &String)
        ensures
            r@ == self@.body,
    {
        &self.body
    }
}

/// The link that confirms a token.
pub open spec fn link_text(domain: Seq<char>, port: Seq<char>, token: Seq<char>) -> Seq<char> {
    "https://"@ + domain + ":"@ + port + "/confirm/"@ + token
}

/// The link that confirms the token on the server at `domain` and `port`.
pub fn confirmation_link(domain: &str, port: &str, token: &str) -> (r: String)
    ensures
        r@ == link_text(domain@, port@, token@),
{
    let mut link = String::from_str("https://");
    link.append(domain);
    link.append(":");
    link.append(port);
    link.append("/confirm/");
    link.append(token);
    link
}

/// The outside types of a parsed mailbox and of the error of parsing one,
/// carried through unread.
#[verifier::external_type_specification]
#[verifier::external_body]
pub struct ExMailbox(lettre::message::Mailbox);

#[verifier::external_type_specification]
#[verifier::external_body]
pub struct ExAddressError(lettre::address::AddressError);

/// Whether `lettre` reads the text as a mailbox: an address, or a name
/// followed by an address in angle brackets. It depends on the text alone.
pub uninterp spec fn mailbox_accepts(text: Seq<char>) -> bool;

/// Parses the text with the `FromStr` impl of `lettre::message::Mailbox`.
/// Nothing is proved of the parser: the contract only gives the name
/// `mailbox_accepts` to whether it succeeds.
#[verifier::external_body]
fn parse_mailbox(text: &String) -> (r: Result<
    lettre::message::Mailbox,
    lettre::address::AddressError,
>)
    ensures
        r is Ok <==> mailbox_accepts(text@),
{
    text.parse()
}

/// Why no message can be sent for a confirmation.
#[derive(Debug, PartialEq, Eq, Clone, Copy)]
pub enum MailError {
    /// The claimed address is no mailbox.
    Recipient,
    /// The server's own name and address are no mailbox.
    Sender,
}

/// The recipient line for an e-mail address.
pub open spec fn recipient_text(email: Seq<char>) -> Seq<char> {
    "<"@ + email + ">"@
}

/// The sender line for the server's name and address.
pub open spec fn sender_text(name: Seq<char>, sender: Seq<char>) -> Seq<char> {
    name + " <"@ + sender + ">"@
}

/// The recipient line for an e-mail address.
pub fn recipient_line(email: &str) -> (r: String)
    ensures
        r@ == recipient_text(email@),
{
    let mut to = String::from_str("<");
    to.append(email);
    to.append(">");
    to
}

/// The sender line for the server's name and address.
pub fn sender_line(name: &str, sender: &str) -> (r: String)
    ensures
        r@ == sender_text(name@, sender@),
{
    let mut from = String::from_str(name);
    from.append(" <");
    from.append(sender);
    from.append(">");
    from
}

/// Puts the message together once it is known whether its two lines are
/// mailboxes. The recipient is looked at first: a claimed address that is no
/// mailbox is reported whatever the sender is.
pub fn assemble(
    from: String,
    to: String,
    body: String,
    recipient_ok: bool,
    sender_ok: bool,
) -> (r: Result<Mail, MailError>)
    ensures
        match r {
            Ok(mail) => recipient_ok && sender_ok && mail@ == (MailView {
                from: from@,
                to: to@,
                subject: "Confirmation"@,
                body: body@,
            }),
            Err(MailError::Recipient) => !recipient_ok,
            Err(MailError::Sender) => recipient_ok && !sender_ok,
        },
{
    if !recipient_ok {
        Err(MailError::Recipient)
    } else if !sender_ok {
        Err(MailError::Sender)
    } else {
        Ok(Mail { from, to, subject: String::from_str("Confirmation"), body })
    }
}

/// The message that carries a confirmation's link to the address that it
/// claims, sent in the server's name from the address `sender`; or the reason
/// why there is none.
pub fn compose(
    confirmation: &Confirmation,
    name: &str,
    sender: &str,
    domain: &str,
    port: &str,
) -> (r: Result<Mail, MailError>)
    ensures
        match r {
            Ok(mail) => mailbox_accepts(recipient_text(confirmation@.email)) && mailbox_accepts(
                sender_text(name@, sender@),
            ) && mail@ == (MailView {
                from: sender_text(name@, sender@),
                to: recipient_text(confirmation@.email),
                subject: "Confirmation"@,
                body: link_text(domain@, port@, confirmation@.uuid),
            }),
            Err(MailError::Recipient) => !mailbox_accepts(recipient_text(confirmation@.email)),
            Err(MailError::Sender) => mailbox_accepts(recipient_text(confirmation@.email))
                && !mailbox_accepts(sender_text(name@, sender@)),
        },
{
    let to = recipient_line(confirmation.email().as_str());
    let from = sender_line(name, sender);
    let body = confirmation_link(domain, port, confirmation.uuid().as_str());
    let recipient_ok = parse_mailbox(&to).is_ok();
    let sender_ok = parse_mailbox(&from).is_ok();
    assemble(from, to, body, recipient_ok, sender_ok)
}

} // verus!
