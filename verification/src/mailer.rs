//! The doors to the mail crate and to the random-number crate.
//!
//! Everything in this file is taken on trust: Verus reads the contracts and
//! not the code behind them. Each contract says what the crate's source
//! shows of the function that is called, and nothing besides.

use lettre::Transport;
use rand::distributions::DistString;
use vstd::prelude::*;

verus! {

/// The address that mail comes from when no login is configured.
pub const DEFAULT_FROM: &'static str = "noreply@crates.io";

/// `lettre::message::Mailbox`: an address with an optional display name.
#[verifier::external_type_specification]
#[verifier::external_body]
pub struct ExMailbox(lettre::message::Mailbox);

/// `lettre::Message`: a complete message, headers, envelope and body.
#[verifier::external_type_specification]
#[verifier::external_body]
pub struct ExMessage(lettre::Message);

/// `lettre::address::Envelope`: the reverse path and the recipients.
#[verifier::external_type_specification]
#[verifier::external_body]
pub struct ExEnvelope(lettre::address::Envelope);

/// `lettre::address::AddressError`: why a text is no address.
#[verifier::external_type_specification]
#[verifier::external_body]
pub struct ExAddressError(lettre::address::AddressError);

/// `lettre::error::Error`: why the builder made no message.
#[verifier::external_type_specification]
#[verifier::external_body]
pub struct ExBuilderError(lettre::error::Error);

/// `lettre::transport::stub::StubTransport`: a transport that keeps what it
/// is given in memory.
#[verifier::external_type_specification]
#[verifier::external_body]
pub struct ExStubTransport(lettre::transport::stub::StubTransport);

/// The text with which a stub transport says that it refuses a message.
pub const STUB_REFUSAL: &'static str = "stub error";

/// The mailbox that `text` reads as, if it reads as one: what
/// `Mailbox::from_str` of the mail crate makes of it. The grammar is the
/// crate's own; this is the name of its result.
pub uninterp spec fn mailbox_of(text: Seq<char>) -> Option<lettre::message::Mailbox>;

/// Whether the message builder of the mail crate makes a message of these
/// five parts. The builder also stamps the date, which has no part in this.
pub uninterp spec fn message_builds(
    message_id: Seq<char>,
    to: lettre::message::Mailbox,
    from: lettre::message::Mailbox,
    subject: Seq<char>,
    body: Seq<char>,
) -> bool;

/// The answer that a stub transport was made with: whether it accepts the
/// messages it is given.
pub uninterp spec fn stub_accepts(transport: lettre::transport::stub::StubTransport) -> bool;

/// Whether `text` reads as a mailbox.
pub open spec fn mailbox_parses(text: Seq<char>) -> bool {
    mailbox_of(text) is Some
}

/// A letter of the English alphabet, of either case, or a digit.
pub open spec fn is_alphanumeric(c: char) -> bool {
    ('A' <= c && c <= 'Z') || ('a' <= c && c <= 'z') || ('0' <= c && c <= '9')
}

/// Calls `str::parse::<Mailbox>`, that is `Mailbox::from_str`. The result
/// depends on the text alone, so the mailbox goes by the name `mailbox_of`.
/// The default sender is a plain `user@domain` address, which the grammar
/// accepts.
#[verifier::external_body]
pub(crate) fn parse_mailbox(text: &str) -> (parsed: Result<
    lettre::message::Mailbox,
    lettre::address::AddressError,
>)
    ensures
        parsed is Ok <==> mailbox_of(text@) is Some,
        parsed matches Ok(mailbox) ==> mailbox_of(text@) == Some(mailbox),
        text@ == DEFAULT_FROM@ ==> parsed is Ok,
{
    text.parse::<lettre::message::Mailbox>()
}

/// `Mailbox::clone`, which the crate derives: the copy holds the same name
/// and the same address.
pub assume_specification[ <lettre::message::Mailbox as Clone>::clone ](
    mailbox: &lettre::message::Mailbox,
) -> (copy: lettre::message::Mailbox)
    ensures
        copy == *mailbox,
;

/// `StubTransport::clone`, which the crate derives: the copy answers as the
/// transport it was made from, and writes into the same log.
pub assume_specification[ <lettre::transport::stub::StubTransport as Clone>::clone ](
    transport: &lettre::transport::stub::StubTransport,
) -> (copy: lettre::transport::stub::StubTransport)
    ensures
        stub_accepts(copy) == stub_accepts(*transport),
;

/// Calls `Alphanumeric.sample_string` with the thread's generator. The
/// sampler appends exactly `len` characters, each drawn from the 62 letters
/// and digits of ASCII. Which ones is left open: two calls may differ.
#[verifier::external_body]
pub(crate) fn random_token(len: usize) -> (token: String)
    ensures
        token@.len() == len,
        forall|i: int| 0 <= i < len ==> is_alphanumeric(#[trigger] token@[i]),
{
    rand::distributions::Alphanumeric.sample_string(&mut rand::thread_rng(), len)
}

/// Runs the message builder: `Message::builder`, then `message_id`, `to`,
/// `from`, `subject`, `header` with the plain-text content type, and `body`.
/// Whether a message comes out depends on the five parts alone and goes by
/// the name `message_builds`. The message itself also carries the current
/// date, so nothing is claimed of what it holds.
#[verifier::external_body]
pub(crate) fn build_message(
    message_id: String,
    to: lettre::message::Mailbox,
    from: lettre::message::Mailbox,
    subject: &str,
    body: String,
) -> (built: Result<lettre::Message, lettre::error::Error>)
    ensures
        built is Ok <==> message_builds(message_id@, to, from, subject@, body@),
{
    lettre::Message::builder()
        .message_id(Some(message_id))
        .to(to)
        .from(from)
        .subject(subject)
        .header(lettre::message::header::ContentType::TEXT_PLAIN)
        .body(body)
}

/// Calls `StubTransport::new_ok`, which makes a transport that accepts
/// every message.
#[verifier::external_body]
pub(crate) fn stub_transport() -> (made: lettre::transport::stub::StubTransport)
    ensures
        stub_accepts(made),
{
    lettre::transport::stub::StubTransport::new_ok()
}

/// Calls `Transport::send` on a stub transport, which appends the message to
/// the log that the transport shares with its clones and then answers as it
/// was made to answer. Its error has no content: written out it is the text
/// `stub error`.
#[verifier::external_body]
pub(crate) fn stub_send(
    transport: &lettre::transport::stub::StubTransport,
    message: &lettre::Message,
) -> (sent: Result<(), String>)
    ensures
        sent is Ok <==> stub_accepts(*transport),
        sent matches Err(text) ==> text@ == STUB_REFUSAL@,
{
    transport.send(message).map_err(|e| e.to_string())
}

/// Calls `StubTransport::messages`: a copy of the log as it stands now.
/// The log changes behind the transport, so nothing is claimed of it.
#[verifier::external_body]
pub(crate) fn stub_messages(transport: &lettre::transport::stub::StubTransport) -> Vec<
    (lettre::address::Envelope, String),
> {
    transport.messages()
}

} // verus!
