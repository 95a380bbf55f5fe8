//! Outgoing mail: which backend carries it, and how one message is put
//! together.
//!
//! Three backends exist. The relay and the spool directory need the network
//! and the disk, which are not this library's business: for them `send`
//! prepares the message and hands it back for delivery. The in-memory
//! backend keeps every message, so that tests can look at what was sent.

use crate::mailer::build_message;
use crate::mailer::is_alphanumeric;
use crate::mailer::mailbox_of;
use crate::mailer::mailbox_parses;
use crate::mailer::message_builds;
use crate::mailer::stub_accepts;
use crate::mailer::parse_mailbox;
use crate::mailer::random_token;
use crate::mailer::stub_messages;
use crate::mailer::stub_send;
use crate::mailer::stub_transport;
use crate::mailer::DEFAULT_FROM;
use crate::mailer::STUB_REFUSAL;
use vstd::pervasive::unreached;
use vstd::prelude::*;
use vstd::string::*;

verus! {

/// The domain under which the in-memory backend writes its message ids.
pub const DEFAULT_DOMAIN: &'static str = "crates.io";

/// The directory in which the file backend stores messages.
pub const SPOOL_DIRECTORY: &'static str = "/tmp";

/// The number of random characters in a message id.
pub const MESSAGE_ID_TOKEN_LEN: usize = 32;

/// A kind of mail: its subject line and the text it carries.
pub trait Email {
    /// The subject line.
    const SUBJECT: &'static str;

    /// The text of the mail.
    fn body(&self) -> String;
}

/// A mail as a test wants to look at it.
#[derive(Debug, Clone)]
pub struct StoredEmail {
    /// The recipient.
    pub to: String,
    /// The subject line.
    pub subject: String,
    /// The text.
    pub body: String,
}

/// The three variables of the environment that configure the mail relay.
pub struct MailSettings {
    /// The login at the relay, which is also the sender's address.
    pub login: Option<String>,
    /// The password at the relay.
    pub password: Option<String>,
    /// The host name of the relay.
    pub server: Option<String>,
}

/// What carries the mail.
#[derive(Debug, Clone)]
pub enum EmailBackend {
    /// A mail relay, spoken to over SMTP with these credentials.
    Smtp { server: String, login: String, password: String },
    /// A directory on the local disk in which each message becomes a file.
    FileSystem { path: String },
    /// A log in memory.
    Memory(lettre::transport::stub::StubTransport),
}

/// What became of a message that was sent.
#[derive(Debug)]
pub enum Delivery {
    /// The in-memory backend has recorded the message.
    Recorded,
    /// The message is complete and waits for the relay or the disk.
    Outbound(lettre::Message),
}

/// All that a message is built from.
#[derive(Debug)]
pub struct Draft {
    /// The id of the message, in angle brackets.
    pub message_id: String,
    /// The recipient.
    pub to: lettre::message::Mailbox,
    /// The sender.
    pub from: lettre::message::Mailbox,
    /// The subject line.
    pub subject: &'static str,
    /// The text.
    pub body: String,
}

/// Why a mail was not sent.
#[derive(Debug)]
pub enum EmailError {
    /// The recipient is no mail address.
    AddressError(lettre::address::AddressError),
    /// The message could not be put together.
    MessageBuilderError(lettre::error::Error),
    /// The backend refused the message; the text says why.
    TransportError(String),
}

/// The mail service: a backend, the domain of the message ids and the
/// sender's address.
#[derive(Debug, Clone)]
pub struct Emails {
    backend: EmailBackend,
    /// The domain under which message ids are written.
    pub domain: String,
    from: lettre::message::Mailbox,
}

/// The text of a message id: the token and the domain, joined by `@`, in
/// angle brackets.
pub open spec fn message_id_text(token: Seq<char>, domain: Seq<char>) -> Seq<char> {
    seq!['<'] + token + seq!['@'] + domain + seq!['>']
}

/// Writes the message id for a token under a domain.
pub fn message_id(token: &str, domain: &str) -> (id: String)
    ensures
        id@ == message_id_text(token@, domain@),
{
    proof {
        reveal_strlit("<");
        reveal_strlit("@");
        reveal_strlit(">");
    }
    let mut id: String = String::from_str("<");
    id.append(token);
    id.append("@");
    id.append(domain);
    id.append(">");
    assert(id@ =~= message_id_text(token@, domain@));
    id
}

/// A message id as `send` makes them: a token of 32 letters and digits under
/// the given domain.
pub open spec fn is_message_id(id: Seq<char>, domain: Seq<char>) -> bool {
    exists|token: Seq<char>|
        {
            &&& #[trigger] message_id_text(token, domain) == id
            &&& token.len() == MESSAGE_ID_TOKEN_LEN
            &&& forall|i: int| 0 <= i < token.len() ==> is_alphanumeric(#[trigger] token[i])
        }
}

/// Makes a message id that nothing else has: 32 random letters and digits
/// under the given domain. Two calls give different ids, but for chance.
pub fn fresh_message_id(domain: &str) -> (id: String)
    ensures
        is_message_id(id@, domain@),
{
    let token: String = random_token(MESSAGE_ID_TOKEN_LEN);
    let id: String = message_id(token.as_str(), domain);
    assert(message_id_text(token@, domain@) == id@);
    id
}

/// Whether `sent` is what handing `message` to `backend` gives. The
/// in-memory backend records the message if its transport accepts and
/// refuses it with the transport's text if not. The relay and the spool
/// directory are served outside this library: the very message comes back.
pub open spec fn handed_over(
    backend: EmailBackend,
    message: lettre::Message,
    sent: Result<Delivery, String>,
) -> bool {
    match backend {
        EmailBackend::Memory(transport) => if stub_accepts(transport) {
            sent == Ok::<Delivery, String>(Delivery::Recorded)
        } else {
            sent matches Err(text) && text@ == STUB_REFUSAL@
        },
        _ => sent == Ok::<Delivery, String>(Delivery::Outbound(message)),
    }
}

/// Whether `sent` is what sending gives on `backend` once the recipient is
/// read, where `builds` says whether the builder made a message. Without a
/// message the builder's error comes back. With one, the in-memory backend
/// records it if its transport accepts and gives the transport's refusal as
/// a transport error if not; for the relay and the spool directory the
/// message comes back for delivery.
pub open spec fn sent_as(
    backend: EmailBackend,
    builds: bool,
    sent: Result<Delivery, EmailError>,
) -> bool {
    if !builds {
        sent matches Err(EmailError::MessageBuilderError(_))
    } else {
        match backend {
            EmailBackend::Memory(transport) => if stub_accepts(transport) {
                sent == Ok::<Delivery, EmailError>(Delivery::Recorded)
            } else {
                sent matches Err(EmailError::TransportError(text)) && text@ == STUB_REFUSAL@
            },
            _ => sent matches Ok(Delivery::Outbound(_)),
        }
    }
}

impl MailSettings {
    /// Whether the environment names a relay: login, password and server
    /// are all there.
    pub open spec fn names_relay(&self) -> bool {
        self.login is Some && self.password is Some && self.server is Some
    }

    /// The text of the sender's address: the login, or the default sender
    /// where no login is set.
    pub open spec fn sender_text(&self) -> Seq<char> {
        match self.login {
            Some(login) => login@,
            None => DEFAULT_FROM@,
        }
    }

    /// Whether a service can be made from these settings: the sender's
    /// address must be a mail address, and production must have a relay.
    pub open spec fn usable(&self, production: bool) -> bool {
        mailbox_parses(self.sender_text()) && (production ==> self.names_relay())
    }

    /// The backend that these settings choose: the relay if all three
    /// variables are set, the spool directory otherwise.
    pub open spec fn chooses(&self, backend: EmailBackend) -> bool {
        if self.names_relay() {
            backend == (EmailBackend::Smtp {
                server: self.server->0,
                login: self.login->0,
                password: self.password->0,
            })
        } else {
            backend matches EmailBackend::FileSystem { path } && path@ == SPOOL_DIRECTORY@
        }
    }
}

impl EmailBackend {
    /// Hands a complete message to the backend; see `handed_over`.
    pub fn send(&self, message: lettre::Message) -> (sent: Result<Delivery, String>)
        ensures
            handed_over(*self, message, sent),
    {
        match self {
            EmailBackend::Memory(transport) => match stub_send(transport, &message) {
                Ok(()) => Ok(Delivery::Recorded),
                Err(text) => Err(text),
            },
            _ => Ok(Delivery::Outbound(message)),
        }
    }
}

impl Emails {
    /// The backend of this service.
    pub closed spec fn spec_backend(&self) -> EmailBackend {
        self.backend
    }

    /// The domain under which this service writes its message ids.
    pub closed spec fn spec_domain(&self) -> String {
        self.domain
    }

    /// The sender's address of this service.
    pub closed spec fn spec_from(&self) -> lettre::message::Mailbox {
        self.from
    }

    /// The backend of this service.
    pub fn backend(&self) -> (backend: &EmailBackend)
        ensures
            *backend == self.spec_backend(),
    {
        &self.backend
    }

    /// The domain under which this service writes its message ids.
    pub fn domain(&self) -> (domain: &String)
        ensures
            *domain == self.spec_domain(),
    {
        &self.domain
    }

    /// The sender's address of this service.
    pub fn from(&self) -> (from: &lettre::message::Mailbox)
        ensures
            *from == self.spec_from(),
    {
        &self.from
    }

    /// Makes a service of its three parts.
    pub fn with_backend(
        backend: EmailBackend,
        domain: String,
        from: lettre::message::Mailbox,
    ) -> (emails: Self)
        ensures
            emails.spec_backend() == backend,
            emails.spec_domain() == domain,
            emails.spec_from() == from,
    {
        Emails { backend, domain, from }
    }

    /// Makes the service from the environment: over the relay if login,
    /// password and server are all set, into the spool directory otherwise.
    /// The sender's address follows the login alone: it is the login read as
    /// a mailbox, and the default sender where no login is set.
    ///
    /// The sender's address must be a mail address, and in production there
    /// must be a relay.
    pub fn from_environment(
        settings: MailSettings,
        production: bool,
        domain_name: String,
    ) -> (emails: Self)
        requires
            settings.usable(production),
        ensures
            settings.chooses(emails.spec_backend()),
            emails.spec_domain() == domain_name,
            mailbox_of(settings.sender_text()) == Some(emails.spec_from()),
    {
        let sender: &str = match &settings.login {
            Some(login) => login.as_str(),
            None => DEFAULT_FROM,
        };
        let from = match parse_mailbox(sender) {
            Ok(mailbox) => mailbox,
            Err(_) => unreached(),
        };
        let backend = match (settings.login, settings.password, settings.server) {
            (Some(login), Some(password), Some(server)) => EmailBackend::Smtp {
                server,
                login,
                password,
            },
            _ => EmailBackend::FileSystem { path: String::from_str(SPOOL_DIRECTORY) },
        };
        Emails { backend, domain: domain_name, from }
    }

    /// Makes the service from the environment if the settings are usable;
    /// see `from_environment`.
    pub fn try_from_environment(
        settings: MailSettings,
        production: bool,
        domain_name: String,
    ) -> (made: Option<Self>)
        ensures
            made is Some <==> settings.usable(production),
            made matches Some(emails) ==> settings.chooses(emails.spec_backend())
                && emails.spec_domain() == domain_name && mailbox_of(settings.sender_text())
                == Some(emails.spec_from()),
    {
        let relay: bool = settings.login.is_some() && settings.password.is_some()
            && settings.server.is_some();
        if production && !relay {
            return None;
        }
        let sender: &str = match &settings.login {
            Some(login) => login.as_str(),
            None => DEFAULT_FROM,
        };
        match parse_mailbox(sender) {
            Ok(_) => Some(Self::from_environment(settings, production, domain_name)),
            Err(_) => None,
        }
    }

    /// Makes a service that keeps all outgoing mail in memory, so that a
    /// test can see afterwards what was sent. Its transport accepts every
    /// message, its domain is the default domain and its sender the default
    /// sender.
    pub fn new_in_memory() -> (emails: Self)
        ensures
            emails.spec_backend() matches EmailBackend::Memory(transport) && stub_accepts(
                transport,
            ),
            emails.spec_domain()@ == DEFAULT_DOMAIN@,
            mailbox_of(DEFAULT_FROM@) == Some(emails.spec_from()),
    {
        let from = match parse_mailbox(DEFAULT_FROM) {
            Ok(mailbox) => mailbox,
            Err(_) => unreached(),
        };
        Emails {
            backend: EmailBackend::Memory(stub_transport()),
            domain: String::from_str(DEFAULT_DOMAIN),
            from,
        }
    }

    /// The messages that the in-memory backend holds, each with its envelope;
    /// `None` for the other backends.
    pub fn mails_in_memory(&self) -> (mails: Option<Vec<(lettre::address::Envelope, String)>>)
        ensures
            mails is Some <==> self.spec_backend() is Memory,
    {
        match &self.backend {
            EmailBackend::Memory(transport) => Some(stub_messages(transport)),
            _ => None,
        }
    }

    /// Collects what the message to `recipient` is built from: a fresh
    /// message id under the domain of the service, the recipient read as a
    /// mailbox, the service's sender, and the subject and the text as they
    /// are given. A recipient that is no mail address is turned down, and
    /// nothing else is.
    pub fn draft(&self, recipient: &str, subject: &'static str, body: String) -> (drafted: Result<
        Draft,
        EmailError,
    >)
        ensures
            drafted is Ok <==> mailbox_parses(recipient@),
            drafted matches Err(e) ==> e is AddressError,
            drafted matches Ok(draft) ==> {
                &&& is_message_id(draft.message_id@, self.spec_domain()@)
                &&& mailbox_of(recipient@) == Some(draft.to)
                &&& draft.from == self.spec_from()
                &&& draft.subject == subject
                &&& draft.body == body
            },
    {
        let message_id: String = fresh_message_id(self.domain.as_str());
        match parse_mailbox(recipient) {
            Ok(to) => Ok(Draft { message_id, to, from: self.from.clone(), subject, body }),
            Err(e) => Err(EmailError::AddressError(e)),
        }
    }

    /// Builds the message of a draft and hands it to the backend. Whether a
    /// message comes out is the builder's word on the five parts of the
    /// draft; what becomes of it then is said by `sent_as`.
    pub fn send_draft(&self, draft: Draft) -> (sent: Result<Delivery, EmailError>)
        ensures
            sent_as(
                self.spec_backend(),
                message_builds(
                    draft.message_id@,
                    draft.to,
                    draft.from,
                    draft.subject@,
                    draft.body@,
                ),
                sent,
            ),
    {
        self.dispatch(
            build_message(draft.message_id, draft.to, draft.from, draft.subject, draft.body),
        )
    }

    /// Sends `email` to `recipient`.
    ///
    /// A recipient that is no mail address is turned down with an address
    /// error, and only that gives one. Otherwise the message is built and
    /// handed to the backend. It goes to the recipient read as a mailbox,
    /// from the sender of the service, under the subject of `E`, with the
    /// text that `email` gives and with an id of its own: 32 random letters
    /// and digits, `@`, and the domain of the service. The id is made here
    /// and not by the relay, so that a misdelivered mail can be found again.
    /// What comes back is what `sent_as` says of these parts.
    pub fn send<E: Email>(&self, recipient: &str, email: E) -> (sent: Result<Delivery, EmailError>)
        ensures
            sent matches Err(EmailError::AddressError(_)) <==> !mailbox_parses(recipient@),
            mailbox_parses(recipient@) ==> exists|id: Seq<char>, body: Seq<char>|
                {
                    &&& is_message_id(id, self.spec_domain()@)
                    &&& sent_as(
                        self.spec_backend(),
                        #[trigger] message_builds(
                            id,
                            mailbox_of(recipient@)->0,
                            self.spec_from(),
                            E::SUBJECT@,
                            body,
                        ),
                        sent,
                    )
                },
    {
        let body: String = email.body();
        match self.draft(recipient, E::SUBJECT, body) {
            Ok(draft) => {
                let ghost id = draft.message_id@;
                let ghost text = draft.body@;
                let sent = self.send_draft(draft);
                assert(is_message_id(id, self.spec_domain()@) && sent_as(
                    self.spec_backend(),
                    message_builds(
                        id,
                        mailbox_of(recipient@)->0,
                        self.spec_from(),
                        E::SUBJECT@,
                        text,
                    ),
                    sent,
                ));
                sent
            },
            Err(e) => Err(e),
        }
    }

    /// Takes what the message builder returned to its end. A builder error
    /// is passed on as it is. A message goes to the backend: the in-memory
    /// backend records it if its transport accepts and gives the transport's
    /// refusal as a transport error if not, and for the relay and the spool
    /// directory the very message comes back, ready for delivery.
    pub fn dispatch(&self, built: Result<lettre::Message, lettre::error::Error>) -> (sent: Result<
        Delivery,
        EmailError,
    >)
        ensures
            built matches Err(e) ==> sent == Err::<Delivery, EmailError>(
                EmailError::MessageBuilderError(e),
            ),
            built matches Ok(message) ==> sent_as(self.spec_backend(), true, sent) && (
            !(self.spec_backend() is Memory) ==> sent == Ok::<Delivery, EmailError>(
                Delivery::Outbound(message),
            )),
    {
        match built {
            Err(e) => Err(EmailError::MessageBuilderError(e)),
            Ok(message) => match self.backend.send(message) {
                Ok(delivery) => Ok(delivery),
                Err(text) => Err(EmailError::TransportError(text)),
            },
        }
    }
}

} // verus!
