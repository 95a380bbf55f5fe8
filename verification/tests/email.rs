use registry_core::email::fresh_message_id;
use registry_core::email::message_id;
use registry_core::email::Delivery;
use registry_core::email::Email;
use registry_core::email::EmailBackend;
use registry_core::email::EmailError;
use registry_core::email::Emails;
use registry_core::email::MailSettings;
use registry_core::email::StoredEmail;

struct TestEmail;

impl Email for TestEmail {
    const SUBJECT: &'static str = "test";

    fn body(&self) -> String {
        "test".into()
    }
}

fn relay_settings() -> MailSettings {
    MailSettings {
        login: Some("mailer@example.com".to_string()),
        password: Some("hunter2".to_string()),
        server: Some("smtp.example.com".to_string()),
    }
}

#[test]
fn sending_to_invalid_email_fails() {
    let emails = Emails::new_in_memory();

    assert!(emails
        .send(
            "String.Format(\"{0}.{1}@live.com\", FirstName, LastName)",
            TestEmail
        )
        .is_err());
}

#[test]
fn sending_to_valid_email_succeeds() {
    let emails = Emails::new_in_memory();

    assert!(emails.send("someone@example.com", TestEmail).is_ok());
}

#[test]
fn invalid_recipient_is_an_address_error() {
    let emails = Emails::new_in_memory();
    let sent = emails.send("not an address", TestEmail);
    assert!(matches!(sent, Err(EmailError::AddressError(_))));
    assert_eq!(emails.mails_in_memory().unwrap().len(), 0);
}

#[test]
fn memory_backend_records_what_was_sent() {
    let emails = Emails::new_in_memory();
    assert_eq!(emails.mails_in_memory().unwrap().len(), 0);
    let sent = emails.send("someone@example.com", TestEmail);
    assert!(matches!(sent, Ok(Delivery::Recorded)));
    let mails = emails.mails_in_memory().unwrap();
    assert_eq!(mails.len(), 1);
    let (envelope, text) = &mails[0];
    assert_eq!(envelope.to().len(), 1);
    assert_eq!(envelope.to()[0].to_string(), "someone@example.com");
    assert_eq!(envelope.from().unwrap().to_string(), "noreply@crates.io");
    assert!(text.contains("Subject: test"));
    assert!(text.contains("To: someone@example.com"));
    assert!(text.contains("From: noreply@crates.io"));
    assert!(text.contains("Content-Type: text/plain"));
    assert!(text.ends_with("test"));
}

#[test]
fn sent_message_carries_an_id_under_the_domain() {
    let emails = Emails::new_in_memory();
    assert_eq!(emails.domain, "crates.io");
    emails.send("someone@example.com", TestEmail).unwrap();
    let mails = emails.mails_in_memory().unwrap();
    let text = &mails[0].1;
    let line = text
        .lines()
        .find(|line| line.starts_with("Message-ID: "))
        .unwrap();
    let id = &line["Message-ID: ".len()..];
    assert!(id.starts_with('<'));
    assert!(id.ends_with("@crates.io>"));
    assert_eq!(id.len(), 1 + 32 + "@crates.io>".len());
    assert!(id[1..33].chars().all(|c| c.is_ascii_alphanumeric()));
}

#[test]
fn two_sends_are_two_messages() {
    let emails = Emails::new_in_memory();
    emails.send("first@example.com", TestEmail).unwrap();
    emails.send("second@example.com", TestEmail).unwrap();
    let mails = emails.mails_in_memory().unwrap();
    assert_eq!(mails.len(), 2);
    assert_eq!(mails[0].0.to()[0].to_string(), "first@example.com");
    assert_eq!(mails[1].0.to()[0].to_string(), "second@example.com");
}

#[test]
fn message_id_is_token_at_domain_in_brackets() {
    assert_eq!(message_id("abc123", "crates.io"), "<abc123@crates.io>");
    assert_eq!(message_id("", ""), "<@>");
}

#[test]
fn fresh_message_id_has_32_letters_and_digits() {
    let id = fresh_message_id("example.org");
    assert_eq!(id.len(), 1 + 32 + 1 + "example.org".len() + 1);
    assert!(id.starts_with('<'));
    assert!(id.ends_with("@example.org>"));
    assert!(id[1..33].chars().all(|c| c.is_ascii_alphanumeric()));
}

#[test]
fn fresh_message_ids_differ() {
    let first = fresh_message_id("example.org");
    let second = fresh_message_id("example.org");
    assert_ne!(first, second);
}

#[test]
fn full_environment_chooses_the_relay() {
    let emails = Emails::try_from_environment(relay_settings(), true, "example.com".to_string())
        .unwrap();
    assert_eq!(emails.domain, "example.com");
    match emails.backend() {
        EmailBackend::Smtp {
            server,
            login,
            password,
        } => {
            assert_eq!(server, "smtp.example.com");
            assert_eq!(login, "mailer@example.com");
            assert_eq!(password, "hunter2");
        }
        _ => panic!("expected the relay"),
    }
    assert!(emails.mails_in_memory().is_none());
}

#[test]
fn from_environment_with_usable_settings() {
    let emails = Emails::from_environment(relay_settings(), false, "example.com".to_string());
    assert!(matches!(emails.backend(), EmailBackend::Smtp { .. }));
}

#[test]
fn incomplete_environment_chooses_the_spool_directory() {
    let settings = MailSettings {
        login: Some("mailer@example.com".to_string()),
        password: None,
        server: Some("smtp.example.com".to_string()),
    };
    let emails = Emails::try_from_environment(settings, false, "example.com".to_string()).unwrap();
    match emails.backend() {
        EmailBackend::FileSystem { path } => assert_eq!(path, "/tmp"),
        _ => panic!("expected the spool directory"),
    }
}

#[test]
fn empty_environment_uses_the_default_sender() {
    let settings = MailSettings {
        login: None,
        password: None,
        server: None,
    };
    let emails = Emails::try_from_environment(settings, false, "example.com".to_string()).unwrap();
    assert!(matches!(emails.backend(), EmailBackend::FileSystem { .. }));
    match emails.send("someone@example.com", TestEmail) {
        Ok(Delivery::Outbound(message)) => {
            let text = String::from_utf8(message.formatted()).unwrap();
            assert!(text.contains("From: noreply@crates.io"));
            assert!(text.contains("To: someone@example.com"));
        }
        other => panic!("expected a message to deliver, got {:?}", other),
    }
}

#[test]
fn production_needs_the_relay() {
    let settings = MailSettings {
        login: None,
        password: None,
        server: None,
    };
    assert!(Emails::try_from_environment(settings, true, "example.com".to_string()).is_none());
}

#[test]
fn login_that_is_no_address_makes_no_service() {
    let settings = MailSettings {
        login: Some("not an address".to_string()),
        password: Some("hunter2".to_string()),
        server: Some("smtp.example.com".to_string()),
    };
    assert!(Emails::try_from_environment(settings, false, "example.com".to_string()).is_none());
}

#[test]
fn relay_backend_hands_the_message_back() {
    let emails = Emails::try_from_environment(relay_settings(), true, "example.com".to_string())
        .unwrap();
    match emails.send("someone@example.com", TestEmail) {
        Ok(Delivery::Outbound(message)) => {
            let text = String::from_utf8(message.formatted()).unwrap();
            assert!(text.contains("From: mailer@example.com"));
            assert!(text.contains("@example.com>"));
        }
        other => panic!("expected a message to deliver, got {:?}", other),
    }
}

#[test]
fn stored_email_is_plain_data() {
    let stored = StoredEmail {
        to: "someone@example.com".to_string(),
        subject: "test".to_string(),
        body: "test".to_string(),
    };
    let copy = stored.clone();
    assert_eq!(copy.to, "someone@example.com");
    assert_eq!(copy.subject, "test");
    assert_eq!(copy.body, "test");
}

#[test]
fn draft_holds_what_the_message_is_built_from() {
    let emails = Emails::new_in_memory();
    let draft = emails
        .draft("Some One <someone@example.com>", "test", "test".to_string())
        .unwrap();
    assert_eq!(draft.subject, "test");
    assert_eq!(draft.body, "test");
    assert_eq!(draft.to.email.to_string(), "someone@example.com");
    assert_eq!(draft.to.name.as_deref(), Some("Some One"));
    assert_eq!(draft.from.to_string(), "noreply@crates.io");
    assert_eq!(draft.message_id.len(), 1 + 32 + "@crates.io>".len());
    assert!(draft.message_id.starts_with('<'));
    assert!(draft.message_id.ends_with("@crates.io>"));
    assert!(draft.message_id[1..33].chars().all(|c| c.is_ascii_alphanumeric()));
    assert_eq!(emails.mails_in_memory().unwrap().len(), 0);
}

#[test]
fn draft_turns_down_what_is_no_address() {
    let emails = Emails::new_in_memory();
    for recipient in ["", "someone", "@example.com", "someone@", "a b@example.com"] {
        assert!(matches!(
            emails.draft(recipient, "test", "test".to_string()),
            Err(EmailError::AddressError(_))
        ));
    }
}

#[test]
fn dispatch_passes_a_builder_error_on() {
    let emails = Emails::new_in_memory();
    let sent = emails.dispatch(Err(lettre::error::Error::MissingTo));
    assert!(matches!(
        sent,
        Err(EmailError::MessageBuilderError(lettre::error::Error::MissingTo))
    ));
    assert_eq!(emails.mails_in_memory().unwrap().len(), 0);
}

#[test]
fn backend_decides_what_becomes_of_a_message() {
    let message = lettre::Message::builder()
        .from("noreply@crates.io".parse().unwrap())
        .to("someone@example.com".parse().unwrap())
        .subject("test")
        .body("test".to_string())
        .unwrap();
    let memory = Emails::new_in_memory();
    assert!(matches!(
        memory.backend().send(message.clone()),
        Ok(Delivery::Recorded)
    ));
    assert_eq!(memory.mails_in_memory().unwrap().len(), 1);

    let spool = EmailBackend::FileSystem {
        path: "/tmp".to_string(),
    };
    match spool.send(message.clone()) {
        Ok(Delivery::Outbound(back)) => assert_eq!(back.formatted(), message.formatted()),
        other => panic!("expected the message back, got {:?}", other),
    }
}

#[test]
fn refusing_backend_gives_a_transport_error() {
    let backend = EmailBackend::Memory(lettre::transport::stub::StubTransport::new_error());
    let emails = Emails::with_backend(
        backend,
        "example.com".to_string(),
        "noreply@example.com".parse().unwrap(),
    );
    match emails.send("someone@example.com", TestEmail) {
        Err(EmailError::TransportError(text)) => assert_eq!(text, "stub error"),
        other => panic!("expected a transport error, got {:?}", other),
    }
    // The stub transport logs a message before it answers.
    assert_eq!(emails.mails_in_memory().unwrap().len(), 1);
    assert!(matches!(
        emails.send("no address", TestEmail),
        Err(EmailError::AddressError(_))
    ));
}

#[test]
fn service_of_three_parts() {
    let emails = Emails::with_backend(
        EmailBackend::FileSystem {
            path: "/var/spool/mail".to_string(),
        },
        "example.com".to_string(),
        "Registry <noreply@example.com>".parse().unwrap(),
    );
    assert_eq!(emails.domain, "example.com");
    match emails.backend() {
        EmailBackend::FileSystem { path } => assert_eq!(path, "/var/spool/mail"),
        _ => panic!("expected the spool directory"),
    }
    let draft = emails
        .draft("someone@example.com", "test", "test".to_string())
        .unwrap();
    assert_eq!(draft.from.to_string(), "Registry <noreply@example.com>");
    assert!(draft.message_id.ends_with("@example.com>"));
}

#[test]
fn draft_is_sent_as_it_stands() {
    let emails = Emails::new_in_memory();
    let draft = emails
        .draft("someone@example.com", "greetings", "hello there".to_string())
        .unwrap();
    let id = draft.message_id.clone();
    assert!(matches!(emails.send_draft(draft), Ok(Delivery::Recorded)));
    let mails = emails.mails_in_memory().unwrap();
    assert_eq!(mails.len(), 1);
    let text = &mails[0].1;
    assert!(text.contains(&format!("Message-ID: {}", id)));
    assert!(text.contains("Subject: greetings"));
    assert!(text.contains("To: someone@example.com"));
    assert!(text.contains("From: noreply@crates.io"));
    assert!(text.ends_with("hello there"));
}

#[test]
fn in_memory_service_has_the_default_sender_and_domain() {
    let emails = Emails::new_in_memory();
    assert_eq!(emails.from().to_string(), "noreply@crates.io");
    assert_eq!(emails.domain(), "crates.io");
    assert_eq!(emails.mails_in_memory().unwrap().len(), 0);
    let other = Emails::new_in_memory();
    emails.send("someone@example.com", TestEmail).unwrap();
    assert_eq!(other.mails_in_memory().unwrap().len(), 0);
}

#[test]
fn sender_follows_the_login_alone() {
    let with_login = MailSettings {
        login: Some("Mailer <mailer@example.com>".to_string()),
        password: None,
        server: None,
    };
    let emails = Emails::from_environment(with_login, false, "example.com".to_string());
    assert!(matches!(emails.backend(), EmailBackend::FileSystem { .. }));
    assert_eq!(emails.from().to_string(), "Mailer <mailer@example.com>");

    let emails = Emails::from_environment(relay_settings(), true, "example.com".to_string());
    assert_eq!(emails.from().to_string(), "mailer@example.com");

    let without_login = MailSettings {
        login: None,
        password: Some("hunter2".to_string()),
        server: Some("smtp.example.com".to_string()),
    };
    let emails = Emails::from_environment(without_login, false, "example.com".to_string());
    assert_eq!(emails.from().to_string(), "noreply@crates.io");
}

#[test]
fn accepting_transport_records_and_refusing_transport_does_not_succeed() {
    let message = lettre::Message::builder()
        .from("noreply@crates.io".parse().unwrap())
        .to("someone@example.com".parse().unwrap())
        .subject("test")
        .body("test".to_string())
        .unwrap();
    let accepting = EmailBackend::Memory(lettre::transport::stub::StubTransport::new_ok());
    assert!(matches!(accepting.send(message.clone()), Ok(Delivery::Recorded)));
    let refusing = EmailBackend::Memory(lettre::transport::stub::StubTransport::new_error());
    match refusing.send(message) {
        Err(text) => assert_eq!(text, "stub error"),
        other => panic!("expected a refusal, got {:?}", other),
    }
}

#[test]
fn copy_of_a_service_answers_like_the_service() {
    let emails = Emails::new_in_memory();
    let copy = emails.clone();
    assert_eq!(copy.domain(), "crates.io");
    assert_eq!(copy.from().to_string(), "noreply@crates.io");
    assert!(matches!(
        copy.send("someone@example.com", TestEmail),
        Ok(Delivery::Recorded)
    ));
    // A copy of the in-memory backend writes into the log of the service it was made from.
    assert_eq!(emails.mails_in_memory().unwrap().len(), 1);
    let text = format!("{:?}", copy);
    assert!(text.contains("Memory"));
}
