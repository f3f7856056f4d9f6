use sms_gateway::address::{AddressError, Mailbox};
use sms_gateway::message::{CompositionError, IncomingSms, TransferEncoding};
use sms_gateway::pipeline::{
    Ack, Action, DeliveryError, GatewayConfig, Pipeline, Reply, RequestError, Stage, STATUS_FAILED,
    STATUS_OK,
};
use sms_gateway::timestamp::TimestampError;

fn config(sender: &str, destinations: &[&str]) -> GatewayConfig {
    GatewayConfig {
        keyfile: "key.pem".to_string(),
        cert: "cert.pem".to_string(),
        smtp_server: "relay.example.org".to_string(),
        smtp_port: 25,
        sender_email: sender.to_string(),
        destination_emails: destinations.iter().map(|d| d.to_string()).collect(),
        server_port: 8443,
    }
}

fn request() -> IncomingSms {
    IncomingSms {
        from: "+15551234567".to_string(),
        text: "hello".to_string(),
        sent_stamp: 1_700_000_000_000,
        received_stamp: 1_700_000_001_000,
    }
}

fn composed(config: &GatewayConfig) -> Pipeline {
    let decoded = Pipeline::start(request()).step(config, None);
    assert_eq!(decoded.stage(), Stage::Decoded);
    let composed = decoded.step(config, None);
    assert_eq!(composed.stage(), Stage::Composed);
    composed
}

#[test]
fn answers_200_when_the_relay_takes_the_email() {
    let config = config("gateway@example.org", &["ops@example.org", "oncall@example.org"]);
    let state = composed(&config);
    match &state {
        Pipeline::Composed { origin, email } => {
            assert_eq!(origin, "+15551234567");
            assert_eq!(email.subject, "SMS from +15551234567");
            assert!(email.body.contains("2023-11-14T22:13:20.000000000Z"));
            assert!(email.body.contains("2023-11-14T22:13:21.000000000Z"));
            assert!(email.body.contains("hello"));
            assert_eq!(
                email.body,
                "Sender: +15551234567\nSent: 2023-11-14T22:13:20.000000000Z\tReceived: 2023-11-14T22:13:21.000000000Z\n\nMessage:\nhello"
            );
            assert_eq!(email.to.len(), 2);
            assert_eq!(email.from.user, "gateway");
            assert_eq!(email.encoding, TransferEncoding::EightBit);
        },
        other => panic!("not composed: {:?}", other),
    }
    assert_eq!(state.action(), Action::Deliver);
    let sent = state.step(&config, Some(Ok(Ack {})));
    assert_eq!(sent, Pipeline::Sent { origin: "+15551234567".to_string() });
    assert_eq!(sent.action(), Action::Respond);
    let reply = sent.reply().unwrap();
    assert_eq!(reply.status(), 200);
    assert_eq!(reply, Reply::Success { message: "Email sent successfully".to_string() });
    assert_eq!(
        sent.log_line(),
        Some("Email sent successfully for SMS from +15551234567".to_string())
    );
}

#[test]
fn answers_500_when_the_relay_is_unreachable() {
    let config = config("gateway@example.org", &["ops@example.org"]);
    let refused = DeliveryError { description: "Connection refused (os error 111)".to_string() };
    let failed = composed(&config).step(&config, Some(Err(refused.clone())));
    assert_eq!(failed, Pipeline::Failed { error: RequestError::Delivery(refused) });
    let reply = failed.reply().unwrap();
    assert_eq!(reply.status(), 500);
    assert_eq!(
        reply,
        Reply::Failure {
            error: "Failed to send email: Connection refused (os error 111)".to_string()
        }
    );
    assert_eq!(
        failed.log_line(),
        Some("Failed to send email: Connection refused (os error 111)".to_string())
    );
    let next = composed(&config).step(&config, Some(Ok(Ack {})));
    assert_eq!(next.reply().unwrap().status(), 200);
}

#[test]
fn fails_on_a_timestamp_that_cannot_be_decoded() {
    let config = config("gateway@example.org", &["ops@example.org"]);
    let mut late = request();
    late.received_stamp = 253_402_300_800_000;
    let failed = Pipeline::start(late).step(&config, None);
    assert_eq!(
        failed,
        Pipeline::Failed { error: RequestError::Timestamp(TimestampError::Unrepresentable) }
    );
    let mut both = request();
    both.sent_stamp = u64::MAX;
    both.received_stamp = 253_402_300_800_000;
    let failed = Pipeline::start(both).step(&config, None);
    assert_eq!(
        failed,
        Pipeline::Failed { error: RequestError::Timestamp(TimestampError::OutOfRange) }
    );
    assert_eq!(
        failed.reply(),
        Some(Reply::Failure {
            error: "Failed to send email: timestamp does not fit signed 64-bit milliseconds"
                .to_string()
        })
    );
}

#[test]
fn fails_on_a_malformed_sender_before_the_recipients() {
    let config = config("\"a b\"@x.com", &["nope"]);
    let decoded = Pipeline::start(request()).step(&config, None);
    let failed = decoded.step(&config, None);
    assert_eq!(failed, Pipeline::Failed { error: RequestError::Address(AddressError::InvalidUser) });
    assert_eq!(failed.reply().unwrap().status(), STATUS_FAILED);
}

#[test]
fn fails_on_a_malformed_recipient() {
    let config = config("gateway@example.org", &["ops@example.org", "a@xn--.com"]);
    let failed = Pipeline::start(request()).step(&config, None).step(&config, None);
    assert_eq!(
        failed,
        Pipeline::Failed { error: RequestError::Address(AddressError::InvalidDomain) }
    );
    assert_eq!(
        failed.reply(),
        Some(Reply::Failure { error: "Failed to send email: Invalid email domain".to_string() })
    );
}

#[test]
fn fails_without_recipients() {
    let config = config("gateway@example.org", &[]);
    let failed = Pipeline::start(request()).step(&config, None).step(&config, None);
    assert_eq!(
        failed,
        Pipeline::Failed { error: RequestError::Composition(CompositionError::MissingRecipients) }
    );
    let blank = self::config("gateway@example.org", &[" ", ";"]);
    let failed = Pipeline::start(request()).step(&blank, None).step(&blank, None);
    assert_eq!(failed.stage(), Stage::Failed);
}

#[test]
fn takes_several_addresses_from_one_entry() {
    let config = config("Gateway <gateway@example.org>", &["a@x.com; b@y.com", "c@z.com"]);
    match composed(&config) {
        Pipeline::Composed { email, .. } => {
            let users: Vec<&str> = email.to.iter().map(|m| m.user.as_str()).collect();
            assert_eq!(users, vec!["a", "b", "c"]);
            assert_eq!(
                email.from,
                Mailbox {
                    name: Some("Gateway".to_string()),
                    user: "gateway".to_string(),
                    domain: "example.org".to_string(),
                }
            );
        },
        other => panic!("not composed: {:?}", other),
    }
}

#[test]
fn moves_through_the_stages_in_order() {
    let config = config("gateway@example.org", &["ops@example.org"]);
    let received = Pipeline::start(request());
    assert_eq!(received.stage(), Stage::Received);
    assert_eq!(received.action(), Action::Advance);
    assert_eq!(received.reply(), None);
    assert_eq!(received.log_line(), None);
    let decoded = received.step(&config, Some(Ok(Ack {})));
    assert_eq!(
        decoded,
        Pipeline::Decoded {
            sms: request(),
            sent_text: "2023-11-14T22:13:20.000000000Z".to_string(),
            received_text: "2023-11-14T22:13:21.000000000Z".to_string(),
        }
    );
    assert_eq!(decoded.action(), Action::Advance);
    let composed = decoded.step(&config, Some(Ok(Ack {})));
    assert_eq!(composed.stage(), Stage::Composed);
    assert_eq!(composed.reply(), None);
    let waiting = composed.clone().step(&config, None);
    assert_eq!(waiting, composed);
    let sent = waiting.step(&config, Some(Ok(Ack {})));
    assert_eq!(sent.stage(), Stage::Sent);
}

#[test]
fn leaves_final_states_as_they_are() {
    let config = config("gateway@example.org", &["ops@example.org"]);
    let sent = Pipeline::Sent { origin: "+1".to_string() };
    let error = DeliveryError { description: "late".to_string() };
    assert_eq!(sent.clone().step(&config, Some(Err(error.clone()))), sent);
    assert_eq!(sent.clone().step(&config, None), sent);
    let failed = Pipeline::Failed { error: RequestError::Delivery(error) };
    assert_eq!(failed.clone().step(&config, Some(Ok(Ack {}))), failed);
    assert_eq!(failed.clone().step(&config, None), failed);
}

#[test]
fn describes_request_errors() {
    assert_eq!(
        RequestError::Timestamp(TimestampError::Unrepresentable).describe(),
        "timestamp lies beyond the last representable instant"
    );
    assert_eq!(RequestError::Address(AddressError::InvalidInput).describe(), "Invalid input");
    assert_eq!(
        RequestError::Composition(CompositionError::InvalidSender).describe(),
        "sender address lacks its user or its domain"
    );
    assert_eq!(
        RequestError::Delivery(DeliveryError { description: "timed out".to_string() }).describe(),
        "timed out"
    );
    assert_eq!(STATUS_OK, 200);
    assert_eq!(STATUS_FAILED, 500);
}
