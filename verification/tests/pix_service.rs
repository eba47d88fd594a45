use pix_service::gateway::{EulenApi, GatewayError};
use pix_service::mailbox::{Mailbox, SendError};
use pix_service::models::{
    Deposit, EulenDepositStatus, ServiceError, TransactionServiceRequest,
};
use pix_service::pix::{
    DepositNext, PixAction, PixRequestHandler, PixService, PixServiceRequest,
};
use pix_service::reply::ReplySlot;
use pix_service::runtime::{RequestHandler, ServiceRuntime};

fn handler_with_bound(bound: usize) -> PixRequestHandler {
    PixRequestHandler::new(
        "token".to_string(),
        "https://gateway.example".to_string(),
        Mailbox::<TransactionServiceRequest>::new(bound),
    )
}

fn paid_callback(bank_tx_id: &str) -> EulenDepositStatus {
    EulenDepositStatus {
        bank_tx_id: bank_tx_id.to_string(),
        status: "paid".to_string(),
    }
}

const ACK_BODY: &str =
    "{\"response\":{\"bank_tx_id\":\"gw-77\",\"amountInCents\":1500,\"depixAddress\":\"addr-9\"}}";

#[test]
fn deposit_success_replies_with_echoed_fields() {
    let mut handler = handler_with_bound(4);
    let request = PixServiceRequest::Deposit {
        address: "addr-9".to_string(),
        amount_in_cents: 1500,
        transaction_id: "tx-1".to_string(),
        response: ReplySlot::new(),
    };
    let flight = match handler.handle_request(request) {
        PixAction::CallGateway(flight) => flight,
        PixAction::ResolveCallback(_) => panic!("a deposit request needs a gateway call"),
    };
    assert_eq!(flight.transaction_id, "tx-1");
    assert_eq!(flight.amount_in_cents, 1500);
    assert_eq!(flight.address, "addr-9");
    assert_eq!(flight.nonce.len(), 36);

    let pending = match PixRequestHandler::on_gateway_response(flight, Ok(ACK_BODY.to_string())) {
        DepositNext::Persist(pending) => pending,
        DepositNext::Done(_) => panic!("an acknowledged deposit goes on to persistence"),
    };
    assert_eq!(pending.deposit.transaction_id, "tx-1");
    assert_eq!(pending.deposit.amount_in_cents, 1500);
    assert_eq!(pending.deposit.address, "addr-9");

    let mut slot = PixRequestHandler::on_persisted(pending, Ok(()));
    match slot.take() {
        Some(Ok(deposit)) => {
            assert_eq!(deposit.transaction_id, "tx-1");
            assert_eq!(deposit.amount_in_cents, 1500);
            assert_eq!(deposit.address, "addr-9");
        }
        other => panic!("expected a successful deposit reply, got {:?}", other.is_some()),
    }
}

#[test]
fn gateway_body_round_trips_amount_and_address() {
    let ack = EulenApi::parse_deposit_response(ACK_BODY).expect("the body carries the payload");
    assert_eq!(ack.bank_tx_id, "gw-77");
    assert_eq!(ack.amount_in_cents, 1500);
    assert_eq!(ack.address, "addr-9");
}

#[test]
fn missing_response_key_is_a_protocol_error_without_persistence() {
    let mut handler = handler_with_bound(4);
    let flight = match handler.handle_request(PixServiceRequest::Deposit {
        address: "addr-9".to_string(),
        amount_in_cents: 1500,
        transaction_id: "tx-1".to_string(),
        response: ReplySlot::new(),
    }) {
        PixAction::CallGateway(flight) => flight,
        PixAction::ResolveCallback(_) => panic!("a deposit request needs a gateway call"),
    };
    let body = "{\"result\":{\"amountInCents\":1500}}".to_string();
    let mut slot = match PixRequestHandler::on_gateway_response(flight, Ok(body)) {
        DepositNext::Done(slot) => slot,
        DepositNext::Persist(_) => panic!("a malformed body must not reach persistence"),
    };
    match slot.take() {
        Some(Err(ServiceError::Repository(component, message))) => {
            assert_eq!(component, "Pix");
            assert_eq!(message, "Eulen: Bad response format.");
        }
        _ => panic!("expected a protocol error reply"),
    }
}

#[test]
fn unparsable_body_is_a_protocol_error() {
    match EulenApi::parse_deposit_response("not json at all") {
        Err(GatewayError::BadResponseFormat) => {}
        _ => panic!("expected the protocol error"),
    }
    assert_eq!(
        GatewayError::BadResponseFormat.message(),
        "Eulen: Bad response format."
    );
}

#[test]
fn transport_failure_is_surfaced_once_to_the_caller() {
    let mut handler = handler_with_bound(4);
    let flight = match handler.handle_request(PixServiceRequest::Deposit {
        address: "addr-9".to_string(),
        amount_in_cents: 1500,
        transaction_id: "tx-1".to_string(),
        response: ReplySlot::new(),
    }) {
        PixAction::CallGateway(flight) => flight,
        PixAction::ResolveCallback(_) => panic!("a deposit request needs a gateway call"),
    };
    let mut slot =
        match PixRequestHandler::on_gateway_response(flight, Err("connection refused".to_string()))
        {
            DepositNext::Done(slot) => slot,
            DepositNext::Persist(_) => panic!("a transport failure must not reach persistence"),
        };
    match slot.take() {
        Some(Err(ServiceError::Repository(component, message))) => {
            assert_eq!(component, "Pix");
            assert_eq!(message, "connection refused");
        }
        _ => panic!("expected a transport error reply"),
    }
}

#[test]
fn persistence_failure_is_tagged_for_the_caller() {
    let pending = pix_service::pix::PersistInFlight {
        deposit: Deposit {
            transaction_id: "tx-1".to_string(),
            amount_in_cents: 1500,
            address: "addr-9".to_string(),
        },
        reply: ReplySlot::new(),
    };
    let mut slot = PixRequestHandler::on_persisted(pending, Err("row insert failed".to_string()));
    match slot.take() {
        Some(Err(ServiceError::Repository(component, message))) => {
            assert_eq!(component, "Pix");
            assert_eq!(message, "row insert failed");
        }
        _ => panic!("expected a persistence error reply"),
    }
}

#[test]
fn unknown_callback_succeeds_with_zero_notifications() {
    let mut handler = handler_with_bound(4);
    let mut slot =
        handler.update_deposit_status(paid_callback("unknown-tx"), Ok(None), ReplySlot::new());
    assert!(matches!(slot.take(), Some(Ok(()))));
    assert_eq!(handler.outbox.len(), 0);
    assert!(handler.outbox.recv().is_none());
}

#[test]
fn resolved_paid_callback_notifies_exactly_once_with_eulen_paid() {
    let mut handler = handler_with_bound(4);
    let mut slot = handler.update_deposit_status(
        paid_callback("gw-77"),
        Ok(Some("tx-42".to_string())),
        ReplySlot::new(),
    );
    // The reply is already complete before anything drains the outbox.
    assert!(matches!(slot.take(), Some(Ok(()))));
    assert_eq!(handler.outbox.len(), 1);
    let TransactionServiceRequest::UpdateTransactionStatus { transaction_id, status } =
        handler.outbox.recv().expect("exactly one notification");
    assert_eq!(transaction_id, "tx-42");
    assert_eq!(status, "eulen_paid");
    assert!(handler.outbox.recv().is_none());
}

#[test]
fn closed_transaction_mailbox_does_not_fail_reconciliation() {
    let mut outbox = Mailbox::<TransactionServiceRequest>::new(4);
    outbox.close();
    let mut handler =
        PixRequestHandler::new("token".to_string(), "https://gateway.example".to_string(), outbox);
    let mut slot = handler.update_deposit_status(
        paid_callback("gw-77"),
        Ok(Some("tx-42".to_string())),
        ReplySlot::new(),
    );
    assert!(matches!(slot.take(), Some(Ok(()))));
    assert_eq!(handler.outbox.len(), 0);
}

#[test]
fn full_transaction_mailbox_swallows_the_notification() {
    let mut outbox = Mailbox::<TransactionServiceRequest>::new(1);
    outbox
        .send(TransactionServiceRequest::UpdateTransactionStatus {
            transaction_id: "tx-1".to_string(),
            status: "eulen_pending".to_string(),
        })
        .expect("the first send fits");
    let mut handler =
        PixRequestHandler::new("token".to_string(), "https://gateway.example".to_string(), outbox);
    let mut slot = handler.update_deposit_status(
        paid_callback("gw-77"),
        Ok(Some("tx-42".to_string())),
        ReplySlot::new(),
    );
    assert!(matches!(slot.take(), Some(Ok(()))));
    assert_eq!(handler.outbox.len(), 1);
}

#[test]
fn repository_failure_on_callback_is_an_error_without_notification() {
    let mut handler = handler_with_bound(4);
    let mut slot = handler.update_deposit_status(
        paid_callback("gw-77"),
        Err("lookup failed".to_string()),
        ReplySlot::new(),
    );
    match slot.take() {
        Some(Err(ServiceError::Repository(component, message))) => {
            assert_eq!(component, "Pix");
            assert_eq!(message, "lookup failed");
        }
        _ => panic!("expected a repository error reply"),
    }
    assert_eq!(handler.outbox.len(), 0);
}

#[test]
fn two_deposits_are_processed_in_send_order() {
    let mut mailbox = Mailbox::<PixServiceRequest>::new(8);
    for transaction_id in ["tx-first", "tx-second"] {
        mailbox
            .send(PixServiceRequest::Deposit {
                address: "addr-9".to_string(),
                amount_in_cents: 1500,
                transaction_id: transaction_id.to_string(),
                response: ReplySlot::new(),
            })
            .expect("the mailbox has room");
    }
    let mut handler = handler_with_bound(4);
    let mut seen: Vec<String> = Vec::new();
    while let Some(request) = mailbox.recv() {
        match handler.handle_request(request) {
            PixAction::CallGateway(flight) => seen.push(flight.transaction_id),
            PixAction::ResolveCallback(_) => panic!("only deposits were sent"),
        }
    }
    assert_eq!(seen, vec!["tx-first".to_string(), "tx-second".to_string()]);
}

#[test]
fn mailbox_is_fifo_bounded_and_closable() {
    let mut mailbox = Mailbox::<i32>::new(2);
    assert_eq!(mailbox.len(), 0);
    assert!(mailbox.recv().is_none());
    assert_eq!(mailbox.send(10), Ok(()));
    assert_eq!(mailbox.send(20), Ok(()));
    assert_eq!(mailbox.send(30), Err(SendError::Full));
    assert_eq!(mailbox.recv(), Some(10));
    assert_eq!(mailbox.send(30), Ok(()));
    mailbox.close();
    assert!(mailbox.closed_now());
    assert_eq!(mailbox.send(40), Err(SendError::Closed));
    // Messages already queued are still drained, in order.
    assert_eq!(mailbox.recv(), Some(20));
    assert_eq!(mailbox.recv(), Some(30));
    assert_eq!(mailbox.recv(), None);
}

#[test]
fn reply_slot_is_completed_exactly_once_and_taken() {
    let mut slot: ReplySlot<u32> = ReplySlot::new();
    assert!(!slot.is_completed());
    slot.complete(7);
    assert!(slot.is_completed());
    assert_eq!(slot.take(), Some(7));
    assert!(!slot.is_completed());
    assert_eq!(slot.take(), None);
}

#[test]
fn fresh_nonces_have_the_hyphenated_length() {
    let first = EulenApi::fresh_nonce();
    let second = EulenApi::fresh_nonce();
    assert_eq!(first.len(), 36);
    assert_eq!(second.len(), 36);
}

#[test]
fn eulen_api_keeps_its_configuration() {
    let api = EulenApi::new("token".to_string(), "https://gateway.example".to_string());
    assert_eq!(api.auth_token, "token");
    assert_eq!(api.url, "https://gateway.example");
    let _service = PixService::new();
}

#[test]
fn service_runtime_steps_requests_in_send_order() {
    let mut runtime = ServiceRuntime::new(8, handler_with_bound(4));
    for transaction_id in ["tx-first", "tx-second"] {
        runtime
            .send(PixServiceRequest::Deposit {
                address: "addr-9".to_string(),
                amount_in_cents: 1500,
                transaction_id: transaction_id.to_string(),
                response: ReplySlot::new(),
            })
            .expect("the mailbox has room");
    }
    let mut seen: Vec<String> = Vec::new();
    let first = runtime.step().expect("two requests are pending");
    let rest = runtime.process_pending();
    assert_eq!(rest.len(), 1);
    assert!(runtime.step().is_none());
    for action in std::iter::once(first).chain(rest) {
        match action {
            PixAction::CallGateway(flight) => seen.push(flight.transaction_id),
            PixAction::ResolveCallback(_) => panic!("only deposits were sent"),
        }
    }
    assert_eq!(seen, vec!["tx-first".to_string(), "tx-second".to_string()]);
    assert_eq!(runtime.mailbox.len(), 0);
}
