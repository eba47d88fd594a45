//! The Pix service: the request vocabulary of the service, and the handler
//! that creates deposits against the external gateway and reconciles gateway
//! status callbacks against stored transactions.
//!
//! The handler is a state machine driven by the unverified loop around the
//! library. Each request is admitted with its single-use reply slot; the
//! driver performs the gateway call and the persistence call and hands their
//! outcomes back; the handler decides, for every outcome, what is persisted,
//! what is replied, and what is notified downstream. Exactly one reply is
//! delivered per request, on every path: every path through the handler ends
//! in a completed reply slot.

use crate::gateway::{parsed_gateway_deposit, EulenApi, GatewayError};
use crate::mailbox::Mailbox;
use crate::models::{
    Deposit, DepositModel, EulenDepositModel, EulenDepositStatus, ServiceError, ServiceErrorModel,
    TransactionServiceRequest, TransactionServiceRequestModel,
};
use crate::reply::ReplySlot;
use crate::runtime::RequestHandler;
use vstd::prelude::*;

verus! {

/// The requests the Pix service accepts. Each carries the single-use reply
/// slot through which its result is delivered.
pub enum PixServiceRequest {
    /// Create a deposit of `amount_in_cents` to `address` for the pre-existing
    /// internal transaction `transaction_id`.
    Deposit {
        /// Gateway-specific destination account identifier; non-empty.
        address: String,
        /// Amount in minor currency units; strictly positive.
        amount_in_cents: i32,
        /// Identifier of the pre-existing internal transaction.
        transaction_id: String,
        /// Where the persisted deposit, or the error, is delivered.
        response: ReplySlot<Result<Deposit, ServiceError>>,
    },
    /// Reconcile an asynchronous gateway status callback.
    UpdateEulenStatus {
        /// The callback as delivered by the ingress layer.
        eulen_status: EulenDepositStatus,
        /// Where success, or the error, is delivered.
        response: ReplySlot<Result<(), ServiceError>>,
    },
}

/// The deposit the service persists and replies with when the gateway
/// acknowledges a request on transaction `transaction_id` with `g`: the
/// supplied transaction identifier together with the amount and address
/// echoed by the gateway.
pub open spec fn deposit_of(transaction_id: Seq<char>, g: EulenDepositModel) -> DepositModel {
    DepositModel {
        transaction_id: transaction_id,
        amount_in_cents: g.amount_in_cents,
        address: g.address,
    }
}

/// The status forwarded to the Transaction Service for raw gateway status
/// `raw`: the gateway's vocabulary namespaced under the `eulen_` prefix, so
/// the receiver can tell status sources apart.
pub open spec fn eulen_status_of(raw: Seq<char>) -> Seq<char> {
    "eulen_"@ + raw
}

/// The component tag every failure of the Pix service carries.
pub open spec fn pix_component() -> Seq<char> {
    "Pix"@
}

/// A deposit request the handler has admitted, awaiting its gateway call. The
/// driver posts `{url}/api/deposit` with the amount and address, tagged with
/// the nonce, and hands the outcome to [`PixRequestHandler::on_gateway_response`].
pub struct DepositInFlight {
    /// Identifier of the internal transaction the deposit belongs to.
    pub transaction_id: String,
    /// Amount in minor currency units; strictly positive.
    pub amount_in_cents: i32,
    /// Destination address; non-empty.
    pub address: String,
    /// Fresh random nonce tagging this one outbound call.
    pub nonce: String,
    /// The caller's reply slot, still empty.
    pub reply: ReplySlot<Result<Deposit, ServiceError>>,
}

/// An acknowledged deposit awaiting persistence. The driver persists
/// `deposit` and hands the outcome to [`PixRequestHandler::on_persisted`].
pub struct PersistInFlight {
    /// The record to persist: the supplied transaction identifier with the
    /// gateway's echoed amount and address.
    pub deposit: Deposit,
    /// The caller's reply slot, still empty.
    pub reply: ReplySlot<Result<Deposit, ServiceError>>,
}

/// What follows the gateway call of a deposit request.
pub enum DepositNext {
    /// The gateway acknowledged: persist the deposit, then report the outcome
    /// through [`PixRequestHandler::on_persisted`].
    Persist(PersistInFlight),
    /// The request failed before persistence; the reply slot already carries
    /// the error.
    Done(ReplySlot<Result<Deposit, ServiceError>>),
}

/// A status callback the handler has admitted, awaiting its repository
/// resolution. The driver resolves `eulen_status.bank_tx_id` to zero or one
/// internal transaction and hands the outcome to
/// [`PixRequestHandler::update_deposit_status`].
pub struct CallbackInFlight {
    /// The callback being reconciled.
    pub eulen_status: EulenDepositStatus,
    /// The caller's reply slot, still empty.
    pub reply: ReplySlot<Result<(), ServiceError>>,
}

/// The first outside call a request needs, as decided by
/// [`PixRequestHandler::handle_request`].
pub enum PixAction {
    /// Perform the gateway deposit call for this flight.
    CallGateway(DepositInFlight),
    /// Resolve this callback against the repository.
    ResolveCallback(CallbackInFlight),
}

/// The request handler of the Pix service. It owns the gateway client
/// configuration and the best-effort outbox toward the Transaction Service;
/// notifications submitted there are at-most-once and never retried.
pub struct PixRequestHandler {
    /// Configuration of the outbound gateway client.
    pub api: EulenApi,
    /// Best-effort outbox toward the Transaction Service. The driver drains
    /// it into that service's own mailbox; a refused send is swallowed.
    pub outbox: Mailbox<TransactionServiceRequest>,
}

impl PixRequestHandler {
    /// A handler for the given gateway credentials, notifying the Transaction
    /// Service through `outbox`.
    pub fn new(
        eulen_auth_token: String,
        eulen_url: String,
        outbox: Mailbox<TransactionServiceRequest>,
    ) -> (r: PixRequestHandler)
        ensures
            r.api.auth_token@ == eulen_auth_token@,
            r.api.url@ == eulen_url@,
            r.outbox == outbox,
    {
        PixRequestHandler { api: EulenApi::new(eulen_auth_token, eulen_url), outbox }
    }

    /// Admit one deposit request: take the caller's reply slot along and tag
    /// the outbound call with a fresh nonce.
    pub fn new_pix_deposit(
        &self,
        amount_in_cents: i32,
        address: String,
        transaction_id: String,
        reply: ReplySlot<Result<Deposit, ServiceError>>,
    ) -> (r: DepositInFlight)
        requires
            amount_in_cents > 0,
            address@.len() > 0,
            reply.reply() is None,
        ensures
            r.transaction_id@ == transaction_id@,
            r.amount_in_cents == amount_in_cents,
            r.address@ == address@,
            r.nonce@.len() == 36,
            r.reply.reply() is None,
    {
        let nonce = EulenApi::fresh_nonce();
        DepositInFlight { transaction_id, amount_in_cents, address, nonce, reply }
    }

    /// Decide what follows the gateway call. `body` is the provider's response
    /// body, or the transport layer's error description. A body carrying the
    /// expected `"response"` payload goes on to persistence with the echoed
    /// amount and address; any other outcome completes the reply with a tagged
    /// error and persists nothing.
    pub fn on_gateway_response(flight: DepositInFlight, body: Result<String, String>) -> (r:
        DepositNext)
        requires
            flight.reply.reply() is None,
        ensures
            body matches Ok(b) ==> (parsed_gateway_deposit(b@) is Some ==> (r matches
                DepositNext::Persist(p) && p.deposit@ == deposit_of(
                flight.transaction_id@,
                parsed_gateway_deposit(b@)->Some_0,
            ) && p.reply.reply() is None)),
            body matches Ok(b) ==> (parsed_gateway_deposit(b@) is None ==> (r matches
                DepositNext::Done(s) && s.reply() matches Some(rep) && rep matches Err(e) && e@
                == (ServiceErrorModel {
                component: pix_component(),
                message: GatewayError::BadResponseFormat.message_model(),
            }))),
            body matches Err(m) ==> (r matches DepositNext::Done(s) && s.reply() matches Some(
                rep,
            ) && rep matches Err(e) && e@ == (ServiceErrorModel {
                component: pix_component(),
                message: m@,
            })),
    {
        let DepositInFlight { transaction_id, amount_in_cents, address, nonce, mut reply } = flight;
        match body {
            Ok(b) => {
                match EulenApi::parse_deposit_response(b.as_str()) {
                    Ok(ack) => {
                        let deposit = Deposit {
                            transaction_id,
                            amount_in_cents: ack.amount_in_cents,
                            address: ack.address,
                        };
                        DepositNext::Persist(PersistInFlight { deposit, reply })
                    },
                    Err(e) => {
                        reply.complete(
                            Err(ServiceError::Repository(String::from_str("Pix"), e.message())),
                        );
                        DepositNext::Done(reply)
                    },
                }
            },
            Err(m) => {
                reply.complete(Err(ServiceError::Repository(String::from_str("Pix"), m)));
                DepositNext::Done(reply)
            },
        }
    }

    /// Complete a deposit request once persistence has been attempted: reply
    /// with the persisted deposit, or with the persistence failure tagged for
    /// the caller.
    pub fn on_persisted(p: PersistInFlight, outcome: Result<(), String>) -> (r: ReplySlot<
        Result<Deposit, ServiceError>,
    >)
        requires
            p.reply.reply() is None,
        ensures
            outcome is Ok ==> (r.reply() matches Some(rep) && rep matches Ok(d) && d@
                == p.deposit@),
            outcome matches Err(m) ==> (r.reply() matches Some(rep) && rep matches Err(e) && e@
                == (ServiceErrorModel { component: pix_component(), message: m@ })),
    {
        let PersistInFlight { deposit, mut reply } = p;
        match outcome {
            Ok(()) => reply.complete(Ok(deposit)),
            Err(m) => reply.complete(
                Err(ServiceError::Repository(String::from_str("Pix"), m)),
            ),
        }
        reply
    }

    /// Reconcile one status callback once the repository has resolved it.
    /// `resolution` is the repository's answer: the internal transaction the
    /// callback maps to, `None` when the callback is unknown to this system
    /// (a valid outcome, acknowledged silently), or the persistence failure.
    ///
    /// When a transaction resolves, exactly one notification carrying the
    /// namespaced status is submitted to the outbox, best-effort: a refused
    /// send — outbox closed or full — is swallowed, and the caller sees
    /// success either way, without waiting on delivery.
    pub fn update_deposit_status(
        &mut self,
        eulen_deposit: EulenDepositStatus,
        resolution: Result<Option<String>, String>,
        reply: ReplySlot<Result<(), ServiceError>>,
    ) -> (r: ReplySlot<Result<(), ServiceError>>)
        requires
            reply.reply() is None,
        ensures
            final(self).api == old(self).api,
            final(self).outbox.bound() == old(self).outbox.bound(),
            final(self).outbox.is_closed() == old(self).outbox.is_closed(),
            resolution matches Err(m) ==> (r.reply() matches Some(rep) && rep matches Err(e)
                && e@ == (ServiceErrorModel { component: pix_component(), message: m@ })
                && final(self).outbox@ == old(self).outbox@),
            resolution matches Ok(t) ==> (t is None ==> r.reply() == Some(
                Ok::<(), ServiceError>(()),
            ) && final(self).outbox@ == old(self).outbox@),
            resolution matches Ok(t) ==> (t is Some ==> r.reply() == Some(
                Ok::<(), ServiceError>(()),
            )),
            resolution matches Ok(t) ==> (t matches Some(tx) ==> ((!old(self).outbox.is_closed()
                && old(self).outbox@.len() < old(self).outbox.bound()) ==> {
                &&& final(self).outbox@.len() == old(self).outbox@.len() + 1
                &&& final(self).outbox@.drop_last() =~= old(self).outbox@
                &&& final(self).outbox@.last()@ == (TransactionServiceRequestModel {
                    transaction_id: tx@,
                    status: eulen_status_of(eulen_deposit.status@),
                })
            })),
            resolution matches Ok(t) ==> (t is Some ==> ((old(self).outbox.is_closed()
                || old(self).outbox@.len() >= old(self).outbox.bound())
                ==> final(self).outbox@ == old(self).outbox@)),
    {
        let mut reply = reply;
        match resolution {
            Err(m) => {
                reply.complete(Err(ServiceError::Repository(String::from_str("Pix"), m)));
                reply
            },
            Ok(None) => {
                reply.complete(Ok(()));
                reply
            },
            Ok(Some(transaction_id)) => {
                let status = String::from_str("eulen_").concat(eulen_deposit.status.as_str());
                let notification = TransactionServiceRequest::UpdateTransactionStatus {
                    transaction_id,
                    status,
                };
                let _ = self.outbox.send(notification);
                reply.complete(Ok(()));
                reply
            },
        }
    }

}

impl RequestHandler<PixServiceRequest> for PixRequestHandler {
    type Action = PixAction;

    /// A deposit request is admitted when its amount is strictly positive,
    /// its address is non-empty and its reply slot is still empty; a callback
    /// when its reply slot is still empty.
    open spec fn admits(request: PixServiceRequest) -> bool {
        &&& request matches PixServiceRequest::Deposit { amount_in_cents, address, response, .. }
            ==> amount_in_cents > 0 && address@.len() > 0 && response.reply() is None
        &&& request matches PixServiceRequest::UpdateEulenStatus { response, .. }
            ==> response.reply() is None
    }

    /// Dispatching never touches the handler's state. A deposit request asks
    /// the driver for its gateway call, with the request's own fields, a fresh
    /// nonce and the still-empty reply slot; a callback asks for its
    /// repository resolution.
    open spec fn action_of(&self, request: PixServiceRequest, action: PixAction, post: Self) -> bool {
        &&& post == *self
        &&& (request matches PixServiceRequest::Deposit {
            amount_in_cents,
            address,
            transaction_id,
            response,
        } ==> (action matches PixAction::CallGateway(f) && f.transaction_id@ == transaction_id@
            && f.amount_in_cents == amount_in_cents && f.address@ == address@ && f.nonce@.len()
            == 36 && f.reply.reply() is None))
        &&& (request matches PixServiceRequest::UpdateEulenStatus { eulen_status, response } ==> (
        action matches PixAction::ResolveCallback(c) && c.eulen_status@ == eulen_status@
            && c.reply.reply() is None))
    }

    /// Dispatch one dequeued request: admit it and name the first outside call
    /// it needs. The driver performs that call and feeds its outcome back into
    /// [`Self::on_gateway_response`] or [`Self::update_deposit_status`].
    fn handle_request(&mut self, request: PixServiceRequest) -> (r: PixAction) {
        match request {
            PixServiceRequest::Deposit { address, amount_in_cents, transaction_id, response } => {
                PixAction::CallGateway(
                    self.new_pix_deposit(amount_in_cents, address, transaction_id, response),
                )
            },
            PixServiceRequest::UpdateEulenStatus { eulen_status, response } => {
                PixAction::ResolveCallback(CallbackInFlight { eulen_status, reply: response })
            },
        }
    }
}

/// The Pix service: the named endpoint whose
/// [`ServiceRuntime`](crate::runtime::ServiceRuntime) over
/// [`PixServiceRequest`]s the driver loops, one request at a time, through one
/// [`PixRequestHandler`].
pub struct PixService;

impl PixService {
    /// A handle for the Pix service.
    pub fn new() -> (r: PixService) {
        PixService
    }
}

/// For every valid deposit request, a successful gateway acknowledgment `g`
/// followed by successful persistence replies with exactly the deposit whose
/// transaction identifier is the one the caller supplied and whose amount and
/// address are the ones the gateway echoed.
pub proof fn lemma_deposit_reply_fields(transaction_id: Seq<char>, g: EulenDepositModel)
    ensures
        deposit_of(transaction_id, g).transaction_id == transaction_id,
        deposit_of(transaction_id, g).amount_in_cents == g.amount_in_cents,
        deposit_of(transaction_id, g).address == g.address,
{
}

/// Round trip: when the gateway's response body echoes the requested amount
/// and address, the deposit derived from that body for persistence carries
/// back exactly the requested amount and address.
pub proof fn lemma_deposit_round_trip(
    amount_in_cents: int,
    address: Seq<char>,
    transaction_id: Seq<char>,
    body: Seq<char>,
)
    requires
        parsed_gateway_deposit(body) is Some,
        parsed_gateway_deposit(body)->Some_0.amount_in_cents == amount_in_cents,
        parsed_gateway_deposit(body)->Some_0.address == address,
    ensures
        deposit_of(transaction_id, parsed_gateway_deposit(body)->Some_0).amount_in_cents
            == amount_in_cents,
        deposit_of(transaction_id, parsed_gateway_deposit(body)->Some_0).address == address,
{
}

/// A resolved callback whose raw gateway status is `"paid"` notifies the
/// Transaction Service with the derived status `"eulen_paid"`.
pub proof fn lemma_paid_status_namespaced()
    ensures
        eulen_status_of("paid"@) == "eulen_paid"@,
{
    reveal_strlit("eulen_");
    reveal_strlit("paid");
    reveal_strlit("eulen_paid");
    assert(eulen_status_of("paid"@) =~= "eulen_paid"@);
}

} // verus!
