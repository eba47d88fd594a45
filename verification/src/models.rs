//! Data carried through the Pix service: deposits, gateway acknowledgments,
//! gateway status callbacks, and the service's error and message types.

use vstd::prelude::*;

verus! {

/// An internal deposit record: the outcome of a successful deposit request,
/// persisted exactly once and immutable thereafter.
pub struct Deposit {
    /// Identifier of the pre-existing internal transaction the deposit belongs to.
    pub transaction_id: String,
    /// Amount in minor currency units, as echoed by the gateway.
    pub amount_in_cents: i32,
    /// Gateway-specific destination account identifier, as echoed by the gateway.
    pub address: String,
}

/// Ghost model of a [`Deposit`].
pub ghost struct DepositModel {
    pub transaction_id: Seq<char>,
    pub amount_in_cents: int,
    pub address: Seq<char>,
}

impl View for Deposit {
    type V = DepositModel;

    open spec fn view(&self) -> DepositModel {
        DepositModel {
            transaction_id: self.transaction_id@,
            amount_in_cents: self.amount_in_cents as int,
            address: self.address@,
        }
    }
}

/// The gateway's acknowledgment of a created deposit: the gateway-assigned
/// transaction identifier together with the echoed amount and address.
/// Transient — consumed to produce a [`Deposit`], never persisted itself.
pub struct EulenDeposit {
    /// Transaction identifier assigned by the gateway.
    pub bank_tx_id: String,
    /// Amount in minor currency units echoed by the gateway.
    pub amount_in_cents: i32,
    /// Destination address echoed by the gateway.
    pub address: String,
}

/// Ghost model of an [`EulenDeposit`].
pub ghost struct EulenDepositModel {
    pub bank_tx_id: Seq<char>,
    pub amount_in_cents: int,
    pub address: Seq<char>,
}

impl View for EulenDeposit {
    type V = EulenDepositModel;

    open spec fn view(&self) -> EulenDepositModel {
        EulenDepositModel {
            bank_tx_id: self.bank_tx_id@,
            amount_in_cents: self.amount_in_cents as int,
            address: self.address@,
        }
    }
}

/// An asynchronous status callback from the gateway. It arrives out of band
/// relative to the original deposit request and may reference a transaction
/// unknown to this system.
pub struct EulenDepositStatus {
    /// Gateway transaction identifier the callback refers to.
    pub bank_tx_id: String,
    /// Raw status word in the gateway's vocabulary, e.g. `"paid"`.
    pub status: String,
}

/// Ghost model of an [`EulenDepositStatus`].
pub ghost struct EulenDepositStatusModel {
    pub bank_tx_id: Seq<char>,
    pub status: Seq<char>,
}

impl View for EulenDepositStatus {
    type V = EulenDepositStatusModel;

    open spec fn view(&self) -> EulenDepositStatusModel {
        EulenDepositStatusModel {
            bank_tx_id: self.bank_tx_id@,
            status: self.status@,
        }
    }
}

/// The single error surfaced to callers of the Pix service. Every failure
/// cause — gateway transport, gateway protocol format, persistence — is
/// flattened into one tagged variant carrying a component label and a
/// human-readable message.
pub enum ServiceError {
    /// A component tag (first field) and a message (second field).
    Repository(String, String),
}

/// Ghost model of a [`ServiceError`]: the component tag and the message.
pub ghost struct ServiceErrorModel {
    pub component: Seq<char>,
    pub message: Seq<char>,
}

impl View for ServiceError {
    type V = ServiceErrorModel;

    open spec fn view(&self) -> ServiceErrorModel {
        match self {
            ServiceError::Repository(component, message) => ServiceErrorModel {
                component: component@,
                message: message@,
            },
        }
    }
}

/// A message to the collaborating Transaction Service. The Pix service sends
/// these fire-and-forget; no reply is expected.
pub enum TransactionServiceRequest {
    /// Forward a derived status for one internal transaction.
    UpdateTransactionStatus {
        /// The internal transaction to update.
        transaction_id: String,
        /// The derived status string, `"eulen_"` followed by the raw gateway status.
        status: String,
    },
}

/// Ghost model of a [`TransactionServiceRequest`].
pub ghost struct TransactionServiceRequestModel {
    pub transaction_id: Seq<char>,
    pub status: Seq<char>,
}

impl View for TransactionServiceRequest {
    type V = TransactionServiceRequestModel;

    open spec fn view(&self) -> TransactionServiceRequestModel {
        match self {
            TransactionServiceRequest::UpdateTransactionStatus { transaction_id, status } => {
                TransactionServiceRequestModel {
                    transaction_id: transaction_id@,
                    status: status@,
                }
            },
        }
    }
}

} // verus!
