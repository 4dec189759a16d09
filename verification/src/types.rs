//! The typed view of a block, and the events and signals found in one.

pub mod block;
pub mod creation;
pub mod event;
pub mod finding;
pub mod laws;
pub mod scan;
pub mod signal;
pub mod transfer;
pub mod withdrawal;

pub use block::{BlockJson, Recipient, TransactionJson, TransactionReceiptJson};
pub use creation::{Step, SuspiciousContractCreatedEvent, SuspiciousContractCreatedJson};
pub use event::Event;
pub use finding::Payload;
pub use signal::{
    AnonymouslyFundedSmartContractTriggeredJson, AnonymouslyFundedSmartContractTriggeredSignal,
    Signal,
};
pub use transfer::{TransferFromFixedFloatEvent, TransferFromFixedFloatJson};
pub use withdrawal::{TornadoCashWithdrawEvent, TornadoCashWithdrawEventJson};
