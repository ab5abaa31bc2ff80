//! Sequencing of a participant's locally authored chain of headers, with an
//! optimistic check at commit time that refuses to fork the chain.
//!
//! A [`ChainSequenceBuf`] is made on a read snapshot of the [`Env`] store,
//! collects appended headers, and is flushed through the store's one write
//! transaction. The flush writes every pending item, or, where the persisted
//! head moved since the buffer was made, nothing.
pub mod actor;
pub mod address;
pub mod chain_sequence;
pub mod item;
pub mod laws;
pub mod store;
pub mod timestamp;

pub use actor::{
    Broadcast,
    Join,
    KitsuneAgent,
    KitsuneBasis,
    KitsuneSpace,
    Leave,
    MultiRequest,
    MultiRequestResponse,
    Request,
};
pub use address::Address;
pub use chain_sequence::{ChainSequenceBuf, SourceChainError, WorkspaceError};
pub use item::ChainSequenceItem;
pub use store::{Env, Reader, Writer};
pub use timestamp::{Timestamp, TimestampError};
