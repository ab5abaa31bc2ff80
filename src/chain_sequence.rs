//! The chain sequence buffer: pending appends over a snapshot of the
//! persisted sequence, and the commit that refuses to fork the chain.
use vstd::prelude::*;

use crate::address::{opt_view, same_head, Address};
use crate::item::ChainSequenceItem;
use crate::store::{copy_items, latest_spec, put_all_spec, Reader, Writer};

verus! {

/// A failure of the store beneath the buffer.
#[derive(Debug, Clone, Copy, PartialEq, Eq, Structural)]
pub enum WorkspaceError {
    /// The persisted head's index or commit group is the largest `u32`, so
    /// nothing can follow it.
    IndexOverflow,
}

/// Why a commit to the chain was refused.
#[derive(Debug, Clone, PartialEq, Eq)]
pub enum SourceChainError {
    /// The persisted head moved since the buffer was made: the head the
    /// buffer was made on, then the head found at commit time.
    HeadMoved(Option<Address>, Option<Address>),
    Workspace(WorkspaceError),
}

/// The abstract state of a buffer.
pub struct ChainSequenceView {
    /// Appended items not yet persisted, in append order.
    pub pending: Seq<ChainSequenceItem>,
    /// The index the next append gets.
    pub next_index: nat,
    /// The commit group of every item this buffer appends.
    pub tx_seq: nat,
    /// The latest header, pending or persisted.
    pub current_head: Option<Address>,
    /// The persisted head when the buffer was made; checked at commit.
    pub persisted_head: Option<Address>,
}

/// The header address of the item with the greatest key, if any.
pub open spec fn head_of(s: Seq<ChainSequenceItem>) -> Option<Address> {
    match latest_spec(s) {
        Some(it) => Some(it.header_address),
        None => None,
    }
}

/// Whether a buffer can be made on `s`: the successor of the persisted head's
/// index and commit group fits in a `u32`.
pub open spec fn can_start(s: Seq<ChainSequenceItem>) -> bool {
    match latest_spec(s) {
        Some(it) => it.index < u32::MAX && it.tx_seq < u32::MAX,
        None => true,
    }
}

/// A buffer freshly made on the store `s`.
pub open spec fn initial_view(s: Seq<ChainSequenceItem>) -> ChainSequenceView {
    match latest_spec(s) {
        Some(it) => ChainSequenceView {
            pending: Seq::empty(),
            next_index: (it.index + 1) as nat,
            tx_seq: (it.tx_seq + 1) as nat,
            current_head: Some(it.header_address),
            persisted_head: Some(it.header_address),
        },
        None => ChainSequenceView {
            pending: Seq::empty(),
            next_index: 0,
            tx_seq: 0,
            current_head: None,
            persisted_head: None,
        },
    }
}

/// The item an append of `a` adds to a buffer in state `v`.
pub open spec fn new_item(v: ChainSequenceView, a: Address) -> ChainSequenceItem {
    ChainSequenceItem {
        header_address: a,
        index: v.next_index as u32,
        tx_seq: v.tx_seq as u32,
        dht_transforms_complete: false,
    }
}

/// A buffer in state `v` after an append of `a`.
pub open spec fn appended(v: ChainSequenceView, a: Address) -> ChainSequenceView {
    ChainSequenceView {
        pending: v.pending.push(new_item(v, a)),
        next_index: v.next_index + 1,
        current_head: Some(a),
        ..v
    }
}

/// The outcome of committing a buffer in state `v` through a transaction
/// that sees `s`, and what the transaction sees afterwards.
pub open spec fn flush_spec(v: ChainSequenceView, s: Seq<ChainSequenceItem>) -> (
    Result<(), SourceChainError>,
    Seq<ChainSequenceItem>,
) {
    let observed = head_of(s);
    if opt_view(v.persisted_head) != opt_view(observed) {
        (Err(SourceChainError::HeadMoved(v.persisted_head, observed)), s)
    } else {
        (Ok(()), put_all_spec(s, v.pending))
    }
}

/// A buffer in state `v` was made on the store `s` and then only appended to.
pub open spec fn built_on(v: ChainSequenceView, s: Seq<ChainSequenceItem>) -> bool {
    &&& v.wf()
    &&& v.persisted_head == initial_view(s).persisted_head
    &&& v.start_index() == initial_view(s).next_index
    &&& v.tx_seq == initial_view(s).tx_seq
}

impl ChainSequenceView {
    /// What construction and appends keep: pending items carry consecutive
    /// indices ending just below `next_index`, all in the buffer's commit
    /// group and not yet published, and the current head is the last one.
    pub open spec fn wf(self) -> bool {
        &&& self.pending.len() <= self.next_index <= u32::MAX
        &&& self.tx_seq <= u32::MAX
        &&& forall|i: int|
            #![trigger self.pending[i]]
            0 <= i < self.pending.len() ==> {
                &&& self.pending[i].index == self.next_index - self.pending.len() + i
                &&& self.pending[i].tx_seq == self.tx_seq
                &&& !self.pending[i].dht_transforms_complete
            }
        &&& self.current_head == if self.pending.len() == 0 {
            self.persisted_head
        } else {
            Some(self.pending.last().header_address)
        }
    }

    /// The index of the first pending item (or of the next, if none).
    pub open spec fn start_index(self) -> int {
        self.next_index - self.pending.len()
    }
}

/// Pending appends over a snapshot of the persisted chain sequence.
pub struct ChainSequenceBuf {
    pending: Vec<ChainSequenceItem>,
    next_index: u32,
    tx_seq: u32,
    current_head: Option<Address>,
    persisted_head: Option<Address>,
}

impl View for ChainSequenceBuf {
    type V = ChainSequenceView;

    closed spec fn view(&self) -> ChainSequenceView {
        ChainSequenceView {
            pending: self.pending@,
            next_index: self.next_index as nat,
            tx_seq: self.tx_seq as nat,
            current_head: self.current_head,
            persisted_head: self.persisted_head,
        }
    }
}

impl ChainSequenceBuf {
    /// A buffer with no pending appends over the store `reader` sees.
    pub fn new(reader: &Reader) -> (r: Result<ChainSequenceBuf, WorkspaceError>)
        ensures
            can_start(reader@) ==> r is Ok && r->Ok_0@ == initial_view(reader@),
            !can_start(reader@) ==> r == Err::<ChainSequenceBuf, WorkspaceError>(
                WorkspaceError::IndexOverflow,
            ),
    {
        Self::from_db(reader.latest(), Vec::new())
    }

    /// A buffer over the store `reader` sees, carrying this buffer's pending
    /// appends; its indices, commit group and heads come from `reader`.
    pub fn with_reader(&self, reader: &Reader) -> (r: Result<ChainSequenceBuf, WorkspaceError>)
        ensures
            can_start(reader@) ==> r is Ok && r->Ok_0@ == (ChainSequenceView {
                pending: self@.pending,
                ..initial_view(reader@)
            }),
            !can_start(reader@) ==> r == Err::<ChainSequenceBuf, WorkspaceError>(
                WorkspaceError::IndexOverflow,
            ),
    {
        let pending = copy_items(&self.pending);
        Self::from_db(reader.latest(), pending)
    }

    /// The latest header, pending or persisted. It reads the buffer only, so
    /// calls with no append in between agree.
    pub fn chain_head(&self) -> (r: Option<&Address>)
        ensures
            match r {
                Some(a) => self@.current_head == Some(*a),
                None => self@.current_head is None,
            },
    {
        self.current_head.as_ref()
    }

    /// Appends the header at `header_address` as the next item of the chain.
    pub fn add_header(&mut self, header_address: Address)
        requires
            old(self)@.next_index < u32::MAX,
        ensures
            final(self)@ == appended(old(self)@, header_address),
    {
        self.pending.push(
            ChainSequenceItem {
                header_address: header_address.clone(),
                index: self.next_index,
                tx_seq: self.tx_seq,
                dht_transforms_complete: false,
            },
        );
        self.next_index = self.next_index + 1;
        self.current_head = Some(header_address);
    }

    /// Commits the pending appends through `writer`, unless the persisted
    /// head that `writer` sees is not the one this buffer was made on: then
    /// nothing is written and the two heads are reported.
    pub fn flush_to_txn(self, writer: &mut Writer) -> (r: Result<(), SourceChainError>)
        requires
            old(writer).wf(),
        ensures
            final(writer).wf(),
            final(writer).base() == old(writer).base(),
            (r, final(writer)@) == flush_spec(self@, old(writer)@),
    {
        let observed = match writer.latest() {
            Some(item) => Some(item.header_address),
            None => None,
        };
        if !same_head(&self.persisted_head, &observed) {
            return Err(SourceChainError::HeadMoved(self.persisted_head, observed));
        }
        let ghost s0 = writer@;
        let mut i: usize = 0;
        while i < self.pending.len()
            invariant
                i <= self.pending.len(),
                writer.wf(),
                writer.base() == old(writer).base(),
                writer@ == put_all_spec(s0, self.pending@.take(i as int)),
            decreases self.pending.len() - i,
        {
            assert(self.pending@.take(i + 1).drop_last() =~= self.pending@.take(i as int));
            writer.put(self.pending[i].clone());
            i = i + 1;
        }
        assert(self.pending@.take(self.pending.len() as int) =~= self.pending@);
        Ok(())
    }

    /// The index the next append gets.
    pub fn next_index(&self) -> (r: u32)
        ensures
            r == self@.next_index,
    {
        self.next_index
    }

    /// The commit group of this buffer's appends.
    pub fn tx_seq(&self) -> (r: u32)
        ensures
            r == self@.tx_seq,
    {
        self.tx_seq
    }

    /// The appended items not yet persisted, in append order.
    pub fn pending(&self) -> (r: &Vec<ChainSequenceItem>)
        ensures
            r@ == self@.pending,
    {
        &self.pending
    }

    fn from_db(latest: Option<ChainSequenceItem>, pending: Vec<ChainSequenceItem>) -> (r: Result<
        ChainSequenceBuf,
        WorkspaceError,
    >)
        ensures
            ({
                let s = if latest is Some { seq![latest->Some_0] } else { Seq::empty() };
                &&& can_start(s) ==> r is Ok && r->Ok_0@ == (ChainSequenceView {
                    pending: pending@,
                    ..initial_view(s)
                })
                &&& !can_start(s) ==> r == Err::<ChainSequenceBuf, WorkspaceError>(
                    WorkspaceError::IndexOverflow,
                )
            }),
    {
        match latest {
            Some(item) => {
                if item.index == u32::MAX || item.tx_seq == u32::MAX {
                    Err(WorkspaceError::IndexOverflow)
                } else {
                    let head = item.header_address;
                    Ok(ChainSequenceBuf {
                        pending,
                        next_index: item.index + 1,
                        tx_seq: item.tx_seq + 1,
                        current_head: Some(head.clone()),
                        persisted_head: Some(head),
                    })
                }
            },
            None => Ok(
                ChainSequenceBuf {
                    pending,
                    next_index: 0,
                    tx_seq: 0,
                    current_head: None,
                    persisted_head: None,
                },
            ),
        }
    }
}

} // verus!
