//! What holds of buffers and commits across calls.
use vstd::prelude::*;

use crate::address::{opt_view, Address};
use crate::chain_sequence::{
    appended,
    built_on,
    can_start,
    flush_spec,
    head_of,
    initial_view,
    new_item,
    ChainSequenceView,
    ChainSequenceBuf,
    SourceChainError,
};
use crate::item::ChainSequenceItem;
use crate::store::{lemma_put_above, put_all_spec, sorted};

verus! {

/// A buffer made on an empty store has no head, starts at index 0 and is in
/// commit group 0.
pub proof fn lemma_empty_store_start(s: Seq<ChainSequenceItem>)
    requires
        s.len() == 0,
    ensures
        can_start(s),
        initial_view(s).current_head is None,
        initial_view(s).persisted_head is None,
        initial_view(s).next_index == 0,
        initial_view(s).tx_seq == 0,
        initial_view(s).pending.len() == 0,
{
}

/// A freshly made buffer is built on the store it was made on.
pub proof fn lemma_new_built_on(s: Seq<ChainSequenceItem>)
    requires
        can_start(s),
    ensures
        built_on(initial_view(s), s),
{
}

/// An append makes the appended header the chain head and gives it the next
/// index, in the buffer's one commit group; the buffer stays built on the
/// same store.
pub proof fn lemma_append(v: ChainSequenceView, s: Seq<ChainSequenceItem>, a: Address)
    requires
        built_on(v, s),
        v.next_index < u32::MAX,
    ensures
        built_on(appended(v, a), s),
        appended(v, a).current_head == Some(a),
        appended(v, a).pending.last() == new_item(v, a),
        appended(v, a).pending.last().index == v.next_index,
        appended(v, a).pending.last().tx_seq == v.tx_seq,
        appended(v, a).next_index == v.next_index + 1,
        appended(v, a).tx_seq == v.tx_seq,
        appended(v, a).persisted_head == v.persisted_head,
{
    let w = appended(v, a);
    assert forall|i: int| 0 <= i < w.pending.len() implies {
        &&& #[trigger] w.pending[i].index == w.next_index - w.pending.len() + i
        &&& w.pending[i].tx_seq == w.tx_seq
        &&& !w.pending[i].dht_transforms_complete
    } by {
        if i < v.pending.len() {
            assert(w.pending[i] == v.pending[i]);
        }
    }
}

/// Writing items whose keys ascend and lie above every key of the store
/// appends them in order.
pub proof fn lemma_put_all_above(s: Seq<ChainSequenceItem>, p: Seq<ChainSequenceItem>)
    requires
        sorted(s),
        sorted(p),
        s.len() == 0 || p.len() == 0 || s.last().index < p[0].index,
    ensures
        put_all_spec(s, p) == s + p,
        sorted(s + p),
    decreases p.len(),
{
    if p.len() > 0 {
        let q = p.drop_last();
        assert(sorted(q));
        lemma_put_all_above(s, q);
        let t = s + q;
        assert(t.len() == 0 || t.last().index < p.last().index) by {
            if q.len() > 0 {
                assert(t.last() == p[q.len() - 1]);
            }
        }
        lemma_put_above(t, p.last());
        assert(t.push(p.last()) =~= s + p);
    }
    assert forall|i: int, j: int| 0 <= i < j < (s + p).len() implies (s + p)[i].index < (s
        + p)[j].index by {
        if i < s.len() && j >= s.len() {
            assert(s[i].index <= s.last().index);
            assert(p[0].index <= p[j - s.len()].index);
        }
    }
}

/// The pending items of a well-formed buffer ascend by index.
proof fn lemma_pending_sorted(v: ChainSequenceView)
    requires
        v.wf(),
    ensures
        sorted(v.pending),
{
    assert forall|i: int, j: int| 0 <= i < j < v.pending.len() implies v.pending[i].index
        < v.pending[j].index by {
        assert(v.pending[i].index == v.start_index() + i);
        assert(v.pending[j].index == v.start_index() + j);
    }
}

/// Committing a buffer through a transaction that sees the store it was
/// built on succeeds and appends its items after the store's; a buffer
/// made afterwards has the last of them as its head, continues their indices
/// and is in the next commit group.
pub proof fn lemma_flush_extends(v: ChainSequenceView, s: Seq<ChainSequenceItem>)
    requires
        sorted(s),
        built_on(v, s),
    ensures
        flush_spec(v, s) == (Ok::<(), SourceChainError>(()), s + v.pending),
        sorted(s + v.pending),
        v.pending.len() > 0 ==> {
            &&& head_of(s + v.pending) == v.current_head
            &&& initial_view(s + v.pending).current_head == v.current_head
            &&& initial_view(s + v.pending).next_index == v.next_index
            &&& initial_view(s + v.pending).tx_seq == v.tx_seq + 1
        },
{
    lemma_pending_sorted(v);
    if s.len() > 0 && v.pending.len() > 0 {
        assert(v.pending[0].index == v.start_index());
    }
    lemma_put_all_above(s, v.pending);
    if v.pending.len() > 0 {
        assert((s + v.pending).last() == v.pending.last());
        assert(v.pending.last().index == v.next_index - 1);
        assert(v.pending.last().tx_seq == v.tx_seq);
    }
}

/// Of two buffers made on one empty store, once one has committed a
/// non-empty append, the other's commit is refused with the old head `None`
/// and the new head the first's last header, and writes nothing.
pub proof fn lemma_head_moved(a: ChainSequenceView, b: ChainSequenceView, s: Seq<ChainSequenceItem>)
    requires
        s.len() == 0,
        built_on(a, s),
        built_on(b, s),
        b.pending.len() > 0,
    ensures
        flush_spec(b, s).0 is Ok,
        flush_spec(a, flush_spec(b, s).1) == (
            Err::<(), SourceChainError>(
                SourceChainError::HeadMoved(None, Some(b.pending.last().header_address)),
            ),
            flush_spec(b, s).1,
        ),
        flush_spec(b, s).1 == b.pending,
{
    lemma_flush_extends(b, s);
    assert(s + b.pending =~= b.pending);
    assert(opt_view(a.persisted_head) != opt_view(head_of(b.pending)));
}

/// Two buffers committed one after the other on an empty store leave the
/// indices `0, 1, ...` in order, the first's items in commit group 0 and the
/// second's in group 1.
pub proof fn lemma_sequential_commits(
    v1: ChainSequenceView,
    v2: ChainSequenceView,
    s: Seq<ChainSequenceItem>,
)
    requires
        s.len() == 0,
        built_on(v1, s),
        v1.pending.len() > 0,
        built_on(v2, flush_spec(v1, s).1),
    ensures
        flush_spec(v1, s).0 is Ok,
        flush_spec(v2, flush_spec(v1, s).1).0 is Ok,
        flush_spec(v2, flush_spec(v1, s).1).1 == v1.pending + v2.pending,
        ({
            let r = flush_spec(v2, flush_spec(v1, s).1).1;
            forall|i: int|
                0 <= i < r.len() ==> {
                    &&& #[trigger] r[i].index == i
                    &&& r[i].tx_seq == if i < v1.pending.len() {
                        0int
                    } else {
                        1int
                    }
                }
        }),
{
    lemma_flush_extends(v1, s);
    assert(s + v1.pending =~= v1.pending);
    let s1 = v1.pending;
    lemma_flush_extends(v2, s1);
    let r = s1 + v2.pending;
    assert forall|i: int| 0 <= i < r.len() implies {
        &&& #[trigger] r[i].index == i
        &&& r[i].tx_seq == if i < v1.pending.len() {
            0int
        } else {
            1int
        }
    } by {
        if i < s1.len() {
            assert(r[i] == v1.pending[i]);
        } else {
            assert(r[i] == v2.pending[i - s1.len()]);
        }
    }
}

/// Appending `a`, `b`, `c` to a buffer made on an empty store makes each the
/// chain head in turn and gives them the indices 0, 1, 2.
pub proof fn lemma_three_appends(s: Seq<ChainSequenceItem>, a: Address, b: Address, c: Address)
    requires
        s.len() == 0,
    ensures
        ({
            let v1 = appended(initial_view(s), a);
            let v2 = appended(v1, b);
            let v3 = appended(v2, c);
            &&& v1.current_head == Some(a)
            &&& v2.current_head == Some(b)
            &&& v3.current_head == Some(c)
            &&& built_on(v3, s)
            &&& v3.pending.len() == 3
            &&& v3.pending[0].index == 0 && v3.pending[0].header_address == a
            &&& v3.pending[1].index == 1 && v3.pending[1].header_address == b
            &&& v3.pending[2].index == 2 && v3.pending[2].header_address == c
        }),
{
    let v0 = initial_view(s);
    lemma_new_built_on(s);
    lemma_append(v0, s, a);
    let v1 = appended(v0, a);
    lemma_append(v1, s, b);
    let v2 = appended(v1, b);
    lemma_append(v2, s, c);
    let v3 = appended(v2, c);
    assert(v3.pending[0] == v1.pending[0]);
    assert(v3.pending[1] == v2.pending[1]);
}

/// A buffer that appended `a`, `b`, `c` on an empty store commits; a buffer
/// made on the store afterwards has `c` as its head, and the store holds
/// `a`, `b`, `c` at the indices 0, 1, 2 in ascending order.
pub proof fn lemma_round_trip(s: Seq<ChainSequenceItem>, a: Address, b: Address, c: Address)
    requires
        s.len() == 0,
    ensures
        ({
            let v = appended(appended(appended(initial_view(s), a), b), c);
            let r = flush_spec(v, s);
            &&& r.0 is Ok
            &&& initial_view(r.1).current_head == Some(c)
            &&& r.1.len() == 3
            &&& r.1[0].index == 0 && r.1[0].header_address == a
            &&& r.1[1].index == 1 && r.1[1].header_address == b
            &&& r.1[2].index == 2 && r.1[2].header_address == c
        }),
{
    lemma_three_appends(s, a, b, c);
    let v = appended(appended(appended(initial_view(s), a), b), c);
    lemma_flush_extends(v, s);
    assert(s + v.pending =~= v.pending);
}

/// Two buffers built on one store cannot both extend it: once one has
/// committed appends that end in a header other than the store's head, the
/// other's commit is refused with both heads, and writes nothing.
pub proof fn lemma_no_fork(a: ChainSequenceView, b: ChainSequenceView, s: Seq<ChainSequenceItem>)
    requires
        sorted(s),
        built_on(a, s),
        built_on(b, s),
        b.pending.len() > 0,
        opt_view(Some(b.pending.last().header_address)) != opt_view(head_of(s)),
    ensures
        flush_spec(b, s) == (Ok::<(), SourceChainError>(()), s + b.pending),
        flush_spec(a, s + b.pending) == (
            Err::<(), SourceChainError>(
                SourceChainError::HeadMoved(
                    head_of(s),
                    Some(b.pending.last().header_address),
                ),
            ),
            s + b.pending,
        ),
{
    lemma_flush_extends(b, s);
}

/// Reading the chain head twice, with no append in between, gives the same
/// answer.
pub proof fn lemma_chain_head_idempotent(
    buf: &ChainSequenceBuf,
    r1: Option<&Address>,
    r2: Option<&Address>,
)
    requires
        call_ensures(ChainSequenceBuf::chain_head, (buf,), r1),
        call_ensures(ChainSequenceBuf::chain_head, (buf,), r2),
    ensures
        r1 == r2,
{
}

} // verus!
