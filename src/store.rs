//! An ordered, integer-keyed store of chain sequence items, with read
//! snapshots and a single write transaction at a time.
use vstd::prelude::*;

use crate::item::ChainSequenceItem;

verus! {

/// Items ordered by strictly ascending index.
pub open spec fn sorted(s: Seq<ChainSequenceItem>) -> bool {
    forall|i: int, j: int| 0 <= i < j < s.len() ==> s[i].index < s[j].index
}

/// The first position whose item has an index of at least `k`, in a sorted
/// sequence; in general, the position after the last run of such items.
pub open spec fn lower_bound(s: Seq<ChainSequenceItem>, k: u32) -> nat
    decreases s.len(),
{
    if s.len() == 0 {
        0
    } else if s.last().index < k {
        s.len()
    } else {
        lower_bound(s.drop_last(), k)
    }
}

/// The store after writing `item` under the key `item.index`: the item with
/// that key is replaced, or the item is inserted in key order.
pub open spec fn put_spec(s: Seq<ChainSequenceItem>, item: ChainSequenceItem) -> Seq<
    ChainSequenceItem,
> {
    let p = lower_bound(s, item.index) as int;
    if p < s.len() && s[p].index == item.index {
        s.update(p, item)
    } else {
        s.insert(p, item)
    }
}

/// The store after writing each of `items` in order.
pub open spec fn put_all_spec(s: Seq<ChainSequenceItem>, items: Seq<ChainSequenceItem>) -> Seq<
    ChainSequenceItem,
>
    decreases items.len(),
{
    if items.len() == 0 {
        s
    } else {
        put_spec(put_all_spec(s, items.drop_last()), items.last())
    }
}

pub proof fn lemma_lower_bound_len(s: Seq<ChainSequenceItem>, k: u32)
    ensures
        lower_bound(s, k) <= s.len(),
    decreases s.len(),
{
    if s.len() > 0 && s.last().index >= k {
        lemma_lower_bound_len(s.drop_last(), k);
    }
}

pub proof fn lemma_lower_bound(s: Seq<ChainSequenceItem>, k: u32)
    requires
        sorted(s),
    ensures
        lower_bound(s, k) <= s.len(),
        forall|j: int| 0 <= j < lower_bound(s, k) ==> s[j].index < k,
        forall|j: int| lower_bound(s, k) <= j < s.len() ==> s[j].index >= k,
    decreases s.len(),
{
    if s.len() > 0 {
        let t = s.drop_last();
        if s.last().index >= k {
            assert(sorted(t));
            lemma_lower_bound(t, k);
            assert forall|j: int| 0 <= j < lower_bound(s, k) implies s[j].index < k by {
                assert(s[j] == t[j]);
            }
            assert forall|j: int| lower_bound(s, k) <= j < s.len() implies s[j].index >= k by {
                if j < t.len() {
                    assert(s[j] == t[j]);
                }
            }
        } else {
            assert forall|j: int| 0 <= j < lower_bound(s, k) implies s[j].index < k by {
                if j < s.len() - 1 {
                    assert(s[j].index < s[s.len() - 1].index);
                }
            }
        }
    }
}

/// Writing an item keeps the store sorted.
pub proof fn lemma_put_sorted(s: Seq<ChainSequenceItem>, item: ChainSequenceItem)
    requires
        sorted(s),
    ensures
        sorted(put_spec(s, item)),
        put_spec(s, item).len() >= s.len(),
{
    lemma_lower_bound(s, item.index);
    let p = lower_bound(s, item.index) as int;
    let r = put_spec(s, item);
    if p < s.len() && s[p].index == item.index {
        assert forall|i: int, j: int| 0 <= i < j < r.len() implies r[i].index < r[j].index by {
            if i == p {
                assert(s[p].index < s[j].index);
            } else if j == p {
                assert(s[i].index < s[p].index);
            }
        }
    } else {
        assert forall|i: int, j: int| 0 <= i < j < r.len() implies r[i].index < r[j].index by {
            if j < p {
            } else if i < p && j == p {
            } else if i < p && j > p {
                assert(r[j] == s[j - 1]);
            } else if i == p {
                assert(r[j] == s[j - 1]);
            } else {
                assert(r[i] == s[i - 1] && r[j] == s[j - 1]);
            }
        }
    }
}

/// Writing an item whose key is above every key in the store appends it.
pub proof fn lemma_put_above(s: Seq<ChainSequenceItem>, item: ChainSequenceItem)
    requires
        s.len() == 0 || s.last().index < item.index,
    ensures
        put_spec(s, item) == s.push(item),
{
    assert(lower_bound(s, item.index) == s.len());
    assert(s.insert(s.len() as int, item) =~= s.push(item));
}

/// The first position whose item has an index of at least `k`.
fn find_position(items: &Vec<ChainSequenceItem>, k: u32) -> (p: usize)
    ensures
        p == lower_bound(items@, k),
        p <= items.len(),
{
    let mut i: usize = items.len();
    assert(items@.take(items.len() as int) =~= items@);
    while i > 0 && items[i - 1].index >= k
        invariant
            i <= items.len(),
            lower_bound(items@, k) == lower_bound(items@.take(i as int), k),
        decreases i,
    {
        assert(items@.take(i as int).drop_last() =~= items@.take(i - 1));
        i = i - 1;
    }
    proof {
        lemma_lower_bound_len(items@, k);
    }
    i
}

/// Writes `item` under the key `item.index`.
fn put(items: &mut Vec<ChainSequenceItem>, item: ChainSequenceItem)
    requires
        sorted(old(items)@),
    ensures
        final(items)@ == put_spec(old(items)@, item),
        sorted(final(items)@),
{
    proof {
        lemma_put_sorted(items@, item);
    }
    let p = find_position(items, item.index);
    if p < items.len() && items[p].index == item.index {
        items.set(p, item);
    } else {
        items.insert(p, item);
    }
}

/// A copy of `items`, item for item.
pub(crate) fn copy_items(items: &Vec<ChainSequenceItem>) -> (r: Vec<ChainSequenceItem>)
    ensures
        r@ == items@,
{
    let mut r: Vec<ChainSequenceItem> = Vec::new();
    let mut i: usize = 0;
    while i < items.len()
        invariant
            i <= items.len(),
            r@ == items@.take(i as int),
        decreases items.len() - i,
    {
        r.push(items[i].clone());
        i = i + 1;
        assert(r@ =~= items@.take(i as int));
    }
    assert(items@.take(items.len() as int) =~= items@);
    r
}

/// The item with the greatest key, if any.
pub open spec fn latest_spec(s: Seq<ChainSequenceItem>) -> Option<ChainSequenceItem> {
    if s.len() == 0 {
        None
    } else {
        Some(s.last())
    }
}

/// A copy of the item with the greatest key: the first one met by a reverse
/// scan.
fn latest_of(items: &Vec<ChainSequenceItem>) -> (r: Option<ChainSequenceItem>)
    ensures
        r == latest_spec(items@),
{
    let n = items.len();
    if n == 0 {
        None
    } else {
        Some(items[n - 1].clone())
    }
}

/// The persisted chain sequence. Only one write transaction can be open on
/// it, as opening one takes the store.
pub struct Env {
    items: Vec<ChainSequenceItem>,
}

impl Env {
    #[verifier::type_invariant]
    spec fn inv(&self) -> bool {
        sorted(self.items@)
    }
}

impl View for Env {
    type V = Seq<ChainSequenceItem>;

    closed spec fn view(&self) -> Seq<ChainSequenceItem> {
        self.items@
    }
}

/// A read snapshot: the store as it was when the snapshot was taken.
pub struct Reader {
    items: Vec<ChainSequenceItem>,
}

impl Reader {
    #[verifier::type_invariant]
    spec fn inv(&self) -> bool {
        sorted(self.items@)
    }
}

impl View for Reader {
    type V = Seq<ChainSequenceItem>;

    closed spec fn view(&self) -> Seq<ChainSequenceItem> {
        self.items@
    }
}

/// A write transaction. It reads its own writes; they reach the store on
/// commit, and are dropped on abort.
pub struct Writer {
    committed: Vec<ChainSequenceItem>,
    items: Vec<ChainSequenceItem>,
}

impl Writer {
    /// Both the store as it was and the transaction's view are in key order.
    pub closed spec fn wf(&self) -> bool {
        &&& sorted(self.items@)
        &&& sorted(self.committed@)
    }

    /// The store as it was when the transaction was opened.
    pub closed spec fn base(&self) -> Seq<ChainSequenceItem> {
        self.committed@
    }
}

impl View for Writer {
    type V = Seq<ChainSequenceItem>;

    closed spec fn view(&self) -> Seq<ChainSequenceItem> {
        self.items@
    }
}

impl Env {
    /// An empty store.
    pub fn new() -> (r: Env)
        ensures
            r@ == Seq::<ChainSequenceItem>::empty(),
    {
        Env { items: Vec::new() }
    }

    /// A snapshot of the store as it is now.
    pub fn reader(&self) -> (r: Reader)
        ensures
            r@ == self@,
            sorted(r@),
    {
        proof {
            use_type_invariant(self);
        }
        Reader { items: copy_items(&self.items) }
    }

    /// Opens the write transaction.
    pub fn begin_write(self) -> (w: Writer)
        ensures
            w@ == self@,
            w.base() == self@,
            w.wf(),
            sorted(w@),
    {
        proof {
            use_type_invariant(&self);
        }
        let items = copy_items(&self.items);
        Writer { committed: self.items, items }
    }
}

impl Reader {
    /// The items in ascending key order.
    pub fn iter_raw(&self) -> (r: &Vec<ChainSequenceItem>)
        ensures
            r@ == self@,
            sorted(r@),
    {
        proof {
            use_type_invariant(self);
        }
        &self.items
    }

    /// The item with the greatest key, if any.
    pub fn latest(&self) -> (r: Option<ChainSequenceItem>)
        ensures
            r == latest_spec(self@),
    {
        latest_of(&self.items)
    }
}

impl Writer {
    /// A snapshot of what this transaction sees, its own writes included.
    pub fn reader(&self) -> (r: Reader)
        requires
            self.wf(),
        ensures
            r@ == self@,
            sorted(r@),
    {
        Reader { items: copy_items(&self.items) }
    }

    /// The item with the greatest key that this transaction sees, if any.
    pub fn latest(&self) -> (r: Option<ChainSequenceItem>)
        ensures
            r == latest_spec(self@),
    {
        latest_of(&self.items)
    }

    /// Writes `item` under the key `item.index`.
    pub fn put(&mut self, item: ChainSequenceItem)
        requires
            old(self).wf(),
        ensures
            final(self).wf(),
            sorted(final(self)@),
            final(self)@ == put_spec(old(self)@, item),
            final(self).base() == old(self).base(),
    {
        put(&mut self.items, item);
    }

    /// Makes this transaction's writes the content of the store.
    pub fn commit(self) -> (r: Env)
        requires
            self.wf(),
        ensures
            r@ == self@,
    {
        Env { items: self.items }
    }

    /// Drops this transaction's writes.
    pub fn abort(self) -> (r: Env)
        requires
            self.wf(),
        ensures
            r@ == self.base(),
    {
        Env { items: self.committed }
    }
}

} // verus!
