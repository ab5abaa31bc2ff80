use chain_sequence::{
    Address, ChainSequenceBuf, ChainSequenceItem, Env, SourceChainError, WorkspaceError, Writer,
};

fn addr(s: &str) -> Address {
    Address::new(s)
}

/// Flushes `buf` through a fresh write transaction, committing on success
/// and aborting on failure, as a caller's commit loop would.
fn with_commit(env: Env, buf: ChainSequenceBuf) -> (Env, Result<(), SourceChainError>) {
    let mut writer: Writer = env.begin_write();
    let r = buf.flush_to_txn(&mut writer);
    match r {
        Ok(()) => (writer.commit(), r),
        Err(_) => (writer.abort(), r),
    }
}

fn indices(env: &Env) -> Vec<u32> {
    env.reader().iter_raw().iter().map(|i| i.index()).collect()
}

fn tx_seqs(env: &Env) -> Vec<u32> {
    env.reader().iter_raw().iter().map(|i| i.tx_seq()).collect()
}

fn addresses(env: &Env) -> Vec<String> {
    env.reader()
        .iter_raw()
        .iter()
        .map(|i| i.header_address().as_str().to_string())
        .collect()
}

#[test]
fn chain_sequence_scratch_awareness() {
    let env = Env::new();
    let reader = env.reader();
    let mut buf = ChainSequenceBuf::new(&reader).unwrap();
    assert_eq!(buf.chain_head(), None);
    buf.add_header(Address::new("0"));
    assert_eq!(buf.chain_head(), Some(&Address::new("0")));
    buf.add_header(Address::new("1"));
    assert_eq!(buf.chain_head(), Some(&Address::new("1")));
    buf.add_header(Address::new("2"));
    assert_eq!(buf.chain_head(), Some(&Address::new("2")));
}

#[test]
fn chain_sequence_functionality() {
    let env = Env::new();

    let mut buf = ChainSequenceBuf::new(&env.reader()).unwrap();
    buf.add_header(Address::new("0"));
    buf.add_header(Address::new("1"));
    assert_eq!(buf.chain_head(), Some(&Address::new("1")));
    buf.add_header(Address::new("2"));
    let (env, r) = with_commit(env, buf);
    r.unwrap();

    let reader = env.reader();
    let buf = ChainSequenceBuf::new(&reader).unwrap();
    assert_eq!(buf.chain_head(), Some(&Address::new("2")));
    let items: Vec<u32> = reader.iter_raw().iter().map(|i| i.index()).collect();
    assert_eq!(items, vec![0, 1, 2]);

    let mut buf = ChainSequenceBuf::new(&env.reader()).unwrap();
    buf.add_header(Address::new("3"));
    buf.add_header(Address::new("4"));
    buf.add_header(Address::new("5"));
    let (env, r) = with_commit(env, buf);
    r.unwrap();

    let reader = env.reader();
    let buf = ChainSequenceBuf::new(&reader).unwrap();
    assert_eq!(buf.chain_head(), Some(&Address::new("5")));
    let items: Vec<u32> = reader.iter_raw().iter().map(|i| i.tx_seq()).collect();
    assert_eq!(items, vec![0, 0, 0, 1, 1, 1]);
}

#[test]
fn chain_sequence_head_moved() {
    let env = Env::new();

    // The first writer reads the chain and appends, but commits last.
    let reader1 = env.reader();
    let mut buf1 = ChainSequenceBuf::new(&reader1).unwrap();
    buf1.add_header(Address::new("0"));
    buf1.add_header(Address::new("1"));
    buf1.add_header(Address::new("2"));

    // The second writer reads the same chain and commits first.
    let reader2 = env.reader();
    let mut buf2 = ChainSequenceBuf::new(&reader2).unwrap();
    buf2.add_header(Address::new("3"));
    buf2.add_header(Address::new("4"));
    buf2.add_header(Address::new("5"));
    let (env, result2) = with_commit(env, buf2);

    let (env, result1) = with_commit(env, buf1);

    assert_eq!(
        result1,
        Err(SourceChainError::HeadMoved(None, Some(Address::new("5"))))
    );
    assert!(result2.is_ok());
    assert_eq!(addresses(&env), vec!["3", "4", "5"]);
}

#[test]
fn empty_store_buffer_starts_at_zero() {
    let env = Env::new();
    let buf = ChainSequenceBuf::new(&env.reader()).unwrap();
    assert_eq!(buf.chain_head(), None);
    assert_eq!(buf.next_index(), 0);
    assert_eq!(buf.tx_seq(), 0);
    assert!(buf.pending().is_empty());
}

#[test]
fn appends_take_consecutive_indices() {
    let env = Env::new();
    let mut buf = ChainSequenceBuf::new(&env.reader()).unwrap();
    buf.add_header(addr("a"));
    assert_eq!(buf.chain_head(), Some(&addr("a")));
    buf.add_header(addr("b"));
    assert_eq!(buf.chain_head(), Some(&addr("b")));
    buf.add_header(addr("c"));
    assert_eq!(buf.chain_head(), Some(&addr("c")));
    let idx: Vec<u32> = buf.pending().iter().map(|i| i.index()).collect();
    assert_eq!(idx, vec![0, 1, 2]);
    assert_eq!(buf.next_index(), 3);
    assert!(buf.pending().iter().all(|i| !i.dht_transforms_complete()));
}

#[test]
fn one_buffer_one_generation() {
    let env = Env::new();
    let mut buf = ChainSequenceBuf::new(&env.reader()).unwrap();
    buf.add_header(addr("a"));
    buf.add_header(addr("b"));
    assert!(buf.pending().iter().all(|i| i.tx_seq() == 0));
    let (env, r) = with_commit(env, buf);
    r.unwrap();
    let buf = ChainSequenceBuf::new(&env.reader()).unwrap();
    assert_eq!(buf.tx_seq(), 1);
    assert_eq!(buf.next_index(), 2);
}

#[test]
fn round_trip_through_store() {
    let env = Env::new();
    let mut buf = ChainSequenceBuf::new(&env.reader()).unwrap();
    buf.add_header(addr("a"));
    buf.add_header(addr("b"));
    buf.add_header(addr("c"));
    let (env, r) = with_commit(env, buf);
    assert_eq!(r, Ok(()));
    let buf = ChainSequenceBuf::new(&env.reader()).unwrap();
    assert_eq!(buf.chain_head(), Some(&addr("c")));
    assert_eq!(indices(&env), vec![0, 1, 2]);
    assert_eq!(addresses(&env), vec!["a", "b", "c"]);
}

#[test]
fn conflicting_buffer_writes_nothing() {
    let env = Env::new();
    let mut a = ChainSequenceBuf::new(&env.reader()).unwrap();
    let mut b = ChainSequenceBuf::new(&env.reader()).unwrap();
    b.add_header(addr("x"));
    b.add_header(addr("y"));
    b.add_header(addr("z"));
    let (env, rb) = with_commit(env, b);
    assert_eq!(rb, Ok(()));
    a.add_header(addr("p"));
    a.add_header(addr("q"));
    a.add_header(addr("r"));
    assert_eq!(a.chain_head(), Some(&addr("r")));

    let mut writer = env.begin_write();
    let ra = a.flush_to_txn(&mut writer);
    assert_eq!(ra, Err(SourceChainError::HeadMoved(None, Some(addr("z")))));
    // The refused flush left the transaction untouched.
    let env = writer.commit();
    assert_eq!(indices(&env), vec![0, 1, 2]);
    assert_eq!(addresses(&env), vec!["x", "y", "z"]);
}

#[test]
fn head_moved_between_two_non_empty_heads() {
    let env = Env::new();
    let mut first = ChainSequenceBuf::new(&env.reader()).unwrap();
    first.add_header(addr("a"));
    let (env, r) = with_commit(env, first);
    r.unwrap();

    let mut stale = ChainSequenceBuf::new(&env.reader()).unwrap();
    stale.add_header(addr("s"));
    let mut fresh = ChainSequenceBuf::new(&env.reader()).unwrap();
    fresh.add_header(addr("b"));
    let (env, r) = with_commit(env, fresh);
    r.unwrap();
    let (env, r) = with_commit(env, stale);
    assert_eq!(
        r,
        Err(SourceChainError::HeadMoved(Some(addr("a")), Some(addr("b"))))
    );
    assert_eq!(addresses(&env), vec!["a", "b"]);
}

#[test]
fn chain_head_reads_are_idempotent() {
    let env = Env::new();
    let mut buf = ChainSequenceBuf::new(&env.reader()).unwrap();
    assert_eq!(buf.chain_head(), buf.chain_head());
    buf.add_header(addr("a"));
    let h1 = buf.chain_head().cloned();
    let h2 = buf.chain_head().cloned();
    assert_eq!(h1, h2);
    assert_eq!(h1, Some(addr("a")));
}

#[test]
fn sequential_commits_generations() {
    let env = Env::new();
    let mut buf = ChainSequenceBuf::new(&env.reader()).unwrap();
    for a in ["a", "b", "c"] {
        buf.add_header(addr(a));
    }
    let (env, r) = with_commit(env, buf);
    r.unwrap();
    let mut buf = ChainSequenceBuf::new(&env.reader()).unwrap();
    for a in ["d", "e", "f"] {
        buf.add_header(addr(a));
    }
    let (env, r) = with_commit(env, buf);
    r.unwrap();
    assert_eq!(tx_seqs(&env), vec![0, 0, 0, 1, 1, 1]);
    assert_eq!(indices(&env), vec![0, 1, 2, 3, 4, 5]);
    assert_eq!(addresses(&env), vec!["a", "b", "c", "d", "e", "f"]);
}

#[test]
fn empty_flush_succeeds_and_writes_nothing() {
    let env = Env::new();
    let buf = ChainSequenceBuf::new(&env.reader()).unwrap();
    let (env, r) = with_commit(env, buf);
    assert_eq!(r, Ok(()));
    assert!(indices(&env).is_empty());
}

fn item(a: &str, index: u32, tx_seq: u32) -> ChainSequenceItem {
    ChainSequenceItem {
        header_address: addr(a),
        index,
        tx_seq,
        dht_transforms_complete: false,
    }
}

#[test]
fn head_at_largest_index_overflows() {
    let mut writer = Env::new().begin_write();
    writer.put(item("top", u32::MAX, 0));
    let env = writer.commit();
    assert_eq!(
        ChainSequenceBuf::new(&env.reader()).err(),
        Some(WorkspaceError::IndexOverflow)
    );
}

#[test]
fn head_in_largest_generation_overflows() {
    let mut writer = Env::new().begin_write();
    writer.put(item("top", 4, u32::MAX));
    let env = writer.commit();
    assert_eq!(
        ChainSequenceBuf::new(&env.reader()).err(),
        Some(WorkspaceError::IndexOverflow)
    );
}

#[test]
fn with_reader_keeps_pending_and_rereads_head() {
    let env = Env::new();
    let mut buf = ChainSequenceBuf::new(&env.reader()).unwrap();
    buf.add_header(addr("p"));

    let mut writer = Env::new().begin_write();
    writer.put(item("h", 0, 7));
    let other = writer.commit();

    let derived = buf.with_reader(&other.reader()).unwrap();
    assert_eq!(derived.chain_head(), Some(&addr("h")));
    assert_eq!(derived.next_index(), 1);
    assert_eq!(derived.tx_seq(), 8);
    assert_eq!(derived.pending().len(), 1);
    assert_eq!(derived.pending()[0].header_address(), &addr("p"));
    // The buffer it was derived from is unchanged.
    assert_eq!(buf.chain_head(), Some(&addr("p")));
}

#[test]
fn store_keeps_key_order_and_replaces_equal_keys() {
    let mut writer = Env::new().begin_write();
    writer.put(item("c", 5, 0));
    writer.put(item("a", 1, 0));
    writer.put(item("b", 3, 0));
    writer.put(item("B", 3, 2));
    let reader = writer.reader();
    let idx: Vec<u32> = reader.iter_raw().iter().map(|i| i.index()).collect();
    assert_eq!(idx, vec![1, 3, 5]);
    assert_eq!(reader.iter_raw()[1].header_address(), &addr("B"));
    assert_eq!(reader.iter_raw()[1].tx_seq(), 2);
    assert_eq!(writer.latest().map(|i| i.index()), Some(5));
}

#[test]
fn aborted_transaction_leaves_store() {
    let mut writer = Env::new().begin_write();
    writer.put(item("a", 0, 0));
    let env = writer.commit();
    let mut writer = env.begin_write();
    writer.put(item("b", 1, 1));
    assert_eq!(writer.reader().iter_raw().len(), 2);
    let env = writer.abort();
    assert_eq!(addresses(&env), vec!["a"]);
}

#[test]
fn snapshot_does_not_see_later_commits() {
    let env = Env::new();
    let snapshot = env.reader();
    let mut writer = env.begin_write();
    writer.put(item("a", 0, 0));
    let env = writer.commit();
    assert!(snapshot.latest().is_none());
    assert_eq!(env.reader().latest().map(|i| i.index()), Some(0));
}
