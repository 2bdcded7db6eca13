use vstd::prelude::*;

use crate::storage::{KvStore, Store};

verus! {

/// One write recorded by a storage cache.
pub enum Op {
    Write { key: Vec<u8>, value: Vec<u8> },
    Delete { key: Vec<u8> },
}

/// The mathematical value of an [`Op`].
pub enum OpView {
    Write { key: Seq<u8>, value: Seq<u8> },
    Delete { key: Seq<u8> },
}

impl View for Op {
    type V = OpView;

    open spec fn view(&self) -> OpView {
        match self {
            Op::Write { key, value } => OpView::Write { key: key@, value: value@ },
            Op::Delete { key } => OpView::Delete { key: key@ },
        }
    }
}

impl OpView {
    pub open spec fn key(self) -> Seq<u8> {
        match self {
            OpView::Write { key, .. } => key,
            OpView::Delete { key } => key,
        }
    }
}

/// The store after one write.
pub open spec fn apply_op(store: Store, op: OpView) -> Store {
    match op {
        OpView::Write { key, value } => store.insert(key, value),
        OpView::Delete { key } => store.remove(key),
    }
}

/// The store after a sequence of writes, applied in order.
pub open spec fn apply_ops(store: Store, ops: Seq<OpView>) -> Store
    decreases ops.len(),
{
    if ops.len() == 0 {
        store
    } else {
        apply_op(apply_ops(store, ops.drop_last()), ops.last())
    }
}

/// Writing two logs one after the other is writing their concatenation:
/// committing a cache into the cache below it, and that one into the store,
/// leaves the store as committing both logs at once does.
pub proof fn lemma_apply_ops_concat(store: Store, first: Seq<OpView>, second: Seq<OpView>)
    ensures
        apply_ops(apply_ops(store, first), second) == apply_ops(store, first + second),
    decreases second.len(),
{
    if second.len() == 0 {
        assert(first + second =~= first);
    } else {
        lemma_apply_ops_concat(store, first, second.drop_last());
        assert((first + second).drop_last() =~= first + second.drop_last());
        assert((first + second).last() == second.last());
    }
}

/// Two stores hold the same thing under `key`.
pub open spec fn agree_at(a: Store, b: Store, key: Seq<u8>) -> bool {
    &&& a.contains_key(key) <==> b.contains_key(key)
    &&& a.contains_key(key) ==> a[key] == b[key]
}

/// The log of writes of a cache, ready to be written to the store below it.
pub struct RepLog {
    ops: Vec<Op>,
}

impl View for RepLog {
    type V = Seq<OpView>;

    closed spec fn view(&self) -> Seq<OpView> {
        self.ops@.map_values(|op: Op| op@)
    }
}

impl RepLog {
    /// No recorded write stores an empty value.
    #[verifier::type_invariant]
    spec fn values_not_empty(self) -> bool {
        forall|i: int|
            0 <= i < self.ops@.len() ==> match #[trigger] self.ops@[i] {
                Op::Write { value, .. } => value@.len() > 0,
                Op::Delete { .. } => true,
            }
    }

    /// A log with no writes.
    pub fn new() -> (res: RepLog)
        ensures
            res@ == Seq::<OpView>::empty(),
    {
        let res = RepLog { ops: Vec::new() };
        assert(res@ =~= Seq::<OpView>::empty());
        res
    }

    /// The number of recorded writes.
    pub fn len(&self) -> (res: usize)
        ensures
            res == self@.len(),
    {
        self.ops.len()
    }

    fn append(self, op: Op) -> (res: RepLog)
        requires
            op matches Op::Write { value, .. } ==> value@.len() > 0,
        ensures
            res@ == self@.push(op@),
    {
        proof {
            use_type_invariant(&self);
        }
        let ghost before = self@;
        let RepLog { ops } = self;
        let mut ops = ops;
        ops.push(op);
        let res = RepLog { ops };
        proof {
            assert(res@ =~= before.push(op@));
        }
        res
    }

    /// Writes every recorded operation, in order, to `base`.
    pub fn commit<S: KvStore>(self, base: &mut S)
        ensures
            final(base).kv() == apply_ops(old(base).kv(), self@),
    {
        proof {
            use_type_invariant(&self);
        }
        let ghost ops = self@;
        let ghost start = base.kv();
        let n = self.ops.len();
        let mut i: usize = 0;
        while i < n
            invariant
                n == self.ops@.len(),
                ops == self@,
                i <= n,
                base.kv() == apply_ops(start, ops.take(i as int)),
                forall|j: int|
                    0 <= j < self.ops@.len() ==> match #[trigger] self.ops@[j] {
                        Op::Write { value, .. } => value@.len() > 0,
                        Op::Delete { .. } => true,
                    },
            decreases n - i,
        {
            proof {
                assert(ops.take(i + 1).drop_last() =~= ops.take(i as int));
                assert(ops[i as int] == self.ops@[i as int]@);
            }
            match &self.ops[i] {
                Op::Write { key, value } => {
                    base.set(key.as_slice(), value.as_slice());
                },
                Op::Delete { key } => {
                    base.remove(key.as_slice());
                },
            }
            i = i + 1;
        }
        proof {
            assert(ops.take(n as int) =~= ops);
        }
    }
}

/// A write cache over a store: reads see the store with the cached writes
/// applied, and the store itself stays untouched until the cache's log is
/// committed.
pub struct StorageTransaction<'a, S> {
    storage: &'a S,
    rep_log: RepLog,
}

impl<'a, S: KvStore> StorageTransaction<'a, S> {
    /// The store below the cache.
    pub closed spec fn base(&self) -> Store {
        self.storage.kv()
    }

    /// The writes recorded so far.
    pub closed spec fn log(&self) -> Seq<OpView> {
        self.rep_log@
    }

    /// A cache with no writes over `storage`.
    pub fn new(storage: &'a S) -> (res: StorageTransaction<'a, S>)
        ensures
            res.base() == storage.kv(),
            res.log() == Seq::<OpView>::empty(),
            res.kv() == storage.kv(),
    {
        StorageTransaction { storage, rep_log: RepLog::new() }
    }

    /// Ends the cache and hands out its log of writes.
    pub fn prepare(self) -> (res: RepLog)
        ensures
            res@ == self.log(),
            apply_ops(self.base(), res@) == self.kv(),
    {
        self.rep_log
    }
}

impl<'a, S: KvStore> KvStore for StorageTransaction<'a, S> {
    open spec fn kv(&self) -> Store {
        apply_ops(self.base(), self.log())
    }

    open spec fn below(&self) -> Store {
        self.base()
    }

    fn get(&self, key: &[u8]) -> (res: Option<Vec<u8>>) {
        let ghost ops = self.log();
        let ghost base = self.base();
        let mut i = self.rep_log.ops.len();
        proof {
            assert(ops.take(i as int) =~= ops);
        }
        while i > 0
            invariant
                i <= self.rep_log.ops@.len(),
                ops == self.log(),
                base == self.base(),
                ops == self.rep_log.ops@.map_values(|op: Op| op@),
                agree_at(apply_ops(base, ops), apply_ops(base, ops.take(i as int)), key@),
            decreases i,
        {
            let ghost prefix = ops.take(i as int);
            proof {
                assert(prefix.drop_last() =~= ops.take(i - 1));
                assert(prefix.last() == self.rep_log.ops@[i - 1]@);
            }
            match &self.rep_log.ops[i - 1] {
                Op::Write { key: k, value } => {
                    if slice_eq(k.as_slice(), key) {
                        return Some(value.clone());
                    }
                },
                Op::Delete { key: k } => {
                    if slice_eq(k.as_slice(), key) {
                        return None;
                    }
                },
            }
            i = i - 1;
        }
        proof {
            assert(ops.take(0) =~= Seq::<OpView>::empty());
        }
        self.storage.get(key)
    }

    fn set(&mut self, key: &[u8], value: &[u8]) {
        let ghost before = self.log();
        let op = Op::Write { key: vstd::slice::slice_to_vec(key), value: vstd::slice::slice_to_vec(value) };
        let mut log = RepLog::new();
        std::mem::swap(&mut log, &mut self.rep_log);
        self.rep_log = log.append(op);
        proof {
            assert(self.log().drop_last() =~= before);
        }
    }

    fn remove(&mut self, key: &[u8]) {
        let ghost before = self.log();
        let op = Op::Delete { key: vstd::slice::slice_to_vec(key) };
        let mut log = RepLog::new();
        std::mem::swap(&mut log, &mut self.rep_log);
        self.rep_log = log.append(op);
        proof {
            assert(self.log().drop_last() =~= before);
        }
    }
}

/// Compares two byte strings.
pub fn slice_eq(a: &[u8], b: &[u8]) -> (res: bool)
    ensures
        res == (a@ == b@),
{
    if a.len() != b.len() {
        return false;
    }
    let mut i: usize = 0;
    while i < a.len()
        invariant
            a@.len() == b@.len(),
            i <= a@.len(),
            forall|j: int| 0 <= j < i ==> a@[j] == b@[j],
        decreases a@.len() - i,
    {
        if a[i] != b[i] {
            return false;
        }
        i = i + 1;
    }
    assert(a@ =~= b@);
    true
}

} // verus!
