//! Open handles: a count of references per inode, and their total.
//!
//! A handle is the inode's number. An inode has an entry in the table while
//! it is open, and the total of all counts gates the teardown of the engine.
use vstd::prelude::*;
use crate::error::{ErrorCode, Fatal, ProtocolError};

verus! {

/// An open inode and the number of its open references.
#[derive(Clone, Copy, Debug, PartialEq, Eq, Structural)]
pub struct OpenHandle {
    pub inum: u64,
    pub count: u64,
}

/// The table of open handles.
#[derive(Clone, Debug)]
pub struct HandleTable {
    handles: Vec<OpenHandle>,
    total: u64,
}

/// A call on the table, for statements about sequences of calls.
#[derive(Clone, Copy, Debug, PartialEq, Eq, Structural)]
pub enum HandleOp {
    Open(u64),
    Close(u64),
}

/// The sum of the counts of all entries.
pub open spec fn count_sum(s: Seq<OpenHandle>) -> nat
    decreases s.len(),
{
    if s.len() == 0 {
        0
    } else {
        count_sum(s.drop_last()) + s.last().count as nat
    }
}

/// The sum of the counts of the entries of one inode.
pub open spec fn count_of(s: Seq<OpenHandle>, inum: u64) -> nat
    decreases s.len(),
{
    if s.len() == 0 {
        0
    } else {
        count_of(s.drop_last(), inum) + if s.last().inum == inum {
            s.last().count as nat
        } else {
            0
        }
    }
}

proof fn lemma_count_bounds(s: Seq<OpenHandle>, i: int)
    requires
        0 <= i < s.len(),
    ensures
        s[i].count <= count_of(s, s[i].inum) <= count_sum(s),
    decreases s.len(),
{
    lemma_count_of_le_sum(s, s[i].inum);
    if i < s.len() - 1 {
        lemma_count_bounds(s.drop_last(), i);
    }
}

proof fn lemma_count_of_le_sum(s: Seq<OpenHandle>, inum: u64)
    ensures
        count_of(s, inum) <= count_sum(s),
    decreases s.len(),
{
    if s.len() > 0 {
        lemma_count_of_le_sum(s.drop_last(), inum);
    }
}

proof fn lemma_absent(s: Seq<OpenHandle>, inum: u64)
    requires
        forall|j: int| 0 <= j < s.len() ==> s[j].inum != inum,
    ensures
        count_of(s, inum) == 0,
    decreases s.len(),
{
    if s.len() > 0 {
        lemma_absent(s.drop_last(), inum);
    }
}

proof fn lemma_update(s: Seq<OpenHandle>, i: int, h: OpenHandle, x: u64)
    requires
        0 <= i < s.len(),
        h.inum == s[i].inum,
    ensures
        count_sum(s.update(i, h)) == count_sum(s) - s[i].count + h.count,
        count_of(s.update(i, h), x) == count_of(s, x) + if x == h.inum {
            h.count - s[i].count
        } else {
            0
        },
    decreases s.len(),
{
    let t = s.update(i, h);
    if i == s.len() - 1 {
        assert(t.drop_last() == s.drop_last());
    } else {
        assert(t.drop_last() == s.drop_last().update(i, h));
        lemma_update(s.drop_last(), i, h, x);
    }
}

proof fn lemma_remove(s: Seq<OpenHandle>, i: int, x: u64)
    requires
        0 <= i < s.len(),
    ensures
        count_sum(s.remove(i)) == count_sum(s) - s[i].count,
        count_of(s.remove(i), x) == count_of(s, x) - if x == s[i].inum {
            s[i].count as int
        } else {
            0
        },
    decreases s.len(),
{
    let t = s.remove(i);
    if i == s.len() - 1 {
        assert(t == s.drop_last());
    } else {
        assert(t.drop_last() == s.drop_last().remove(i));
        assert(t.last() == s.last());
        lemma_remove(s.drop_last(), i, x);
    }
}

impl HandleTable {
    /// The table's invariant: every entry counts at least one reference, and
    /// the total is the sum of all counts.
    pub closed spec fn wf(&self) -> bool {
        &&& forall|i: int| 0 <= i < self.handles@.len() ==> (#[trigger] self.handles@[i]).count > 0
        &&& self.total == count_sum(self.handles@)
    }

    /// The number of open references to an inode.
    pub closed spec fn refs(&self, inum: u64) -> nat {
        count_of(self.handles@, inum)
    }

    /// Whether the table holds an entry for an inode.
    pub closed spec fn holds(&self, inum: u64) -> bool {
        exists|i: int| 0 <= i < self.handles@.len() && (#[trigger] self.handles@[i]).inum == inum
    }

    /// The number of open references to all inodes together.
    pub closed spec fn open_count(&self) -> nat {
        self.total as nat
    }

    /// `post` is `self` after one more reference to `inum`.
    pub open spec fn opened(&self, post: HandleTable, inum: u64) -> bool {
        &&& post.open_count() == self.open_count() + 1
        &&& post.refs(inum) == self.refs(inum) + 1
        &&& forall|other: u64| other != inum ==> post.refs(other) == self.refs(other)
    }

    /// `post` is `self` after one reference to `inum` was given up.
    pub open spec fn released(&self, post: HandleTable, inum: u64) -> bool {
        &&& self.refs(inum) > 0
        &&& post.open_count() == self.open_count() - 1
        &&& post.refs(inum) == self.refs(inum) - 1
        &&& forall|other: u64| other != inum ==> post.refs(other) == self.refs(other)
    }

    /// `post` is `self` after the call `op` succeeded.
    pub open spec fn follows(&self, post: HandleTable, op: HandleOp) -> bool {
        &&& post.wf()
        &&& match op {
            HandleOp::Open(inum) => self.opened(post, inum),
            HandleOp::Close(inum) => self.released(post, inum),
        }
    }

    /// An empty table.
    pub fn new() -> (t: HandleTable)
        ensures
            t.wf(),
            t.open_count() == 0,
            forall|inum: u64| t.refs(inum) == 0,
    {
        HandleTable { handles: Vec::new(), total: 0 }
    }

    /// The number of open references to all inodes together.
    pub fn count(&self) -> (n: u64)
        ensures
            n == self.open_count(),
    {
        self.total
    }

    /// The number of open references to one inode.
    pub fn references(&self, inum: u64) -> (n: u64)
        requires
            self.wf(),
        ensures
            n == self.refs(inum),
    {
        let mut n: u64 = 0;
        let mut i: usize = 0;
        proof {
            lemma_count_of_le_sum(self.handles@, inum);
        }
        while i < self.handles.len()
            invariant
                i <= self.handles@.len(),
                n == count_of(self.handles@.take(i as int), inum),
                count_of(self.handles@, inum) <= u64::MAX,
            decreases self.handles@.len() - i,
        {
            proof {
                let s = self.handles@;
                assert(s.take(i + 1).drop_last() == s.take(i as int));
                lemma_prefix_le(s, i + 1, inum);
            }
            if self.handles[i].inum == inum {
                n = n + self.handles[i].count;
            }
            i += 1;
        }
        assert(self.handles@.take(i as int) == self.handles@);
        n
    }

    /// Takes a reference to an inode. `resolved` says whether the engine
    /// resolves the inode now: if it does not, the open fails as not found
    /// and the table stays as it is.
    pub fn open(&mut self, inum: u64, resolved: bool) -> (r: Result<(), ProtocolError>)
        requires
            old(self).wf(),
            old(self).open_count() < u64::MAX,
        ensures
            final(self).wf(),
            resolved ==> r is Ok && old(self).opened(*final(self), inum),
            !resolved ==> r == Err::<(), ProtocolError>(ProtocolError::Code(ErrorCode::NotFound))
                && *final(self) == *old(self),
    {
        if !resolved {
            return Err(ProtocolError::Code(ErrorCode::NotFound));
        }
        let ghost before = self.handles@;
        let mut i: usize = 0;
        while i < self.handles.len()
            invariant
                *self == *old(self),
                resolved,
                self.wf(),
                self.open_count() < u64::MAX,
                before == self.handles@,
                i <= self.handles@.len(),
                forall|j: int| 0 <= j < i ==> self.handles@[j].inum != inum,
            decreases self.handles@.len() - i,
        {
            if self.handles[i].inum == inum {
                proof {
                    lemma_count_bounds(before, i as int);
                }
                let h = OpenHandle { inum, count: self.handles[i].count + 1 };
                self.handles.set(i, h);
                self.total = self.total + 1;
                proof {
                    lemma_update(before, i as int, h, inum);
                    assert forall|other: u64| other != inum implies count_of(self.handles@, other)
                        == count_of(before, other) by {
                        lemma_update(before, i as int, h, other);
                    }
                }
                return Ok(());
            }
            i += 1;
        }
        self.handles.push(OpenHandle { inum, count: 1 });
        self.total = self.total + 1;
        proof {
            assert(self.handles@.drop_last() == before);
            lemma_absent(before, inum);
        }
        Ok(())
    }

    /// Gives up a reference to an inode. An inode without an open reference
    /// cannot be closed: that is fatal, and the table stays as it is.
    pub fn close(&mut self, inum: u64) -> (r: Result<(), Fatal>)
        requires
            old(self).wf(),
        ensures
            final(self).wf(),
            old(self).refs(inum) > 0 ==> r is Ok && old(self).released(*final(self), inum),
            old(self).refs(inum) == 0 ==> r == Err::<(), Fatal>(Fatal::NotOpen) && *final(self)
                == *old(self),
    {
        let ghost before = self.handles@;
        let mut i: usize = 0;
        while i < self.handles.len()
            invariant
                *self == *old(self),
                self.wf(),
                before == self.handles@,
                i <= self.handles@.len(),
                forall|j: int| 0 <= j < i ==> self.handles@[j].inum != inum,
            decreases self.handles@.len() - i,
        {
            if self.handles[i].inum == inum {
                proof {
                    lemma_count_bounds(before, i as int);
                }
                let count = self.handles[i].count;
                if count > 1 {
                    let h = OpenHandle { inum, count: count - 1 };
                    self.handles.set(i, h);
                    proof {
                        lemma_update(before, i as int, h, inum);
                        assert forall|other: u64| other != inum implies count_of(
                            self.handles@,
                            other,
                        ) == count_of(before, other) by {
                            lemma_update(before, i as int, h, other);
                        }
                    }
                } else {
                    self.handles.remove(i);
                    proof {
                        lemma_remove(before, i as int, inum);
                        assert forall|other: u64| other != inum implies count_of(
                            self.handles@,
                            other,
                        ) == count_of(before, other) by {
                            lemma_remove(before, i as int, other);
                        }
                    }
                }
                self.total = self.total - 1;
                return Ok(());
            }
            i += 1;
        }
        proof {
            lemma_absent(before, inum);
        }
        Err(Fatal::NotOpen)
    }

    /// Whether the engine may be torn down: only with no reference open.
    pub fn check_teardown(&self) -> (r: Result<(), Fatal>)
        ensures
            r == if self.open_count() == 0 {
                Ok::<(), Fatal>(())
            } else {
                Err::<(), Fatal>(Fatal::OpenAtTeardown)
            },
    {
        if self.total == 0 {
            Ok(())
        } else {
            Err(Fatal::OpenAtTeardown)
        }
    }

    /// An inode has an entry in the table exactly while it has an open
    /// reference, no inode has more references than the table has in all, and
    /// the table counts no reference exactly when no inode has one.
    pub proof fn counts_agree(&self, inum: u64)
        requires
            self.wf(),
        ensures
            self.holds(inum) <==> self.refs(inum) > 0,
            self.refs(inum) <= self.open_count(),
            self.open_count() == 0 <==> forall|i: u64| self.refs(i) == 0,
    {
        let s = self.handles@;
        lemma_count_of_le_sum(s, inum);
        if self.holds(inum) {
            let i = choose|i: int| 0 <= i < s.len() && (#[trigger] s[i]).inum == inum;
            lemma_count_bounds(s, i);
        } else {
            lemma_absent(s, inum);
        }
        if self.open_count() == 0 {
            assert forall|i: u64| self.refs(i) == 0 by {
                lemma_count_of_le_sum(s, i);
            }
        }
        if forall|i: u64| self.refs(i) == 0 {
            if s.len() > 0 {
                lemma_count_bounds(s, 0);
                assert(self.refs(s[0].inum) == 0);
                assert(s[0].count > 0);
            }
            assert(s.len() == 0);
        }
    }
}

proof fn lemma_prefix_le(s: Seq<OpenHandle>, k: int, inum: u64)
    requires
        0 <= k <= s.len(),
    ensures
        count_of(s.take(k), inum) <= count_of(s, inum),
    decreases s.len() - k,
{
    if k < s.len() {
        assert(s.take(k + 1).drop_last() == s.take(k));
        lemma_prefix_le(s, k + 1, inum);
    } else {
        assert(s.take(k) == s);
    }
}

/// How many of the calls open `inum`.
pub open spec fn opens_of(ops: Seq<HandleOp>, inum: u64) -> nat
    decreases ops.len(),
{
    if ops.len() == 0 {
        0
    } else {
        opens_of(ops.drop_last(), inum) + if ops.last() == HandleOp::Open(inum) {
            1nat
        } else {
            0
        }
    }
}

/// How many of the calls close `inum`.
pub open spec fn closes_of(ops: Seq<HandleOp>, inum: u64) -> nat
    decreases ops.len(),
{
    if ops.len() == 0 {
        0
    } else {
        closes_of(ops.drop_last(), inum) + if ops.last() == HandleOp::Close(inum) {
            1nat
        } else {
            0
        }
    }
}

/// `tables` are the states a table passes through while the calls `ops`
/// succeed one after the other on a table that starts with nothing open.
pub open spec fn is_run(tables: Seq<HandleTable>, ops: Seq<HandleOp>) -> bool {
    &&& tables.len() == ops.len() + 1
    &&& tables[0].wf()
    &&& forall|inum: u64| tables[0].refs(inum) == 0
    &&& forall|k: int| 0 <= k < ops.len() ==> (#[trigger] tables[k]).follows(tables[k + 1], ops[k])
}

/// After any sequence of successful calls on a table that started with
/// nothing open, each inode has as many open references as it was opened more
/// often than closed.
pub proof fn run_counts(tables: Seq<HandleTable>, ops: Seq<HandleOp>, inum: u64)
    requires
        is_run(tables, ops),
    ensures
        tables.last().wf(),
        tables.last().refs(inum) + closes_of(ops, inum) == opens_of(ops, inum),
    decreases ops.len(),
{
    if ops.len() > 0 {
        let n = ops.len() as int;
        let t = tables.drop_last();
        let o = ops.drop_last();
        assert(is_run(t, o)) by {
            assert forall|k: int| 0 <= k < o.len() implies (#[trigger] t[k]).follows(
                t[k + 1],
                o[k],
            ) by {
                assert(tables[k].follows(tables[k + 1], ops[k]));
            }
        }
        run_counts(t, o, inum);
        assert(tables[n - 1].follows(tables[n], ops[n - 1]));
        assert(t.last() == tables[n - 1]);
    }
}

/// After a balanced sequence of successful opens and closes, one in which
/// every inode is closed as often as it is opened, on a table that started
/// with nothing open, nothing is open: the count is 0 again, and the engine
/// may be torn down.
pub proof fn balanced_run_returns_to_zero(tables: Seq<HandleTable>, ops: Seq<HandleOp>)
    requires
        is_run(tables, ops),
        forall|inum: u64| opens_of(ops, inum) == closes_of(ops, inum),
    ensures
        tables.last().open_count() == 0,
{
    let last = tables.last();
    assert forall|inum: u64| last.refs(inum) == 0 by {
        run_counts(tables, ops, inum);
    }
    run_counts(tables, ops, 0);
    last.counts_agree(0);
}

} // verus!
