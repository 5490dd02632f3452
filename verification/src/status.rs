//! Classification of per-file change records into staged (index) and
//! unstaged (worktree) counter triples.

use vstd::prelude::*;

verus! {

/// The composite status flags of one per-file change record, read off the
/// repository's status enumeration. A flag can be set independently for the
/// index side and the worktree side; `other` stands for any remaining flag
/// (ignored, conflicted, and the like) that makes the record non-current but
/// matches no counted category.
#[derive(Clone, Copy, Debug, PartialEq, Eq, Structural)]
pub struct ChangeFlags {
    pub index_new: bool,
    pub index_modified: bool,
    pub index_deleted: bool,
    pub index_renamed: bool,
    pub index_typechange: bool,
    pub wt_new: bool,
    pub wt_modified: bool,
    pub wt_deleted: bool,
    pub wt_renamed: bool,
    pub wt_typechange: bool,
    pub other: bool,
}

/// One per-file change record: its composite flags, and whether the
/// enumeration carried an index-to-worktree delta for it. A record can be
/// present without representing an actual worktree change; the worktree
/// side counts it only when this indicator is set.
#[derive(Clone, Copy, Debug, PartialEq, Eq, Structural)]
pub struct ChangeRecord {
    pub flags: ChangeFlags,
    pub has_worktree_delta: bool,
}

/// The category a counted record falls into on one side.
#[derive(Clone, Copy, Debug, PartialEq, Eq, Structural)]
pub enum ChangeKind {
    New,
    Modified,
    Deleted,
}

/// Counter triple for one side (index or worktree).
#[derive(Clone, Copy, Debug, PartialEq, Eq, Structural)]
pub struct ChangeCounters {
    pub new_count: usize,
    pub modified_count: usize,
    pub deleted_count: usize,
}

impl ChangeCounters {
    /// Whether any of the three counters is positive: exactly when this
    /// side produces a visible status segment.
    pub open spec fn spec_any(self) -> bool {
        self.new_count > 0 || self.modified_count > 0 || self.deleted_count > 0
    }

    /// All three counters zero.
    pub fn zero() -> (c: ChangeCounters)
        ensures
            c.new_count == 0 && c.modified_count == 0 && c.deleted_count == 0,
    {
        ChangeCounters { new_count: 0, modified_count: 0, deleted_count: 0 }
    }
}

impl ChangeFlags {
    /// A record is current (unmodified) when no flag at all is set.
    pub open spec fn spec_is_current(self) -> bool {
        !self.index_new && !self.index_modified && !self.index_deleted && !self.index_renamed
            && !self.index_typechange && !self.wt_new && !self.wt_modified && !self.wt_deleted
            && !self.wt_renamed && !self.wt_typechange && !self.other
    }

    /// Flags with nothing set: the current (unmodified) record.
    pub fn current() -> (f: ChangeFlags)
        ensures
            f.spec_is_current(),
    {
        ChangeFlags {
            index_new: false,
            index_modified: false,
            index_deleted: false,
            index_renamed: false,
            index_typechange: false,
            wt_new: false,
            wt_modified: false,
            wt_deleted: false,
            wt_renamed: false,
            wt_typechange: false,
            other: false,
        }
    }

    /// Index-side category under the fixed priority order: new, modified,
    /// deleted, renamed (counts as modified), type-changed (counts as
    /// modified); first match wins, no match means the record is not counted.
    pub open spec fn spec_index_kind(self) -> Option<ChangeKind> {
        if self.index_new {
            Some(ChangeKind::New)
        } else if self.index_modified {
            Some(ChangeKind::Modified)
        } else if self.index_deleted {
            Some(ChangeKind::Deleted)
        } else if self.index_renamed {
            Some(ChangeKind::Modified)
        } else if self.index_typechange {
            Some(ChangeKind::Modified)
        } else {
            None
        }
    }

    /// Worktree-side category under the same priority order over the
    /// worktree flag set.
    pub open spec fn spec_wt_kind(self) -> Option<ChangeKind> {
        if self.wt_new {
            Some(ChangeKind::New)
        } else if self.wt_modified {
            Some(ChangeKind::Modified)
        } else if self.wt_deleted {
            Some(ChangeKind::Deleted)
        } else if self.wt_renamed {
            Some(ChangeKind::Modified)
        } else if self.wt_typechange {
            Some(ChangeKind::Modified)
        } else {
            None
        }
    }
}

impl ChangeRecord {
    /// Whether the index side examines this record: every non-current record.
    pub open spec fn spec_index_examined(self) -> bool {
        !self.flags.spec_is_current()
    }

    /// Whether the worktree side examines this record: non-current, and
    /// carrying an actual index-to-worktree delta.
    pub open spec fn spec_wt_examined(self) -> bool {
        !self.flags.spec_is_current() && self.has_worktree_delta
    }

    /// Whether this record increments the index-side counter for `k`.
    pub open spec fn spec_index_counts_as(self, k: ChangeKind) -> bool {
        self.spec_index_examined() && self.flags.spec_index_kind() == Some(k)
    }

    /// Whether this record increments the worktree-side counter for `k`.
    pub open spec fn spec_wt_counts_as(self, k: ChangeKind) -> bool {
        self.spec_wt_examined() && self.flags.spec_wt_kind() == Some(k)
    }
}

/// How many records of `s` increment the index-side counter for `k`.
pub open spec fn count_index(s: Seq<ChangeRecord>, k: ChangeKind) -> nat
    decreases s.len(),
{
    if s.len() == 0 {
        0
    } else {
        count_index(s.drop_last(), k) + if s.last().spec_index_counts_as(k) {
            1nat
        } else {
            0nat
        }
    }
}

/// How many records of `s` increment the worktree-side counter for `k`.
pub open spec fn count_wt(s: Seq<ChangeRecord>, k: ChangeKind) -> nat
    decreases s.len(),
{
    if s.len() == 0 {
        0
    } else {
        count_wt(s.drop_last(), k) + if s.last().spec_wt_counts_as(k) {
            1nat
        } else {
            0nat
        }
    }
}

/// How many records of `s` the index side examines (non-current records).
pub open spec fn count_index_examined(s: Seq<ChangeRecord>) -> nat
    decreases s.len(),
{
    if s.len() == 0 {
        0
    } else {
        count_index_examined(s.drop_last()) + if s.last().spec_index_examined() {
            1nat
        } else {
            0nat
        }
    }
}

/// How many records of `s` the worktree side examines.
pub open spec fn count_wt_examined(s: Seq<ChangeRecord>) -> nat
    decreases s.len(),
{
    if s.len() == 0 {
        0
    } else {
        count_wt_examined(s.drop_last()) + if s.last().spec_wt_examined() {
            1nat
        } else {
            0nat
        }
    }
}

/// The index-side counter triple of a record collection.
pub open spec fn spec_index_counters(s: Seq<ChangeRecord>) -> ChangeCounters {
    ChangeCounters {
        new_count: count_index(s, ChangeKind::New) as usize,
        modified_count: count_index(s, ChangeKind::Modified) as usize,
        deleted_count: count_index(s, ChangeKind::Deleted) as usize,
    }
}

/// The worktree-side counter triple of a record collection.
pub open spec fn spec_wt_counters(s: Seq<ChangeRecord>) -> ChangeCounters {
    ChangeCounters {
        new_count: count_wt(s, ChangeKind::New) as usize,
        modified_count: count_wt(s, ChangeKind::Modified) as usize,
        deleted_count: count_wt(s, ChangeKind::Deleted) as usize,
    }
}

/// Classifies the full collection of change records into the two counter
/// triples: index (staged) side first, worktree (unstaged) side second.
/// Each counter is exactly the number of records whose composite flags fall
/// into its category under the fixed priority order.
pub fn classify_statuses(records: &Vec<ChangeRecord>) -> (r: (ChangeCounters, ChangeCounters))
    ensures
        r.0.new_count == count_index(records@, ChangeKind::New),
        r.0.modified_count == count_index(records@, ChangeKind::Modified),
        r.0.deleted_count == count_index(records@, ChangeKind::Deleted),
        r.1.new_count == count_wt(records@, ChangeKind::New),
        r.1.modified_count == count_wt(records@, ChangeKind::Modified),
        r.1.deleted_count == count_wt(records@, ChangeKind::Deleted),
{
    let mut index = ChangeCounters::zero();
    let mut wt = ChangeCounters::zero();
    let mut i: usize = 0;
    while i < records.len()
        invariant
            i <= records@.len(),
            index.new_count == count_index(records@.take(i as int), ChangeKind::New),
            index.modified_count == count_index(records@.take(i as int), ChangeKind::Modified),
            index.deleted_count == count_index(records@.take(i as int), ChangeKind::Deleted),
            wt.new_count == count_wt(records@.take(i as int), ChangeKind::New),
            wt.modified_count == count_wt(records@.take(i as int), ChangeKind::Modified),
            wt.deleted_count == count_wt(records@.take(i as int), ChangeKind::Deleted),
            index.new_count + index.modified_count + index.deleted_count <= i,
            wt.new_count + wt.modified_count + wt.deleted_count <= i,
        decreases records@.len() - i,
    {
        let rec = records[i];
        proof {
            assert(records@.take(i + 1).drop_last() =~= records@.take(i as int));
            assert(records@.take(i + 1).last() == records@[i as int]);
        }
        let f = rec.flags;
        let is_current = !f.index_new && !f.index_modified && !f.index_deleted && !f.index_renamed
            && !f.index_typechange && !f.wt_new && !f.wt_modified && !f.wt_deleted && !f.wt_renamed
            && !f.wt_typechange && !f.other;
        if !is_current {
            if f.index_new {
                index.new_count = index.new_count + 1;
            } else if f.index_modified {
                index.modified_count = index.modified_count + 1;
            } else if f.index_deleted {
                index.deleted_count = index.deleted_count + 1;
            } else if f.index_renamed {
                index.modified_count = index.modified_count + 1;
            } else if f.index_typechange {
                index.modified_count = index.modified_count + 1;
            }
            if rec.has_worktree_delta {
                if f.wt_new {
                    wt.new_count = wt.new_count + 1;
                } else if f.wt_modified {
                    wt.modified_count = wt.modified_count + 1;
                } else if f.wt_deleted {
                    wt.deleted_count = wt.deleted_count + 1;
                } else if f.wt_renamed {
                    wt.modified_count = wt.modified_count + 1;
                } else if f.wt_typechange {
                    wt.modified_count = wt.modified_count + 1;
                }
            }
        }
        i = i + 1;
    }
    proof {
        assert(records@.take(records@.len() as int) =~= records@);
    }
    (index, wt)
}

/// Law: on the index side, the three counters together never exceed the
/// number of records examined for that side, since each examined record
/// increments at most one counter.
pub proof fn lemma_index_counter_sum(s: Seq<ChangeRecord>)
    ensures
        count_index(s, ChangeKind::New) + count_index(s, ChangeKind::Modified) + count_index(
            s,
            ChangeKind::Deleted,
        ) <= count_index_examined(s),
    decreases s.len(),
{
    if s.len() > 0 {
        lemma_index_counter_sum(s.drop_last());
    }
}

/// Law: on the worktree side, the three counters together never exceed the
/// number of records examined for that side.
pub proof fn lemma_wt_counter_sum(s: Seq<ChangeRecord>)
    ensures
        count_wt(s, ChangeKind::New) + count_wt(s, ChangeKind::Modified) + count_wt(
            s,
            ChangeKind::Deleted,
        ) <= count_wt_examined(s),
    decreases s.len(),
{
    if s.len() > 0 {
        lemma_wt_counter_sum(s.drop_last());
    }
}

} // verus!
