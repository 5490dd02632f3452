use git_prompt_status::status::ChangeCounters;
use git_prompt_status::status::ChangeFlags;
use git_prompt_status::status::ChangeRecord;
use git_prompt_status::status::classify_statuses;

fn record(mutate: impl FnOnce(&mut ChangeFlags), has_worktree_delta: bool) -> ChangeRecord {
    let mut flags = ChangeFlags::current();
    mutate(&mut flags);
    ChangeRecord { flags, has_worktree_delta }
}

fn counters(new_count: usize, modified_count: usize, deleted_count: usize) -> ChangeCounters {
    ChangeCounters { new_count, modified_count, deleted_count }
}

#[test]
fn empty_collection_counts_nothing() {
    let (index, wt) = classify_statuses(&vec![]);
    assert_eq!(index, counters(0, 0, 0));
    assert_eq!(wt, counters(0, 0, 0));
}

#[test]
fn current_records_count_nothing() {
    let recs = vec![record(|_| {}, false), record(|_| {}, true)];
    let (index, wt) = classify_statuses(&recs);
    assert_eq!(index, counters(0, 0, 0));
    assert_eq!(wt, counters(0, 0, 0));
}

#[test]
fn index_categories_are_counted() {
    let recs = vec![
        record(|f| f.index_new = true, false),
        record(|f| f.index_new = true, false),
        record(|f| f.index_modified = true, false),
        record(|f| f.index_deleted = true, false),
    ];
    let (index, wt) = classify_statuses(&recs);
    assert_eq!(index, counters(2, 1, 1));
    assert_eq!(wt, counters(0, 0, 0));
}

#[test]
fn renamed_and_typechange_fold_into_modified() {
    let recs = vec![
        record(|f| f.index_renamed = true, false),
        record(|f| f.index_typechange = true, false),
        record(|f| f.wt_renamed = true, true),
        record(|f| f.wt_typechange = true, true),
    ];
    let (index, wt) = classify_statuses(&recs);
    assert_eq!(index, counters(0, 2, 0));
    assert_eq!(wt, counters(0, 2, 0));
}

#[test]
fn first_match_wins_on_priority_order() {
    // A record carrying both the new and the modified flag counts once, as new.
    let recs = vec![record(
        |f| {
            f.index_new = true;
            f.index_modified = true;
        },
        false,
    )];
    let (index, _) = classify_statuses(&recs);
    assert_eq!(index, counters(1, 0, 0));
}

#[test]
fn unmatched_noncurrent_records_are_ignored() {
    // An ignored-only or conflicted record is non-current yet matches no
    // counted category on either side.
    let recs = vec![record(|f| f.other = true, true)];
    let (index, wt) = classify_statuses(&recs);
    assert_eq!(index, counters(0, 0, 0));
    assert_eq!(wt, counters(0, 0, 0));
}

#[test]
fn worktree_side_requires_a_delta_indicator() {
    let with_delta = record(|f| f.wt_modified = true, true);
    let without_delta = record(|f| f.wt_modified = true, false);
    let (_, wt) = classify_statuses(&vec![with_delta, without_delta]);
    assert_eq!(wt, counters(0, 1, 0));
}

#[test]
fn both_sides_of_one_record_are_counted() {
    let recs = vec![record(
        |f| {
            f.index_new = true;
            f.wt_deleted = true;
        },
        true,
    )];
    let (index, wt) = classify_statuses(&recs);
    assert_eq!(index, counters(1, 0, 0));
    assert_eq!(wt, counters(0, 0, 1));
}
