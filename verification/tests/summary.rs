use git_prompt_status::branch::HeadOutcome;
use git_prompt_status::branch::divergence_counts;
use git_prompt_status::branch::resolve_branch_name;
use git_prompt_status::color::RenderMode;
use git_prompt_status::compose::compose_summary;
use git_prompt_status::compose::render_status;
use git_prompt_status::status::ChangeCounters;
use git_prompt_status::status::ChangeFlags;
use git_prompt_status::status::ChangeRecord;

fn zero() -> ChangeCounters {
    ChangeCounters { new_count: 0, modified_count: 0, deleted_count: 0 }
}

fn index_record(mutate: impl FnOnce(&mut ChangeFlags)) -> ChangeRecord {
    let mut flags = ChangeFlags::current();
    mutate(&mut flags);
    ChangeRecord { flags, has_worktree_delta: false }
}

#[test]
fn branch_name_resolution_yields_the_sentinel_never_an_error() {
    assert_eq!(resolve_branch_name(HeadOutcome::Unborn).unwrap(), "no branch");
    assert_eq!(resolve_branch_name(HeadOutcome::NotFound).unwrap(), "no branch");
    assert_eq!(
        resolve_branch_name(HeadOutcome::Resolved { shorthand: None }).unwrap(),
        "no branch"
    );
    assert_eq!(
        resolve_branch_name(HeadOutcome::Resolved { shorthand: Some("main".to_string()) })
            .unwrap(),
        "main"
    );
}

#[test]
fn other_resolution_failures_propagate() {
    let r = resolve_branch_name(HeadOutcome::Failed { message: "boom".to_string() });
    assert_eq!(r.err().unwrap().message, "boom");
}

#[test]
fn absent_upstream_degrades_to_zero_divergence() {
    assert_eq!(divergence_counts(None), (0, 0));
    assert_eq!(divergence_counts(Some((3, 1))), (3, 1));
}

#[test]
fn branch_only_line_is_bracketed_branch_name() {
    assert_eq!(compose_summary("main", 0, 0, zero(), zero(), RenderMode::Plain), "[main]");
    assert_eq!(compose_summary("dev", 0, 0, zero(), zero(), RenderMode::Plain), "[dev]");
}

#[test]
fn ahead_behind_markers_appear_exactly_when_positive() {
    assert_eq!(
        compose_summary("main", 3, 1, zero(), zero(), RenderMode::Plain),
        "[main \u{2191}3 \u{2193}1]"
    );
    assert_eq!(
        compose_summary("main", 3, 0, zero(), zero(), RenderMode::Plain),
        "[main \u{2191}3]"
    );
    assert_eq!(
        compose_summary("main", 0, 2, zero(), zero(), RenderMode::Plain),
        "[main \u{2193}2]"
    );
}

#[test]
fn status_segments_appear_in_order_with_their_prefixes() {
    let index = ChangeCounters { new_count: 1, modified_count: 0, deleted_count: 0 };
    let wt = ChangeCounters { new_count: 0, modified_count: 2, deleted_count: 1 };
    assert_eq!(
        compose_summary("main", 0, 0, index, wt, RenderMode::Plain),
        "[main +1 ~0 -0 | +0 ~2 -1]"
    );
    assert_eq!(
        compose_summary("main", 0, 0, zero(), wt, RenderMode::Plain),
        "[main | +0 ~2 -1]"
    );
}

#[test]
fn terminal_mode_colors_every_fragment() {
    assert_eq!(
        compose_summary("main", 0, 0, zero(), zero(), RenderMode::Terminal),
        "\u{1b}[33m[\u{1b}[0m\u{1b}[34mmain\u{1b}[0m\u{1b}[33m]\u{1b}[0m"
    );
}

#[test]
fn prompt_escape_mode_encodes_every_fragment() {
    assert_eq!(
        compose_summary("main", 1, 0, zero(), zero(), RenderMode::PromptEscape),
        "%F{yellow}[%f%F{blue}main%f %F{green}\u{2191}1%f%F{yellow}]%f"
    );
}

#[test]
fn staged_scenario_renders_counts_after_branch() {
    // Two new and one modified staged file, nothing unstaged, no upstream.
    let records = vec![
        index_record(|f| f.index_new = true),
        index_record(|f| f.index_new = true),
        index_record(|f| f.index_modified = true),
    ];
    let head = HeadOutcome::Resolved { shorthand: Some("main".to_string()) };
    let line = render_status(false, &records, head, None, RenderMode::Plain).unwrap();
    assert_eq!(line, "[main +2 ~1 -0]");
}

#[test]
fn diverged_clean_tree_scenario_renders_markers_only() {
    let head = HeadOutcome::Resolved { shorthand: Some("main".to_string()) };
    let line = render_status(false, &vec![], head, Some((3, 1)), RenderMode::Plain).unwrap();
    assert_eq!(line, "[main \u{2191}3 \u{2193}1]");
}

#[test]
fn bare_repository_is_rejected_before_any_output() {
    let head = HeadOutcome::Resolved { shorthand: Some("main".to_string()) };
    let r = render_status(true, &vec![], head, None, RenderMode::Plain);
    assert_eq!(r.err().unwrap().message, "Cannot report status on bare repository");
}

#[test]
fn fatal_head_failure_aborts_the_pipeline() {
    let head = HeadOutcome::Failed { message: "corrupt ref".to_string() };
    let r = render_status(false, &vec![], head, None, RenderMode::Plain);
    assert_eq!(r.err().unwrap().message, "corrupt ref");
}

#[test]
fn unborn_head_still_renders_the_sentinel_line() {
    let line = render_status(false, &vec![], HeadOutcome::Unborn, None, RenderMode::Plain)
        .unwrap();
    assert_eq!(line, "[no branch]");
}
