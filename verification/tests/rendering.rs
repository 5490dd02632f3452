use git_prompt_status::color::Color;
use git_prompt_status::color::RenderMode;
use git_prompt_status::color::render_colored;
use git_prompt_status::numerals::usize_to_decimal;
use git_prompt_status::status::ChangeCounters;
use git_prompt_status::compose::status_segment;

#[test]
fn plain_mode_is_the_identity() {
    assert_eq!(render_colored("main", Color::Blue, RenderMode::Plain), "main");
    assert_eq!(render_colored("", Color::Red, RenderMode::Plain), "");
    assert_eq!(render_colored("| +1 ~0 -0", Color::Yellow, RenderMode::Plain), "| +1 ~0 -0");
}

#[test]
fn terminal_mode_wraps_in_ansi_escapes() {
    assert_eq!(
        render_colored("main", Color::Blue, RenderMode::Terminal),
        "\u{1b}[34mmain\u{1b}[0m"
    );
    assert_eq!(render_colored("x", Color::Green, RenderMode::Terminal), "\u{1b}[32mx\u{1b}[0m");
    assert_eq!(render_colored("x", Color::Red, RenderMode::Terminal), "\u{1b}[31mx\u{1b}[0m");
    assert_eq!(render_colored("[", Color::Yellow, RenderMode::Terminal), "\u{1b}[33m[\u{1b}[0m");
}

#[test]
fn prompt_escape_mode_uses_named_colors() {
    assert_eq!(render_colored("main", Color::Blue, RenderMode::PromptEscape), "%F{blue}main%f");
    assert_eq!(render_colored("x", Color::Green, RenderMode::PromptEscape), "%F{green}x%f");
    assert_eq!(render_colored("x", Color::Red, RenderMode::PromptEscape), "%F{red}x%f");
    assert_eq!(render_colored("x", Color::Yellow, RenderMode::PromptEscape), "%F{yellow}x%f");
}

#[test]
fn unsupported_prompt_escape_color_yields_the_placeholder() {
    let rendered = render_colored("x", Color::Magenta, RenderMode::PromptEscape);
    assert_eq!(rendered, "%F{not implemented yet}x%f");
    assert!(rendered.contains("not implemented yet"));
    assert_eq!(
        render_colored("x", Color::White, RenderMode::PromptEscape),
        "%F{not implemented yet}x%f"
    );
}

#[test]
fn decimal_rendering_matches_standard_formatting() {
    assert_eq!(usize_to_decimal(0), "0");
    assert_eq!(usize_to_decimal(7), "7");
    assert_eq!(usize_to_decimal(10), "10");
    assert_eq!(usize_to_decimal(42), "42");
    assert_eq!(usize_to_decimal(305), "305");
    assert_eq!(usize_to_decimal(usize::MAX), format!("{}", usize::MAX));
}

#[test]
fn status_segment_is_empty_exactly_when_all_counters_are_zero() {
    let zero = ChangeCounters { new_count: 0, modified_count: 0, deleted_count: 0 };
    assert_eq!(status_segment(zero, "", Color::Green, RenderMode::Plain), "");
    assert_eq!(status_segment(zero, "| ", Color::Red, RenderMode::Terminal), "");
    let one = ChangeCounters { new_count: 0, modified_count: 0, deleted_count: 1 };
    assert_eq!(status_segment(one, "", Color::Green, RenderMode::Plain), "+0 ~0 -1");
}

#[test]
fn status_segment_carries_its_prefix() {
    let c = ChangeCounters { new_count: 1, modified_count: 2, deleted_count: 3 };
    assert_eq!(status_segment(c, "| ", Color::Red, RenderMode::Plain), "| +1 ~2 -3");
    assert_eq!(
        status_segment(c, "| ", Color::Red, RenderMode::Terminal),
        "\u{1b}[33m| \u{1b}[0m\u{1b}[31m+1 ~2 -3\u{1b}[0m"
    );
    assert_eq!(
        status_segment(c, "", Color::Green, RenderMode::PromptEscape),
        "%F{yellow}%f%F{green}+1 ~2 -3%f"
    );
}
