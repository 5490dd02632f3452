//! Rendering of a text fragment under a semantic color, in one of three
//! modes: plain text, ANSI terminal escapes, or the percent-delimited
//! foreground directives of a shell-prompt subsystem.

use vstd::prelude::*;

verus! {

/// A terminal foreground color.
#[derive(Clone, Copy, Debug, PartialEq, Eq, Structural)]
pub enum Color {
    Black,
    Red,
    Green,
    Yellow,
    Blue,
    Magenta,
    Cyan,
    White,
}

/// How fragments are encoded: plain text, ANSI terminal escapes, or the
/// prompt-escape percent syntax.
#[derive(Clone, Copy, Debug, PartialEq, Eq, Structural)]
pub enum RenderMode {
    Plain,
    Terminal,
    PromptEscape,
}

/// The two-digit ANSI foreground code of a color.
pub open spec fn spec_ansi_code(c: Color) -> Seq<char> {
    match c {
        Color::Black => "30"@,
        Color::Red => "31"@,
        Color::Green => "32"@,
        Color::Yellow => "33"@,
        Color::Blue => "34"@,
        Color::Magenta => "35"@,
        Color::Cyan => "36"@,
        Color::White => "37"@,
    }
}

/// The name a prompt-escape directive uses for a color. Only blue, green,
/// red and yellow are supported; any other color yields the literal
/// placeholder "not implemented yet" instead of a name.
pub open spec fn spec_prompt_color_name(c: Color) -> Seq<char> {
    match c {
        Color::Blue => "blue"@,
        Color::Green => "green"@,
        Color::Red => "red"@,
        Color::Yellow => "yellow"@,
        _ => "not implemented yet"@,
    }
}

/// What rendering `s` under color `c` in mode `m` yields:
/// plain mode passes the text through unchanged; terminal mode wraps it in
/// the ANSI foreground escape and the reset escape; prompt-escape mode wraps
/// it in `%F{name}` and `%f`.
pub open spec fn spec_render_colored(s: Seq<char>, c: Color, m: RenderMode) -> Seq<char> {
    match m {
        RenderMode::Plain => s,
        RenderMode::Terminal => "\u{1b}["@ + spec_ansi_code(c) + "m"@ + s + "\u{1b}[0m"@,
        RenderMode::PromptEscape => "%F{"@ + spec_prompt_color_name(c) + "}"@ + s + "%f"@,
    }
}

/// The two-digit ANSI foreground code of a color, as a string.
fn ansi_code_str(c: Color) -> (r: &'static str)
    ensures
        r@ == spec_ansi_code(c),
{
    match c {
        Color::Black => "30",
        Color::Red => "31",
        Color::Green => "32",
        Color::Yellow => "33",
        Color::Blue => "34",
        Color::Magenta => "35",
        Color::Cyan => "36",
        Color::White => "37",
    }
}

/// The prompt-escape name of a color, or the literal placeholder for an
/// unsupported one.
fn prompt_color_name_str(c: Color) -> (r: &'static str)
    ensures
        r@ == spec_prompt_color_name(c),
{
    match c {
        Color::Blue => "blue",
        Color::Green => "green",
        Color::Red => "red",
        Color::Yellow => "yellow",
        _ => "not implemented yet",
    }
}

/// Renders `s` under color `c` in mode `m`, exactly as
/// `spec_render_colored` describes.
pub fn render_colored(s: &str, c: Color, m: RenderMode) -> (r: String)
    ensures
        r@ == spec_render_colored(s@, c, m),
{
    match m {
        RenderMode::Plain => String::from_str(s),
        RenderMode::Terminal => {
            let mut r = String::from_str("\u{1b}[");
            r.append(ansi_code_str(c));
            r.append("m");
            r.append(s);
            r.append("\u{1b}[0m");
            r
        },
        RenderMode::PromptEscape => {
            let mut r = String::from_str("%F{");
            r.append(prompt_color_name_str(c));
            r.append("}");
            r.append(s);
            r.append("%f");
            r
        },
    }
}

/// Law: plain-mode rendering of any fragment is the fragment itself, with
/// no escape codes added.
pub proof fn lemma_plain_is_identity(s: Seq<char>, c: Color)
    ensures
        spec_render_colored(s, c, RenderMode::Plain) == s,
{
}

/// Law: rendering never loses the fragment's length; in the two colored
/// modes the escapes strictly lengthen it, so a colored rendering of any
/// fragment is never empty.
pub proof fn lemma_render_length(s: Seq<char>, c: Color, m: RenderMode)
    ensures
        spec_render_colored(s, c, m).len() >= s.len(),
        !(m matches RenderMode::Plain) ==> spec_render_colored(s, c, m).len() > s.len(),
{
    reveal_strlit("\u{1b}[");
    reveal_strlit("m");
    reveal_strlit("\u{1b}[0m");
    reveal_strlit("%F{");
    reveal_strlit("}");
    reveal_strlit("%f");
}

} // verus!
