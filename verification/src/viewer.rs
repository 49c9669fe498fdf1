use vstd::prelude::*;

verus! {

/// The decoded identity of a pressed key, as far as the scrollable view
/// cares: the four navigation keys form a closed set, and every other key
/// (or non-keyboard event) is `Other`.
#[derive(Clone, Copy, Debug, PartialEq, Eq, Structural)]
pub enum KeyInput {
    Up,
    Down,
    PageUp,
    PageDown,
    Other,
}

/// What the scrollable view loop does in reaction to a key: scroll by a
/// relative number of lines or pages (the renderer clamps against the
/// content bounds), or leave the loop.
#[derive(Clone, Copy, Debug, PartialEq, Eq, Structural)]
pub enum ScrollCommand {
    ByLines { delta: i32 },
    ByPages { delta: i32 },
    Quit,
}

/// The transition table of the scrollable view: arrow keys move by one
/// line, page keys by one page, anything else terminates the loop.
pub open spec fn scroll_command_spec(key: KeyInput) -> ScrollCommand {
    match key {
        KeyInput::Up => ScrollCommand::ByLines { delta: -1i32 },
        KeyInput::Down => ScrollCommand::ByLines { delta: 1i32 },
        KeyInput::PageUp => ScrollCommand::ByPages { delta: -1i32 },
        KeyInput::PageDown => ScrollCommand::ByPages { delta: 1i32 },
        KeyInput::Other => ScrollCommand::Quit,
    }
}

/// Decide what a pressed key does in the scrollable view.  All scroll
/// commands are relative deltas of one line or one page; the view never
/// tracks the total content height itself.
pub fn scroll_command(key: KeyInput) -> (c: ScrollCommand)
    ensures
        c == scroll_command_spec(key),
{
    match key {
        KeyInput::Up => ScrollCommand::ByLines { delta: -1 },
        KeyInput::Down => ScrollCommand::ByLines { delta: 1 },
        KeyInput::PageUp => ScrollCommand::ByPages { delta: -1 },
        KeyInput::PageDown => ScrollCommand::ByPages { delta: 1 },
        KeyInput::Other => ScrollCommand::Quit,
    }
}

/// The width the one-shot render uses: the configured width when it is
/// above 2, else the terminal's column count when that is above 2, else a
/// fallback of 120 columns.
pub open spec fn effective_width_spec(config_width: usize, terminal_width: u16) -> usize {
    if config_width > 2 {
        config_width
    } else if terminal_width > 2 {
        terminal_width as usize
    } else {
        120
    }
}

/// Choose the width the one-shot render wraps to.  The result is always
/// wide enough to render into (more than 2 columns).
pub fn effective_width(config_width: usize, terminal_width: u16) -> (w: usize)
    ensures
        w == effective_width_spec(config_width, terminal_width),
        w > 2,
{
    if config_width > 2 {
        config_width
    } else {
        if terminal_width > 2 {
            terminal_width as usize
        } else {
            120
        }
    }
}

/// Law: width selection is idempotent — once a width has been chosen,
/// feeding it back through the selection with the same terminal width
/// returns it unchanged, because every chosen width is above 2.  The three
/// cases: with no configured width a terminal wider than 2 columns decides,
/// else the fallback of 120 does; a configured width above 2 wins
/// regardless of the terminal.
pub proof fn lemma_effective_width_idempotent(config_width: usize, terminal_width: u16)
    ensures
        effective_width_spec(
            effective_width_spec(config_width, terminal_width),
            terminal_width,
        ) == effective_width_spec(config_width, terminal_width),
        (config_width == 0 && terminal_width > 2) ==> effective_width_spec(
            config_width,
            terminal_width,
        ) == terminal_width as usize,
        (config_width == 0 && terminal_width <= 2) ==> effective_width_spec(
            config_width,
            terminal_width,
        ) == 120,
        config_width > 2 ==> effective_width_spec(config_width, terminal_width) == config_width,
{
}

/// Relies on `termimad::MadSkin::text`: renders markdown as styled text
/// wrapped to the given width, using this viewer's fixed skin (yellow
/// headings and bold, white italics, centered tables, a colored scrollbar
/// thumb).  The exact bytes of the styling escape codes depend on the
/// process environment (color support can be switched off), so nothing is
/// stated of the result.
#[verifier::external_body]
fn styled_text(markdown: &str, width: usize) -> String {
    let mut skin = termimad::MadSkin::default();
    skin.table.align = termimad::Alignment::Center;
    skin.set_headers_fg(termimad::crossterm::style::Color::Yellow);
    skin.bold.set_fg(termimad::crossterm::style::Color::Yellow);
    skin.italic.set_fg(termimad::crossterm::style::Color::White);
    skin.scrollbar.thumb.set_fg(termimad::crossterm::style::Color::AnsiValue(178));
    format!("{}", skin.text(markdown, Some(width)))
}

/// Render the whole document once as styled text for the non-scrolling
/// path, wrapped to the effective width chosen from the configured width
/// and the terminal's column count.  The rendering itself is the terminal
/// markdown renderer's work and its output depends on the environment, so
/// only the width choice is stated; the caller writes the result to
/// standard output unchanged.
pub fn render_no_scroll(markdown: &str, config_width: usize, terminal_width: u16) -> String {
    let width = effective_width(config_width, terminal_width);
    styled_text(markdown, width)
}

} // verus!
