//! The terminal styles and layouts the clock paints with. They come from
//! ratatui; what each call returns is believed as the trusted items below
//! state it.
use ratatui::layout::Layout;
use ratatui::style::{Color, Modifier, Style, Stylize};
use vstd::prelude::*;

verus! {

/// ratatui's `Style`, carried through opaquely.
#[verifier::external_type_specification]
#[verifier::external_body]
pub struct ExStyle(Style);

/// ratatui's `Layout`, carried through opaquely.
#[verifier::external_type_specification]
#[verifier::external_body]
pub struct ExLayout(Layout);

/// `Layout::clone`, which ratatui derives. Nothing is stated of the copy.
pub assume_specification[ <Layout as Clone>::clone ](layout: &Layout) -> Layout;

/// What `Style::bg(s, Color::Green)` returns for `s`.
pub uninterp spec fn green_background(s: Style) -> Style;

/// What `Style::add_modifier(s, Modifier::BOLD)` returns for `s`.
pub uninterp spec fn bold_modifier_added(s: Style) -> Style;

/// What `Stylize::green(s)` returns for the style `s`.
pub uninterp spec fn green_foreground(s: Style) -> Style;

/// What `Stylize::bold(s)` returns for the style `s`.
pub uninterp spec fn stylized_bold(s: Style) -> Style;

/// A style whose background is green: setting a green background leaves it
/// as it is.
pub open spec fn has_green_background(s: Style) -> bool {
    green_background(s) == s
}

/// `Style::default()`: ratatui's empty style. Its source derives `Default`,
/// which leaves the background unset (`None`), so it has no green
/// background; nothing more is stated of it.
#[verifier::external_body]
pub(crate) fn default_style() -> (r: Style)
    ensures
        !has_green_background(r),
{
    Style::default()
}

/// `Layout::default()`: ratatui's default layout. Nothing is stated of it.
#[verifier::external_body]
pub(crate) fn default_layout() -> Layout {
    Layout::default()
}

/// `Style::new()`: ratatui's empty style. Its source sets the background to
/// `None`, so it has no green background; nothing more is stated of it.
#[verifier::external_body]
pub(crate) fn new_style() -> (r: Style)
    ensures
        !has_green_background(r),
{
    Style::new()
}

/// `Style::bg(s, Color::Green)`: believed to be a function of `s` alone,
/// named `green_background`. Its source sets the background to green and
/// changes nothing else, so the result has a green background.
#[verifier::external_body]
pub(crate) fn on_green(s: Style) -> (r: Style)
    ensures
        r == green_background(s),
        has_green_background(r),
{
    s.bg(Color::Green)
}

/// `Style::add_modifier(s, Modifier::BOLD)`: believed to be a function of `s`
/// alone, named `bold_modifier_added`. Its source changes only the
/// modifiers, so the background stays green exactly when it was.
#[verifier::external_body]
pub(crate) fn add_bold(s: Style) -> (r: Style)
    ensures
        r == bold_modifier_added(s),
        has_green_background(r) == has_green_background(s),
{
    s.add_modifier(Modifier::BOLD)
}

/// `Stylize::green(s)` on a style: believed to be a function of `s` alone,
/// named `green_foreground`. Its source patches `s` with `s.fg(Green)`,
/// which keeps the background of `s`, so the background stays green exactly
/// when it was.
#[verifier::external_body]
pub(crate) fn green(s: Style) -> (r: Style)
    ensures
        r == green_foreground(s),
        has_green_background(r) == has_green_background(s),
{
    Stylize::green(s)
}

/// `Stylize::bold(s)` on a style: believed to be a function of `s` alone,
/// named `stylized_bold`. Its source patches `s` with
/// `s.add_modifier(BOLD)`, which keeps the background of `s`, so the
/// background stays green exactly when it was.
#[verifier::external_body]
pub(crate) fn bold(s: Style) -> (r: Style)
    ensures
        r == stylized_bold(s),
        has_green_background(r) == has_green_background(s),
{
    Stylize::bold(s)
}

} // verus!
