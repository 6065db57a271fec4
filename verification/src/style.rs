//! How a formula is displayed: within a line of text, or as a block of its
//! own. An explicit argument decides; without one the site's settings do;
//! without either the formula stands within the line.

use vstd::prelude::*;
use crate::config::Config;
use crate::value::{Table, Value, ValueView};

verus! {

/// How a formula is displayed.
#[derive(Clone, Copy, Debug, PartialEq, Eq, Structural)]
pub enum DisplayStyle {
    Inline,
    Block,
}

impl Default for DisplayStyle {
    fn default() -> (style: DisplayStyle)
        ensures
            style == DisplayStyle::Inline,
    {
        DisplayStyle::Inline
    }
}

/// The style that `name` asks for: a block for `block` and `Block`, written
/// exactly so, and inline for every other text.
pub open spec fn style_named(name: Seq<char>) -> DisplayStyle {
    if name == "block"@ || name == "Block"@ {
        DisplayStyle::Block
    } else {
        DisplayStyle::Inline
    }
}

/// The style that a site's settings ask for under `style`. A setting that
/// is missing or is no text asks for nothing.
pub open spec fn default_style(extra: Map<Seq<char>, ValueView>) -> DisplayStyle {
    if extra.contains_key("style"@) {
        match extra["style"@] {
            ValueView::Text(name) => style_named(name),
            ValueView::Other => DisplayStyle::Inline,
        }
    } else {
        DisplayStyle::Inline
    }
}

/// The style of a call with the style argument `argument` on a site with the
/// settings `extra`. The settings count only where no argument was given.
pub open spec fn effective_style(
    argument: Option<Seq<char>>,
    extra: Map<Seq<char>, ValueView>,
) -> DisplayStyle {
    match argument {
        Some(name) => style_named(name),
        None => default_style(extra),
    }
}

/// The style that `name` asks for.
pub fn style_from_name(name: &str) -> (style: DisplayStyle)
    ensures
        style == style_named(name@),
{
    let name = name.to_owned();
    if name == "block".to_owned() || name == "Block".to_owned() {
        DisplayStyle::Block
    } else {
        DisplayStyle::Inline
    }
}

/// The style that the settings `extra` of a site ask for.
pub fn get_default_style(extra: &Table) -> (style: DisplayStyle)
    ensures
        style == default_style(extra@),
{
    match extra.get("style") {
        Some(Value::Text(name)) => style_from_name(name.as_str()),
        _ => DisplayStyle::Inline,
    }
}

/// The style of a call: the one that its argument asks for, and only
/// without an argument the one that the site's settings ask for.
pub fn resolve_style(argument: Option<&str>, config: &Config) -> (style: DisplayStyle)
    ensures
        argument matches Some(name) ==> style == style_named(name@),
        argument is None ==> style == default_style(config.extra@),
        style == effective_style(
            match argument {
                Some(name) => Some(name@),
                None => None,
            },
            config.extra@,
        ),
{
    match argument {
        Some(name) => style_from_name(name),
        None => get_default_style(&config.extra),
    }
}

/// An argument `block` or `Block` gives a block, whatever the site's
/// settings hold.
pub proof fn block_argument_decides(name: Seq<char>, extra: Map<Seq<char>, ValueView>)
    requires
        name == "block"@ || name == "Block"@,
    ensures
        effective_style(Some(name), extra) == DisplayStyle::Block,
{
}

/// Any other argument gives the inline style, whatever the site's settings
/// hold.
pub proof fn other_argument_is_inline(name: Seq<char>, extra: Map<Seq<char>, ValueView>)
    requires
        name != "block"@,
        name != "Block"@,
    ensures
        effective_style(Some(name), extra) == DisplayStyle::Inline,
{
}

/// Without an argument the style is a block exactly where the setting
/// `style` is the text `block` or `Block`.
pub proof fn settings_decide_without_argument(extra: Map<Seq<char>, ValueView>)
    ensures
        effective_style(None, extra) == DisplayStyle::Block <==> extra.contains_key("style"@) && (
            extra["style"@] == ValueView::Text("block"@) || extra["style"@] == ValueView::Text(
                "Block"@,
            )),
        effective_style(None, extra) != DisplayStyle::Block ==> effective_style(None, extra)
            == DisplayStyle::Inline,
{
}

} // verus!
