//! The table of console style strings used by styled dispatch.

use crate::level::Level;
use vstd::prelude::*;

verus! {

/// The style string applied to the level label of a record of severity `l`.
pub open spec fn level_style_seq(l: Level) -> Seq<char> {
    match l {
        Level::Trace => "color: white; padding: 0 3px; background: gray;"@,
        Level::Debug => "color: white; padding: 0 3px; background: blue;"@,
        Level::Info => "color: white; padding: 0 3px; background: green;"@,
        Level::Warn => "color: white; padding: 0 3px; background: orange;"@,
        Level::Error => "color: white; padding: 0 3px; background: darkred;"@,
    }
}

/// The style string applied to the file-and-line segment.
pub open spec fn file_line_style_seq() -> Seq<char> {
    "font-weight: bold; color: inherit"@
}

/// The style string applied to the message text.
pub open spec fn text_style_seq() -> Seq<char> {
    "background: inherit; color: inherit"@
}

/// A read-only table mapping each severity to a styling string, plus two
/// shared strings for the location segment and the message text.
pub struct Style {
    /// Style for the `Trace` level label.
    pub trace: &'static str,
    /// Style for the `Debug` level label.
    pub debug: &'static str,
    /// Style for the `Info` level label.
    pub info: &'static str,
    /// Style for the `Warn` level label.
    pub warn: &'static str,
    /// Style for the `Error` level label.
    pub error: &'static str,
    /// Style for the file-and-line segment.
    pub file_line: &'static str,
    /// Style for the message text.
    pub text: &'static str,
}

impl Style {
    /// Returns default style values.
    pub fn default() -> (s: Style)
        ensures
            s.trace@ == level_style_seq(Level::Trace),
            s.debug@ == level_style_seq(Level::Debug),
            s.info@ == level_style_seq(Level::Info),
            s.warn@ == level_style_seq(Level::Warn),
            s.error@ == level_style_seq(Level::Error),
            s.file_line@ == file_line_style_seq(),
            s.text@ == text_style_seq(),
    {
        Style {
            trace: "color: white; padding: 0 3px; background: gray;",
            debug: "color: white; padding: 0 3px; background: blue;",
            info: "color: white; padding: 0 3px; background: green;",
            warn: "color: white; padding: 0 3px; background: orange;",
            error: "color: white; padding: 0 3px; background: darkred;",
            file_line: "font-weight: bold; color: inherit",
            text: "background: inherit; color: inherit",
        }
    }

    /// The table's entry for the level label of severity `l`.
    pub fn level_style(&self, l: Level) -> (r: &str)
        ensures
            r@ == (match l {
                Level::Trace => self.trace@,
                Level::Debug => self.debug@,
                Level::Info => self.info@,
                Level::Warn => self.warn@,
                Level::Error => self.error@,
            }),
    {
        match l {
            Level::Trace => self.trace,
            Level::Debug => self.debug,
            Level::Info => self.info,
            Level::Warn => self.warn,
            Level::Error => self.error,
        }
    }
}

/// The warn-level style differs from the error-level style.
pub proof fn lemma_warn_style_differs_from_error()
    ensures
        level_style_seq(Level::Warn) != level_style_seq(Level::Error),
{
    reveal_strlit("color: white; padding: 0 3px; background: orange;");
    reveal_strlit("color: white; padding: 0 3px; background: darkred;");
    assert(level_style_seq(Level::Warn).len() != level_style_seq(Level::Error).len());
}

/// Every level style, and the two shared styles, is a non-empty string.
pub proof fn lemma_styles_nonempty()
    ensures
        forall|l: Level| (#[trigger] level_style_seq(l)).len() > 0,
        file_line_style_seq().len() > 0,
        text_style_seq().len() > 0,
{
    reveal_strlit("color: white; padding: 0 3px; background: gray;");
    reveal_strlit("color: white; padding: 0 3px; background: blue;");
    reveal_strlit("color: white; padding: 0 3px; background: green;");
    reveal_strlit("color: white; padding: 0 3px; background: orange;");
    reveal_strlit("color: white; padding: 0 3px; background: darkred;");
    reveal_strlit("font-weight: bold; color: inherit");
    reveal_strlit("background: inherit; color: inherit");
}

} // verus!
