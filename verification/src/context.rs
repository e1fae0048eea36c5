//! Tracks whether the scan stands inside an implementation or trait block.
//!
//! Only one block is tracked at a time: an opening line replaces whatever was
//! tracked before, and nesting is not followed.

use crate::capture::{ImplStart, ImplStartView};
use vstd::prelude::*;

verus! {

/// The block that the current line lies in, if one is tracked.
#[derive(Clone, Debug, PartialEq, Eq)]
pub enum ImplContext {
    NoImpl,
    InImpl {
        /// The type or trait that the block belongs to.
        owner: String,
        /// The exact line that ends the block.
        closing_marker: String,
    },
}

pub enum ImplContextView {
    NoImpl,
    InImpl { owner: Seq<char>, closing_marker: Seq<char> },
}

impl View for ImplContext {
    type V = ImplContextView;

    open spec fn view(&self) -> ImplContextView {
        match self {
            ImplContext::NoImpl => ImplContextView::NoImpl,
            ImplContext::InImpl { owner, closing_marker } => ImplContextView::InImpl {
                owner: owner@,
                closing_marker: closing_marker@,
            },
        }
    }
}

impl DeepView for ImplContext {
    type V = ImplContextView;

    open spec fn deep_view(&self) -> ImplContextView {
        self@
    }
}

impl ImplContextView {
    /// The block that an opening line starts: it ends at the line made of the
    /// same indentation and a closing brace.
    pub open spec fn opened_by(start: ImplStartView) -> ImplContextView {
        ImplContextView::InImpl { owner: start.owner, closing_marker: start.indent.push('}') }
    }

    /// The context once `line` has been seen. A line that opens a block
    /// starts tracking it, whatever was tracked before; a line equal to the
    /// closing marker of the tracked block ends the tracking; any other line
    /// changes nothing.
    pub open spec fn advance(self, start: Option<ImplStartView>, line: Seq<char>) -> ImplContextView {
        let entered = match start {
            Some(opening) => ImplContextView::opened_by(opening),
            None => self,
        };
        match entered {
            ImplContextView::InImpl { closing_marker, .. } if line == closing_marker => {
                ImplContextView::NoImpl
            },
            _ => entered,
        }
    }
}

impl ImplContext {
    /// The context once `line` has been seen, where `start` is what the
    /// opening-line pattern found on it.
    pub fn advance(self, start: Option<ImplStart>, line: &str) -> (next: ImplContext)
        ensures
            next@ == self@.advance(start.deep_view(), line@),
    {
        let entered = match start {
            Some(opening) => {
                let ImplStart { indent, owner } = opening;
                let mut closing_marker = indent;
                closing_marker.append("}");
                proof {
                    reveal_strlit("}");
                    assert(closing_marker@ == indent@.push('}'));
                }
                ImplContext::InImpl { owner, closing_marker }
            },
            None => self,
        };
        let closes = match &entered {
            ImplContext::InImpl { closing_marker, .. } => crate::text::same_text(
                line,
                closing_marker.as_str(),
            ),
            ImplContext::NoImpl => false,
        };
        if closes {
            ImplContext::NoImpl
        } else {
            entered
        }
    }
}

} // verus!
