//! The decision taken for one line, and the log of such decisions.

use vstd::prelude::*;

verus! {

/// Why a line is deleted.
#[derive(Clone, Copy, Debug, PartialEq, Eq, Structural)]
pub enum Reason {
    /// The line is an empty doc comment right after another one.
    ConsecutiveEmptyComments,
    /// The line is an empty doc comment that ends its comment block.
    TrailingEmptyComment,
    /// The line links a label to the very same path.
    LocalPath,
}

impl Reason {
    /// The label shown for the reason, as a sequence of characters.
    pub open spec fn label_text(self) -> Seq<char> {
        match self {
            Reason::ConsecutiveEmptyComments => "Consecutive empty comment lines"@,
            Reason::TrailingEmptyComment => "Empty comment line at the end of a comment"@,
            Reason::LocalPath => "Local path"@,
        }
    }

    /// The label shown for the reason.
    pub fn label(&self) -> (s: &'static str)
        ensures
            s@ == self.label_text(),
    {
        match self {
            Reason::ConsecutiveEmptyComments => "Consecutive empty comment lines",
            Reason::TrailingEmptyComment => "Empty comment line at the end of a comment",
            Reason::LocalPath => "Local path",
        }
    }
}

/// What becomes of one line of the file. Positions count lines from 1.
#[derive(Clone, Debug, PartialEq, Eq)]
pub enum Action {
    Unchanged { text: String },
    Deleted { text: String, reason: Reason, position: usize },
    Replaced { text: String, new_text: String, position: usize },
}

/// An [`Action`] with its strings as sequences of characters.
pub enum ActionView {
    Unchanged { text: Seq<char> },
    Deleted { text: Seq<char>, reason: Reason, position: nat },
    Replaced { text: Seq<char>, new_text: Seq<char>, position: nat },
}

impl ActionView {
    /// The line as it stands in the file.
    pub open spec fn line(self) -> Seq<char> {
        match self {
            ActionView::Unchanged { text } => text,
            ActionView::Deleted { text, .. } => text,
            ActionView::Replaced { text, .. } => text,
        }
    }

    /// The line that takes its place in the rewritten file, if any does.
    pub open spec fn new_line(self) -> Option<Seq<char>> {
        match self {
            ActionView::Unchanged { text } => Some(text),
            ActionView::Deleted { .. } => None,
            ActionView::Replaced { new_text, .. } => Some(new_text),
        }
    }

    /// The position reported with a deletion or a replacement.
    pub open spec fn position(self) -> Option<nat> {
        match self {
            ActionView::Unchanged { .. } => None,
            ActionView::Deleted { position, .. } => Some(position),
            ActionView::Replaced { position, .. } => Some(position),
        }
    }
}

impl View for Action {
    type V = ActionView;

    open spec fn view(&self) -> ActionView {
        match self {
            Action::Unchanged { text } => ActionView::Unchanged { text: text@ },
            Action::Deleted { text, reason, position } => ActionView::Deleted {
                text: text@,
                reason: *reason,
                position: *position as nat,
            },
            Action::Replaced { text, new_text, position } => ActionView::Replaced {
                text: text@,
                new_text: new_text@,
                position: *position as nat,
            },
        }
    }
}

impl DeepView for Action {
    type V = ActionView;

    open spec fn deep_view(&self) -> ActionView {
        self@
    }
}

impl Action {
    pub fn is_unchanged(&self) -> (b: bool)
        ensures
            b == (self@ is Unchanged),
    {
        match self {
            Action::Unchanged { .. } => true,
            _ => false,
        }
    }

    /// The line as it stands in the file.
    pub fn line(&self) -> (text: &str)
        ensures
            text@ == self@.line(),
    {
        match self {
            Action::Unchanged { text } => text.as_str(),
            Action::Deleted { text, .. } => text.as_str(),
            Action::Replaced { text, .. } => text.as_str(),
        }
    }

    /// The line that takes its place in the rewritten file, if any does.
    pub fn new_line(&self) -> (line: Option<&str>)
        ensures
            match line {
                Some(kept) => self@.new_line() == Some(kept@),
                None => self@.new_line() is None,
            },
    {
        match self {
            Action::Unchanged { text } => Some(text.as_str()),
            Action::Deleted { .. } => None,
            Action::Replaced { new_text, .. } => Some(new_text.as_str()),
        }
    }

    /// The position reported with a deletion or a replacement.
    pub fn position(&self) -> (position: Option<usize>)
        ensures
            match position {
                Some(p) => self@.position() == Some(p as nat),
                None => self@.position() is None,
            },
    {
        match self {
            Action::Unchanged { .. } => None,
            Action::Deleted { position, .. } => Some(*position),
            Action::Replaced { position, .. } => Some(*position),
        }
    }
}

/// The lines as they stood before the rewrite, one per action.
pub open spec fn scanned_lines(actions: Seq<ActionView>) -> Seq<Seq<char>> {
    Seq::new(actions.len(), |i: int| actions[i].line())
}

/// The lines of the rewritten file: deleted lines are dropped, replaced lines
/// give their new text, and the order is kept.
pub open spec fn rewritten(actions: Seq<ActionView>) -> Seq<Seq<char>>
    decreases actions.len(),
{
    if actions.len() == 0 {
        Seq::empty()
    } else {
        match actions.last().new_line() {
            Some(line) => rewritten(actions.drop_last()).push(line),
            None => rewritten(actions.drop_last()),
        }
    }
}

/// The text of the rewritten file: each of its lines followed by a newline.
pub open spec fn rendered(actions: Seq<ActionView>) -> Seq<char>
    decreases actions.len(),
{
    if actions.len() == 0 {
        Seq::empty()
    } else {
        match actions.last().new_line() {
            Some(line) => rendered(actions.drop_last()) + line.push('\n'),
            None => rendered(actions.drop_last()),
        }
    }
}

/// The lines of the rewritten file.
pub fn rewritten_lines(actions: &Vec<Action>) -> (lines: Vec<String>)
    ensures
        lines.deep_view() == rewritten(actions.deep_view()),
{
    let mut lines: Vec<String> = Vec::new();
    let mut i: usize = 0;
    while i < actions.len()
        invariant
            i <= actions.len(),
            lines.deep_view() == rewritten(actions.deep_view().take(i as int)),
        decreases actions.len() - i,
    {
        let ghost before = lines.deep_view();
        proof {
            assert(actions.deep_view().take(i + 1).drop_last() == actions.deep_view().take(
                i as int,
            ));
        }
        match actions[i].new_line() {
            Some(line) => {
                lines.push(line.to_owned());
                assert(lines.deep_view() =~= before.push(line@));
            },
            None => {},
        }
        i = i + 1;
    }
    assert(actions.deep_view().take(actions.len() as int) == actions.deep_view());
    lines
}

/// The text of the rewritten file.
pub fn render(actions: &Vec<Action>) -> (body: String)
    ensures
        body@ == rendered(actions.deep_view()),
{
    let mut body = String::new();
    let mut i: usize = 0;
    while i < actions.len()
        invariant
            i <= actions.len(),
            body@ == rendered(actions.deep_view().take(i as int)),
        decreases actions.len() - i,
    {
        proof {
            assert(actions.deep_view().take(i + 1).drop_last() == actions.deep_view().take(
                i as int,
            ));
            reveal_strlit("\n");
        }
        match actions[i].new_line() {
            Some(line) => {
                body.append(line);
                body.append("\n");
                assert("\n"@ == seq!['\n']);
            },
            None => {},
        }
        i = i + 1;
    }
    assert(actions.deep_view().take(actions.len() as int) == actions.deep_view());
    body
}

} // verus!
