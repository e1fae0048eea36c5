//! The line classifier and the single pass over a file.

use crate::action::{Action, ActionView, Reason};
use crate::context::{ImplContext, ImplContextView};
use crate::laws::law_one_decision_per_line;
use crate::patterns::PatternRegistry;
use crate::rewrite::{
    comment_link, doc_link_action, method_anchor, method_anchor_action, module_link,
    module_link_action,
};
use vstd::prelude::*;

verus! {

/// The decision that the rewrite rules take for a line, in their fixed order:
/// a link to an item page, then a link to a module index page, then, inside
/// a tracked block only, a bare anchor link; a line that none of them claims
/// is unchanged.
pub open spec fn classify(
    registry: PatternRegistry,
    context: ImplContextView,
    text: Seq<char>,
    position: nat,
    krate: Seq<char>,
) -> ActionView {
    match registry.doc_link_in(text) {
        Some(link) => doc_link_action(registry, link, text, position, krate),
        None => match registry.module_link_in(text) {
            Some(link) => module_link_action(registry, link, text, position, krate),
            None => match (context, registry.method_anchor_in(text)) {
                (ImplContextView::InImpl { owner, .. }, Some(anchor)) => method_anchor_action(
                    anchor,
                    text,
                    position,
                    owner,
                ),
                _ => ActionView::Unchanged { text },
            },
        },
    }
}

/// Whether the last decision of `log` keeps an empty doc comment unchanged.
pub open spec fn ends_with_empty_comment(registry: PatternRegistry, log: Seq<ActionView>) -> bool {
    log.len() > 0 && log.last() is Unchanged && registry.matches_empty_doc_comment(
        log.last().line(),
    )
}

/// `log` with its last decision turned into the deletion of a trailing empty
/// doc comment, reported at `position`.
pub open spec fn amended(log: Seq<ActionView>, position: nat) -> Seq<ActionView> {
    log.update(
        log.len() - 1,
        ActionView::Deleted {
            text: log.last().line(),
            reason: Reason::TrailingEmptyComment,
            position,
        },
    )
}

/// `log` with the decision for one more line, `text` at `position`.
///
/// Right after an unchanged empty doc comment, a second empty doc comment is
/// deleted. A line that is no doc comment at all turns that earlier decision
/// into a deletion and is itself classified by the rewrite rules, as is every
/// line to which neither applies.
pub open spec fn record(
    registry: PatternRegistry,
    log: Seq<ActionView>,
    context: ImplContextView,
    text: Seq<char>,
    position: nat,
    krate: Seq<char>,
) -> Seq<ActionView> {
    if ends_with_empty_comment(registry, log) && registry.matches_empty_doc_comment(text) {
        log.push(
            ActionView::Deleted { text, reason: Reason::ConsecutiveEmptyComments, position },
        )
    } else if ends_with_empty_comment(registry, log) && !registry.matches_doc_comment_line(text) {
        amended(log, (position - 1) as nat).push(
            classify(registry, context, text, position, krate),
        )
    } else {
        log.push(classify(registry, context, text, position, krate))
    }
}

/// The context in force for line `n`, counted from 1: the tracker has seen
/// the first `n` lines, line `n` included.
pub open spec fn context_after(
    registry: PatternRegistry,
    lines: Seq<Seq<char>>,
    n: nat,
) -> ImplContextView
    decreases n,
{
    if n == 0 {
        ImplContextView::NoImpl
    } else {
        let line = lines[n - 1];
        context_after(registry, lines, (n - 1) as nat).advance(registry.impl_start_in(line), line)
    }
}

/// The log after the first `n` lines.
pub open spec fn scan_prefix(
    registry: PatternRegistry,
    lines: Seq<Seq<char>>,
    krate: Seq<char>,
    n: nat,
) -> Seq<ActionView>
    decreases n,
{
    if n == 0 {
        Seq::empty()
    } else {
        record(
            registry,
            scan_prefix(registry, lines, krate, (n - 1) as nat),
            context_after(registry, lines, n),
            lines[n - 1],
            n,
            krate,
        )
    }
}

/// The log of a whole file, for the library named `krate`.
pub open spec fn scan(
    registry: PatternRegistry,
    lines: Seq<Seq<char>>,
    krate: Seq<char>,
) -> Seq<ActionView> {
    scan_prefix(registry, lines, krate, lines.len())
}

/// Applies the rewrite rules to one line, in their fixed order.
pub fn classify_line(
    registry: &PatternRegistry,
    context: &ImplContext,
    text: &str,
    position: usize,
    krate: &str,
) -> (action: Action)
    ensures
        action@ == classify(*registry, context@, text@, position as nat, krate@),
{
    match registry.find_doc_link(text) {
        Some(link) => {
            return comment_link(registry, &link, text.to_owned(), position, krate);
        },
        None => {},
    }
    match registry.find_module_link(text) {
        Some(link) => {
            return module_link(registry, &link, text.to_owned(), position, krate);
        },
        None => {},
    }
    match context {
        ImplContext::InImpl { owner, .. } => {
            match registry.find_method_anchor(text) {
                Some(anchor) => {
                    return method_anchor(&anchor, text.to_owned(), position, owner.as_str());
                },
                None => {},
            }
        },
        ImplContext::NoImpl => {},
    }
    Action::Unchanged { text: text.to_owned() }
}

/// Whether the last decision of `log` keeps an empty doc comment unchanged.
pub fn last_is_empty_comment(registry: &PatternRegistry, log: &Vec<Action>) -> (b: bool)
    ensures
        b == ends_with_empty_comment(*registry, log.deep_view()),
{
    if log.len() == 0 {
        return false;
    }
    match &log[log.len() - 1] {
        Action::Unchanged { text } => registry.is_empty_doc_comment(text.as_str()),
        _ => false,
    }
}

/// Turns the last decision of `log`, which keeps a line unchanged, into the
/// deletion of a trailing empty doc comment.
pub fn amend_last(log: &mut Vec<Action>, position: usize)
    requires
        old(log).len() > 0,
        old(log).deep_view().last() is Unchanged,
    ensures
        final(log).deep_view() == amended(old(log).deep_view(), position as nat),
{
    let ghost before = log.deep_view();
    let last = log.pop().unwrap();
    let text = match last {
        Action::Unchanged { text } => text,
        Action::Deleted { text, .. } => text,
        Action::Replaced { text, .. } => text,
    };
    log.push(Action::Deleted { text, reason: Reason::TrailingEmptyComment, position });
    assert(log.deep_view() =~= amended(before, position as nat));
}

/// Adds the decision for one more line to `log`.
pub fn record_line(
    registry: &PatternRegistry,
    log: &mut Vec<Action>,
    context: &ImplContext,
    text: &str,
    position: usize,
    krate: &str,
)
    requires
        position >= 1,
    ensures
        final(log).deep_view() == record(
            *registry,
            old(log).deep_view(),
            context@,
            text@,
            position as nat,
            krate@,
        ),
{
    let ghost before = log.deep_view();
    let after_empty = last_is_empty_comment(registry, log);
    if after_empty && registry.is_empty_doc_comment(text) {
        log.push(
            Action::Deleted {
                text: text.to_owned(),
                reason: Reason::ConsecutiveEmptyComments,
                position,
            },
        );
        assert(log.deep_view() =~= before.push(
            ActionView::Deleted {
                text: text@,
                reason: Reason::ConsecutiveEmptyComments,
                position: position as nat,
            },
        ));
        return ;
    }
    if after_empty && !registry.is_doc_comment_line(text) {
        amend_last(log, position - 1);
    }
    let ghost kept = log.deep_view();
    let action = classify_line(registry, context, text, position, krate);
    log.push(action);
    assert(log.deep_view() =~= kept.push(action@));
}

/// Scans a file, given as its lines without their trailing whitespace, for
/// the library named `krate`, and returns one decision per line, in order.
pub fn search_links(
    registry: &PatternRegistry,
    lines: &Vec<String>,
    krate: &str,
) -> (actions: Vec<Action>)
    ensures
        actions.deep_view() == scan(*registry, lines.deep_view(), krate@),
        actions.len() == lines.len(),
{
    let mut actions: Vec<Action> = Vec::new();
    let mut context = ImplContext::NoImpl;
    let mut i: usize = 0;
    assert(actions.deep_view() =~= Seq::empty());
    while i < lines.len()
        invariant
            i <= lines.len(),
            actions.deep_view() == scan_prefix(*registry, lines.deep_view(), krate@, i as nat),
            context@ == context_after(*registry, lines.deep_view(), i as nat),
        decreases lines.len() - i,
    {
        let line = lines[i].as_str();
        assert(line@ == lines.deep_view()[i as int]);
        context = context.advance(registry.find_impl_start(line), line);
        record_line(registry, &mut actions, &context, line, i + 1, krate);
        i = i + 1;
    }
    proof {
        law_one_decision_per_line(*registry, lines.deep_view(), krate@);
    }
    actions
}

} // verus!
