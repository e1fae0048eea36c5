//! What holds of every scan, whatever the file.
//!
//! The lemmas describe the log entry by entry, without recursion over the
//! file: which decision a line gets when it is read, and what a later line
//! can still do to it. The laws build on them. Where a law speaks of a line
//! that a pattern matches, it speaks of what the compiled regex of the
//! registry finds on that line.

use crate::action::{scanned_lines, rewritten, ActionView, Reason};
use crate::context::ImplContextView;
use crate::patterns::PatternRegistry;
use crate::rewrite::{doc_link_text, is_external, method_anchor_text, module_link_text};
use crate::scan::{classify, context_after, ends_with_empty_comment, scan, scan_prefix};
use vstd::prelude::*;

verus! {

/// The decision taken for line `i`, counted from 0, at the time it is read:
/// no later line has had a say yet.
pub open spec fn decided(
    registry: PatternRegistry,
    lines: Seq<Seq<char>>,
    krate: Seq<char>,
    i: int,
) -> ActionView {
    scan_prefix(registry, lines, krate, (i + 1) as nat).last()
}

/// Whether line `i` is an empty doc comment that was left unchanged when it
/// was read.
pub open spec fn kept_empty_comment(
    registry: PatternRegistry,
    lines: Seq<Seq<char>>,
    krate: Seq<char>,
    i: int,
) -> bool {
    decided(registry, lines, krate, i) is Unchanged && registry.matches_empty_doc_comment(
        lines[i],
    )
}

/// The deletion of line `i` for `reason`.
pub open spec fn deletion(lines: Seq<Seq<char>>, i: int, reason: Reason) -> ActionView {
    ActionView::Deleted { text: lines[i], reason, position: (i + 1) as nat }
}

/// The new text that the link rules build for a line: that of a link to an
/// item page where the line holds one, else that of a link to a module index
/// page where it holds one; none for an external link.
pub open spec fn rewritten_link(
    registry: PatternRegistry,
    text: Seq<char>,
    krate: Seq<char>,
) -> Option<Seq<char>> {
    match registry.doc_link_in(text) {
        Some(link) => doc_link_text(link, krate),
        None => match registry.module_link_in(text) {
            Some(link) => module_link_text(link, krate),
            None => None,
        },
    }
}

/// The rewrite rules report a line under its own text and position.
pub proof fn lemma_classify_keeps_line(
    registry: PatternRegistry,
    context: ImplContextView,
    text: Seq<char>,
    position: nat,
    krate: Seq<char>,
)
    ensures
        classify(registry, context, text, position, krate).line() == text,
        classify(registry, context, text, position, krate).position() is Some ==> classify(
            registry,
            context,
            text,
            position,
            krate,
        ).position() == Some(position),
{
}

/// After `n` lines the log has `n` entries; entry `i` is about line `i` and,
/// where it reports a position, reports `i + 1`.
pub proof fn lemma_prefix_shape(
    registry: PatternRegistry,
    lines: Seq<Seq<char>>,
    krate: Seq<char>,
    n: nat,
)
    requires
        n <= lines.len(),
    ensures
        scan_prefix(registry, lines, krate, n).len() == n,
        forall|i: int|
            0 <= i < n ==> (#[trigger] scan_prefix(registry, lines, krate, n)[i]).line()
                == lines[i],
        forall|i: int|
            0 <= i < n && (#[trigger] scan_prefix(registry, lines, krate, n)[i]).position()
                is Some ==> scan_prefix(registry, lines, krate, n)[i].position() == Some(
                (i + 1) as nat,
            ),
    decreases n,
{
    if n > 0 {
        lemma_prefix_shape(registry, lines, krate, (n - 1) as nat);
        lemma_classify_keeps_line(
            registry,
            context_after(registry, lines, n),
            lines[n - 1],
            n,
            krate,
        );
    }
}

/// Once the line after it has been read, an entry of the log is final.
pub proof fn lemma_prefix_stable(
    registry: PatternRegistry,
    lines: Seq<Seq<char>>,
    krate: Seq<char>,
    i: int,
    n: nat,
)
    requires
        0 <= i,
        i + 2 <= n <= lines.len(),
    ensures
        scan_prefix(registry, lines, krate, n)[i] == scan_prefix(
            registry,
            lines,
            krate,
            (i + 2) as nat,
        )[i],
    decreases n,
{
    if n > i + 2 {
        lemma_prefix_stable(registry, lines, krate, i, (n - 1) as nat);
        lemma_prefix_shape(registry, lines, krate, (n - 1) as nat);
    }
}

/// The decision for a line when it is read: an empty doc comment right after
/// a kept empty doc comment is deleted; every other line gets what the
/// rewrite rules say, in the context that the tracker has reached with it.
pub proof fn lemma_decided(
    registry: PatternRegistry,
    lines: Seq<Seq<char>>,
    krate: Seq<char>,
    i: int,
)
    requires
        0 <= i < lines.len(),
    ensures
        decided(registry, lines, krate, i) == if i > 0 && kept_empty_comment(
            registry,
            lines,
            krate,
            i - 1,
        ) && registry.matches_empty_doc_comment(lines[i]) {
            deletion(lines, i, Reason::ConsecutiveEmptyComments)
        } else {
            classify(
                registry,
                context_after(registry, lines, (i + 1) as nat),
                lines[i],
                (i + 1) as nat,
                krate,
            )
        },
{
    lemma_prefix_shape(registry, lines, krate, i as nat);
    let log = scan_prefix(registry, lines, krate, i as nat);
    if i > 0 {
        assert(log.last() == decided(registry, lines, krate, i - 1));
        assert(log.last().line() == lines[i - 1]);
    }
    assert(ends_with_empty_comment(registry, log) == (i > 0 && kept_empty_comment(
        registry,
        lines,
        krate,
        i - 1,
    )));
}

/// What the finished log holds for a line: the decision taken when the line
/// was read, except that a kept empty doc comment is deleted where the next
/// line is no doc comment at all.
pub proof fn lemma_final(
    registry: PatternRegistry,
    lines: Seq<Seq<char>>,
    krate: Seq<char>,
    i: int,
)
    requires
        0 <= i < lines.len(),
    ensures
        scan(registry, lines, krate)[i] == if i + 1 < lines.len() && kept_empty_comment(
            registry,
            lines,
            krate,
            i,
        ) && !registry.matches_empty_doc_comment(lines[i + 1])
            && !registry.matches_doc_comment_line(lines[i + 1]) {
            deletion(lines, i, Reason::TrailingEmptyComment)
        } else {
            decided(registry, lines, krate, i)
        },
{
    lemma_prefix_shape(registry, lines, krate, (i + 1) as nat);
    if i + 1 < lines.len() {
        lemma_prefix_stable(registry, lines, krate, i, lines.len());
        let log = scan_prefix(registry, lines, krate, (i + 1) as nat);
        assert(log.last() == decided(registry, lines, krate, i));
        assert(log.last().line() == lines[i]);
        assert(ends_with_empty_comment(registry, log) == kept_empty_comment(
            registry,
            lines,
            krate,
            i,
        ));
    }
}

/// The log has one entry per line, each about its own line, and every
/// position that it reports is that of the line, counted from 1.
pub proof fn law_one_decision_per_line(
    registry: PatternRegistry,
    lines: Seq<Seq<char>>,
    krate: Seq<char>,
)
    ensures
        scan(registry, lines, krate).len() == lines.len(),
        scanned_lines(scan(registry, lines, krate)) == lines,
        forall|i: int|
            0 <= i < lines.len() && (#[trigger] scan(registry, lines, krate)[i]).position()
                is Some ==> scan(registry, lines, krate)[i].position() == Some((i + 1) as nat),
{
    lemma_prefix_shape(registry, lines, krate, lines.len());
    assert(scanned_lines(scan(registry, lines, krate)) =~= lines);
}

/// The path of the link that a line holds, between the root of the link and
/// what it points at: the intermediate path of a link to an item page where
/// the line holds one, else the module path of a link to a module index page
/// where it holds one.
pub open spec fn link_path(registry: PatternRegistry, text: Seq<char>) -> Option<Seq<char>> {
    match registry.doc_link_in(text) {
        Some(link) => link.intermediate_path,
        None => match registry.module_link_in(text) {
            Some(link) => link.modules,
            None => None,
        },
    }
}

/// An external link is never rewritten: a line that holds a link whose path
/// begins with a URL scheme is not replaced, and it stays unchanged unless
/// it is an empty doc comment.
pub proof fn law_external_link_kept(
    registry: PatternRegistry,
    lines: Seq<Seq<char>>,
    krate: Seq<char>,
    i: int,
)
    requires
        0 <= i < lines.len(),
        link_path(registry, lines[i]) is Some,
        is_external(link_path(registry, lines[i])->0),
    ensures
        !(scan(registry, lines, krate)[i] is Replaced),
        !registry.matches_empty_doc_comment(lines[i]) ==> scan(registry, lines, krate)[i]
            == (ActionView::Unchanged { text: lines[i] }),
{
    lemma_decided(registry, lines, krate, i);
    lemma_final(registry, lines, krate, i);
}

/// A link that would point at its own label is deleted, never replaced:
/// where the new text that the link rules build for a line splits into a
/// label and a target that are the same, the line is not replaced, and it is
/// deleted as a local path unless it is an empty doc comment.
pub proof fn law_local_path_pruned(
    registry: PatternRegistry,
    lines: Seq<Seq<char>>,
    krate: Seq<char>,
    i: int,
)
    requires
        0 <= i < lines.len(),
        rewritten_link(registry, lines[i], krate) is Some,
        registry.local_path_in(rewritten_link(registry, lines[i], krate)->0) is Some,
        registry.local_path_in(
            rewritten_link(registry, lines[i], krate)->0,
        )->0.is_redundant(),
    ensures
        !(scan(registry, lines, krate)[i] is Replaced),
        !registry.matches_empty_doc_comment(lines[i]) ==> scan(registry, lines, krate)[i]
            == deletion(lines, i, Reason::LocalPath),
{
    lemma_decided(registry, lines, krate, i);
    lemma_final(registry, lines, krate, i);
}

/// Outside any tracked block a bare anchor link is never rewritten: a line
/// that only the bare-anchor pattern claims is not replaced, and it stays
/// unchanged unless it is an empty doc comment.
pub proof fn law_anchor_outside_block(
    registry: PatternRegistry,
    lines: Seq<Seq<char>>,
    krate: Seq<char>,
    i: int,
)
    requires
        0 <= i < lines.len(),
        registry.doc_link_in(lines[i]) is None,
        registry.module_link_in(lines[i]) is None,
        registry.method_anchor_in(lines[i]) is Some,
        context_after(registry, lines, (i + 1) as nat) is NoImpl,
    ensures
        !(scan(registry, lines, krate)[i] is Replaced),
        !registry.matches_empty_doc_comment(lines[i]) ==> scan(registry, lines, krate)[i]
            == (ActionView::Unchanged { text: lines[i] }),
{
    lemma_decided(registry, lines, krate, i);
    lemma_final(registry, lines, krate, i);
}

/// Inside a tracked block a bare anchor link is rewritten with the name that
/// the block belongs to: a line that only the bare-anchor pattern claims is
/// replaced by its link prefix, that name, a scope separator and the name
/// behind the anchor, unless it is an empty doc comment.
pub proof fn law_anchor_inside_block(
    registry: PatternRegistry,
    lines: Seq<Seq<char>>,
    krate: Seq<char>,
    i: int,
)
    requires
        0 <= i < lines.len(),
        registry.doc_link_in(lines[i]) is None,
        registry.module_link_in(lines[i]) is None,
        registry.method_anchor_in(lines[i]) is Some,
        context_after(registry, lines, (i + 1) as nat) is InImpl,
        !registry.matches_empty_doc_comment(lines[i]),
    ensures
        scan(registry, lines, krate)[i] == (ActionView::Replaced {
            text: lines[i],
            new_text: method_anchor_text(
                registry.method_anchor_in(lines[i])->0,
                context_after(registry, lines, (i + 1) as nat)->owner,
            ),
            position: (i + 1) as nat,
        }),
{
    lemma_decided(registry, lines, krate, i);
    lemma_final(registry, lines, krate, i);
}

/// Of two consecutive empty doc comments the second is deleted and the first
/// stays: where line `i` is a kept empty doc comment and line `i + 1` is an
/// empty doc comment too, the log deletes line `i + 1` and leaves line `i`
/// unchanged.
pub proof fn law_second_empty_comment_deleted(
    registry: PatternRegistry,
    lines: Seq<Seq<char>>,
    krate: Seq<char>,
    i: int,
)
    requires
        0 <= i,
        i + 1 < lines.len(),
        kept_empty_comment(registry, lines, krate, i),
        registry.matches_empty_doc_comment(lines[i + 1]),
    ensures
        scan(registry, lines, krate)[i] == (ActionView::Unchanged { text: lines[i] }),
        scan(registry, lines, krate)[i + 1] == deletion(
            lines,
            i + 1,
            Reason::ConsecutiveEmptyComments,
        ),
{
    lemma_prefix_shape(registry, lines, krate, (i + 1) as nat);
    lemma_final(registry, lines, krate, i);
    lemma_decided(registry, lines, krate, i + 1);
    lemma_final(registry, lines, krate, i + 1);
}

/// An empty doc comment at the end of its comment is deleted: where line `i`
/// is a kept empty doc comment and line `i + 1` is no doc comment at all,
/// the log deletes line `i`.
pub proof fn law_trailing_empty_comment_deleted(
    registry: PatternRegistry,
    lines: Seq<Seq<char>>,
    krate: Seq<char>,
    i: int,
)
    requires
        0 <= i,
        i + 1 < lines.len(),
        kept_empty_comment(registry, lines, krate, i),
        !registry.matches_empty_doc_comment(lines[i + 1]),
        !registry.matches_doc_comment_line(lines[i + 1]),
    ensures
        scan(registry, lines, krate)[i] == deletion(lines, i, Reason::TrailingEmptyComment),
{
    lemma_final(registry, lines, krate, i);
}

/// An empty doc comment followed by more of its comment is preserved, and so
/// is one on the last line: where line `i` is a kept empty doc comment and
/// line `i + 1` does not exist or is a doc comment that is not empty, the
/// log leaves line `i` unchanged.
pub proof fn law_inner_empty_comment_kept(
    registry: PatternRegistry,
    lines: Seq<Seq<char>>,
    krate: Seq<char>,
    i: int,
)
    requires
        0 <= i < lines.len(),
        kept_empty_comment(registry, lines, krate, i),
        i + 1 < lines.len() ==> !registry.matches_empty_doc_comment(lines[i + 1])
            && registry.matches_doc_comment_line(lines[i + 1]),
    ensures
        scan(registry, lines, krate)[i] == (ActionView::Unchanged { text: lines[i] }),
{
    lemma_prefix_shape(registry, lines, krate, (i + 1) as nat);
    lemma_final(registry, lines, krate, i);
}

/// Whether no rule has a say on line `i`: the rewrite rules leave it
/// unchanged, and if it is an empty doc comment with a line after it, that
/// line is a doc comment that is not empty.
pub open spec fn quiet_at(
    registry: PatternRegistry,
    lines: Seq<Seq<char>>,
    krate: Seq<char>,
    i: int,
) -> bool {
    &&& classify(
        registry,
        context_after(registry, lines, (i + 1) as nat),
        lines[i],
        (i + 1) as nat,
        krate,
    ) is Unchanged
    &&& registry.matches_empty_doc_comment(lines[i]) && i + 1 < lines.len()
        ==> !registry.matches_empty_doc_comment(lines[i + 1])
        && registry.matches_doc_comment_line(lines[i + 1])
}

/// Whether no rule has a say on any line of the file.
pub open spec fn quiet(registry: PatternRegistry, lines: Seq<Seq<char>>, krate: Seq<char>) -> bool {
    forall|i: int| 0 <= i < lines.len() ==> #[trigger] quiet_at(registry, lines, krate, i)
}

/// Whether the log leaves every line unchanged.
pub open spec fn all_unchanged(actions: Seq<ActionView>) -> bool {
    forall|i: int| 0 <= i < actions.len() ==> #[trigger] actions[i] is Unchanged
}

/// A scan leaves every line unchanged exactly where the file is quiet: a
/// line is deleted or replaced only where a rule has a say on it, and
/// wherever one has.
pub proof fn law_unchanged_iff_quiet(
    registry: PatternRegistry,
    lines: Seq<Seq<char>>,
    krate: Seq<char>,
)
    ensures
        all_unchanged(scan(registry, lines, krate)) <==> quiet(registry, lines, krate),
{
    law_one_decision_per_line(registry, lines, krate);
    let log = scan(registry, lines, krate);
    if quiet(registry, lines, krate) {
        assert forall|i: int| 0 <= i < log.len() implies #[trigger] log[i] is Unchanged by {
            assert(quiet_at(registry, lines, krate, i));
            if i > 0 {
                assert(quiet_at(registry, lines, krate, i - 1));
            }
            lemma_decided(registry, lines, krate, i);
            lemma_final(registry, lines, krate, i);
        }
    }
    if all_unchanged(log) {
        assert forall|i: int| 0 <= i < lines.len() implies #[trigger] quiet_at(
            registry,
            lines,
            krate,
            i,
        ) by {
            assert(log[i] is Unchanged);
            lemma_decided(registry, lines, krate, i);
            lemma_final(registry, lines, krate, i);
            if i + 1 < lines.len() {
                assert(log[i + 1] is Unchanged);
                lemma_decided(registry, lines, krate, i + 1);
                lemma_final(registry, lines, krate, i + 1);
            }
        }
    }
}

/// A log without deletions or replacements rewrites to the lines it is
/// about.
pub proof fn lemma_unchanged_rewrites_to_itself(actions: Seq<ActionView>)
    requires
        all_unchanged(actions),
    ensures
        rewritten(actions) == scanned_lines(actions),
    decreases actions.len(),
{
    if actions.len() > 0 {
        assert(actions.last() == actions[actions.len() - 1]);
        assert forall|i: int| 0 <= i < actions.drop_last().len() implies #[trigger] actions.drop_last()[i]
            is Unchanged by {
            assert(actions.drop_last()[i] == actions[i]);
        }
        lemma_unchanged_rewrites_to_itself(actions.drop_last());
        assert(scanned_lines(actions) =~= scanned_lines(actions.drop_last()).push(
            actions.last().line(),
        ));
    } else {
        assert(rewritten(actions) =~= scanned_lines(actions));
    }
}

/// A file that a scan leaves unchanged is a fixed point: rewriting it gives
/// the same lines back, and scanning those leaves every line unchanged
/// again.
pub proof fn law_unchanged_file_is_fixed_point(
    registry: PatternRegistry,
    lines: Seq<Seq<char>>,
    krate: Seq<char>,
)
    requires
        all_unchanged(scan(registry, lines, krate)),
    ensures
        rewritten(scan(registry, lines, krate)) == lines,
        scan(registry, rewritten(scan(registry, lines, krate)), krate) == scan(
            registry,
            lines,
            krate,
        ),
{
    law_one_decision_per_line(registry, lines, krate);
    lemma_unchanged_rewrites_to_itself(scan(registry, lines, krate));
}

/// A second pass changes nothing where the rewritten file is quiet: scanning
/// the file, rewriting it and scanning the result leaves every line
/// unchanged, so that rewriting once more gives the same file.
pub proof fn law_second_pass_changes_nothing(
    registry: PatternRegistry,
    lines: Seq<Seq<char>>,
    krate: Seq<char>,
)
    requires
        quiet(registry, rewritten(scan(registry, lines, krate)), krate),
    ensures
        all_unchanged(scan(registry, rewritten(scan(registry, lines, krate)), krate)),
        rewritten(scan(registry, rewritten(scan(registry, lines, krate)), krate)) == rewritten(
            scan(registry, lines, krate),
        ),
{
    let once = rewritten(scan(registry, lines, krate));
    law_unchanged_iff_quiet(registry, once, krate);
    law_unchanged_file_is_fixed_point(registry, once, krate);
}

} // verus!
