//! The rewrite rules: from what a link pattern captured to the decision for
//! the line.

use crate::action::{Action, ActionView, Reason};
use crate::capture::{
    DocLink, DocLinkView, LocalPath, LocalPathView, MethodAnchor, MethodAnchorView, ModuleLink,
    ModuleLinkView,
};
use crate::patterns::PatternRegistry;
use crate::text::{
    append_repeated, repeated, same_text, scope_sep, scoped, starts_with, to_scope_path,
    trim_scope_suffix, trim_sep,
};
use vstd::prelude::*;

verus! {

/// The start of a rewritten target. A captured root crate gives its own name,
/// or `crate` where it is the library itself, and a scope separator; without
/// one, every level up gives one `super::`.
pub open spec fn root_segment(
    root_crate: Option<Seq<char>>,
    parent_refs: nat,
    krate: Seq<char>,
) -> Seq<char> {
    match root_crate {
        Some(root) => (if root == krate {
            "crate"@
        } else {
            root
        }) + scope_sep(),
        None => repeated("super::"@, parent_refs),
    }
}

/// Whether a path begins with a URL scheme, and so leaves the documentation.
pub open spec fn is_external(path: Seq<char>) -> bool {
    "http"@.is_prefix_of(path)
}

/// What an intermediate path adds to a rewritten target: nothing where it is
/// absent or the current directory, else the path in scope syntax.
pub open spec fn intermediate_segment(path: Option<Seq<char>>) -> Seq<char> {
    match path {
        Some(p) => if p == "./"@ {
            Seq::empty()
        } else {
            scoped(p)
        },
        None => Seq::empty(),
    }
}

/// What an anchor adds to a rewritten target: a scope separator and the name
/// behind the anchor.
pub open spec fn anchor_segment(anchor: Option<Seq<char>>) -> Seq<char> {
    match anchor {
        Some(name) => scope_sep() + name,
        None => Seq::empty(),
    }
}

/// The line that takes the place of a link to an item page; `None` where the
/// link is external and must stay as it is.
pub open spec fn doc_link_text(link: DocLinkView, krate: Seq<char>) -> Option<Seq<char>> {
    if link.intermediate_path is Some && is_external(link.intermediate_path->0) {
        None
    } else {
        Some(
            link.link_prefix + root_segment(link.root_crate, link.parent_refs, krate)
                + intermediate_segment(link.intermediate_path) + link.item_name
                + anchor_segment(link.anchor_suffix),
        )
    }
}

/// What a module path adds to a rewritten target: the path in scope syntax,
/// without trailing separators.
pub open spec fn modules_segment(modules: Option<Seq<char>>) -> Seq<char> {
    match modules {
        Some(path) => trim_sep(scoped(path)),
        None => Seq::empty(),
    }
}

/// The line that takes the place of a link to a module index page; `None`
/// where the link is external and must stay as it is.
pub open spec fn module_link_text(link: ModuleLinkView, krate: Seq<char>) -> Option<Seq<char>> {
    if link.modules is Some && is_external(link.modules->0) {
        None
    } else {
        Some(
            link.link_prefix + root_segment(link.root_crate, link.parent_refs, krate)
                + modules_segment(link.modules),
        )
    }
}

/// The line that takes the place of a bare anchor link inside the block of
/// `owner`.
pub open spec fn method_anchor_text(anchor: MethodAnchorView, owner: Seq<char>) -> Seq<char> {
    anchor.link_prefix + owner + scope_sep() + anchor.anchor_suffix
}

/// The decision for a rewritten link: a link whose label and target are the
/// same text is deleted, any other is replaced.
pub open spec fn pruned(
    local: Option<LocalPathView>,
    text: Seq<char>,
    new_text: Seq<char>,
    position: nat,
) -> ActionView {
    if local is Some && local->0.is_redundant() {
        ActionView::Deleted { text, reason: Reason::LocalPath, position }
    } else {
        ActionView::Replaced { text, new_text, position }
    }
}

/// The decision for a line that holds a link to an item page.
pub open spec fn doc_link_action(
    registry: PatternRegistry,
    link: DocLinkView,
    text: Seq<char>,
    position: nat,
    krate: Seq<char>,
) -> ActionView {
    match doc_link_text(link, krate) {
        None => ActionView::Unchanged { text },
        Some(new_text) => pruned(registry.local_path_in(new_text), text, new_text, position),
    }
}

/// The decision for a line that holds a link to a module index page.
pub open spec fn module_link_action(
    registry: PatternRegistry,
    link: ModuleLinkView,
    text: Seq<char>,
    position: nat,
    krate: Seq<char>,
) -> ActionView {
    match module_link_text(link, krate) {
        None => ActionView::Unchanged { text },
        Some(new_text) => pruned(registry.local_path_in(new_text), text, new_text, position),
    }
}

/// The decision for a line that holds a bare anchor link inside the block of
/// `owner`.
pub open spec fn method_anchor_action(
    anchor: MethodAnchorView,
    text: Seq<char>,
    position: nat,
    owner: Seq<char>,
) -> ActionView {
    ActionView::Replaced { text, new_text: method_anchor_text(anchor, owner), position }
}

/// Appends the start of a rewritten target to `out`.
fn append_root(out: &mut String, root_crate: &Option<String>, parent_refs: usize, krate: &str)
    ensures
        final(out)@ == old(out)@ + root_segment(
            root_crate.deep_view(),
            parent_refs as nat,
            krate@,
        ),
{
    match root_crate {
        Some(root) => {
            if same_text(root.as_str(), krate) {
                out.append("crate");
            } else {
                out.append(root.as_str());
            }
            out.append("::");
            proof {
                reveal_strlit("::");
                assert("::"@ == scope_sep());
                assert(out@ == old(out)@ + root_segment(
                    root_crate.deep_view(),
                    parent_refs as nat,
                    krate@,
                ));
            }
        },
        None => {
            append_repeated(out, "super::", parent_refs);
        },
    }
}

/// Builds the line that takes the place of a link to an item page.
pub fn build_doc_link(link: &DocLink, krate: &str) -> (new_text: Option<String>)
    ensures
        new_text.deep_view() == doc_link_text(link@, krate@),
{
    let mut out = link.link_prefix.clone();
    append_root(&mut out, &link.root_crate, link.parent_refs, krate);
    match &link.intermediate_path {
        Some(path) => {
            if starts_with(path.as_str(), "http") {
                return None;
            }
            if !same_text(path.as_str(), "./") {
                let in_scope = to_scope_path(path.as_str());
                out.append(in_scope.as_str());
            }
        },
        None => {},
    }
    out.append(link.item_name.as_str());
    match &link.anchor_suffix {
        Some(name) => {
            out.append("::");
            out.append(name.as_str());
            proof {
                reveal_strlit("::");
                assert("::"@ == scope_sep());
            }
        },
        None => {},
    }
    assert(out@ == link@.link_prefix + root_segment(link@.root_crate, link@.parent_refs, krate@)
        + intermediate_segment(link@.intermediate_path) + link@.item_name + anchor_segment(
        link@.anchor_suffix,
    ));
    Some(out)
}

/// Builds the line that takes the place of a link to a module index page.
pub fn build_module_link(link: &ModuleLink, krate: &str) -> (new_text: Option<String>)
    ensures
        new_text.deep_view() == module_link_text(link@, krate@),
{
    let mut out = link.link_prefix.clone();
    append_root(&mut out, &link.root_crate, link.parent_refs, krate);
    match &link.modules {
        Some(path) => {
            if starts_with(path.as_str(), "http") {
                return None;
            }
            let in_scope = to_scope_path(path.as_str());
            let trimmed = trim_scope_suffix(in_scope.as_str());
            out.append(trimmed.as_str());
        },
        None => {},
    }
    assert(out@ == link@.link_prefix + root_segment(link@.root_crate, link@.parent_refs, krate@)
        + modules_segment(link@.modules));
    Some(out)
}

/// Decides between deleting and replacing a rewritten link, given the label
/// and the target that its new text splits into.
pub fn prune_local_path(
    local: Option<LocalPath>,
    text: String,
    new_text: String,
    position: usize,
) -> (action: Action)
    ensures
        action@ == pruned(local.deep_view(), text@, new_text@, position as nat),
{
    let redundant = match &local {
        Some(link) => link.is_redundant(),
        None => false,
    };
    if redundant {
        Action::Deleted { text, reason: Reason::LocalPath, position }
    } else {
        Action::Replaced { text, new_text, position }
    }
}

/// Rewrites a line that holds a link to an item page.
///
/// An external link leaves the line unchanged. Any other link is rewritten,
/// and then deleted instead where its label and its new target are the same.
pub fn comment_link(
    registry: &PatternRegistry,
    link: &DocLink,
    text: String,
    position: usize,
    krate: &str,
) -> (action: Action)
    ensures
        action@ == doc_link_action(*registry, link@, text@, position as nat, krate@),
{
    match build_doc_link(link, krate) {
        None => Action::Unchanged { text },
        Some(new_text) => {
            let local = registry.find_local_path(new_text.as_str());
            prune_local_path(local, text, new_text, position)
        },
    }
}

/// Rewrites a line that holds a link to a module index page.
///
/// An external link leaves the line unchanged. Any other link is rewritten,
/// and then deleted instead where its label and its new target are the same.
pub fn module_link(
    registry: &PatternRegistry,
    link: &ModuleLink,
    text: String,
    position: usize,
    krate: &str,
) -> (action: Action)
    ensures
        action@ == module_link_action(*registry, link@, text@, position as nat, krate@),
{
    match build_module_link(link, krate) {
        None => Action::Unchanged { text },
        Some(new_text) => {
            let local = registry.find_local_path(new_text.as_str());
            prune_local_path(local, text, new_text, position)
        },
    }
}

/// Rewrites a line that holds a bare anchor link, inside the block of
/// `curr_impl`.
pub fn method_anchor(
    anchor: &MethodAnchor,
    text: String,
    position: usize,
    curr_impl: &str,
) -> (action: Action)
    ensures
        action@ == method_anchor_action(anchor@, text@, position as nat, curr_impl@),
{
    let mut new_text = anchor.link_prefix.clone();
    new_text.append(curr_impl);
    new_text.append("::");
    new_text.append(anchor.anchor_suffix.as_str());
    proof {
        reveal_strlit("::");
        assert("::"@ == scope_sep());
        assert(new_text@ == method_anchor_text(anchor@, curr_impl@));
    }
    Action::Replaced { text, new_text, position }
}

} // verus!
