//! Typed readings of what each link pattern captured.
//!
//! A search hands back its capture groups by index. Each type here names the
//! groups of one pattern, says which of them must have taken part in the
//! match, and holds their text as plain strings.

use crate::text::{count_char, count_in};
use vstd::prelude::*;

verus! {

/// Removes the last group of `groups` and returns it.
fn pop_group(groups: &mut Vec<Option<String>>) -> (group: Option<String>)
    requires
        old(groups).len() > 0,
    ensures
        final(groups).len() == old(groups).len() - 1,
        final(groups).deep_view() == old(groups).deep_view().drop_last(),
        group.deep_view() == old(groups).deep_view().last(),
{
    let group = groups.pop().unwrap();
    assert(groups.deep_view() =~= old(groups).deep_view().drop_last());
    group
}

/// Number of "go up one level" segments in the captured run of `../`.
pub open spec fn parent_levels(run: Option<Seq<char>>) -> nat {
    match run {
        Some(text) => count_char(text, '/'),
        None => 0,
    }
}

fn count_parent_levels(run: &Option<String>) -> (n: usize)
    ensures
        n == parent_levels(run.deep_view()),
{
    match run {
        Some(text) => count_in(text.as_str(), '/'),
        None => 0,
    }
}

/// A reference-style link to a generated documentation page of an item.
///
/// Groups of the pattern, by index: 1 the link prefix, 2 the run of `../`,
/// 3 the well-known root crate, 4 the intermediate path, 5 the item name,
/// 6 the name behind a method, variant or type-method anchor.
#[derive(Clone, Debug, PartialEq, Eq)]
pub struct DocLink {
    pub link_prefix: String,
    pub parent_refs: usize,
    pub root_crate: Option<String>,
    pub intermediate_path: Option<String>,
    pub item_name: String,
    pub anchor_suffix: Option<String>,
}

pub struct DocLinkView {
    pub link_prefix: Seq<char>,
    pub parent_refs: nat,
    pub root_crate: Option<Seq<char>>,
    pub intermediate_path: Option<Seq<char>>,
    pub item_name: Seq<char>,
    pub anchor_suffix: Option<Seq<char>>,
}

impl View for DocLink {
    type V = DocLinkView;

    open spec fn view(&self) -> DocLinkView {
        DocLinkView {
            link_prefix: self.link_prefix@,
            parent_refs: self.parent_refs as nat,
            root_crate: self.root_crate.deep_view(),
            intermediate_path: self.intermediate_path.deep_view(),
            item_name: self.item_name@,
            anchor_suffix: self.anchor_suffix.deep_view(),
        }
    }
}

impl DeepView for DocLink {
    type V = DocLinkView;

    open spec fn deep_view(&self) -> DocLinkView {
        self@
    }
}

impl DocLinkView {
    /// The link read from seven groups of which the prefix and the item name
    /// took part in the match; `None` for any other shape.
    pub open spec fn from_groups(groups: Seq<Option<Seq<char>>>) -> Option<DocLinkView> {
        if groups.len() == 7 && groups[1] is Some && groups[5] is Some {
            Some(
                DocLinkView {
                    link_prefix: groups[1]->0,
                    parent_refs: parent_levels(groups[2]),
                    root_crate: groups[3],
                    intermediate_path: groups[4],
                    item_name: groups[5]->0,
                    anchor_suffix: groups[6],
                },
            )
        } else {
            None
        }
    }
}

impl DocLink {
    pub fn from_groups(groups: Vec<Option<String>>) -> (link: Option<DocLink>)
        ensures
            link.deep_view() == DocLinkView::from_groups(groups.deep_view()),
    {
        let mut groups = groups;
        if groups.len() != 7 {
            return None;
        }
        let anchor_suffix = pop_group(&mut groups);
        let item_name = pop_group(&mut groups);
        let intermediate_path = pop_group(&mut groups);
        let root_crate = pop_group(&mut groups);
        let parent_run = pop_group(&mut groups);
        let link_prefix = pop_group(&mut groups);
        match (link_prefix, item_name) {
            (Some(link_prefix), Some(item_name)) => Some(
                DocLink {
                    link_prefix,
                    parent_refs: count_parent_levels(&parent_run),
                    root_crate,
                    intermediate_path,
                    item_name,
                    anchor_suffix,
                },
            ),
            _ => None,
        }
    }
}

/// A reference-style link to the index page of a module.
///
/// Groups of the pattern, by index: 1 the link prefix, 2 the run of `../`,
/// 3 the well-known root crate, 4 the module path.
#[derive(Clone, Debug, PartialEq, Eq)]
pub struct ModuleLink {
    pub link_prefix: String,
    pub parent_refs: usize,
    pub root_crate: Option<String>,
    pub modules: Option<String>,
}

pub struct ModuleLinkView {
    pub link_prefix: Seq<char>,
    pub parent_refs: nat,
    pub root_crate: Option<Seq<char>>,
    pub modules: Option<Seq<char>>,
}

impl View for ModuleLink {
    type V = ModuleLinkView;

    open spec fn view(&self) -> ModuleLinkView {
        ModuleLinkView {
            link_prefix: self.link_prefix@,
            parent_refs: self.parent_refs as nat,
            root_crate: self.root_crate.deep_view(),
            modules: self.modules.deep_view(),
        }
    }
}

impl DeepView for ModuleLink {
    type V = ModuleLinkView;

    open spec fn deep_view(&self) -> ModuleLinkView {
        self@
    }
}

impl ModuleLinkView {
    /// The link read from five groups of which the prefix took part in the
    /// match; `None` for any other shape.
    pub open spec fn from_groups(groups: Seq<Option<Seq<char>>>) -> Option<ModuleLinkView> {
        if groups.len() == 5 && groups[1] is Some {
            Some(
                ModuleLinkView {
                    link_prefix: groups[1]->0,
                    parent_refs: parent_levels(groups[2]),
                    root_crate: groups[3],
                    modules: groups[4],
                },
            )
        } else {
            None
        }
    }
}

impl ModuleLink {
    pub fn from_groups(groups: Vec<Option<String>>) -> (link: Option<ModuleLink>)
        ensures
            link.deep_view() == ModuleLinkView::from_groups(groups.deep_view()),
    {
        let mut groups = groups;
        if groups.len() != 5 {
            return None;
        }
        let modules = pop_group(&mut groups);
        let root_crate = pop_group(&mut groups);
        let parent_run = pop_group(&mut groups);
        let link_prefix = pop_group(&mut groups);
        match link_prefix {
            Some(link_prefix) => Some(
                ModuleLink {
                    link_prefix,
                    parent_refs: count_parent_levels(&parent_run),
                    root_crate,
                    modules,
                },
            ),
            None => None,
        }
    }
}

/// A reference-style link that consists of a method, variant or type-method
/// anchor alone.
///
/// Groups of the pattern, by index: 1 the link prefix, 2 the name behind the
/// anchor.
#[derive(Clone, Debug, PartialEq, Eq)]
pub struct MethodAnchor {
    pub link_prefix: String,
    pub anchor_suffix: String,
}

pub struct MethodAnchorView {
    pub link_prefix: Seq<char>,
    pub anchor_suffix: Seq<char>,
}

impl View for MethodAnchor {
    type V = MethodAnchorView;

    open spec fn view(&self) -> MethodAnchorView {
        MethodAnchorView { link_prefix: self.link_prefix@, anchor_suffix: self.anchor_suffix@ }
    }
}

impl DeepView for MethodAnchor {
    type V = MethodAnchorView;

    open spec fn deep_view(&self) -> MethodAnchorView {
        self@
    }
}

impl MethodAnchorView {
    /// The anchor read from three groups that all took part in the match;
    /// `None` for any other shape.
    pub open spec fn from_groups(groups: Seq<Option<Seq<char>>>) -> Option<MethodAnchorView> {
        if groups.len() == 3 && groups[1] is Some && groups[2] is Some {
            Some(MethodAnchorView { link_prefix: groups[1]->0, anchor_suffix: groups[2]->0 })
        } else {
            None
        }
    }
}

impl MethodAnchor {
    pub fn from_groups(groups: Vec<Option<String>>) -> (anchor: Option<MethodAnchor>)
        ensures
            anchor.deep_view() == MethodAnchorView::from_groups(groups.deep_view()),
    {
        let mut groups = groups;
        if groups.len() != 3 {
            return None;
        }
        let anchor_suffix = pop_group(&mut groups);
        let link_prefix = pop_group(&mut groups);
        match (link_prefix, anchor_suffix) {
            (Some(link_prefix), Some(anchor_suffix)) => Some(
                MethodAnchor { link_prefix, anchor_suffix },
            ),
            _ => None,
        }
    }
}

/// The opening line of a type implementation or of a trait declaration.
///
/// Groups of the pattern, by index: 1 the indentation, 2 the name of the type or trait.
#[derive(Clone, Debug, PartialEq, Eq)]
pub struct ImplStart {
    pub indent: String,
    pub owner: String,
}

pub struct ImplStartView {
    pub indent: Seq<char>,
    pub owner: Seq<char>,
}

impl View for ImplStart {
    type V = ImplStartView;

    open spec fn view(&self) -> ImplStartView {
        ImplStartView { indent: self.indent@, owner: self.owner@ }
    }
}

impl DeepView for ImplStart {
    type V = ImplStartView;

    open spec fn deep_view(&self) -> ImplStartView {
        self@
    }
}

impl ImplStartView {
    /// The opening read from three groups that all took part in the match;
    /// `None` for any other shape.
    pub open spec fn from_groups(groups: Seq<Option<Seq<char>>>) -> Option<ImplStartView> {
        if groups.len() == 3 && groups[1] is Some && groups[2] is Some {
            Some(ImplStartView { indent: groups[1]->0, owner: groups[2]->0 })
        } else {
            None
        }
    }
}

impl ImplStart {
    pub fn from_groups(groups: Vec<Option<String>>) -> (start: Option<ImplStart>)
        ensures
            start.deep_view() == ImplStartView::from_groups(groups.deep_view()),
    {
        let mut groups = groups;
        if groups.len() != 3 {
            return None;
        }
        let owner = pop_group(&mut groups);
        let indent = pop_group(&mut groups);
        match (indent, owner) {
            (Some(indent), Some(owner)) => Some(ImplStart { indent, owner }),
            _ => None,
        }
    }
}

/// The label and the target of a reference-style link.
///
/// Groups of the pattern, by index: 1 the label without its backticks, 2 the
/// target.
#[derive(Clone, Debug, PartialEq, Eq)]
pub struct LocalPath {
    pub label: String,
    pub target: String,
}

pub struct LocalPathView {
    pub label: Seq<char>,
    pub target: Seq<char>,
}

impl View for LocalPath {
    type V = LocalPathView;

    open spec fn view(&self) -> LocalPathView {
        LocalPathView { label: self.label@, target: self.target@ }
    }
}

impl DeepView for LocalPath {
    type V = LocalPathView;

    open spec fn deep_view(&self) -> LocalPathView {
        self@
    }
}

impl LocalPathView {
    /// The link read from three groups that all took part in the match;
    /// `None` for any other shape.
    pub open spec fn from_groups(groups: Seq<Option<Seq<char>>>) -> Option<LocalPathView> {
        if groups.len() == 3 && groups[1] is Some && groups[2] is Some {
            Some(LocalPathView { label: groups[1]->0, target: groups[2]->0 })
        } else {
            None
        }
    }

    /// Whether the link points at its own label.
    pub open spec fn is_redundant(self) -> bool {
        self.label == self.target
    }
}

impl LocalPath {
    pub fn from_groups(groups: Vec<Option<String>>) -> (link: Option<LocalPath>)
        ensures
            link.deep_view() == LocalPathView::from_groups(groups.deep_view()),
    {
        let mut groups = groups;
        if groups.len() != 3 {
            return None;
        }
        let target = pop_group(&mut groups);
        let label = pop_group(&mut groups);
        match (label, target) {
            (Some(label), Some(target)) => Some(LocalPath { label, target }),
            _ => None,
        }
    }

    /// Whether the link points at its own label.
    pub fn is_redundant(&self) -> (b: bool)
        ensures
            b == self@.is_redundant(),
    {
        self.label == self.target
    }
}

} // verus!
