//! The fixed set of line patterns, and the registry of their compiled forms.
//!
//! A registry is built once and handed to every scan, so that no pattern is
//! compiled twice and nothing is kept in process-wide state.

use crate::capture::{
    DocLink, DocLinkView, ImplStart, ImplStartView, LocalPath, LocalPathView, MethodAnchor,
    MethodAnchorView, ModuleLink, ModuleLinkView,
};
use crate::matcher::{captures, regex_captures, regex_is_match, regex_source};
use regex::Regex;
use vstd::prelude::*;

verus! {

/// A doc-comment line that holds nothing but the comment marker.
pub const EMPTY_DOC_COMMENT: &'static str = r"^\s*//[!/]$";

/// Any doc-comment line, empty or not.
pub const DOC_COMMENT_LINE: &'static str = r"^\s*//[!/]";

/// A reference-style doc link, split into its label and its target.
pub const LOCAL_PATH_LINK: &'static str =
    r"^\s*//[!/] \[`?(?P<label>.*?)`?\]: (?P<target>.*)$";

/// The opening line of a type implementation or of a trait declaration.
pub const IMPL_OR_TRAIT_START: &'static str =
    r"^(?P<indent>\s*)(?:impl|(?:pub(?:\(.+\))? )?trait)(?:<.*>)? (?:.* for )?(?P<owner>\S+)(?:<.*>)?";

/// A reference-style doc link to the generated page of an item.
pub const HTML_DOC_LINK: &'static str =
    r"^(?P<link_prefix>\s*//[!/] \[.*?\]: )(?P<parent_refs>(?:\.\./)*)(?:(?P<root_crate>std|core|alloc)/)?(?P<intermediate_path>(?:.*/))?(?:enum|struct|primitive|trait|constant|type|fn|macro)\.(?P<item_name>.*)\.html(?:#(?:method|variant|tymethod)\.(?P<anchor_suffix>\S*))?$";

/// A reference-style doc link to the index page of a module.
pub const HTML_MODULE_LINK: &'static str =
    r"^(?P<link_prefix>\s*//[!/] \[.*?\]: )(?P<parent_refs>(?:\.\./)*)(?:(?P<root_crate>std|core|alloc)/)?(?P<modules>(?:.*?/)*)index\.html$";

/// A reference-style doc link that is a method, variant or type-method anchor
/// and nothing else.
pub const METHOD_ANCHOR_ONLY: &'static str =
    r"^(?P<link_prefix>\s*//[!/] \[.*?\]: )#(?:method|variant|tymethod)\.(?P<anchor_suffix>\S*)$";

/// Names one of the line patterns.
#[derive(Clone, Copy, Debug, PartialEq, Eq, Structural)]
pub enum PatternKind {
    EmptyDocComment,
    DocCommentLine,
    LocalPathLink,
    ImplOrTraitStart,
    HtmlDocLink,
    HtmlModuleLink,
    MethodAnchorOnly,
}

impl PatternKind {
    /// The text of the pattern, as a sequence of characters.
    pub open spec fn source_text(self) -> Seq<char> {
        match self {
            PatternKind::EmptyDocComment => EMPTY_DOC_COMMENT@,
            PatternKind::DocCommentLine => DOC_COMMENT_LINE@,
            PatternKind::LocalPathLink => LOCAL_PATH_LINK@,
            PatternKind::ImplOrTraitStart => IMPL_OR_TRAIT_START@,
            PatternKind::HtmlDocLink => HTML_DOC_LINK@,
            PatternKind::HtmlModuleLink => HTML_MODULE_LINK@,
            PatternKind::MethodAnchorOnly => METHOD_ANCHOR_ONLY@,
        }
    }

    /// The text of the pattern.
    pub fn source(&self) -> (s: &'static str)
        ensures
            s@ == self.source_text(),
    {
        match self {
            PatternKind::EmptyDocComment => EMPTY_DOC_COMMENT,
            PatternKind::DocCommentLine => DOC_COMMENT_LINE,
            PatternKind::LocalPathLink => LOCAL_PATH_LINK,
            PatternKind::ImplOrTraitStart => IMPL_OR_TRAIT_START,
            PatternKind::HtmlDocLink => HTML_DOC_LINK,
            PatternKind::HtmlModuleLink => HTML_MODULE_LINK,
            PatternKind::MethodAnchorOnly => METHOD_ANCHOR_ONLY,
        }
    }
}

/// A pattern that the regex engine did not accept.
#[derive(Clone, Copy, Debug, PartialEq, Eq, Structural)]
pub struct PatternError {
    pub pattern: PatternKind,
}

/// Turns the outcome of a compilation into the library's own terms: a
/// compiled regex is passed on, a failure is reported under the name of the
/// pattern.
pub fn name_failure(
    kind: PatternKind,
    compiled: Result<Regex, regex::Error>,
) -> (r: Result<Regex, PatternError>)
    ensures
        match compiled {
            Ok(re) => r == Ok::<Regex, PatternError>(re),
            Err(_) => r == Err::<Regex, PatternError>(PatternError { pattern: kind }),
        },
{
    match compiled {
        Ok(re) => Ok(re),
        Err(_) => Err(PatternError { pattern: kind }),
    }
}

/// Compiles the pattern that `kind` names.
pub fn compile_pattern(kind: PatternKind) -> (r: Result<Regex, PatternError>)
    ensures
        r matches Ok(re) ==> regex_source(re) == kind.source_text(),
        r matches Err(e) ==> e.pattern == kind,
{
    name_failure(kind, Regex::new(kind.source()))
}

/// The compiled form of every line pattern.
pub struct PatternRegistry {
    pub empty_doc_comment: Regex,
    pub doc_comment_line: Regex,
    pub local_path_link: Regex,
    pub impl_or_trait_start: Regex,
    pub html_doc_link: Regex,
    pub html_module_link: Regex,
    pub method_anchor_only: Regex,
}

impl PatternRegistry {
    /// The compiled regex that the registry holds for `kind`.
    pub open spec fn regex_of(&self, kind: PatternKind) -> Regex {
        match kind {
            PatternKind::EmptyDocComment => self.empty_doc_comment,
            PatternKind::DocCommentLine => self.doc_comment_line,
            PatternKind::LocalPathLink => self.local_path_link,
            PatternKind::ImplOrTraitStart => self.impl_or_trait_start,
            PatternKind::HtmlDocLink => self.html_doc_link,
            PatternKind::HtmlModuleLink => self.html_module_link,
            PatternKind::MethodAnchorOnly => self.method_anchor_only,
        }
    }

    /// Every regex of the registry was compiled from the pattern of its kind.
    pub open spec fn wf(&self) -> bool {
        forall|kind: PatternKind| #[trigger]
            regex_source(self.regex_of(kind)) == kind.source_text()
    }

    /// Whether `line` is an empty doc comment.
    pub open spec fn matches_empty_doc_comment(&self, line: Seq<char>) -> bool {
        regex_is_match(self.empty_doc_comment, line)
    }

    /// Whether `line` is a doc comment, empty or not.
    pub open spec fn matches_doc_comment_line(&self, line: Seq<char>) -> bool {
        regex_is_match(self.doc_comment_line, line)
    }

    /// The link to an item page that `line` holds, if it holds one.
    pub open spec fn doc_link_in(&self, line: Seq<char>) -> Option<DocLinkView> {
        match regex_captures(self.html_doc_link, line) {
            Some(groups) => DocLinkView::from_groups(groups),
            None => None,
        }
    }

    /// The link to a module index page that `line` holds, if it holds one.
    pub open spec fn module_link_in(&self, line: Seq<char>) -> Option<ModuleLinkView> {
        match regex_captures(self.html_module_link, line) {
            Some(groups) => ModuleLinkView::from_groups(groups),
            None => None,
        }
    }

    /// The bare anchor link that `line` holds, if it holds one.
    pub open spec fn method_anchor_in(&self, line: Seq<char>) -> Option<MethodAnchorView> {
        match regex_captures(self.method_anchor_only, line) {
            Some(groups) => MethodAnchorView::from_groups(groups),
            None => None,
        }
    }

    /// The implementation or trait block that `line` opens, if it opens one.
    pub open spec fn impl_start_in(&self, line: Seq<char>) -> Option<ImplStartView> {
        match regex_captures(self.impl_or_trait_start, line) {
            Some(groups) => ImplStartView::from_groups(groups),
            None => None,
        }
    }

    /// The label and target of the link that `line` holds, if it holds one.
    pub open spec fn local_path_in(&self, line: Seq<char>) -> Option<LocalPathView> {
        match regex_captures(self.local_path_link, line) {
            Some(groups) => LocalPathView::from_groups(groups),
            None => None,
        }
    }

    /// Compiles every pattern, in the order of [`PatternKind`], and puts the
    /// outcomes together as [`PatternRegistry::assemble`] says.
    pub fn new() -> (r: Result<PatternRegistry, PatternError>)
        ensures
            r matches Ok(registry) ==> registry.wf(),
    {
        PatternRegistry::assemble(
            compile_pattern(PatternKind::EmptyDocComment),
            compile_pattern(PatternKind::DocCommentLine),
            compile_pattern(PatternKind::LocalPathLink),
            compile_pattern(PatternKind::ImplOrTraitStart),
            compile_pattern(PatternKind::HtmlDocLink),
            compile_pattern(PatternKind::HtmlModuleLink),
            compile_pattern(PatternKind::MethodAnchorOnly),
        )
    }

    /// What seven compilation outcomes, given in the order of
    /// [`PatternKind`], add up to: the first failure among them, or, where
    /// there is none, the registry that holds each regex in its place.
    pub open spec fn assembled(
        empty_doc_comment: Result<Regex, PatternError>,
        doc_comment_line: Result<Regex, PatternError>,
        local_path_link: Result<Regex, PatternError>,
        impl_or_trait_start: Result<Regex, PatternError>,
        html_doc_link: Result<Regex, PatternError>,
        html_module_link: Result<Regex, PatternError>,
        method_anchor_only: Result<Regex, PatternError>,
    ) -> Result<PatternRegistry, PatternError> {
        match empty_doc_comment {
            Err(e) => Err(e),
            Ok(empty_doc_comment) => match doc_comment_line {
                Err(e) => Err(e),
                Ok(doc_comment_line) => match local_path_link {
                    Err(e) => Err(e),
                    Ok(local_path_link) => match impl_or_trait_start {
                        Err(e) => Err(e),
                        Ok(impl_or_trait_start) => match html_doc_link {
                            Err(e) => Err(e),
                            Ok(html_doc_link) => match html_module_link {
                                Err(e) => Err(e),
                                Ok(html_module_link) => match method_anchor_only {
                                    Err(e) => Err(e),
                                    Ok(method_anchor_only) => Ok(
                                        PatternRegistry {
                                            empty_doc_comment,
                                            doc_comment_line,
                                            local_path_link,
                                            impl_or_trait_start,
                                            html_doc_link,
                                            html_module_link,
                                            method_anchor_only,
                                        },
                                    ),
                                },
                            },
                        },
                    },
                },
            },
        }
    }

    /// Puts seven compilation outcomes, given in the order of
    /// [`PatternKind`], together: the first failure among them, or, where
    /// there is none, the registry that holds each regex in its place.
    pub fn assemble(
        empty_doc_comment: Result<Regex, PatternError>,
        doc_comment_line: Result<Regex, PatternError>,
        local_path_link: Result<Regex, PatternError>,
        impl_or_trait_start: Result<Regex, PatternError>,
        html_doc_link: Result<Regex, PatternError>,
        html_module_link: Result<Regex, PatternError>,
        method_anchor_only: Result<Regex, PatternError>,
    ) -> (r: Result<PatternRegistry, PatternError>)
        ensures
            r == PatternRegistry::assembled(
                empty_doc_comment,
                doc_comment_line,
                local_path_link,
                impl_or_trait_start,
                html_doc_link,
                html_module_link,
                method_anchor_only,
            ),
    {
        let empty_doc_comment = match empty_doc_comment {
            Ok(re) => re,
            Err(e) => {
                return Err(e);
            },
        };
        let doc_comment_line = match doc_comment_line {
            Ok(re) => re,
            Err(e) => {
                return Err(e);
            },
        };
        let local_path_link = match local_path_link {
            Ok(re) => re,
            Err(e) => {
                return Err(e);
            },
        };
        let impl_or_trait_start = match impl_or_trait_start {
            Ok(re) => re,
            Err(e) => {
                return Err(e);
            },
        };
        let html_doc_link = match html_doc_link {
            Ok(re) => re,
            Err(e) => {
                return Err(e);
            },
        };
        let html_module_link = match html_module_link {
            Ok(re) => re,
            Err(e) => {
                return Err(e);
            },
        };
        let method_anchor_only = match method_anchor_only {
            Ok(re) => re,
            Err(e) => {
                return Err(e);
            },
        };
        Ok(
            PatternRegistry {
                empty_doc_comment,
                doc_comment_line,
                local_path_link,
                impl_or_trait_start,
                html_doc_link,
                html_module_link,
                method_anchor_only,
            },
        )
    }

    /// Whether `line` is an empty doc comment.
    pub fn is_empty_doc_comment(&self, line: &str) -> (b: bool)
        ensures
            b == self.matches_empty_doc_comment(line@),
    {
        self.empty_doc_comment.is_match(line)
    }

    /// Whether `line` is a doc comment, empty or not.
    pub fn is_doc_comment_line(&self, line: &str) -> (b: bool)
        ensures
            b == self.matches_doc_comment_line(line@),
    {
        self.doc_comment_line.is_match(line)
    }

    /// Looks for a link to an item page in `line`.
    pub fn find_doc_link(&self, line: &str) -> (link: Option<DocLink>)
        ensures
            link.deep_view() == self.doc_link_in(line@),
    {
        match captures(&self.html_doc_link, line) {
            Some(groups) => DocLink::from_groups(groups),
            None => None,
        }
    }

    /// Looks for a link to a module index page in `line`.
    pub fn find_module_link(&self, line: &str) -> (link: Option<ModuleLink>)
        ensures
            link.deep_view() == self.module_link_in(line@),
    {
        match captures(&self.html_module_link, line) {
            Some(groups) => ModuleLink::from_groups(groups),
            None => None,
        }
    }

    /// Looks for a bare anchor link in `line`.
    pub fn find_method_anchor(&self, line: &str) -> (anchor: Option<MethodAnchor>)
        ensures
            anchor.deep_view() == self.method_anchor_in(line@),
    {
        match captures(&self.method_anchor_only, line) {
            Some(groups) => MethodAnchor::from_groups(groups),
            None => None,
        }
    }

    /// Looks for the opening of an implementation or trait block in `line`.
    pub fn find_impl_start(&self, line: &str) -> (start: Option<ImplStart>)
        ensures
            start.deep_view() == self.impl_start_in(line@),
    {
        match captures(&self.impl_or_trait_start, line) {
            Some(groups) => ImplStart::from_groups(groups),
            None => None,
        }
    }

    /// Splits the link in `line` into its label and its target.
    pub fn find_local_path(&self, line: &str) -> (link: Option<LocalPath>)
        ensures
            link.deep_view() == self.local_path_in(line@),
    {
        match captures(&self.local_path_link, line) {
            Some(groups) => LocalPath::from_groups(groups),
            None => None,
        }
    }
}

} // verus!
