use intraconv::capture::{DocLink, ImplStart, LocalPath, MethodAnchor, ModuleLink};
use intraconv::patterns::{
    compile_pattern, name_failure, PatternError, PatternKind, PatternRegistry, DOC_COMMENT_LINE,
    EMPTY_DOC_COMMENT, HTML_DOC_LINK, HTML_MODULE_LINK, IMPL_OR_TRAIT_START, LOCAL_PATH_LINK,
    METHOD_ANCHOR_ONLY,
};

const KINDS: [PatternKind; 7] = [
    PatternKind::EmptyDocComment,
    PatternKind::DocCommentLine,
    PatternKind::LocalPathLink,
    PatternKind::ImplOrTraitStart,
    PatternKind::HtmlDocLink,
    PatternKind::HtmlModuleLink,
    PatternKind::MethodAnchorOnly,
];

fn some(text: &str) -> Option<String> {
    Some(text.to_string())
}

#[test]
fn every_kind_names_its_pattern() {
    let sources = [
        EMPTY_DOC_COMMENT,
        DOC_COMMENT_LINE,
        LOCAL_PATH_LINK,
        IMPL_OR_TRAIT_START,
        HTML_DOC_LINK,
        HTML_MODULE_LINK,
        METHOD_ANCHOR_ONLY,
    ];
    for (kind, source) in KINDS.iter().zip(sources) {
        assert_eq!(kind.source(), source);
    }
}

#[test]
fn every_pattern_compiles_to_itself() {
    for kind in KINDS {
        let compiled = compile_pattern(kind).expect("the pattern compiles");
        assert_eq!(compiled.as_str(), kind.source());
    }
}

#[test]
fn registry_holds_each_pattern_in_its_place() {
    let registry = PatternRegistry::new().expect("the patterns compile");
    assert_eq!(registry.empty_doc_comment.as_str(), EMPTY_DOC_COMMENT);
    assert_eq!(registry.doc_comment_line.as_str(), DOC_COMMENT_LINE);
    assert_eq!(registry.local_path_link.as_str(), LOCAL_PATH_LINK);
    assert_eq!(registry.impl_or_trait_start.as_str(), IMPL_OR_TRAIT_START);
    assert_eq!(registry.html_doc_link.as_str(), HTML_DOC_LINK);
    assert_eq!(registry.html_module_link.as_str(), HTML_MODULE_LINK);
    assert_eq!(registry.method_anchor_only.as_str(), METHOD_ANCHOR_ONLY);
}

#[test]
fn failed_compilation_is_reported_under_the_pattern_name() {
    let refused = regex::Regex::new("(unclosed");
    assert!(refused.is_err());
    match name_failure(PatternKind::HtmlDocLink, refused) {
        Err(err) => assert_eq!(err, PatternError { pattern: PatternKind::HtmlDocLink }),
        Ok(_) => panic!("a refused pattern was passed on"),
    }
}

#[test]
fn successful_compilation_is_passed_on() {
    let compiled = name_failure(PatternKind::DocCommentLine, regex::Regex::new("a+b"));
    assert_eq!(compiled.expect("the regex is passed on").as_str(), "a+b");
}

#[test]
fn empty_doc_comment_is_the_marker_alone() {
    let registry = PatternRegistry::new().unwrap();
    for line in ["///", "//!", "    ///", "\t//!"] {
        assert!(registry.is_empty_doc_comment(line), "{:?}", line);
    }
    for line in ["", "//", "////", "/// ", "/// x", "x ///", "//! [a]: b"] {
        assert!(!registry.is_empty_doc_comment(line), "{:?}", line);
    }
}

#[test]
fn doc_comment_line_starts_with_the_marker() {
    let registry = PatternRegistry::new().unwrap();
    for line in ["///", "//!", "    /// text", "//! [a]: b", "////"] {
        assert!(registry.is_doc_comment_line(line), "{:?}", line);
    }
    for line in ["", "//", "// text", "fn f() {} ///", "/ //"] {
        assert!(!registry.is_doc_comment_line(line), "{:?}", line);
    }
}

#[test]
fn doc_link_captures_every_part() {
    let registry = PatternRegistry::new().unwrap();
    assert_eq!(
        registry.find_doc_link("  /// [`a`]: ../../core/x/y/trait.Tr.html#tymethod.go"),
        Some(DocLink {
            link_prefix: "  /// [`a`]: ".to_string(),
            parent_refs: 2,
            root_crate: some("core"),
            intermediate_path: some("x/y/"),
            item_name: "Tr".to_string(),
            anchor_suffix: some("go"),
        })
    );
    assert_eq!(
        registry.find_doc_link("//! [a]: struct.Foo.html"),
        Some(DocLink {
            link_prefix: "//! [a]: ".to_string(),
            parent_refs: 0,
            root_crate: None,
            intermediate_path: None,
            item_name: "Foo".to_string(),
            anchor_suffix: None,
        })
    );
}

#[test]
fn doc_link_needs_an_item_page() {
    let registry = PatternRegistry::new().unwrap();
    for line in [
        "//! [a]: index.html",
        "//! [a]: Foo.html",
        "//! [a]: struct.Foo.htm",
        "// [a]: struct.Foo.html",
        "//! [a] struct.Foo.html",
        "//! [a]: struct.Foo.html#section",
        "//! [a]: #method.new",
    ] {
        assert_eq!(registry.find_doc_link(line), None, "{:?}", line);
    }
}

#[test]
fn module_link_captures_every_part() {
    let registry = PatternRegistry::new().unwrap();
    assert_eq!(
        registry.find_module_link("//! [m]: ../alloc/a/b/index.html"),
        Some(ModuleLink {
            link_prefix: "//! [m]: ".to_string(),
            parent_refs: 1,
            root_crate: some("alloc"),
            modules: some("a/b/"),
        })
    );
    assert_eq!(
        registry.find_module_link("//! [m]: index.html"),
        Some(ModuleLink {
            link_prefix: "//! [m]: ".to_string(),
            parent_refs: 0,
            root_crate: None,
            modules: some(""),
        })
    );
    assert_eq!(registry.find_module_link("//! [m]: a/index.htm"), None);
    assert_eq!(registry.find_module_link("//! [m]: a/struct.Foo.html"), None);
}

#[test]
fn method_anchor_captures_prefix_and_name() {
    let registry = PatternRegistry::new().unwrap();
    assert_eq!(
        registry.find_method_anchor("    /// [`go`]: #variant.Go"),
        Some(MethodAnchor { link_prefix: "    /// [`go`]: ".to_string(), anchor_suffix: "Go".to_string() })
    );
    assert_eq!(registry.find_method_anchor("/// [a]: #section"), None);
    assert_eq!(registry.find_method_anchor("/// [a]: struct.A.html#method.b"), None);
    assert_eq!(registry.find_method_anchor("/// [a]: #method.b c"), None);
}

#[test]
fn impl_start_captures_indentation_and_name() {
    let registry = PatternRegistry::new().unwrap();
    assert_eq!(
        registry.find_impl_start("    impl Foo {"),
        Some(ImplStart { indent: "    ".to_string(), owner: "Foo".to_string() })
    );
    assert_eq!(
        registry.find_impl_start("impl fmt::Debug for Point {"),
        Some(ImplStart { indent: "".to_string(), owner: "Point".to_string() })
    );
    assert_eq!(
        registry.find_impl_start("pub trait Shape: Sized {"),
        Some(ImplStart { indent: "".to_string(), owner: "Shape:".to_string() })
    );
    assert_eq!(registry.find_impl_start("fn f() {}"), None);
    assert_eq!(registry.find_impl_start("/// impl Foo {"), None);
    assert_eq!(registry.find_impl_start("}"), None);
}

#[test]
fn local_path_strips_the_backticks_of_the_label() {
    let registry = PatternRegistry::new().unwrap();
    assert_eq!(
        registry.find_local_path("/// [`Foo`]: Foo"),
        Some(LocalPath { label: "Foo".to_string(), target: "Foo".to_string() })
    );
    assert_eq!(
        registry.find_local_path("//! [a b]: c::d e"),
        Some(LocalPath { label: "a b".to_string(), target: "c::d e".to_string() })
    );
    assert_eq!(registry.find_local_path("/// [a] b"), None);
    assert_eq!(registry.find_local_path("// [a]: b"), None);
}

fn outcome(kind: PatternKind, compiles: bool) -> Result<regex::Regex, PatternError> {
    if compiles {
        compile_pattern(kind)
    } else {
        Err(PatternError { pattern: kind })
    }
}

fn assemble_with(compiles: [bool; 7]) -> Result<PatternRegistry, PatternError> {
    PatternRegistry::assemble(
        outcome(KINDS[0], compiles[0]),
        outcome(KINDS[1], compiles[1]),
        outcome(KINDS[2], compiles[2]),
        outcome(KINDS[3], compiles[3]),
        outcome(KINDS[4], compiles[4]),
        outcome(KINDS[5], compiles[5]),
        outcome(KINDS[6], compiles[6]),
    )
}

#[test]
fn assemble_puts_each_regex_in_its_place() {
    let registry = assemble_with([true; 7]).expect("nothing failed");
    assert_eq!(registry.empty_doc_comment.as_str(), EMPTY_DOC_COMMENT);
    assert_eq!(registry.doc_comment_line.as_str(), DOC_COMMENT_LINE);
    assert_eq!(registry.local_path_link.as_str(), LOCAL_PATH_LINK);
    assert_eq!(registry.impl_or_trait_start.as_str(), IMPL_OR_TRAIT_START);
    assert_eq!(registry.html_doc_link.as_str(), HTML_DOC_LINK);
    assert_eq!(registry.html_module_link.as_str(), HTML_MODULE_LINK);
    assert_eq!(registry.method_anchor_only.as_str(), METHOD_ANCHOR_ONLY);
}

#[test]
fn assemble_reports_the_first_failure() {
    for first in 0..7 {
        for second in first..7 {
            let mut compiles = [true; 7];
            compiles[first] = false;
            compiles[second] = false;
            match assemble_with(compiles) {
                Err(err) => assert_eq!(err, PatternError { pattern: KINDS[first] }),
                Ok(_) => panic!("a failure was lost"),
            }
        }
    }
}
