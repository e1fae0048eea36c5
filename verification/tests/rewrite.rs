use intraconv::action::{Action, Reason};
use intraconv::capture::{DocLink, LocalPath, MethodAnchor, ModuleLink};
use intraconv::patterns::PatternRegistry;
use intraconv::rewrite::{
    build_doc_link, build_module_link, comment_link, method_anchor, module_link, prune_local_path,
};

fn some(text: &str) -> Option<String> {
    Some(text.to_string())
}

fn doc_link(
    parent_refs: usize,
    root_crate: Option<&str>,
    intermediate_path: Option<&str>,
    item_name: &str,
    anchor_suffix: Option<&str>,
) -> DocLink {
    DocLink {
        link_prefix: "/// [x]: ".to_string(),
        parent_refs,
        root_crate: root_crate.map(str::to_string),
        intermediate_path: intermediate_path.map(str::to_string),
        item_name: item_name.to_string(),
        anchor_suffix: anchor_suffix.map(str::to_string),
    }
}

fn module(parent_refs: usize, root_crate: Option<&str>, modules: Option<&str>) -> ModuleLink {
    ModuleLink {
        link_prefix: "/// [x]: ".to_string(),
        parent_refs,
        root_crate: root_crate.map(str::to_string),
        modules: modules.map(str::to_string),
    }
}

#[test]
fn doc_link_text_is_built_from_all_parts() {
    let link = doc_link(0, Some("std"), Some("collections/hash_map/"), "HashMap", Some("insert"));
    assert_eq!(
        build_doc_link(&link, "mycrate"),
        some("/// [x]: std::collections::hash_map::HashMap::insert")
    );
}

#[test]
fn doc_link_root_crate_wins_over_parents() {
    let link = doc_link(2, Some("core"), None, "Foo", None);
    assert_eq!(build_doc_link(&link, "mycrate"), some("/// [x]: core::Foo"));
    assert_eq!(build_doc_link(&link, "core"), some("/// [x]: crate::Foo"));
}

#[test]
fn doc_link_parents_become_super_segments() {
    assert_eq!(build_doc_link(&doc_link(0, None, None, "Foo", None), "k"), some("/// [x]: Foo"));
    assert_eq!(
        build_doc_link(&doc_link(1, None, None, "Foo", None), "k"),
        some("/// [x]: super::Foo")
    );
    assert_eq!(
        build_doc_link(&doc_link(3, None, Some("m/"), "Foo", None), "k"),
        some("/// [x]: super::super::super::m::Foo")
    );
}

#[test]
fn doc_link_current_directory_adds_nothing() {
    assert_eq!(build_doc_link(&doc_link(0, None, Some("./"), "Foo", None), "k"), some("/// [x]: Foo"));
    assert_eq!(
        build_doc_link(&doc_link(0, None, Some("./a/"), "Foo", None), "k"),
        some("/// [x]: .::a::Foo")
    );
}

#[test]
fn doc_link_with_url_scheme_has_no_new_text() {
    assert_eq!(build_doc_link(&doc_link(0, None, Some("https://docs.rs/"), "Foo", None), "k"), None);
    assert_eq!(build_doc_link(&doc_link(1, Some("std"), Some("http"), "Foo", Some("a")), "k"), None);
    assert_eq!(
        build_doc_link(&doc_link(0, None, Some("xhttp/"), "Foo", None), "k"),
        some("/// [x]: xhttp::Foo")
    );
}

#[test]
fn module_link_text_trims_the_trailing_separator() {
    assert_eq!(build_module_link(&module(0, Some("std"), Some("io/")), "k"), some("/// [x]: std::io"));
    assert_eq!(
        build_module_link(&module(2, None, Some("a/b/")), "k"),
        some("/// [x]: super::super::a::b")
    );
    assert_eq!(build_module_link(&module(0, Some("alloc"), Some("vec/")), "alloc"), some("/// [x]: crate::vec"));
    assert_eq!(build_module_link(&module(1, None, Some("")), "k"), some("/// [x]: super::"));
    assert_eq!(build_module_link(&module(1, None, None), "k"), some("/// [x]: super::"));
    assert_eq!(build_module_link(&module(0, None, Some("a//")), "k"), some("/// [x]: a"));
}

#[test]
fn module_link_with_url_scheme_has_no_new_text() {
    assert_eq!(build_module_link(&module(0, None, Some("http://example.com/")), "k"), None);
}

#[test]
fn prune_deletes_exactly_the_redundant_link() {
    let same = Some(LocalPath { label: "Foo".to_string(), target: "Foo".to_string() });
    let differ = Some(LocalPath { label: "Foo".to_string(), target: "Bar".to_string() });
    assert_eq!(
        prune_local_path(same, "old".to_string(), "new".to_string(), 7),
        Action::Deleted { text: "old".to_string(), reason: Reason::LocalPath, position: 7 }
    );
    assert_eq!(
        prune_local_path(differ, "old".to_string(), "new".to_string(), 7),
        Action::Replaced { text: "old".to_string(), new_text: "new".to_string(), position: 7 }
    );
    assert_eq!(
        prune_local_path(None, "old".to_string(), "new".to_string(), 7),
        Action::Replaced { text: "old".to_string(), new_text: "new".to_string(), position: 7 }
    );
}

#[test]
fn comment_link_replaces_deletes_or_keeps() {
    let registry = PatternRegistry::new().unwrap();
    let line = "the line".to_string();
    assert_eq!(
        comment_link(&registry, &doc_link(1, None, None, "Foo", None), line.clone(), 4, "k"),
        Action::Replaced { text: line.clone(), new_text: "/// [x]: super::Foo".to_string(), position: 4 }
    );
    assert_eq!(
        comment_link(&registry, &doc_link(0, None, None, "x", None), line.clone(), 4, "k"),
        Action::Deleted { text: line.clone(), reason: Reason::LocalPath, position: 4 }
    );
    assert_eq!(
        comment_link(&registry, &doc_link(0, None, Some("http://a/"), "x", None), line.clone(), 4, "k"),
        Action::Unchanged { text: line.clone() }
    );
}

#[test]
fn module_link_replaces_deletes_or_keeps() {
    let registry = PatternRegistry::new().unwrap();
    let line = "the line".to_string();
    assert_eq!(
        module_link(&registry, &module(0, Some("std"), Some("io/")), line.clone(), 9, "k"),
        Action::Replaced { text: line.clone(), new_text: "/// [x]: std::io".to_string(), position: 9 }
    );
    assert_eq!(
        module_link(&registry, &module(0, None, Some("x/")), line.clone(), 9, "k"),
        Action::Deleted { text: line.clone(), reason: Reason::LocalPath, position: 9 }
    );
    assert_eq!(
        module_link(&registry, &module(0, None, Some("https://x/")), line.clone(), 9, "k"),
        Action::Unchanged { text: line.clone() }
    );
}

#[test]
fn method_anchor_qualifies_with_the_block_name() {
    let anchor = MethodAnchor { link_prefix: "    /// [`len`]: ".to_string(), anchor_suffix: "len".to_string() };
    assert_eq!(
        method_anchor(&anchor, "line".to_string(), 12, "Vec"),
        Action::Replaced {
            text: "line".to_string(),
            new_text: "    /// [`len`]: Vec::len".to_string(),
            position: 12,
        }
    );
}
