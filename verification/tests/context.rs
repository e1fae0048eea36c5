use intraconv::capture::ImplStart;
use intraconv::context::ImplContext;

fn opening(indent: &str, owner: &str) -> Option<ImplStart> {
    Some(ImplStart { indent: indent.to_string(), owner: owner.to_string() })
}

fn inside(owner: &str, closing_marker: &str) -> ImplContext {
    ImplContext::InImpl { owner: owner.to_string(), closing_marker: closing_marker.to_string() }
}

#[test]
fn opening_line_starts_tracking() {
    let next = ImplContext::NoImpl.advance(opening("  ", "Foo"), "  impl Foo {");
    assert_eq!(next, inside("Foo", "  }"));
}

#[test]
fn other_lines_change_nothing() {
    assert_eq!(ImplContext::NoImpl.advance(None, "fn f() {}"), ImplContext::NoImpl);
    assert_eq!(ImplContext::NoImpl.advance(None, "}"), ImplContext::NoImpl);
    assert_eq!(ImplContext::NoImpl.advance(None, ""), ImplContext::NoImpl);
    assert_eq!(inside("Foo", "}").advance(None, "    }"), inside("Foo", "}"));
    assert_eq!(inside("Foo", "}").advance(None, "} "), inside("Foo", "}"));
}

#[test]
fn closing_marker_ends_tracking() {
    assert_eq!(inside("Foo", "}").advance(None, "}"), ImplContext::NoImpl);
    assert_eq!(inside("Foo", "    }").advance(None, "    }"), ImplContext::NoImpl);
}

#[test]
fn new_opening_replaces_the_tracked_block() {
    let next = inside("Outer", "}").advance(opening("    ", "Inner"), "    impl Inner {");
    assert_eq!(next, inside("Inner", "    }"));
}

#[test]
fn opening_that_equals_its_own_marker_closes_at_once() {
    let next = ImplContext::NoImpl.advance(opening("x", "Foo"), "x}");
    assert_eq!(next, ImplContext::NoImpl);
}
