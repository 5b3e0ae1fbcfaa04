use rustfmt_core::patterns::{
    can_be_overflowed_pat, count_wildcard_suffix_len, is_short_pattern, range_infix,
    rewrite_struct_pat, rewrite_tuple_pat, struct_pat_fields, struct_pat_start, wrap_struct_fields,
    FieldPat, ListItem, NestedShape, Pat, PatKind, RangeEnd, StructFieldList, StructLitStyle,
    StructPatStart, TuplePatField, TuplePatLayout,
};

fn pat(kind: PatKind, snippet: &str) -> Pat {
    Pat { kind, snippet: snippet.to_string(), layout: None }
}

fn laid_out(kind: PatKind, text: &str) -> Pat {
    Pat { kind, snippet: text.to_string(), layout: Some(text.to_string()) }
}

fn wild() -> Pat {
    pat(PatKind::Wild, "_")
}

fn ident(name: &str) -> Pat {
    pat(PatKind::Ident { by_ref: false, mutable: false, ident: name.to_string(), sub: None }, name)
}

fn item(text: &str, has_comment: bool) -> ListItem {
    ListItem { item: Some(text.to_string()), has_comment }
}

#[test]
fn short_patterns() {
    assert!(is_short_pattern(&wild(), "_"));
    assert!(is_short_pattern(&ident("x"), "x"));
    let bound = pat(
        PatKind::Ident { by_ref: false, mutable: false, ident: "x".to_string(), sub: Some(Box::new(wild())) },
        "x @ _",
    );
    assert!(!is_short_pattern(&bound, "x @ _"));
    let pair = pat(PatKind::Tuple(vec![wild(), wild()]), "(_, _)");
    assert!(!is_short_pattern(&pair, "(_, _)"));
    let single = pat(PatKind::TupleStruct { segments: 1, pats: vec![ident("a")] }, "Some(a)");
    assert!(is_short_pattern(&single, "Some(a)"));
    let qualified = pat(PatKind::TupleStruct { segments: 2, pats: vec![ident("a")] }, "Option::Some(a)");
    assert!(!is_short_pattern(&qualified, "Option::Some(a)"));
    let wrapped = pat(PatKind::Box(Box::new(pat(PatKind::Ref { mutable: true, pat: Box::new(wild()) }, "&mut _"))), "box &mut _");
    assert!(is_short_pattern(&wrapped, "box &mut _"));
    assert!(!is_short_pattern(&ident("a_very_long_identifier"), "a_very_long_identifier"));
    assert!(!is_short_pattern(&ident("x"), "x\n"));
    assert!(!is_short_pattern(&pat(PatKind::Path { segments: 1 }, "A"), "A"));
}

#[test]
fn overflowing_items() {
    let path = TuplePatField::Pat(pat(PatKind::Path { segments: 1 }, "A"));
    assert!(can_be_overflowed_pat(true, &path, 1, false));
    assert!(!can_be_overflowed_pat(true, &path, 2, false));
    assert!(!can_be_overflowed_pat(false, &path, 1, false));
    let by_ref = TuplePatField::Pat(pat(PatKind::Ref { mutable: false, pat: Box::new(pat(PatKind::Tuple(vec![]), "()")) }, "&()"));
    assert!(can_be_overflowed_pat(true, &by_ref, 1, false));
    let lit = TuplePatField::Pat(pat(PatKind::Lit, "1"));
    assert!(!can_be_overflowed_pat(true, &lit, 1, false));
    assert!(can_be_overflowed_pat(true, &lit, 1, true));
    assert!(!can_be_overflowed_pat(true, &TuplePatField::Dotdot, 1, true));
    assert!(!can_be_overflowed_pat(true, &TuplePatField::Pat(wild()), 1, true));
}

#[test]
fn wildcard_suffixes() {
    assert_eq!(count_wildcard_suffix_len(&vec![item("a", false), item("_", false), item("_", false)]), 2);
    assert_eq!(count_wildcard_suffix_len(&vec![item("_", false), item("_", true), item("_", false)]), 2);
    assert_eq!(count_wildcard_suffix_len(&vec![item("_", false), item("b", false)]), 0);
    assert_eq!(count_wildcard_suffix_len(&vec![ListItem { item: None, has_comment: false }]), 0);
    assert_eq!(count_wildcard_suffix_len(&vec![]), 0);
}

#[test]
fn tuple_patterns() {
    match rewrite_tuple_pat(vec![], Some("Foo".to_string()), &vec![], true) {
        TuplePatLayout::Text(t) => assert_eq!(t, "Foo()"),
        other => panic!("{:?}", other),
    }
    match rewrite_tuple_pat(vec![], None, &vec![], true) {
        TuplePatLayout::Text(t) => assert_eq!(t, "()"),
        other => panic!("{:?}", other),
    }
    let items = vec![item("a", false), item("_", false), item("_", false), item("_", false)];
    match rewrite_tuple_pat(vec![ident("a"), wild(), wild(), wild()], None, &items, true) {
        TuplePatLayout::List { path, items } => {
            assert_eq!(path, "");
            assert_eq!(items.len(), 2);
            assert!(matches!(&items[0], TuplePatField::Pat(p) if p.snippet == "a"));
            assert!(matches!(items[1], TuplePatField::Dotdot));
        }
        other => panic!("{:?}", other),
    }
    match rewrite_tuple_pat(vec![ident("a"), wild(), wild(), wild()], Some("S".to_string()), &items, false) {
        TuplePatLayout::List { path, items } => {
            assert_eq!(path, "S");
            assert_eq!(items.len(), 4);
        }
        other => panic!("{:?}", other),
    }
    let one = vec![item("a", false), item("_", false)];
    match rewrite_tuple_pat(vec![ident("a"), wild()], None, &one, true) {
        TuplePatLayout::List { items, .. } => assert_eq!(items.len(), 2),
        other => panic!("{:?}", other),
    }
}

#[test]
fn simple_pattern_layouts() {
    assert_eq!(wild().rewrite(1, false), Some("_".to_string()));
    assert_eq!(wild().rewrite(0, false), None);
    assert_eq!(pat(PatKind::Rest, "..").rewrite(5, false), Some("..".to_string()));
    let binding = pat(
        PatKind::Ident { by_ref: true, mutable: true, ident: "x".to_string(), sub: Some(Box::new(wild())) },
        "ref mut x @ _",
    );
    // "ref " + "mut " + "x" + " @ " leaves width - 12 for the sub-pattern.
    assert_eq!(binding.rewrite(13, false), Some("ref mut x @ _".to_string()));
    assert_eq!(binding.rewrite(12, false), None);
    let boxed = pat(PatKind::Box(Box::new(ident("y"))), "box y");
    assert_eq!(boxed.rewrite(10, false), Some("box y".to_string()));
    assert_eq!(boxed.rewrite(3, false), None);
    let reference = pat(PatKind::Ref { mutable: true, pat: Box::new(pat(PatKind::Paren(Box::new(wild())), "(_)")) }, "&mut (_)");
    assert_eq!(reference.rewrite(8, false), Some("&mut (_)".to_string()));
    assert_eq!(reference.rewrite(7, false), None);
    let lit = laid_out(PatKind::Lit, "42");
    assert_eq!(lit.rewrite(0, false), Some("42".to_string()));
}

#[test]
fn slice_pattern_layouts() {
    let slice = pat(PatKind::Slice(vec![ident("a"), wild(), pat(PatKind::Rest, "..")]), "[a, _, ..]");
    assert_eq!(slice.rewrite(20, false), Some("[a, _, ..]".to_string()));
    // Items that do not fit fall back to their source text.
    let tight = pat(PatKind::Slice(vec![pat(PatKind::Box(Box::new(wild())), "box  _")]), "[box  _]");
    assert_eq!(tight.rewrite(2, false), Some("[box  _]".to_string()));
    assert_eq!(pat(PatKind::Slice(vec![]), "[]").rewrite(0, false), Some("[]".to_string()));
}

#[test]
fn field_pattern_layouts() {
    let nested = NestedShape { width: 40, indent: "        ".to_string() };
    let short = FieldPat { ident: "x".to_string(), pat: ident("x"), is_shorthand: true };
    assert_eq!(short.rewrite(10, &nested, false), Some("x".to_string()));
    let named = FieldPat { ident: "field".to_string(), pat: ident("value"), is_shorthand: false };
    assert_eq!(named.rewrite(12, &nested, false), Some("field: value".to_string()));
    assert_eq!(named.rewrite(11, &nested, false), Some("field:\n        value".to_string()));
    assert_eq!(named.rewrite(11, &NestedShape { width: 0, indent: String::new() }, false), Some("field:\nvalue".to_string()));
    let wild_field = FieldPat { ident: "f".to_string(), pat: wild(), is_shorthand: false };
    assert_eq!(wild_field.rewrite(0, &nested, false), None);
}

#[test]
fn range_operators() {
    assert_eq!(range_infix(&RangeEnd::DotDotDot, false), "...");
    assert_eq!(range_infix(&RangeEnd::DotDotEq, false), "..=");
    assert_eq!(range_infix(&RangeEnd::Excluded, true), " .. ");
}

#[test]
fn struct_pattern_pieces() {
    match struct_pat_start("Foo", 0, false) {
        StructPatStart::Complete(t) => assert_eq!(t, "Foo {}"),
        other => panic!("{:?}", other),
    }
    match struct_pat_start("Foo", 0, true) {
        StructPatStart::Fields { ellipsis_str, terminator } => {
            assert_eq!(ellipsis_str, ", ..");
            assert_eq!(terminator, "..");
        }
        other => panic!("{:?}", other),
    }
    match struct_pat_start("Foo", 2, false) {
        StructPatStart::Fields { ellipsis_str, terminator } => {
            assert_eq!(ellipsis_str, "");
            assert_eq!(terminator, "}");
        }
        other => panic!("{:?}", other),
    }
    assert_eq!(struct_pat_fields("a, b".to_string(), true, 10, false, false, "    "), "a, b, ..");
    assert_eq!(struct_pat_fields("a b".to_string(), true, 10, false, true, "    "), "a b ..");
    assert_eq!(struct_pat_fields(String::new(), true, 10, false, false, "    "), "..");
    assert_eq!(struct_pat_fields("a,\nb".to_string(), true, 10, true, true, "  "), "a,\nb,\n  ..");
    assert_eq!(struct_pat_fields("abcdef".to_string(), true, 3, false, false, "  "), "abcdef\n  ..");
    assert_eq!(struct_pat_fields("abcdef".to_string(), false, 3, false, false, "  "), "abcdef");
}

#[test]
fn unary_constructors_need_a_single_token() {
    let fields = laid_out(PatKind::Struct, "Foo { a, b }");
    let some_struct = pat(PatKind::TupleStruct { segments: 1, pats: vec![fields] }, "Some(Foo { a, b })");
    assert!(!is_short_pattern(&some_struct, "Some(Foo { a, b })"));
    let nested = pat(
        PatKind::TupleStruct { segments: 1, pats: vec![pat(PatKind::TupleStruct { segments: 1, pats: vec![ident("a")] }, "Some(a)")] },
        "Some(Some(a))",
    );
    assert!(!is_short_pattern(&nested, "Some(Some(a))"));
    let by_ref = pat(
        PatKind::TupleStruct { segments: 1, pats: vec![pat(PatKind::Ref { mutable: false, pat: Box::new(ident("a")) }, "&a")] },
        "Some(&a)",
    );
    assert!(is_short_pattern(&by_ref, "Some(&a)"));
    let ref_tuple = pat(
        PatKind::Tuple(vec![pat(PatKind::Ref { mutable: false, pat: Box::new(pat(PatKind::Tuple(vec![]), "()")) }, "&()")]),
        "(&(),)",
    );
    assert!(!is_short_pattern(&ref_tuple, "(&(),)"));
    let one = pat(PatKind::Tuple(vec![pat(PatKind::Lit, "1")]), "(1,)");
    assert!(is_short_pattern(&one, "(1,)"));
    assert!(is_short_pattern(&pat(PatKind::Tuple(vec![]), "()"), "()"));
    assert!(is_short_pattern(&pat(PatKind::TupleStruct { segments: 1, pats: vec![] }, "A()"), "A()"));
}

fn range(end: RangeEnd, layout: Option<&str>) -> Pat {
    Pat {
        kind: PatKind::Range {
            lo: Box::new(laid_out(PatKind::Lit, "1")),
            hi: Box::new(laid_out(PatKind::Lit, "10")),
            end,
        },
        snippet: "1..10".to_string(),
        layout: layout.map(|l| l.to_string()),
    }
}

#[test]
fn range_pattern_layouts() {
    assert_eq!(range(RangeEnd::Excluded, None).rewrite(20, false), Some("1..10".to_string()));
    assert_eq!(range(RangeEnd::DotDotEq, None).rewrite(20, false), Some("1..=10".to_string()));
    assert_eq!(range(RangeEnd::DotDotDot, None).rewrite(20, true), Some("1 ... 10".to_string()));
    assert_eq!(range(RangeEnd::DotDotEq, None).rewrite(6, false), Some("1..=10".to_string()));
    // Too narrow for one line: the layout across lines is taken.
    assert_eq!(range(RangeEnd::DotDotEq, None).rewrite(5, false), None);
    assert_eq!(
        range(RangeEnd::DotDotEq, Some("1\n    ..=10")).rewrite(5, false),
        Some("1\n    ..=10".to_string())
    );
}

#[test]
fn struct_sub_pattern_needs_room_for_braces() {
    let s = laid_out(PatKind::Struct, "Foo { a }");
    assert_eq!(s.rewrite(1, false), None);
    assert_eq!(s.rewrite(2, false), Some("Foo { a }".to_string()));
    let bound = pat(
        PatKind::Ident { by_ref: false, mutable: false, ident: "x".to_string(), sub: Some(Box::new(laid_out(PatKind::Struct, "Foo { a }"))) },
        "x @ Foo { a }",
    );
    assert_eq!(bound.rewrite(4, false), None);
    assert_eq!(bound.rewrite(13, false), Some("x @ Foo { a }".to_string()));
}

fn block_style(trailing_comma_never: bool) -> StructLitStyle {
    StructLitStyle { block_indent: true, single_line: true, trailing_comma_never, indent: "    ".to_string() }
}

fn list(text: &str, vertical: bool, one_line_width: usize) -> Option<StructFieldList> {
    Some(StructFieldList {
        text: text.to_string(),
        vertical,
        one_line_width,
        nested_indent: "        ".to_string(),
    })
}

#[test]
fn struct_pattern_layouts() {
    let style = block_style(false);
    assert_eq!(rewrite_struct_pat(Some("Foo".to_string()), 1, 0, false, None, &style), None);
    assert_eq!(rewrite_struct_pat(None, 40, 0, false, None, &style), None);
    assert_eq!(rewrite_struct_pat(Some("Foo".to_string()), 2, 0, false, None, &style), Some("Foo {}".to_string()));
    assert_eq!(rewrite_struct_pat(Some("Foo".to_string()), 40, 2, false, None, &style), None);
    assert_eq!(
        rewrite_struct_pat(Some("Foo".to_string()), 40, 2, true, list("a, b", false, 30), &style),
        Some("Foo { a, b, .. }".to_string())
    );
    assert_eq!(
        rewrite_struct_pat(Some("Foo".to_string()), 40, 0, true, list("", false, 30), &style),
        Some("Foo { .. }".to_string())
    );
    assert_eq!(
        rewrite_struct_pat(Some("Foo".to_string()), 40, 2, false, list("a, b", false, 30), &style),
        Some("Foo { a, b }".to_string())
    );
    assert_eq!(
        rewrite_struct_pat(Some("Foo".to_string()), 40, 2, true, list("a,\n        b,", true, 30), &style),
        Some("Foo {\n        a,\n        b,\n        ..\n    }".to_string())
    );
    assert_eq!(
        rewrite_struct_pat(Some("Foo".to_string()), 40, 2, true, list("a,\n        b", true, 30), &block_style(true)),
        Some("Foo {\n        a,\n        b,\n        ..\n    }".to_string())
    );
    let not_single = StructLitStyle { block_indent: true, single_line: false, trailing_comma_never: false, indent: String::new() };
    assert_eq!(wrap_struct_fields("a", &not_single, "  ", 10), "\n  a\n");
    let visual = StructLitStyle { block_indent: false, single_line: false, trailing_comma_never: false, indent: String::new() };
    assert_eq!(wrap_struct_fields("a,\nb", &visual, "  ", 1), " a,\nb ");
}

#[test]
fn references_to_non_tuple_patterns_are_short() {
    let foo = || laid_out(PatKind::Struct, "Foo { a }");
    let by_ref = pat(PatKind::Ref { mutable: false, pat: Box::new(foo()) }, "&Foo { a }");
    assert!(is_short_pattern(&by_ref, "&Foo { a }"));
    let some = pat(
        PatKind::TupleStruct { segments: 1, pats: vec![pat(PatKind::Ref { mutable: false, pat: Box::new(foo()) }, "&Foo { a }")] },
        "Some(&Foo { a })",
    );
    assert!(is_short_pattern(&some, "Some(&Foo { a })"));
    let ref_pair = pat(PatKind::Ref { mutable: false, pat: Box::new(pat(PatKind::Tuple(vec![wild(), wild()]), "(_, _)")) }, "&(_, _)");
    assert!(!is_short_pattern(&ref_pair, "&(_, _)"));
    let ref_one = pat(PatKind::Ref { mutable: false, pat: Box::new(pat(PatKind::Tuple(vec![wild()]), "(_,)")) }, "&(_,)");
    assert!(is_short_pattern(&ref_one, "&(_,)"));
}
