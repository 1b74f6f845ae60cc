use devnet_observer::lsp::hover_data::{
    code, define_documentation, fence, find_documentation, get_expression_documentation,
    get_expression_name_at_position, keyword_documentation, native_documentation, ApiEntry,
    ExpressionKind, Reference, Span, SymbolicExpression,
};

fn span(start_line: u32, start_column: u32, end_line: u32, end_column: u32) -> Span {
    Span { start_line, start_column, end_line, end_column }
}

fn atom(name: &str, line: u32, start: u32, end: u32) -> SymbolicExpression {
    SymbolicExpression { span: span(line, start, line, end), kind: ExpressionKind::Atom(name.to_string()) }
}

fn list(s: Span, children: Vec<SymbolicExpression>) -> SymbolicExpression {
    SymbolicExpression { span: s, kind: ExpressionKind::List(children) }
}

fn other(s: Span) -> SymbolicExpression {
    SymbolicExpression { span: s, kind: ExpressionKind::Other }
}

// (define-public (add (n uint))
//   (ok (+ n u1)))
fn contract() -> Vec<SymbolicExpression> {
    vec![list(
        span(1, 1, 2, 16),
        vec![
            atom("define-public", 1, 2, 14),
            list(span(1, 16, 1, 29), vec![atom("add", 1, 17, 19), other(span(1, 21, 1, 28))]),
            list(
                span(2, 3, 2, 15),
                vec![
                    atom("ok", 2, 4, 5),
                    list(span(2, 7, 2, 14), vec![atom("+", 2, 8, 8), atom("n", 2, 10, 10), other(span(2, 12, 2, 13))]),
                ],
            ),
        ],
    )]
}

fn reference() -> Reference {
    Reference {
        version: "Clarity1".to_string(),
        signature: "  (ok value)\n".to_string(),
        description: "Builds a response.".to_string(),
        example: "(ok 1)".to_string(),
    }
}

#[test]
fn source_is_trimmed_and_fenced() {
    assert_eq!(code("  (ok 1)\n\n"), "```clarity\n(ok 1)\n```");
    assert_eq!(code("\t\u{a0}x y\u{2003}"), "```clarity\nx y\n```");
    assert_eq!(code(""), "```clarity\n\n```");
    assert_eq!(fence(" x "), "```clarity\n x \n```");
}

#[test]
fn name_under_the_cursor_is_found() {
    let expressions = contract();
    let name = |line, column| get_expression_name_at_position(line, column, &expressions);
    assert_eq!(name(1, 2), Some("define-public".to_string()));
    assert_eq!(name(1, 14), Some("define-public".to_string()));
    assert_eq!(name(1, 17), Some("add".to_string()));
    assert_eq!(name(2, 4), Some("ok".to_string()));
    assert_eq!(name(2, 8), Some("+".to_string()));
    assert_eq!(name(2, 10), Some("n".to_string()));
}

#[test]
fn no_name_is_found_off_the_names() {
    let expressions = contract();
    let name = |line, column| get_expression_name_at_position(line, column, &expressions);
    assert_eq!(name(1, 15), None);
    assert_eq!(name(1, 22), None);
    assert_eq!(name(2, 12), None);
    assert_eq!(name(2, 16), None);
    assert_eq!(name(3, 1), None);
    assert_eq!(name(0, 1), None);
    assert_eq!(get_expression_name_at_position(1, 1, &vec![]), None);
}

#[test]
fn expression_over_several_lines_decides_alone() {
    let expressions = vec![other(span(1, 1, 3, 1)), atom("late", 2, 1, 4)];
    assert_eq!(get_expression_name_at_position(2, 2, &expressions), None);
    let expressions = vec![other(span(1, 1, 1, 9)), atom("late", 2, 1, 4)];
    assert_eq!(get_expression_name_at_position(2, 2, &expressions), Some("late".to_string()));
    let expressions = vec![other(span(2, 1, 2, 9)), atom("late", 2, 1, 4)];
    assert_eq!(get_expression_name_at_position(2, 2, &expressions), None);
    let expressions = vec![other(span(2, 5, 2, 9)), atom("late", 2, 1, 4)];
    assert_eq!(get_expression_name_at_position(2, 2, &expressions), Some("late".to_string()));
}

#[test]
fn documentation_blocks_are_laid_out_line_by_line() {
    assert_eq!(
        define_documentation(&reference()),
        "```clarity\n(ok value)\n```\n---\n**Description**\nBuilds a response.\n---\n**Example**\n```clarity\n(ok 1)\n```"
    );
    assert_eq!(
        native_documentation(&reference()),
        "```clarity\n(ok value)\n```\n---\n**Description**\nBuilds a response.\n---\n**Example**\n```clarity\n(ok 1)\n```\n---\n**Introduced in:** Clarity1"
    );
    assert_eq!(
        keyword_documentation(&reference()),
        "**Description**\nBuilds a response.\n---\n**Example**\n```clarity\n(ok 1)\n```\n**Introduced in:** Clarity1"
    );
}

#[test]
fn documentation_is_looked_up_by_version_and_name() {
    let entry = |version: &str, name: &str, documentation: &str| ApiEntry {
        version: version.to_string(),
        name: name.to_string(),
        documentation: documentation.to_string(),
    };
    let entries = vec![
        entry("Clarity1", "ok", "first"),
        entry("Clarity2", "ok", "second"),
        entry("Clarity1", "ok", "third"),
        entry("Clarity1", "+", "plus"),
    ];
    let find = |version: &str, name: &str| find_documentation(&entries, &version.to_string(), &name.to_string());
    assert_eq!(find("Clarity1", "ok"), Some("third".to_string()));
    assert_eq!(find("Clarity2", "ok"), Some("second".to_string()));
    assert_eq!(find("Clarity1", "+"), Some("plus".to_string()));
    assert_eq!(find("Clarity2", "+"), None);
    assert_eq!(find("Clarity1", "err"), None);

    let expressions = contract();
    let version = "Clarity1".to_string();
    assert_eq!(get_expression_documentation(2, 4, &version, &expressions, &entries), Some("third".to_string()));
    assert_eq!(get_expression_documentation(2, 10, &version, &expressions, &entries), None);
    assert_eq!(get_expression_documentation(3, 1, &version, &expressions, &entries), None);
}

#[test]
fn white_space_is_the_twenty_five_characters_of_the_property() {
    let white: Vec<u32> = (0x09..=0x0D)
        .chain([0x20, 0x85, 0xA0, 0x1680])
        .chain(0x2000..=0x200A)
        .chain([0x2028, 0x2029, 0x202F, 0x205F, 0x3000])
        .collect();
    assert_eq!(white.len(), 25);
    let mut trimmed_away: Vec<u32> = Vec::new();
    for c in (0..=0x10FFFFu32).filter_map(char::from_u32) {
        let fenced = code(&format!("{}x{}", c, c));
        if fenced == "```clarity\nx\n```" {
            trimmed_away.push(c as u32);
        } else {
            assert_eq!(fenced, format!("```clarity\n{}x{}\n```", c, c));
        }
    }
    assert_eq!(trimmed_away, white);
}

#[test]
fn white_space_inside_the_source_stays() {
    assert_eq!(code(" \n a \t b \r\n"), "```clarity\na \t b\n```");
    assert_eq!(code(" \u{3000}\n"), "```clarity\n\n```");
    assert_eq!(code("\u{200b}x"), "```clarity\n\u{200b}x\n```");
}
