use hir_ids::contents::resolve_expansion;
use hir_ids::database::Database;
use hir_ids::dump::dump_of;
use hir_ids::expand::{
    macro_def_query, parse_macro, resolve_definition, DefinitionAnswer, DefinitionStep,
    ExpandAnswer, ExpandStep, ExpansionError, TOKEN_LIMIT,
};
use hir_ids::location::{
    AstId, FileAstId, FileId, HirFileId, MacroCallId, MacroCallLoc, MacroDefId,
};
use hir_ids::text::{join, to_decimal};
use ra_syntax::ast::ModuleItemOwner;
use ra_syntax::File;

fn node(file: u32, position: u32) -> AstId {
    AstId { file_id: HirFileId::from(FileId(file)), file_ast_id: FileAstId(position) }
}

fn call() -> MacroCallLoc {
    MacroCallLoc { def: MacroDefId(node(1, 2)), ast_id: node(3, 4) }
}

fn words(parts: &[&str]) -> Vec<String> {
    parts.iter().map(|part| part.to_string()).collect()
}

fn expand(argument: bool, definition: bool, expansion: Result<usize, String>) -> ExpandStep {
    ExpandStep::Argument(call())
        .advance(ExpandAnswer::Argument(argument))
        .advance(ExpandAnswer::Definition(definition))
        .advance(ExpandAnswer::Expansion(expansion))
}

#[test]
fn the_limit_is_65536_tokens() {
    assert_eq!(TOKEN_LIMIT, 65536);
}

#[test]
fn expansion_begins_with_the_argument_of_the_call() {
    let mut db = Database::new();
    let other = MacroCallLoc { def: MacroDefId(node(0, 0)), ast_id: node(0, 1) };
    other.id(&mut db);
    let id = call().id(&mut db);
    assert_eq!(id, MacroCallId(1));
    assert_eq!(parse_macro(&db, id), ExpandStep::Argument(call()));
    assert_eq!(parse_macro(&db, MacroCallId(0)), ExpandStep::Argument(other));
}

#[test]
fn expansion_asks_for_the_definition_that_the_call_names() {
    let step = ExpandStep::Argument(call()).advance(ExpandAnswer::Argument(true));
    assert_eq!(step, ExpandStep::Definition(MacroDefId(node(1, 2))));
    let step = step.advance(ExpandAnswer::Definition(true));
    assert_eq!(step, ExpandStep::Expansion);
}

#[test]
fn a_call_without_argument_has_no_expansion() {
    let step = ExpandStep::Argument(call()).advance(ExpandAnswer::Argument(false));
    assert_eq!(step, ExpandStep::Done(Err(ExpansionError::MissingArgument)));
    assert_eq!(expand(false, true, Ok(1)), ExpandStep::Done(Err(ExpansionError::MissingArgument)));
}

#[test]
fn a_call_without_definition_has_no_expansion() {
    assert_eq!(
        expand(true, false, Ok(1)),
        ExpandStep::Done(Err(ExpansionError::MissingDefinition))
    );
}

#[test]
fn a_mismatch_carries_what_the_engine_said() {
    assert_eq!(
        expand(true, true, Err("NoMatchingRule".to_string())),
        ExpandStep::Done(Err(ExpansionError::ExpansionMismatch("NoMatchingRule".to_string())))
    );
}

#[test]
fn output_up_to_the_limit_is_accepted() {
    assert_eq!(expand(true, true, Ok(0)), ExpandStep::Done(Ok(())));
    assert_eq!(expand(true, true, Ok(1)), ExpandStep::Done(Ok(())));
    assert_eq!(expand(true, true, Ok(65535)), ExpandStep::Done(Ok(())));
    assert_eq!(expand(true, true, Ok(65536)), ExpandStep::Done(Ok(())));
}

#[test]
fn output_over_the_limit_is_refused() {
    assert_eq!(
        expand(true, true, Ok(65537)),
        ExpandStep::Done(Err(ExpansionError::TokenLimitExceeded(65537)))
    );
    assert_eq!(
        expand(true, true, Ok(usize::MAX)),
        ExpandStep::Done(Err(ExpansionError::TokenLimitExceeded(usize::MAX)))
    );
}

#[test]
fn answers_to_questions_not_asked_are_ignored() {
    let start = ExpandStep::Argument(call());
    assert_eq!(start.advance(ExpandAnswer::Definition(false)), ExpandStep::Argument(call()));
    let start = ExpandStep::Argument(call());
    assert_eq!(start.advance(ExpandAnswer::Expansion(Ok(3))), ExpandStep::Argument(call()));
    let definition = ExpandStep::Definition(MacroDefId(node(1, 2)));
    assert_eq!(
        definition.advance(ExpandAnswer::Argument(false)),
        ExpandStep::Definition(MacroDefId(node(1, 2)))
    );
    assert_eq!(ExpandStep::Expansion.advance(ExpandAnswer::Argument(true)), ExpandStep::Expansion);
    assert_eq!(
        ExpandStep::Expansion.advance(ExpandAnswer::Definition(false)),
        ExpandStep::Expansion
    );
}

#[test]
fn a_finished_expansion_stays_finished() {
    let done = ExpandStep::Done(Ok(()));
    assert_eq!(done.advance(ExpandAnswer::Argument(false)), ExpandStep::Done(Ok(())));
    let failed = ExpandStep::Done(Err(ExpansionError::MissingDefinition));
    assert_eq!(
        failed.advance(ExpandAnswer::Expansion(Ok(1))),
        ExpandStep::Done(Err(ExpansionError::MissingDefinition))
    );
}

#[test]
fn a_definition_is_resolved_in_three_stages() {
    let def = MacroDefId(node(1, 2));
    let step = macro_def_query(def);
    assert_eq!(step, DefinitionStep::TokenTree(def));
    let step = step.advance(DefinitionAnswer::TokenTree(true));
    assert_eq!(step, DefinitionStep::Conversion);
    let step = step.advance(DefinitionAnswer::Conversion(true));
    assert_eq!(step, DefinitionStep::Rules);
    let step = step.advance(DefinitionAnswer::Rules(true));
    assert_eq!(step, DefinitionStep::Done(Ok(())));
}

#[test]
fn a_definition_fails_at_the_first_stage_that_fails() {
    let def = MacroDefId(node(1, 2));
    assert_eq!(
        macro_def_query(def).advance(DefinitionAnswer::TokenTree(false)),
        DefinitionStep::Done(Err(ExpansionError::MissingArgument))
    );
    assert_eq!(
        DefinitionStep::Conversion.advance(DefinitionAnswer::Conversion(false)),
        DefinitionStep::Done(Err(ExpansionError::MissingArgument))
    );
    assert_eq!(
        DefinitionStep::Rules.advance(DefinitionAnswer::Rules(false)),
        DefinitionStep::Done(Err(ExpansionError::MalformedDefinition))
    );
}

#[test]
fn a_definition_ignores_answers_out_of_turn() {
    let def = MacroDefId(node(1, 2));
    assert_eq!(
        macro_def_query(def).advance(DefinitionAnswer::Rules(true)),
        DefinitionStep::TokenTree(def)
    );
    assert_eq!(
        DefinitionStep::Conversion.advance(DefinitionAnswer::TokenTree(false)),
        DefinitionStep::Conversion
    );
    assert_eq!(
        DefinitionStep::Rules.advance(DefinitionAnswer::Conversion(false)),
        DefinitionStep::Rules
    );
    assert_eq!(
        DefinitionStep::Done(Ok(())).advance(DefinitionAnswer::Rules(false)),
        DefinitionStep::Done(Ok(()))
    );
}

#[test]
fn every_failure_has_its_message() {
    assert_eq!(ExpansionError::MissingArgument.message(), "Fail to args in to tt::TokenTree");
    assert_eq!(ExpansionError::MissingDefinition.message(), "Fail to find macro definition");
    assert_eq!(ExpansionError::MalformedDefinition.message(), "Fail to parse macro definition");
    assert_eq!(ExpansionError::ExpansionMismatch("UnexpectedToken".to_string()).message(), "UnexpectedToken");
    assert_eq!(ExpansionError::ExpansionMismatch(String::new()).message(), "");
    assert_eq!(
        ExpansionError::TokenLimitExceeded(65537).message(),
        "Total tokens count exceed limit : count = 65537"
    );
    assert_eq!(
        ExpansionError::TokenLimitExceeded(70000).message(),
        "Total tokens count exceed limit : count = 70000"
    );
}

#[test]
fn numbers_are_written_in_base_ten() {
    assert_eq!(to_decimal(0), "0");
    assert_eq!(to_decimal(7), "7");
    assert_eq!(to_decimal(9), "9");
    assert_eq!(to_decimal(10), "10");
    assert_eq!(to_decimal(99), "99");
    assert_eq!(to_decimal(100), "100");
    assert_eq!(to_decimal(65536), "65536");
    assert_eq!(to_decimal(1234567890), "1234567890");
    assert_eq!(to_decimal(usize::MAX), usize::MAX.to_string());
}

#[test]
fn parts_are_joined_by_single_spaces() {
    assert_eq!(join(&words(&[])), "");
    assert_eq!(join(&words(&["one"])), "one");
    assert_eq!(join(&words(&["one", "two"])), "one two");
    assert_eq!(join(&words(&["id", "!", "(", ")"])), "id ! ( )");
    assert_eq!(join(&words(&["", ""])), " ");
    assert_eq!(join(&words(&["a", " ", "b"])), "a   b");
}

#[test]
fn a_call_is_described_by_file_text_and_rules() {
    let text = words(&["id", "!", "(", "fn", " ", "f", "(", ")", " ", "{", "}", ")"]);
    assert_eq!(
        MacroCallId::debug_dump("src/lib.rs", &text, true),
        "macro call [file: \"src/lib.rs\"] : id ! ( fn   f ( )   { } )\nhas rules: true"
    );
    assert_eq!(
        MacroCallId::debug_dump("src/lib.rs", &words(&["m", "!"]), false),
        "macro call [file: \"src/lib.rs\"] : m !\nhas rules: false"
    );
}

#[test]
fn the_path_of_a_call_is_shown_quoted() {
    assert_eq!(
        MacroCallId::debug_dump("a \"b\"\\c.rs", &words(&[]), false),
        "macro call [file: \"a \\\"b\\\"\\\\c.rs\"] : \nhas rules: false"
    );
    assert_eq!(
        MacroCallId::debug_dump("", &words(&["x"]), true),
        "macro call [file: \"\"] : x\nhas rules: true"
    );
}

#[test]
fn a_successful_expansion_is_passed_on_as_it_is() {
    let tree = File::parse("fn f() {}");
    let contents = resolve_expansion(Ok(tree.clone()));
    assert_eq!(contents.file, tree);
    assert_eq!(contents.warning, None);
    assert_eq!(contents.file.syntax().text().to_string(), "fn f() {}");
    assert_eq!(contents.file.ast().items().count(), 1);
}

#[test]
fn a_failed_expansion_becomes_an_empty_file_and_a_warning() {
    let dump = MacroCallId::debug_dump("src/main.rs", &words(&["id", "!"]), true);
    let contents = resolve_expansion(Err((ExpansionError::MissingArgument, dump)));
    assert_eq!(contents.file.syntax().text().to_string(), "");
    assert_eq!(contents.file.ast().items().count(), 0);
    assert!(contents.file.errors().is_empty());
    assert_eq!(
        contents.warning,
        Some(
            "fail on macro_parse: (reason: Fail to args in to tt::TokenTree) \
             macro call [file: \"src/main.rs\"] : id !\nhas rules: true"
                .to_string()
        )
    );
}

#[test]
fn a_call_without_argument_resolves_to_nothing_with_a_warning() {
    let dump = MacroCallId::debug_dump("lib.rs", &words(&["m", "!"]), false);
    let outcome = match expand(false, false, Err(String::new())) {
        ExpandStep::Done(Ok(())) => Ok(File::parse("struct S;")),
        ExpandStep::Done(Err(err)) => Err((err, dump.clone())),
        step => panic!("expansion stopped at {:?}", step),
    };
    let contents = resolve_expansion(outcome);
    assert_eq!(contents.file.ast().items().count(), 0);
    assert_eq!(contents.file.syntax().text().to_string(), "");
    let warning = contents.warning.expect("a failed expansion is reported");
    assert!(warning.contains(&dump));
    assert!(warning.ends_with(&dump));
}

#[test]
fn too_large_an_expansion_leaves_nothing_behind() {
    let outcome = match expand(true, true, Ok(65537)) {
        ExpandStep::Done(Ok(())) => Ok(File::parse("fn huge() {}")),
        ExpandStep::Done(Err(err)) => Err((err, "dump".to_string())),
        step => panic!("expansion stopped at {:?}", step),
    };
    let contents = resolve_expansion(outcome);
    assert_eq!(contents.file.syntax().text().to_string(), "");
    assert_eq!(contents.file.ast().items().count(), 0);
    assert_eq!(
        contents.warning,
        Some(
            "fail on macro_parse: (reason: Total tokens count exceed limit : count = 65537) dump"
                .to_string()
        )
    );
}

#[test]
fn every_failure_is_reported_with_its_reason() {
    let reasons = vec![
        (ExpansionError::MissingArgument, "Fail to args in to tt::TokenTree"),
        (ExpansionError::MissingDefinition, "Fail to find macro definition"),
        (ExpansionError::MalformedDefinition, "Fail to parse macro definition"),
        (ExpansionError::ExpansionMismatch("NoMatchingRule".to_string()), "NoMatchingRule"),
        (
            ExpansionError::TokenLimitExceeded(100000),
            "Total tokens count exceed limit : count = 100000",
        ),
    ];
    for (err, reason) in reasons {
        let contents = resolve_expansion(Err((err, "the call".to_string())));
        assert_eq!(contents.file.syntax().text().to_string(), "");
        assert_eq!(
            contents.warning,
            Some(format!("fail on macro_parse: (reason: {}) the call", reason))
        );
    }
}

fn resolve(token_tree: bool, conversion: bool, rules: bool, shown: &str) -> Option<String> {
    let step = macro_def_query(MacroDefId(node(1, 2)))
        .advance(DefinitionAnswer::TokenTree(token_tree))
        .advance(DefinitionAnswer::Conversion(conversion))
        .advance(DefinitionAnswer::Rules(rules));
    match step {
        DefinitionStep::Done(outcome) => resolve_definition(outcome, shown.to_string()),
        step => panic!("resolution stopped at {:?}", step),
    }
}

#[test]
fn a_definition_with_rules_is_not_warned_of() {
    assert_eq!(resolve_definition(Ok(()), "MACRO_CALL@[0; 20)".to_string()), None);
    assert_eq!(resolve(true, true, true, "anything"), None);
}

#[test]
fn a_definition_without_token_tree_is_warned_of() {
    assert_eq!(
        resolve(false, true, true, "MACRO_CALL@[0; 12)"),
        Some("fail on macro_def to token tree: MACRO_CALL@[0; 12)".to_string())
    );
    assert_eq!(
        resolve_definition(Err(ExpansionError::MissingArgument), String::new()),
        Some("fail on macro_def to token tree: ".to_string())
    );
}

#[test]
fn a_token_tree_that_does_not_convert_is_warned_of_once() {
    assert_eq!(
        resolve(true, false, true, "TokenTree { .. }"),
        Some("fail on macro_def to token tree: TokenTree { .. }".to_string())
    );
    assert_eq!(
        resolve(true, false, false, "TokenTree { .. }"),
        Some("fail on macro_def to token tree: TokenTree { .. }".to_string())
    );
}

#[test]
fn a_token_tree_that_is_no_rule_set_is_warned_of_once() {
    assert_eq!(
        resolve(true, true, false, "Subtree {\n    delimiter: Brace,\n}"),
        Some("fail on macro_def parse: Subtree {\n    delimiter: Brace,\n}".to_string())
    );
    assert_eq!(
        resolve_definition(Err(ExpansionError::MalformedDefinition), "tt".to_string()),
        Some("fail on macro_def parse: tt".to_string())
    );
}

#[test]
fn a_failure_from_elsewhere_is_warned_of_with_its_reason() {
    assert_eq!(
        resolve_definition(Err(ExpansionError::MissingDefinition), "node".to_string()),
        Some("fail on macro_def: (reason: Fail to find macro definition) node".to_string())
    );
    assert_eq!(
        resolve_definition(Err(ExpansionError::TokenLimitExceeded(65537)), "x".to_string()),
        Some(
            "fail on macro_def: (reason: Total tokens count exceed limit : count = 65537) x"
                .to_string()
        )
    );
    assert_eq!(
        resolve_definition(
            Err(ExpansionError::ExpansionMismatch("NoMatchingRule".to_string())),
            "x".to_string()
        ),
        Some("fail on macro_def: (reason: NoMatchingRule) x".to_string())
    );
}

#[test]
fn a_description_is_put_together_from_its_parts() {
    assert_eq!(
        dump_of("\"lib.rs\"", &words(&["m", "!", "{", "}"]), true),
        "macro call [file: \"lib.rs\"] : m ! { }\nhas rules: true"
    );
    assert_eq!(dump_of("", &words(&[]), false), "macro call [file: ] : \nhas rules: false");
    assert_eq!(
        dump_of("<no file>", &words(&["a"]), false),
        "macro call [file: <no file>] : a\nhas rules: false"
    );
    assert_eq!(
        MacroCallId::debug_dump("lib.rs", &words(&["m", "!", "{", "}"]), true),
        dump_of("\"lib.rs\"", &words(&["m", "!", "{", "}"]), true)
    );
}
