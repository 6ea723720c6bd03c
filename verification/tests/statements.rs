use systemjs_transpiler::ast;
use systemjs_transpiler::ast::AssignmentTarget;
use systemjs_transpiler::ast::AssignmentTargetProperty;
use systemjs_transpiler::ast::BindingPattern;
use systemjs_transpiler::ast::ClassDeclaration;
use systemjs_transpiler::ast::Declaration;
use systemjs_transpiler::ast::ExportDefaultDeclarationKind;
use systemjs_transpiler::ast::ExportSpecifier;
use systemjs_transpiler::ast::FunctionDeclaration;
use systemjs_transpiler::ast::ModuleExportName;
use systemjs_transpiler::ast::NodeId;
use systemjs_transpiler::ast::NodeKind;
use systemjs_transpiler::ast::ParsedAssignment;
use systemjs_transpiler::ast::ParsedExpression;
use systemjs_transpiler::ast::ParsedItem;
use systemjs_transpiler::ast::ScopeFlags;
use systemjs_transpiler::ast::VariableDeclaration;
use systemjs_transpiler::ast::VariableDeclarationKind;
use systemjs_transpiler::ast::VariableDeclarator;
use systemjs_transpiler::convert::Conversion;
use systemjs_transpiler::js::Expression;
use systemjs_transpiler::js::Property;
use systemjs_transpiler::js::Statement;
use systemjs_transpiler::js::Target;
use systemjs_transpiler::visit::StatementRewrite;
use systemjs_transpiler::SystemJsTranspiler;
use systemjs_transpiler::SystemJsTranspilerOptions;
use systemjs_transpiler::TranspileError;

const TOP: ScopeFlags = ScopeFlags { bits: 2 };
const BLOCK: ScopeFlags = ScopeFlags { bits: 0 };
const FUNCTION: ScopeFlags = ScopeFlags { bits: 4 };

/// A pass that stands at a statement of the program body.
fn at_top() -> SystemJsTranspiler {
    let mut t = SystemJsTranspiler::new(SystemJsTranspilerOptions::default());
    t.enter_scope(TOP);
    t.enter_node(NodeKind::Program);
    t
}

/// A pass that stands at a statement inside a block of the program body.
fn in_block() -> SystemJsTranspiler {
    let mut t = at_top();
    t.enter_node(NodeKind::Other);
    t.enter_scope(BLOCK);
    t
}

/// A pass that stands at a statement inside a function.
fn in_function() -> SystemJsTranspiler {
    let mut t = at_top();
    t.enter_node(NodeKind::Other);
    t.enter_scope(FUNCTION);
    t
}

fn id(name: &str) -> BindingPattern {
    BindingPattern::Identifier(name.to_string())
}

fn ident(name: &str) -> Expression {
    Expression::Identifier(name.to_string())
}

fn variable(kind: VariableDeclarationKind, declarators: Vec<(BindingPattern, Option<u32>)>) -> Declaration {
    Declaration::Variable(VariableDeclaration {
        kind,
        declarations: declarators
            .into_iter()
            .map(|(id, init)| VariableDeclarator { id, init: init.map(NodeId) })
            .collect(),
    })
}

fn function(name: Option<&str>, node: u32) -> FunctionDeclaration {
    FunctionDeclaration { id: name.map(str::to_string), node: NodeId(node) }
}

fn class(name: Option<&str>, node: u32) -> ClassDeclaration {
    ClassDeclaration { id: name.map(str::to_string), node: NodeId(node) }
}

fn parsed_simple(name: &str, node: u32) -> ParsedAssignment {
    ParsedAssignment { target: AssignmentTarget::Simple(Some(name.to_string())), node: NodeId(node) }
}

fn reattached(target: u32, value: Expression) -> Expression {
    Expression::Assignment { target: Target::Kept(NodeId(target)), value: Box::new(value) }
}

fn kept(node: u32) -> Expression {
    Expression::Kept(NodeId(node))
}

fn publish(name: &str, value: Expression) -> Expression {
    Expression::Call {
        callee: Box::new(ident("_exports")),
        arguments: vec![Expression::StringLiteral(name.to_string()), value],
    }
}

fn publish_binding(name: &str) -> Expression {
    publish(name, ident(name))
}

fn buffered(key: &str, value: Expression) -> Property {
    Property { key: key.to_string(), value }
}

fn replaced(expression: Expression) -> Result<StatementRewrite, TranspileError> {
    Ok(StatementRewrite::Replaced(Statement::Expression(expression)))
}

fn erased() -> Result<StatementRewrite, TranspileError> {
    Ok(StatementRewrite::Replaced(Statement::Empty))
}

fn export(declaration: Declaration) -> ast::Statement {
    ast::Statement::ExportNamed { declaration: Some(declaration), specifiers: vec![] }
}

fn name(text: &str) -> ModuleExportName {
    ModuleExportName::Identifier(text.to_string())
}

#[test]
fn top_level_var_becomes_assignments_and_is_hoisted() {
    // var a = 1, b, c = 2;   read back: a = void 0, b, c = void 0
    let mut t = at_top();
    let statement = ast::Statement::Declaration(variable(VariableDeclarationKind::Var, vec![
        (id("a"), Some(10)),
        (id("b"), None),
        (id("c"), Some(11)),
    ]));
    assert!(t.needs_reparse(&statement));
    let parsed = ParsedExpression::Sequence(vec![
        ParsedItem::Assignment(parsed_simple("a", 20)),
        ParsedItem::Other,
        ParsedItem::Assignment(parsed_simple("c", 21)),
    ]);
    assert_eq!(
        t.visit_statement(&statement, Some(&parsed)),
        replaced(Expression::Sequence(vec![reattached(20, kept(10)), reattached(21, kept(11))]))
    );
    assert_eq!(t.top_level_vars, vec!["a", "b", "c"]);
    assert!(t.export_tree.is_empty());
}

#[test]
fn declaration_without_initializer_becomes_an_empty_sequence() {
    let mut t = at_top();
    let statement = ast::Statement::Declaration(variable(VariableDeclarationKind::Var, vec![(id("a"), None)]));
    let parsed = ParsedExpression::Other;
    assert_eq!(t.visit_statement(&statement, Some(&parsed)), replaced(Expression::Sequence(vec![])));
    assert_eq!(t.top_level_vars, vec!["a"]);
}

#[test]
fn single_assignment_is_wrapped_in_a_sequence() {
    let mut t = at_top();
    let statement = ast::Statement::Declaration(variable(VariableDeclarationKind::Let, vec![(id("a"), Some(1))]));
    let parsed = ParsedExpression::Assignment(parsed_simple("a", 2));
    assert_eq!(
        t.visit_statement(&statement, Some(&parsed)),
        replaced(Expression::Sequence(vec![reattached(2, kept(1))]))
    );
}

#[test]
fn assignment_without_an_initializer_keeps_the_placeholder() {
    // fewer initializers than assignments that were read back
    let t = at_top();
    let declaration = VariableDeclaration {
        kind: VariableDeclarationKind::Var,
        declarations: vec![VariableDeclarator { id: id("a"), init: Some(NodeId(1)) }],
    };
    let parsed = ParsedExpression::Sequence(vec![
        ParsedItem::Assignment(parsed_simple("a", 2)),
        ParsedItem::Assignment(parsed_simple("b", 3)),
    ]);
    assert_eq!(t.hacked_var_decl_to_assignment(&declaration, &parsed), vec![
        reattached(2, kept(1)),
        reattached(3, Expression::Undefined),
    ]);
}

#[test]
fn surplus_initializers_are_dropped() {
    let t = at_top();
    let declaration = VariableDeclaration {
        kind: VariableDeclarationKind::Var,
        declarations: vec![
            VariableDeclarator { id: id("a"), init: Some(NodeId(1)) },
            VariableDeclarator { id: id("b"), init: Some(NodeId(2)) },
        ],
    };
    let parsed = ParsedExpression::Assignment(parsed_simple("a", 3));
    assert_eq!(t.hacked_var_decl_to_assignment(&declaration, &parsed), vec![reattached(3, kept(1))]);
}

#[test]
fn let_in_a_block_is_left_alone_but_var_is_hoisted() {
    let mut t = in_block();
    let lexical = ast::Statement::Declaration(variable(VariableDeclarationKind::Let, vec![(id("a"), Some(1))]));
    assert!(!t.needs_reparse(&lexical));
    assert_eq!(t.visit_statement(&lexical, None), Ok(StatementRewrite::Unchanged));
    let constant = ast::Statement::Declaration(variable(VariableDeclarationKind::Const, vec![(id("k"), Some(1))]));
    assert_eq!(t.visit_statement(&constant, None), Ok(StatementRewrite::Unchanged));
    assert!(t.top_level_vars.is_empty());

    let var = ast::Statement::Declaration(variable(VariableDeclarationKind::Var, vec![(id("b"), Some(2))]));
    assert!(t.needs_reparse(&var));
    let parsed = ParsedExpression::Assignment(parsed_simple("b", 3));
    assert_eq!(
        t.visit_statement(&var, Some(&parsed)),
        replaced(Expression::Sequence(vec![reattached(3, kept(2))]))
    );
    assert_eq!(t.top_level_vars, vec!["b"]);
}

#[test]
fn declarations_inside_a_function_are_left_alone() {
    let mut t = in_function();
    let var = ast::Statement::Declaration(variable(VariableDeclarationKind::Var, vec![(id("a"), Some(1))]));
    assert!(!t.needs_reparse(&var));
    assert_eq!(t.visit_statement(&var, None), Ok(StatementRewrite::Unchanged));
    let inner = ast::Statement::Declaration(Declaration::Function(function(Some("f"), 1)));
    assert_eq!(t.visit_statement(&inner, None), Ok(StatementRewrite::Unchanged));
    let inner_class = ast::Statement::Declaration(Declaration::Class(class(Some("C"), 1)));
    assert_eq!(t.visit_statement(&inner_class, None), Ok(StatementRewrite::Unchanged));
    assert!(t.top_level_vars.is_empty());
    assert!(t.top_level_function_decls.is_empty());
    assert!(t.top_level_classes.is_empty());
}

#[test]
fn hoistable_declaration_fails_without_what_was_read_back() {
    let mut t = at_top();
    let statement = ast::Statement::Declaration(variable(VariableDeclarationKind::Var, vec![(id("a"), Some(1))]));
    assert_eq!(t.visit_statement(&statement, None), Err(TranspileError::SubParseFailure));
    assert!(t.top_level_vars.is_empty());
    assert_eq!(t.visit_statement(&export(variable(VariableDeclarationKind::Var, vec![(id("a"), Some(1))])), None),
        Err(TranspileError::SubParseFailure));
}

#[test]
fn function_declaration_is_hoisted_and_leaves_nothing() {
    let mut t = in_block();
    let statement = ast::Statement::Declaration(Declaration::Function(function(Some("f"), 7)));
    assert!(!t.needs_reparse(&statement));
    assert_eq!(t.visit_statement(&statement, None), erased());
    assert_eq!(t.top_level_function_decls, vec![NodeId(7)]);
    assert!(t.top_level_vars.is_empty());
}

#[test]
fn class_declaration_becomes_an_assignment_and_its_name_is_hoisted() {
    let mut t = at_top();
    let statement = ast::Statement::Declaration(Declaration::Class(class(Some("C"), 7)));
    assert_eq!(
        t.visit_statement(&statement, None),
        replaced(Expression::Sequence(vec![Expression::Assignment {
            target: Target::Identifier("C".to_string()),
            value: Box::new(Expression::Class(NodeId(7))),
        }]))
    );
    assert_eq!(t.top_level_classes, vec!["C"]);
}

#[test]
fn hoisted_class_declaration_needs_its_name() {
    let statement = ast::Statement::Declaration(Declaration::Class(class(None, 7)));
    assert!(!at_top().has_required_names(&statement));
    assert!(!in_block().has_required_names(&statement));
    // where nothing is hoisted, the name is not asked for
    let mut inner = in_function();
    assert!(inner.has_required_names(&statement));
    assert_eq!(inner.visit_statement(&statement, None), Ok(StatementRewrite::Unchanged));
    let named = ast::Statement::Declaration(Declaration::Class(class(Some("C"), 7)));
    assert!(at_top().has_required_names(&named));
}

#[test]
fn convert_declaration_tells_hoisted_from_unchanged() {
    let mut t = at_top();
    assert_eq!(t.convert_declaration(&Declaration::Function(function(Some("f"), 1)), None), Ok(Conversion::Hoisted));
    assert_eq!(t.convert_declaration(&Declaration::Other, None), Ok(Conversion::Unchanged));
    let mut inner = in_function();
    assert_eq!(
        inner.convert_declaration(&Declaration::Function(function(Some("f"), 1)), None),
        Ok(Conversion::Unchanged)
    );
}

#[test]
fn import_and_export_all_statements_are_erased() {
    let mut t = at_top();
    assert_eq!(t.visit_statement(&ast::Statement::Import, None), erased());
    assert_eq!(t.visit_statement(&ast::Statement::ExportAll, None), erased());
    assert!(t.imports.is_empty());
}

#[test]
fn other_statements_stay() {
    let mut t = at_top();
    assert_eq!(t.visit_statement(&ast::Statement::Other, None), Ok(StatementRewrite::Unchanged));
    assert_eq!(
        t.visit_statement(&ast::Statement::Declaration(Declaration::Other), None),
        Ok(StatementRewrite::Unchanged)
    );
}

#[test]
fn exported_single_binding_is_published_with_its_assignment() {
    // export const a = 1;
    let mut t = at_top();
    let statement = export(variable(VariableDeclarationKind::Const, vec![(id("a"), Some(1))]));
    assert!(t.needs_reparse(&statement));
    let parsed = ParsedExpression::Assignment(parsed_simple("a", 2));
    assert_eq!(t.visit_statement(&statement, Some(&parsed)), replaced(publish("a", reattached(2, kept(1)))));
    assert_eq!(t.top_level_vars, vec!["a"]);
    assert!(t.export_tree.is_empty());
}

#[test]
fn exported_destructuring_publishes_each_leaf_after_one_assignment() {
    // export const {a, b} = obj;
    let mut t = at_top();
    let statement = export(variable(VariableDeclarationKind::Const, vec![(
        BindingPattern::Object { properties: vec![id("a"), id("b")], rest: None },
        Some(1),
    )]));
    let parsed = ParsedExpression::Assignment(ParsedAssignment {
        target: AssignmentTarget::Object {
            properties: vec![
                AssignmentTargetProperty::Identifier("a".to_string()),
                AssignmentTargetProperty::Identifier("b".to_string()),
            ],
            rest: None,
        },
        node: NodeId(2),
    });
    assert_eq!(
        t.visit_statement(&statement, Some(&parsed)),
        replaced(Expression::Sequence(vec![
            reattached(2, kept(1)),
            publish_binding("a"),
            publish_binding("b"),
        ]))
    );
    assert_eq!(t.top_level_vars, vec!["a", "b"]);
}

#[test]
fn exported_declarators_are_published_after_all_assignments() {
    // export let a = 1, b = 2;
    let mut t = at_top();
    let statement = export(variable(VariableDeclarationKind::Let, vec![(id("a"), Some(1)), (id("b"), Some(2))]));
    let parsed = ParsedExpression::Sequence(vec![
        ParsedItem::Assignment(parsed_simple("a", 3)),
        ParsedItem::Assignment(parsed_simple("b", 4)),
    ]);
    assert_eq!(
        t.visit_statement(&statement, Some(&parsed)),
        replaced(Expression::Sequence(vec![
            reattached(3, kept(1)),
            reattached(4, kept(2)),
            publish_binding("a"),
            publish_binding("b"),
        ]))
    );
    assert_eq!(t.top_level_vars, vec!["a", "b"]);
}

#[test]
fn exported_declaration_without_initializer_is_not_covered() {
    // export let a;
    let mut t = at_top();
    let statement = export(variable(VariableDeclarationKind::Let, vec![(id("a"), None)]));
    assert_eq!(t.visit_statement(&statement, Some(&ParsedExpression::Other)), Err(TranspileError::UnsupportedShape));
    assert_eq!(
        t.visit_statement(&statement, Some(&ParsedExpression::Sequence(vec![ParsedItem::Other]))),
        Err(TranspileError::UnsupportedShape)
    );
    assert!(t.top_level_vars.is_empty());
}

#[test]
fn exported_binding_is_published_under_its_declared_name() {
    // the name comes from the declaration, not from what was read back
    let mut t = at_top();
    let statement = export(variable(VariableDeclarationKind::Var, vec![(id("a"), Some(1))]));
    let parsed = ParsedExpression::Assignment(ParsedAssignment {
        target: AssignmentTarget::Simple(None),
        node: NodeId(2),
    });
    assert_eq!(t.visit_statement(&statement, Some(&parsed)), replaced(publish("a", reattached(2, kept(1)))));
    assert_eq!(t.top_level_vars, vec!["a"]);
}

#[test]
fn exported_names_without_initializer_are_published_too() {
    // export var a = 1, b;
    let mut t = at_top();
    let statement = export(variable(VariableDeclarationKind::Var, vec![(id("a"), Some(1)), (id("b"), None)]));
    let parsed = ParsedExpression::Sequence(vec![
        ParsedItem::Assignment(parsed_simple("a", 2)),
        ParsedItem::Other,
    ]);
    assert_eq!(
        t.visit_statement(&statement, Some(&parsed)),
        replaced(Expression::Sequence(vec![
            reattached(2, kept(1)),
            publish_binding("a"),
            publish_binding("b"),
        ]))
    );
    assert_eq!(t.top_level_vars, vec!["a", "b"]);
}

#[test]
fn exported_names_without_any_assignment_are_published() {
    // export let a, b;
    let mut t = at_top();
    let statement = export(variable(VariableDeclarationKind::Let, vec![(id("a"), None), (id("b"), None)]));
    let parsed = ParsedExpression::Sequence(vec![ParsedItem::Other, ParsedItem::Other]);
    assert_eq!(
        t.visit_statement(&statement, Some(&parsed)),
        replaced(Expression::Sequence(vec![publish_binding("a"), publish_binding("b")]))
    );
}

#[test]
fn exported_destructuring_of_one_name_publishes_it_after_the_assignment() {
    // export const [x = 1] = list;
    let mut t = at_top();
    let statement = export(variable(VariableDeclarationKind::Const, vec![(
        BindingPattern::Array {
            elements: vec![Some(BindingPattern::Assignment(Box::new(id("x"))))],
            rest: None,
        },
        Some(1),
    )]));
    let parsed = ParsedExpression::Assignment(ParsedAssignment {
        target: AssignmentTarget::Array {
            elements: vec![Some(systemjs_transpiler::ast::AssignmentTargetMaybeDefault::WithDefault(
                AssignmentTarget::Simple(Some("x".to_string())),
            ))],
            rest: None,
        },
        node: NodeId(2),
    });
    assert_eq!(
        t.visit_statement(&statement, Some(&parsed)),
        replaced(Expression::Sequence(vec![reattached(2, kept(1)), publish_binding("x")]))
    );
    assert_eq!(t.top_level_vars, vec!["x"]);
}

#[test]
fn exported_destructuring_without_names_is_only_evaluated() {
    // export const {} = obj;
    let mut t = at_top();
    let statement = export(variable(VariableDeclarationKind::Const, vec![(BindingPattern::Object { properties: vec![], rest: None }, Some(1))]));
    let parsed = ParsedExpression::Assignment(ParsedAssignment {
        target: AssignmentTarget::Object { properties: vec![], rest: None },
        node: NodeId(2),
    });
    assert_eq!(
        t.visit_statement(&statement, Some(&parsed)),
        replaced(Expression::Sequence(vec![reattached(2, kept(1))]))
    );
    assert!(t.top_level_vars.is_empty());
}

#[test]
fn exported_function_is_hoisted_and_buffered() {
    let mut t = at_top();
    let statement = export(Declaration::Function(function(Some("f"), 5)));
    assert_eq!(t.visit_statement(&statement, None), erased());
    assert_eq!(t.top_level_function_decls, vec![NodeId(5)]);
    assert_eq!(t.export_tree, vec![buffered("f", ident("f"))]);
}

#[test]
fn exported_class_is_buffered_as_undefined_and_published_on_assignment() {
    let mut t = at_top();
    let statement = export(Declaration::Class(class(Some("C"), 5)));
    assert_eq!(
        t.visit_statement(&statement, None),
        replaced(publish("C", Expression::Assignment {
            target: Target::Identifier("C".to_string()),
            value: Box::new(Expression::Class(NodeId(5))),
        }))
    );
    assert_eq!(t.top_level_classes, vec!["C"]);
    assert_eq!(t.export_tree, vec![buffered("C", Expression::Undefined)]);
}

#[test]
fn exported_declarations_need_their_names() {
    let t = at_top();
    assert!(!t.has_required_names(&export(Declaration::Function(function(None, 1)))));
    assert!(!t.has_required_names(&export(Declaration::Class(class(None, 1)))));
    assert!(!in_function().has_required_names(&export(Declaration::Function(function(None, 1)))));
    assert!(t.has_required_names(&export(Declaration::Function(function(Some("f"), 1)))));
    assert!(t.has_required_names(&export(Declaration::Class(class(Some("C"), 1)))));
    assert!(t.has_required_names(&export(Declaration::Other)));
    assert!(t.has_required_names(&export(variable(VariableDeclarationKind::Let, vec![(id("a"), None)]))));
}

#[test]
fn statements_without_declarations_need_no_names() {
    let t = at_top();
    assert!(t.has_required_names(&ast::Statement::Other));
    assert!(t.has_required_names(&ast::Statement::Import));
    assert!(t.has_required_names(&ast::Statement::ExportAll));
    assert!(t.has_required_names(&ast::Statement::ExportNamed { declaration: None, specifiers: vec![] }));
    // a function declaration is hoisted as a whole: its name is not read
    assert!(t.has_required_names(&ast::Statement::Declaration(Declaration::Function(function(None, 1)))));
}

#[test]
fn exported_declaration_of_other_kind_is_not_covered() {
    let mut t = at_top();
    assert_eq!(t.visit_statement(&export(Declaration::Other), None), Err(TranspileError::UnsupportedShape));
    assert!(t.export_tree.is_empty());
    assert!(t.top_level_function_decls.is_empty());
}

#[test]
fn exported_declaration_at_a_position_without_hoisting_is_not_covered() {
    let mut t = in_function();
    assert_eq!(
        t.visit_statement(&export(Declaration::Function(function(Some("f"), 1))), None),
        Err(TranspileError::UnsupportedShape)
    );
    assert_eq!(
        t.visit_statement(&export(variable(VariableDeclarationKind::Var, vec![(id("a"), Some(1))])), None),
        Err(TranspileError::UnsupportedShape)
    );
}

#[test]
fn export_specifiers_are_buffered_under_identifier_names_only() {
    // export { a, b as c, d as "not an identifier", "s" as e }
    let mut t = at_top();
    let statement = ast::Statement::ExportNamed {
        declaration: None,
        specifiers: vec![
            ExportSpecifier { local: name("a"), exported: name("a") },
            ExportSpecifier { local: name("b"), exported: name("c") },
            ExportSpecifier {
                local: name("d"),
                exported: ModuleExportName::StringLiteral("not an identifier".to_string()),
            },
            ExportSpecifier { local: ModuleExportName::StringLiteral("s".to_string()), exported: name("e") },
        ],
    };
    assert!(!t.needs_reparse(&statement));
    assert_eq!(t.visit_statement(&statement, None), erased());
    assert_eq!(t.export_tree, vec![
        buffered("a", ident("a")),
        buffered("c", ident("b")),
        buffered("e", ident("\"s\"")),
    ]);
}

#[test]
fn string_export_name_is_never_an_identifier_name() {
    let mut t = at_top();
    let statement = ast::Statement::ExportNamed {
        declaration: None,
        specifiers: vec![ExportSpecifier {
            local: name("a"),
            exported: ModuleExportName::StringLiteral("b".to_string()),
        }],
    };
    assert_eq!(t.visit_statement(&statement, None), erased());
    assert!(t.export_tree.is_empty());
}

#[test]
fn default_export_of_an_expression_is_published_in_place() {
    // export default 42
    let mut t = at_top();
    let statement = ast::Statement::ExportDefault(ExportDefaultDeclarationKind::Expression(NodeId(42)));
    assert_eq!(t.visit_statement(&statement, None), replaced(publish("default", kept(42))));
    assert!(t.export_tree.is_empty());
    assert!(t.top_level_function_decls.is_empty());
}

#[test]
fn default_export_of_a_function_is_hoisted_and_buffered() {
    // export default function named() {}
    let mut t = at_top();
    let statement = ast::Statement::ExportDefault(ExportDefaultDeclarationKind::Function(function(Some("named"), 3)));
    assert_eq!(t.visit_statement(&statement, None), erased());
    assert_eq!(t.top_level_function_decls, vec![NodeId(3)]);
    assert_eq!(t.export_tree, vec![buffered("default", ident("named"))]);
}

#[test]
fn default_export_of_a_class_is_assigned_in_place() {
    let mut t = at_top();
    let statement = ast::Statement::ExportDefault(ExportDefaultDeclarationKind::Class(class(Some("C"), 3)));
    assert_eq!(
        t.visit_statement(&statement, None),
        replaced(Expression::Assignment {
            target: Target::Identifier("C".to_string()),
            value: Box::new(Expression::Class(NodeId(3))),
        })
    );
    assert_eq!(t.top_level_classes, vec!["C"]);
    assert_eq!(t.export_tree, vec![buffered("default", Expression::Undefined)]);
}

#[test]
fn anonymous_default_exports_lack_a_required_name() {
    let t = at_top();
    let anonymous_function =
        ast::Statement::ExportDefault(ExportDefaultDeclarationKind::Function(function(None, 1)));
    let anonymous_class = ast::Statement::ExportDefault(ExportDefaultDeclarationKind::Class(class(None, 1)));
    assert!(!t.has_required_names(&anonymous_function));
    assert!(!t.has_required_names(&anonymous_class));
    assert!(!in_function().has_required_names(&anonymous_class));
    assert!(t.has_required_names(&ast::Statement::ExportDefault(ExportDefaultDeclarationKind::Function(
        function(Some("named"), 1)
    ))));
    assert!(t.has_required_names(&ast::Statement::ExportDefault(ExportDefaultDeclarationKind::Class(class(
        Some("C"),
        1
    )))));
    assert!(t.has_required_names(&ast::Statement::ExportDefault(ExportDefaultDeclarationKind::Expression(NodeId(1)))));
    assert!(t.has_required_names(&ast::Statement::ExportDefault(ExportDefaultDeclarationKind::Other)));
}

#[test]
fn default_export_of_other_kind_is_not_covered() {
    let mut t = at_top();
    assert_eq!(
        t.visit_statement(&ast::Statement::ExportDefault(ExportDefaultDeclarationKind::Other), None),
        Err(TranspileError::UnsupportedShape)
    );
    assert!(t.export_tree.is_empty());
    assert!(t.top_level_function_decls.is_empty());
    assert!(t.top_level_classes.is_empty());
}

#[test]
fn rest_element_is_hoisted_and_published() {
    // export const [a, ...r] = list;
    let mut t = at_top();
    let statement = export(variable(VariableDeclarationKind::Const, vec![(
        BindingPattern::Array { elements: vec![Some(id("a"))], rest: Some(Box::new(id("r"))) },
        Some(1),
    )]));
    let parsed = ParsedExpression::Assignment(ParsedAssignment {
        target: AssignmentTarget::Array {
            elements: vec![Some(systemjs_transpiler::ast::AssignmentTargetMaybeDefault::Target(
                AssignmentTarget::Simple(Some("a".to_string())),
            ))],
            rest: Some(Box::new(AssignmentTarget::Simple(Some("r".to_string())))),
        },
        node: NodeId(2),
    });
    assert_eq!(
        t.visit_statement(&statement, Some(&parsed)),
        replaced(Expression::Sequence(vec![
            reattached(2, kept(1)),
            publish_binding("a"),
            publish_binding("r"),
        ]))
    );
    assert_eq!(t.top_level_vars, vec!["a", "r"]);
}
