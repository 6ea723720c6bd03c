//! The steps of the walk: what the pass does at each node that it decides
//! on, and the registration call that it assembles at the end.
use crate::ast::name_of;
use crate::ast::BodyStatement;
use crate::ast::BodyStatementKind;
use crate::ast::Declaration;
use crate::ast::ExportAllDeclaration;
use crate::ast::ExportDefaultDeclarationKind;
use crate::ast::ExportSpecifier;
use crate::ast::ExpressionKind;
use crate::ast::ImportDeclaration;
use crate::ast::ImportDeclarationSpecifier;
use crate::ast::ModuleExportName;
use crate::ast::ParsedExpression;
use crate::ast::VariableDeclaration;
use crate::convert::assignments_of;
use crate::convert::conversion_is_named;
use crate::convert::declaration_conversion;
use crate::convert::declared_variable_names;
use crate::convert::no_effects;
use crate::convert::parsed_assignments;
use crate::convert::variable_assignments;
use crate::convert::variable_converts;
use crate::convert::Conversion;
use crate::convert::ConversionView;
use crate::convert::Effects;
use crate::error::TranspileError;
use crate::js::array;
use crate::js::assign_identifier;
use crate::js::assign_named;
use crate::js::bare_declarator;
use crate::js::call;
use crate::js::call_identifier;
use crate::js::call_named;
use crate::js::declarators_view;
use crate::js::expression_statement;
use crate::js::expressions_view;
use crate::js::function;
use crate::js::identifier;
use crate::js::member;
use crate::js::member_of;
use crate::js::object;
use crate::js::properties_view;
use crate::js::property;
use crate::js::return_statement;
use crate::js::sequence;
use crate::js::statements_view;
use crate::js::string_literal;
use crate::js::strings_view;
use crate::js::var_statement;
use crate::js::Declarator;
use crate::js::Expression;
use crate::js::ExpressionView;
use crate::js::Property;
use crate::js::PropertyView;
use crate::js::Statement;
use crate::js::StatementView;
use crate::setters::exports_name;
use crate::setters::setters_of;
use crate::setters::single_expression;
use crate::setters::specifier_local;
use crate::symbols::append_names;
use crate::syntax::identifier_name;
use crate::syntax::is_identifier_name;
use crate::transpiler::ImportMap;
use crate::transpiler::SystemJsTranspiler;
use vstd::prelude::*;
use vstd::string::StringExecFns;

verus! {

/// What becomes of a statement.
#[derive(Debug, PartialEq, Eq)]
pub enum StatementRewrite {
    /// The statement stays as it is.
    Unchanged,
    /// The statement is replaced.
    Replaced(Statement),
}

impl View for StatementRewrite {
    type V = Option<StatementView>;

    open spec fn view(&self) -> Option<StatementView> {
        match self {
            StatementRewrite::Unchanged => None,
            StatementRewrite::Replaced(statement) => Some(statement@),
        }
    }
}

/// `_exports("name", value)`: publishes one binding.
pub open spec fn publish_call(name: Seq<char>, value: ExpressionView) -> ExpressionView {
    call_named(exports_name(), seq![ExpressionView::StringLiteral(name), value])
}

/// For each name, the call that publishes the binding of that name under
/// that name.
pub open spec fn publishes(names: Seq<Seq<char>>) -> Seq<ExpressionView> {
    Seq::new(names.len(), |i: int| publish_call(names[i], ExpressionView::Identifier(names[i])))
}

/// A `key: value` entry.
pub open spec fn entry(key: Seq<char>, value: ExpressionView) -> PropertyView {
    PropertyView { key, value }
}

/// A module export name as text: an identifier as it is, a string literal in
/// double quotes.
pub open spec fn export_name_text(name: ModuleExportName) -> Seq<char> {
    match name {
        ModuleExportName::Identifier(name) => name@,
        ModuleExportName::StringLiteral(value) => seq!['"'] + value@ + seq!['"'],
    }
}

/// The entry that an export specifier adds to the export buffer: the local
/// binding under the exported name, if that name is an identifier name.
pub open spec fn specifier_export(specifier: ExportSpecifier) -> Option<PropertyView> {
    if identifier_name(export_name_text(specifier.exported)) {
        Some(
            entry(
                export_name_text(specifier.exported),
                ExpressionView::Identifier(export_name_text(specifier.local)),
            ),
        )
    } else {
        None
    }
}

/// The entries that the specifiers of `export { ... }` add to the export
/// buffer, in source order.
pub open spec fn specifier_exports(specifiers: Seq<ExportSpecifier>) -> Seq<PropertyView> {
    specifiers.filter_map(|specifier: ExportSpecifier| specifier_export(specifier))
}

/// Whether the one assignment that was read back assigns to a plain target,
/// as opposed to an array or object destructuring target.
pub open spec fn sole_target_is_simple(parsed: ParsedExpression) -> bool {
    parsed_assignments(parsed).len() == 1 && parsed_assignments(parsed)[0].target is Simple
}

/// Whether the one assignment that was read back is a destructuring one.
pub open spec fn sole_target_is_destructuring(parsed: ParsedExpression) -> bool {
    parsed_assignments(parsed).len() == 1 && !(parsed_assignments(parsed)[0].target is Simple)
}

/// The statement that replaces an exported variable declaration, given what
/// the host read back from its text.
///
/// Where the declaration binds exactly one name and that by one assignment
/// to a plain target, the assignment becomes the value of the publish call
/// of the name. Where it binds several names, or consists of one
/// destructuring assignment, the assignments are followed by one publish
/// call per bound name, in one comma expression. Anything else is not
/// covered.
pub open spec fn exported_variable(
    variable: VariableDeclaration,
    parsed: ParsedExpression,
) -> Result<StatementView, TranspileError> {
    let names = declared_variable_names(variable);
    let items = variable_assignments(variable, parsed);
    if names.len() == 1 && sole_target_is_simple(parsed) {
        Ok(StatementView::Expression(publish_call(names[0], items[0])))
    } else if names.len() > 1 || sole_target_is_destructuring(parsed) {
        Ok(StatementView::Expression(ExpressionView::Sequence(items + publishes(names))))
    } else {
        Err(TranspileError::UnsupportedShape)
    }
}

/// The names that an exported declaration declares: those that a variable
/// declaration binds, or the name of a function or class.
pub open spec fn declared_names(declaration: Declaration) -> Seq<Seq<char>> {
    match declaration {
        Declaration::Variable(variable) => declared_variable_names(variable),
        Declaration::Function(function) => seq![name_of(function.id)],
        Declaration::Class(class) => seq![name_of(class.id)],
        Declaration::Other => Seq::empty(),
    }
}

/// Whether an exported declaration carries the name under which it is
/// exported: a function or a class has one.
pub open spec fn export_is_named(declaration: Declaration) -> bool {
    match declaration {
        Declaration::Function(function) => function.id is Some,
        Declaration::Class(class) => class.id is Some,
        _ => true,
    }
}

/// Whether what stands behind `export default` carries the name that the
/// pass binds it to: a function or a class has one.
pub open spec fn default_is_named(kind: ExportDefaultDeclarationKind) -> bool {
    match kind {
        ExportDefaultDeclarationKind::Function(function) => function.id is Some,
        ExportDefaultDeclarationKind::Class(class) => class.id is Some,
        _ => true,
    }
}

/// Whether a statement carries every name that the pass needs of it at the
/// position of `state`. A module that parses lacks none but that of an
/// anonymous `export default function () {}` or `export default class {}`.
pub open spec fn statement_is_named(state: SystemJsTranspiler, it: crate::ast::Statement) -> bool {
    match it {
        crate::ast::Statement::Declaration(declaration) => conversion_is_named(state, declaration),
        crate::ast::Statement::ExportNamed { declaration: Some(declaration), specifiers } => {
            export_is_named(declaration)
        },
        crate::ast::Statement::ExportDefault(kind) => default_is_named(kind),
        _ => true,
    }
}

/// What the pass makes of `export <declaration>` at the position of `state`.
///
/// A function is hoisted and entered in the export buffer under its name. A
/// class is entered in the buffer as `undefined` and replaced by the publish
/// call of its assignment. A variable declaration is replaced as
/// `exported_variable` says. A declaration that is not at a hoistable
/// position, or that only declares types, is not covered.
pub open spec fn exported_declaration(
    state: SystemJsTranspiler,
    declaration: Declaration,
    reparsed: Option<&ParsedExpression>,
) -> Result<(Effects, StatementView), TranspileError> {
    match declaration {
        Declaration::Function(function) => {
            let name = name_of(function.id);
            if state.valid_tla_scope() {
                Ok(
                    (
                        Effects {
                            functions: seq![function.node],
                            exports: seq![entry(name, ExpressionView::Identifier(name))],
                            ..no_effects()
                        },
                        StatementView::Empty,
                    ),
                )
            } else {
                Err(TranspileError::UnsupportedShape)
            }
        },
        Declaration::Class(class) => {
            let name = name_of(class.id);
            if state.valid_tla_scope() {
                Ok(
                    (
                        Effects {
                            classes: seq![name],
                            exports: seq![entry(name, ExpressionView::Undefined)],
                            ..no_effects()
                        },
                        StatementView::Expression(
                            publish_call(
                                name,
                                assign_named(name, ExpressionView::Class(class.node)),
                            ),
                        ),
                    ),
                )
            } else {
                Err(TranspileError::UnsupportedShape)
            }
        },
        Declaration::Variable(variable) => if variable_converts(state, variable.kind) {
            match reparsed {
                Some(parsed) => match exported_variable(variable, *parsed) {
                    Ok(statement) => Ok(
                        (
                            Effects { vars: declared_variable_names(variable), ..no_effects() },
                            statement,
                        ),
                    ),
                    Err(error) => Err(error),
                },
                None => Err(TranspileError::SubParseFailure),
            }
        } else {
            Err(TranspileError::UnsupportedShape)
        },
        Declaration::Other => Err(TranspileError::UnsupportedShape),
    }
}

/// What the pass makes of `export default ...`.
///
/// An expression is published on the spot. A function is hoisted, and the
/// export buffer gets `default` as the binding of its name. A class has its
/// name hoisted, the buffer gets `default` as `undefined`, and the statement
/// becomes the assignment of the class expression to the name.
pub open spec fn default_export(
    kind: ExportDefaultDeclarationKind,
) -> Result<(Effects, StatementView), TranspileError> {
    match kind {
        ExportDefaultDeclarationKind::Expression(node) => Ok(
            (
                no_effects(),
                StatementView::Expression(publish_call("default"@, ExpressionView::Kept(node))),
            ),
        ),
        ExportDefaultDeclarationKind::Function(function) => {
            let name = name_of(function.id);
            Ok(
                (
                    Effects {
                        functions: seq![function.node],
                        exports: seq![entry("default"@, ExpressionView::Identifier(name))],
                        ..no_effects()
                    },
                    StatementView::Empty,
                ),
            )
        },
        ExportDefaultDeclarationKind::Class(class) => {
            let name = name_of(class.id);
            Ok(
                (
                    Effects {
                        classes: seq![name],
                        exports: seq![entry("default"@, ExpressionView::Undefined)],
                        ..no_effects()
                    },
                    StatementView::Expression(
                        assign_named(name, ExpressionView::Class(class.node)),
                    ),
                ),
            )
        },
        ExportDefaultDeclarationKind::Other => Err(TranspileError::UnsupportedShape),
    }
}

/// What the pass makes of a statement at the position of `state`: what it
/// adds to the hoist sets and the export buffer, and the statement that
/// replaces it (`None`: it stays), or the failure.
pub open spec fn statement_outcome(
    state: SystemJsTranspiler,
    it: crate::ast::Statement,
    reparsed: Option<&ParsedExpression>,
) -> Result<(Effects, Option<StatementView>), TranspileError> {
    match it {
        crate::ast::Statement::Declaration(declaration) => match declaration_conversion(
            state,
            declaration,
            reparsed,
        ) {
            Ok((effects, conversion)) => Ok(
                (
                    effects,
                    match conversion {
                        ConversionView::Unchanged => None,
                        ConversionView::Hoisted => Some(StatementView::Empty),
                        ConversionView::Replaced(items) => Some(
                            StatementView::Expression(ExpressionView::Sequence(items)),
                        ),
                    },
                ),
            ),
            Err(error) => Err(error),
        },
        crate::ast::Statement::Import => Ok((no_effects(), Some(StatementView::Empty))),
        crate::ast::Statement::ExportAll => Ok((no_effects(), Some(StatementView::Empty))),
        crate::ast::Statement::ExportNamed { declaration: Some(declaration), specifiers } => {
            match exported_declaration(state, declaration, reparsed) {
                Ok((effects, statement)) => Ok((effects, Some(statement))),
                Err(error) => Err(error),
            }
        },
        crate::ast::Statement::ExportNamed { declaration: None, specifiers } => Ok(
            (
                Effects { exports: specifier_exports(specifiers@), ..no_effects() },
                Some(StatementView::Empty),
            ),
        ),
        crate::ast::Statement::ExportDefault(kind) => match default_export(kind) {
            Ok((effects, statement)) => Ok((effects, Some(statement))),
            Err(error) => Err(error),
        },
        crate::ast::Statement::Other => Ok((no_effects(), None)),
    }
}

/// Whether the host has to print a statement and read it back before the
/// pass can visit it: the statement holds a variable declaration that is
/// converted at the position of `state`.
pub open spec fn statement_reparses(state: SystemJsTranspiler, it: crate::ast::Statement) -> bool {
    match it {
        crate::ast::Statement::Declaration(Declaration::Variable(variable)) => variable_converts(
            state,
            variable.kind,
        ),
        crate::ast::Statement::ExportNamed {
            declaration: Some(Declaration::Variable(variable)),
            specifiers,
        } => variable_converts(state, variable.kind),
        _ => false,
    }
}

/// The local bindings that the specifiers of an import introduce, in order.
pub open spec fn import_locals(specifiers: Option<Vec<ImportDeclarationSpecifier>>) -> Seq<
    Seq<char>,
> {
    match specifiers {
        Some(specifiers) => Seq::new(specifiers.len() as nat, |i: int| specifier_local(specifiers[i])),
        None => Seq::empty(),
    }
}

/// The names of the single `var` statement of the factory: imported
/// bindings, then classes, then variables.
pub open spec fn hoisted_names(state: SystemJsTranspiler) -> Seq<Seq<char>> {
    strings_view(state.imported_symbols@) + strings_view(state.top_level_classes@) + strings_view(
        state.top_level_vars@,
    )
}

/// `var a, b, c;` over the given names.
pub open spec fn hoisted_declaration(names: Seq<Seq<char>>) -> StatementView {
    StatementView::Var(Seq::new(names.len(), |i: int| bare_declarator(names[i])))
}

/// The hoisted function declarations, in the order in which they were met.
pub open spec fn hoisted_functions(state: SystemJsTranspiler) -> Seq<StatementView> {
    Seq::new(
        state.top_level_function_decls@.len(),
        |i: int| StatementView::Function(state.top_level_function_decls@[i]),
    )
}

/// The bulk publish call `_exports({ ... })` over the export buffer; nothing
/// when the buffer is empty.
pub open spec fn bulk_publish(state: SystemJsTranspiler) -> Seq<StatementView> {
    if state.export_tree@.len() > 0 {
        seq![
            StatementView::Expression(
                call_named(
                    exports_name(),
                    seq![ExpressionView::Object(properties_view(state.export_tree@))],
                ),
            ),
        ]
    } else {
        Seq::empty()
    }
}

/// The statement of the output that a body statement becomes: none for an
/// empty statement, and the statement itself for every other.
pub open spec fn kept_statement(statement: BodyStatement) -> Option<StatementView> {
    match statement.kind {
        BodyStatementKind::Empty => None,
        BodyStatementKind::Other => Some(StatementView::Kept(statement.node)),
    }
}

/// The body of `execute`: the statements of the program after the walk, in
/// their order, without the empty statements.
pub open spec fn execute_body(body: Seq<BodyStatement>) -> Seq<StatementView> {
    body.filter_map(|statement: BodyStatement| kept_statement(statement))
}

/// The array of module specifiers.
pub open spec fn dependencies(state: SystemJsTranspiler) -> Seq<ExpressionView> {
    Seq::new(state.importee@.len(), |i: int| ExpressionView::StringLiteral(state.importee@[i]@))
}

/// `{ setters: [...], execute: function () { ... } }`
pub open spec fn registration_record(
    state: SystemJsTranspiler,
    body: Seq<BodyStatement>,
) -> ExpressionView {
    ExpressionView::Object(
        seq![
            entry("setters"@, ExpressionView::Array(setters_of(state.imports@))),
            entry(
                "execute"@,
                ExpressionView::Function {
                    parameters: Seq::empty(),
                    strict: false,
                    body: execute_body(body),
                },
            ),
        ],
    )
}

/// The statements of the factory: the `var` statement of all hoisted names,
/// the hoisted functions, the bulk publish call if anything is buffered, and
/// the `return` of the registration record.
pub open spec fn factory_body(state: SystemJsTranspiler, body: Seq<BodyStatement>) -> Seq<
    StatementView,
> {
    seq![hoisted_declaration(hoisted_names(state))] + hoisted_functions(state) + bulk_publish(
        state,
    ) + seq![StatementView::Return(registration_record(state, body))]
}

/// The factory: a strict function of the publish entry point.
pub open spec fn factory(state: SystemJsTranspiler, body: Seq<BodyStatement>) -> ExpressionView {
    ExpressionView::Function {
        parameters: seq![exports_name()],
        strict: true,
        body: factory_body(state, body),
    }
}

/// `System.register([dependencies], factory);`
pub open spec fn registration(state: SystemJsTranspiler, body: Seq<BodyStatement>) -> StatementView {
    StatementView::Expression(
        ExpressionView::Call {
            callee: Box::new(member_of(ExpressionView::Identifier("System"@), "register"@)),
            arguments: seq![ExpressionView::Array(dependencies(state)), factory(state, body)],
        },
    )
}

/// `_exports("name", value)`
pub fn publish(name: &str, value: Expression) -> (r: Expression)
    ensures
        r@ == publish_call(name@, value@),
{
    let mut arguments: Vec<Expression> = Vec::new();
    arguments.push(string_literal(name));
    arguments.push(value);
    assert(expressions_view(arguments@) =~= seq![ExpressionView::StringLiteral(name@), value@]);
    call_identifier("_exports", arguments)
}

/// For each name, `_exports("name", name)`.
pub fn publish_all(names: &Vec<String>) -> (calls: Vec<Expression>)
    ensures
        expressions_view(calls@) == publishes(strings_view(names@)),
{
    let mut calls: Vec<Expression> = Vec::new();
    let mut i: usize = 0;
    while i < names.len()
        invariant
            i <= names.len(),
            expressions_view(calls@) == publishes(strings_view(names@)).take(i as int),
        decreases names.len() - i,
    {
        let item = publish(names[i].as_str(), identifier(names[i].as_str()));
        let ghost before = calls@;
        calls.push(item);
        assert(expressions_view(calls@) =~= expressions_view(before).push(item@));
        assert(publishes(strings_view(names@)).take(i + 1) =~= publishes(
            strings_view(names@),
        ).take(i as int).push(item@));
        i += 1;
    }
    assert(publishes(strings_view(names@)).take(i as int) =~= publishes(strings_view(names@)));
    calls
}

/// Appends `more` to `items`.
pub fn append_expressions(items: &mut Vec<Expression>, more: Vec<Expression>)
    ensures
        expressions_view(final(items)@) == expressions_view(old(items)@) + expressions_view(more@),
{
    let mut more = more;
    let ghost before = items@;
    let ghost added = more@;
    items.append(&mut more);
    assert(expressions_view(items@) =~= expressions_view(before) + expressions_view(added));
}

/// A module export name as text.
pub fn export_name_string(name: &ModuleExportName) -> (text: String)
    ensures
        text@ == export_name_text(*name),
{
    match name {
        ModuleExportName::Identifier(name) => name.clone(),
        ModuleExportName::StringLiteral(value) => {
            let mut text = "\"".to_owned();
            proof {
                reveal_strlit("\"");
            }
            text.append(value.as_str());
            text.append("\"");
            assert(text@ =~= export_name_text(*name));
            text
        },
    }
}

/// Adds a `var` binding without an initial value for each name.
fn push_declarators(declarators: &mut Vec<Declarator>, names: &Vec<String>)
    ensures
        declarators_view(final(declarators)@) == declarators_view(old(declarators)@) + Seq::new(
            names@.len(),
            |i: int| bare_declarator(names@[i]@),
        ),
{
    let ghost start = declarators_view(declarators@);
    let ghost added = Seq::new(names@.len(), |i: int| bare_declarator(names@[i]@));
    let mut i: usize = 0;
    assert(start + added.take(0) =~= start);
    while i < names.len()
        invariant
            i <= names.len(),
            added == Seq::new(names@.len(), |i: int| bare_declarator(names@[i]@)),
            declarators_view(declarators@) == start + added.take(i as int),
        decreases names.len() - i,
    {
        let declarator = Declarator { name: names[i].clone(), init: None };
        assert(declarator@ == bare_declarator(names@[i as int]@));
        let ghost before = declarators@;
        declarators.push(declarator);
        assert(declarators_view(declarators@) =~= declarators_view(before).push(declarator@));
        assert(added.take(i + 1) =~= added.take(i as int).push(added[i as int]));
        i += 1;
    }
    assert(added.take(i as int) =~= added);
}

/// The statements of the program body that go into `execute`.
fn kept_statements(body: &Vec<BodyStatement>) -> (kept: Vec<Statement>)
    ensures
        statements_view(kept@) == execute_body(body@),
{
    let ghost keep = |statement: BodyStatement| kept_statement(statement);
    let mut kept: Vec<Statement> = Vec::new();
    let mut i: usize = 0;
    assert(statements_view(kept@) =~= body@.take(0).filter_map(keep));
    while i < body.len()
        invariant
            i <= body.len(),
            keep == |statement: BodyStatement| kept_statement(statement),
            statements_view(kept@) == body@.take(i as int).filter_map(keep),
        decreases body.len() - i,
    {
        proof {
            body@.lemma_filter_map_take_succ(keep, i as int);
        }
        match body[i].kind {
            BodyStatementKind::Other => {
                let statement = Statement::Kept(body[i].node);
                assert(statement@ == StatementView::Kept(body[i as int].node));
                let ghost before = kept@;
                kept.push(statement);
                assert(statements_view(kept@) =~= statements_view(before).push(statement@));
            },
            BodyStatementKind::Empty => {},
        }
        i += 1;
    }
    assert(body@.take(i as int) =~= body@);
    kept
}

impl SystemJsTranspiler {
    /// Adds one entry to the export buffer.
    fn buffer_export(&mut self, key: &str, value: Expression)
        ensures
            final(self).extends(
                *old(self),
                Effects { exports: seq![entry(key@, value@)], ..no_effects() },
            ),
    {
        proof {
            self.lemma_extends_self();
        }
        let ghost before = self.export_tree@;
        let item = property(key, value);
        self.export_tree.push(item);
        assert(properties_view(self.export_tree@) =~= properties_view(before) + seq![
            entry(key@, value@),
        ]);
    }

    /// Whether the statement carries every name that `visit_statement` needs
    /// of it at the current position.
    pub fn has_required_names(&self, it: &crate::ast::Statement) -> (r: bool)
        ensures
            r == statement_is_named(*self, *it),
    {
        match it {
            crate::ast::Statement::Declaration(Declaration::Class(class)) => {
                !self.is_valid_tla_scope() || class.id.is_some()
            },
            crate::ast::Statement::ExportNamed { declaration: Some(declaration), specifiers: _ } => {
                match declaration {
                    Declaration::Function(function) => function.id.is_some(),
                    Declaration::Class(class) => class.id.is_some(),
                    _ => true,
                }
            },
            crate::ast::Statement::ExportDefault(kind) => match kind {
                ExportDefaultDeclarationKind::Function(function) => function.id.is_some(),
                ExportDefaultDeclarationKind::Class(class) => class.id.is_some(),
                _ => true,
            },
            _ => true,
        }
    }

    /// Whether the host has to print the statement and read it back before
    /// `visit_statement`.
    pub fn needs_reparse(&self, it: &crate::ast::Statement) -> (r: bool)
        ensures
            r == statement_reparses(*self, *it),
    {
        match it {
            crate::ast::Statement::Declaration(Declaration::Variable(variable)) => {
                self.converts_variable(variable)
            },
            crate::ast::Statement::ExportNamed {
                declaration: Some(Declaration::Variable(variable)),
                specifiers: _,
            } => self.converts_variable(variable),
            _ => false,
        }
    }

    /// Whether a variable declaration is converted at the current position.
    fn converts_variable(&self, variable: &VariableDeclaration) -> (r: bool)
        ensures
            r == variable_converts(*self, variable.kind),
    {
        let is_var = match variable.kind {
            crate::ast::VariableDeclarationKind::Var => true,
            _ => false,
        };
        (self.is_valid_tla_scope() && is_var) || self.is_strict_top_level()
    }

    /// The names that an exported declaration declares: those that a variable
    /// declaration binds, or the name of a function or class. The declaration
    /// is one of these three, and a function or class carries its name.
    pub fn extract_declared_names(&self, it: &Declaration) -> (names: Vec<String>)
        requires
            !(*it is Other),
            export_is_named(*it),
        ensures
            strings_view(names@) == declared_names(*it),
    {
        match it {
            Declaration::Variable(variable) => self.declared_variable_symbols(variable),
            Declaration::Function(function) => crate::symbols::single_name(
                function.id.as_ref().unwrap(),
            ),
            Declaration::Class(class) => crate::symbols::single_name(class.id.as_ref().unwrap()),
            Declaration::Other => Vec::new(),
        }
    }

    /// Replaces an exported variable declaration, and hoists its names.
    fn export_variable(
        &mut self,
        variable: &VariableDeclaration,
        parsed: &ParsedExpression,
        names: Vec<String>,
    ) -> (r: Result<Statement, TranspileError>)
        requires
            strings_view(names@) == declared_variable_names(*variable),
        ensures
            match exported_variable(*variable, *parsed) {
                Ok(statement) => {
                    &&& r matches Ok(replaced)
                    &&& replaced@ == statement
                    &&& final(self).extends(
                        *old(self),
                        Effects { vars: declared_variable_names(*variable), ..no_effects() },
                    )
                },
                Err(error) => r == Err::<Statement, TranspileError>(error) && *final(self) == *old(
                    self,
                ),
            },
    {
        proof {
            self.lemma_extends_self();
        }
        let targets = assignments_of(parsed);
        let simple = targets.len() == 1 && match &targets[0].target {
            crate::ast::AssignmentTarget::Simple(_) => true,
            _ => false,
        };
        let destructuring = targets.len() == 1 && !simple;
        if !(names.len() == 1 && simple) && !(names.len() > 1 || destructuring) {
            return Err(TranspileError::UnsupportedShape);
        }
        let mut items = self.hacked_var_decl_to_assignment(variable, parsed);
        let replaced = if names.len() == 1 && simple {
            let only = items.remove(0);
            expression_statement(publish(names[0].as_str(), only))
        } else {
            append_expressions(&mut items, publish_all(&names));
            expression_statement(sequence(items))
        };
        append_names(&mut self.top_level_vars, names);
        Ok(replaced)
    }

    /// Rewrites `export <declaration>`.
    fn export_declaration(
        &mut self,
        declaration: &Declaration,
        reparsed: Option<&ParsedExpression>,
    ) -> (r: Result<Statement, TranspileError>)
        requires
            export_is_named(*declaration),
        ensures
            match exported_declaration(*old(self), *declaration, reparsed) {
                Ok((effects, statement)) => {
                    &&& r matches Ok(replaced)
                    &&& replaced@ == statement
                    &&& final(self).extends(*old(self), effects)
                },
                Err(error) => r == Err::<Statement, TranspileError>(error) && *final(self) == *old(
                    self,
                ),
            },
    {
        let hoistable = self.is_valid_tla_scope();
        match declaration {
            Declaration::Function(function) => {
                let name = function.id.as_ref().unwrap();
                if hoistable {
                    self.buffer_export(name.as_str(), identifier(name.as_str()));
                    let ghost before = self.top_level_function_decls@;
                    self.top_level_function_decls.push(function.node);
                    assert(self.top_level_function_decls@ =~= before + seq![function.node]);
                    Ok(Statement::Empty)
                } else {
                    Err(TranspileError::UnsupportedShape)
                }
            },
            Declaration::Class(class) => {
                let name = class.id.as_ref().unwrap();
                if hoistable {
                    self.buffer_export(name.as_str(), Expression::Undefined);
                    let ghost before = self.top_level_classes@;
                    self.top_level_classes.push(name.clone());
                    assert(strings_view(self.top_level_classes@) =~= strings_view(before)
                        + seq![name@]);
                    let value = Expression::Class(class.node);
                    assert(value@ == ExpressionView::Class(class.node));
                    let assign = assign_identifier(name.as_str(), value);
                    Ok(expression_statement(publish(name.as_str(), assign)))
                } else {
                    Err(TranspileError::UnsupportedShape)
                }
            },
            Declaration::Variable(variable) => {
                if self.converts_variable(variable) {
                    match reparsed {
                        Some(parsed) => {
                            let names = self.extract_declared_names(declaration);
                            self.export_variable(variable, parsed, names)
                        },
                        None => Err(TranspileError::SubParseFailure),
                    }
                } else {
                    Err(TranspileError::UnsupportedShape)
                }
            },
            Declaration::Other => Err(TranspileError::UnsupportedShape),
        }
    }

    /// Enters the specifiers of `export { ... }` in the export buffer.
    fn export_specifiers(&mut self, specifiers: &Vec<ExportSpecifier>)
        ensures
            final(self).extends(
                *old(self),
                Effects { exports: specifier_exports(specifiers@), ..no_effects() },
            ),
    {
        proof {
            self.lemma_extends_self();
        }
        let ghost kept = |specifier: ExportSpecifier| specifier_export(specifier);
        let ghost start = properties_view(self.export_tree@);
        let mut i: usize = 0;
        assert(start + specifiers@.take(0).filter_map(kept) =~= start);
        while i < specifiers.len()
            invariant
                i <= specifiers.len(),
                kept == |specifier: ExportSpecifier| specifier_export(specifier),
                start == properties_view(old(self).export_tree@),
                self.options == old(self).options,
                self.scope_stack == old(self).scope_stack,
                self.path_stack == old(self).path_stack,
                self.imported_symbols == old(self).imported_symbols,
                self.imports == old(self).imports,
                self.importee == old(self).importee,
                self.top_level_vars == old(self).top_level_vars,
                self.top_level_function_decls == old(self).top_level_function_decls,
                self.top_level_classes == old(self).top_level_classes,
                properties_view(self.export_tree@) == start + specifiers@.take(i as int).filter_map(
                    kept,
                ),
            decreases specifiers.len() - i,
        {
            proof {
                specifiers@.lemma_filter_map_take_succ(kept, i as int);
            }
            let local = export_name_string(&specifiers[i].local);
            let exported = export_name_string(&specifiers[i].exported);
            if is_identifier_name(exported.as_str()) {
                let ghost before = self.export_tree@;
                let item = property(exported.as_str(), identifier(local.as_str()));
                self.export_tree.push(item);
                assert(properties_view(self.export_tree@) =~= properties_view(before).push(item@));
            }
            i += 1;
        }
        assert(specifiers@.take(i as int) =~= specifiers@);
        assert(strings_view(self.top_level_vars@) + Seq::<Seq<char>>::empty() =~= strings_view(
            self.top_level_vars@,
        ));
        assert(self.top_level_function_decls@ + Seq::<crate::ast::NodeId>::empty()
            =~= self.top_level_function_decls@);
        assert(strings_view(self.top_level_classes@) + Seq::<Seq<char>>::empty() =~= strings_view(
            self.top_level_classes@,
        ));
    }

    /// Rewrites `export default ...`.
    fn export_default(
        &mut self,
        kind: &ExportDefaultDeclarationKind,
    ) -> (r: Result<Statement, TranspileError>)
        requires
            default_is_named(*kind),
        ensures
            match default_export(*kind) {
                Ok((effects, statement)) => {
                    &&& r matches Ok(replaced)
                    &&& replaced@ == statement
                    &&& final(self).extends(*old(self), effects)
                },
                Err(error) => r == Err::<Statement, TranspileError>(error) && *final(self) == *old(
                    self,
                ),
            },
    {
        proof {
            self.lemma_extends_self();
        }
        match kind {
            ExportDefaultDeclarationKind::Expression(node) => {
                let value = Expression::Kept(*node);
                assert(value@ == ExpressionView::Kept(*node));
                Ok(expression_statement(publish("default", value)))
            },
            ExportDefaultDeclarationKind::Function(function) => {
                let name = function.id.as_ref().unwrap();
                self.buffer_export("default", identifier(name.as_str()));
                let ghost before = self.top_level_function_decls@;
                self.top_level_function_decls.push(function.node);
                assert(self.top_level_function_decls@ =~= before + seq![function.node]);
                Ok(Statement::Empty)
            },
            ExportDefaultDeclarationKind::Class(class) => {
                let name = class.id.as_ref().unwrap();
                let ghost before = self.top_level_classes@;
                self.top_level_classes.push(name.clone());
                assert(strings_view(self.top_level_classes@) =~= strings_view(before) + seq![
                    name@,
                ]);
                self.buffer_export("default", Expression::Undefined);
                let value = Expression::Class(class.node);
                assert(value@ == ExpressionView::Class(class.node));
                Ok(expression_statement(assign_identifier(name.as_str(), value)))
            },
            ExportDefaultDeclarationKind::Other => Err(TranspileError::UnsupportedShape),
        }
    }

    /// Visits a statement after the walk has been through its children.
    ///
    /// `reparsed` is what the host read back from the printed declaration
    /// where `needs_reparse` asks for it, and `None` where reading back
    /// failed; elsewhere it is not looked at. The result tells what replaces
    /// the statement; the hoist sets and the export buffer grow as
    /// `statement_outcome` says. On failure the state is as before.
    ///
    /// The statement must carry the names that the pass needs of it
    /// (`has_required_names` tells): a statement without them does not come
    /// from a well-formed module, or is an anonymous default export, which
    /// the pass does not take.
    pub fn visit_statement(
        &mut self,
        it: &crate::ast::Statement,
        reparsed: Option<&ParsedExpression>,
    ) -> (r: Result<StatementRewrite, TranspileError>)
        requires
            statement_is_named(*old(self), *it),
        ensures
            match statement_outcome(*old(self), *it, reparsed) {
                Ok((effects, rewrite)) => {
                    &&& r matches Ok(rewritten)
                    &&& rewritten@ == rewrite
                    &&& final(self).extends(*old(self), effects)
                },
                Err(error) => r == Err::<StatementRewrite, TranspileError>(error) && *final(self)
                    == *old(self),
            },
            old(self).wf() ==> final(self).wf(),
    {
        proof {
            self.lemma_extends_self();
        }
        match it {
            crate::ast::Statement::Declaration(declaration) => {
                match self.convert_declaration(declaration, reparsed) {
                    Ok(Conversion::Unchanged) => Ok(StatementRewrite::Unchanged),
                    Ok(Conversion::Hoisted) => Ok(StatementRewrite::Replaced(Statement::Empty)),
                    Ok(Conversion::Replaced(items)) => Ok(
                        StatementRewrite::Replaced(expression_statement(sequence(items))),
                    ),
                    Err(error) => Err(error),
                }
            },
            crate::ast::Statement::Import => Ok(StatementRewrite::Replaced(Statement::Empty)),
            crate::ast::Statement::ExportAll => Ok(StatementRewrite::Replaced(Statement::Empty)),
            crate::ast::Statement::ExportNamed { declaration, specifiers } => match declaration {
                Some(declaration) => match self.export_declaration(declaration, reparsed) {
                    Ok(replaced) => Ok(StatementRewrite::Replaced(replaced)),
                    Err(error) => Err(error),
                },
                None => {
                    self.export_specifiers(specifiers);
                    Ok(StatementRewrite::Replaced(Statement::Empty))
                },
            },
            crate::ast::Statement::ExportDefault(kind) => match self.export_default(kind) {
                Ok(replaced) => Ok(StatementRewrite::Replaced(replaced)),
                Err(error) => Err(error),
            },
            crate::ast::Statement::Other => Ok(StatementRewrite::Unchanged),
        }
    }

    /// Visits an import declaration: the module becomes the next dependency,
    /// and the local bindings of the specifiers are hoisted with the imported
    /// symbols.
    pub fn visit_import_declaration(&mut self, it: ImportDeclaration)
        ensures
            final(self).records(
                *old(self),
                ImportMap::ImportDeclaration(it),
                import_locals(it.specifiers),
            ),
            old(self).wf() ==> final(self).wf(),
    {
        let ghost before = *self;
        self.importee.push(it.source.clone());
        match &it.specifiers {
            Some(specifiers) => {
                let mut i: usize = 0;
                assert(strings_view(self.imported_symbols@) =~= strings_view(
                    before.imported_symbols@,
                ) + import_locals(it.specifiers).take(0));
                while i < specifiers.len()
                    invariant
                        i <= specifiers.len(),
                        it.specifiers == Some(*specifiers),
                        *self == (SystemJsTranspiler {
                            imported_symbols: self.imported_symbols,
                            importee: self.importee,
                            ..before
                        }),
                        self.importee@ == before.importee@.push(it.source),
                        strings_view(self.imported_symbols@) == strings_view(
                            before.imported_symbols@,
                        ) + import_locals(it.specifiers).take(i as int),
                    decreases specifiers.len() - i,
                {
                    let local = match &specifiers[i] {
                        ImportDeclarationSpecifier::Default { local } => local.clone(),
                        ImportDeclarationSpecifier::Namespace { local } => local.clone(),
                        ImportDeclarationSpecifier::Named { imported, local } => local.clone(),
                    };
                    let ghost symbols = self.imported_symbols@;
                    self.imported_symbols.push(local);
                    assert(strings_view(self.imported_symbols@) =~= strings_view(symbols).push(
                        local@,
                    ));
                    assert(import_locals(it.specifiers).take(i + 1) =~= import_locals(
                        it.specifiers,
                    ).take(i as int).push(local@));
                    i += 1;
                }
                assert(import_locals(it.specifiers).take(i as int) =~= import_locals(
                    it.specifiers,
                ));
            },
            None => {
                assert(strings_view(self.imported_symbols@) + Seq::<Seq<char>>::empty()
                    =~= strings_view(self.imported_symbols@));
            },
        }
        let ghost source = it.source@;
        self.imports.push(ImportMap::ImportDeclaration(it));
        assert(strings_view(self.importee@) =~= strings_view(before.importee@).push(source));
    }

    /// Visits `export * from`: the module becomes the next dependency.
    pub fn visit_export_all_declaration(&mut self, it: ExportAllDeclaration)
        ensures
            final(self).records(*old(self), ImportMap::ExportAllDeclaration(it), Seq::empty()),
            old(self).wf() ==> final(self).wf(),
    {
        let ghost before = *self;
        let ghost source = it.source@;
        self.importee.push(it.source.clone());
        self.imports.push(ImportMap::ExportAllDeclaration(it));
        assert(strings_view(self.importee@) =~= strings_view(before.importee@).push(source));
        assert(strings_view(self.imported_symbols@) + Seq::<Seq<char>>::empty() =~= strings_view(
            self.imported_symbols@,
        ));
    }

    /// Assembles the registration call when the walk has returned to the
    /// root. `body` lists the statements of the program as the walk left
    /// them. The result is the one statement that becomes the program body.
    pub fn visit_program(self, body: &Vec<BodyStatement>) -> (r: Statement)
        ensures
            r@ == registration(self, body@),
    {
        let ghost state = self;
        let mut this = self;
        let setters = this.convert_import_map();
        let mut declarators: Vec<Declarator> = Vec::new();
        assert(declarators_view(declarators@) =~= Seq::empty());
        push_declarators(&mut declarators, &this.imported_symbols);
        push_declarators(&mut declarators, &this.top_level_classes);
        push_declarators(&mut declarators, &this.top_level_vars);
        let declaration = var_statement(declarators);
        assert(declaration@ == hoisted_declaration(hoisted_names(state))) by {
            assert(declaration@->Var_0 =~= hoisted_declaration(hoisted_names(state))->Var_0);
        }
        let mut statements: Vec<Statement> = Vec::new();
        statements.push(declaration);
        assert(statements_view(statements@) =~= seq![hoisted_declaration(hoisted_names(state))]);
        let mut i: usize = 0;
        while i < this.top_level_function_decls.len()
            invariant
                i <= this.top_level_function_decls.len(),
                this.top_level_function_decls == state.top_level_function_decls,
                statements_view(statements@) == seq![hoisted_declaration(hoisted_names(state))]
                    + hoisted_functions(state).take(i as int),
            decreases this.top_level_function_decls.len() - i,
        {
            let hoisted = Statement::Function(this.top_level_function_decls[i]);
            assert(hoisted@ == StatementView::Function(this.top_level_function_decls@[i as int]));
            let ghost before = statements@;
            statements.push(hoisted);
            assert(statements_view(statements@) =~= statements_view(before).push(hoisted@));
            assert(hoisted_functions(state).take(i + 1) =~= hoisted_functions(state).take(
                i as int,
            ).push(hoisted@));
            i += 1;
        }
        assert(hoisted_functions(state).take(i as int) =~= hoisted_functions(state));
        let dependency_list = this.dependency_literals();
        assert(dependencies(this) =~= dependencies(state));
        if this.export_tree.len() > 0 {
            let bulk = expression_statement(
                call_identifier("_exports", single_expression(object(this.export_tree))),
            );
            let ghost before = statements@;
            statements.push(bulk);
            assert(statements_view(statements@) =~= statements_view(before) + bulk_publish(state));
        } else {
            assert(statements_view(statements@) + bulk_publish(state) =~= statements_view(
                statements@,
            ));
        }
        let execute = function(Vec::new(), false, kept_statements(body));
        assert(execute@->Function_parameters =~= Seq::empty());
        let mut record: Vec<Property> = Vec::new();
        record.push(property("setters", array(setters)));
        record.push(property("execute", execute));
        assert(properties_view(record@) =~= registration_record(state, body@)->Object_0);
        let returned = return_statement(object(record));
        let ghost before = statements@;
        statements.push(returned);
        assert(statements_view(statements@) =~= factory_body(state, body@));
        let mut parameters: Vec<String> = Vec::new();
        parameters.push("_exports".to_owned());
        assert(strings_view(parameters@) =~= seq![exports_name()]);
        let factory_function = function(parameters, true, statements);
        let mut arguments: Vec<Expression> = Vec::new();
        arguments.push(array(dependency_list));
        arguments.push(factory_function);
        assert(expressions_view(arguments@) =~= seq![
            ExpressionView::Array(dependencies(state)),
            factory(state, body@),
        ]);
        expression_statement(call(member(identifier("System"), "register"), arguments))
    }

    /// The module specifiers as string literals.
    fn dependency_literals(&self) -> (literals: Vec<Expression>)
        ensures
            expressions_view(literals@) == dependencies(*self),
    {
        let mut literals: Vec<Expression> = Vec::new();
        let mut i: usize = 0;
        while i < self.importee.len()
            invariant
                i <= self.importee.len(),
                expressions_view(literals@) == dependencies(*self).take(i as int),
            decreases self.importee.len() - i,
        {
            let literal = string_literal(self.importee[i].as_str());
            let ghost before = literals@;
            literals.push(literal);
            assert(expressions_view(literals@) =~= expressions_view(before).push(literal@));
            assert(dependencies(*self).take(i + 1) =~= dependencies(*self).take(i as int).push(
                literal@,
            ));
            i += 1;
        }
        assert(dependencies(*self).take(i as int) =~= dependencies(*self));
        literals
    }

    /// Whether `self` is `before` with one more dependency: the dependency
    /// and its module specifier stand at the end of their lists, the local
    /// bindings at the end of the imported symbols, and nothing else has
    /// changed.
    pub open spec fn records(
        self,
        before: SystemJsTranspiler,
        import: ImportMap,
        locals: Seq<Seq<char>>,
    ) -> bool {
        &&& self.options == before.options
        &&& self.scope_stack == before.scope_stack
        &&& self.path_stack == before.path_stack
        &&& self.top_level_vars == before.top_level_vars
        &&& self.top_level_function_decls == before.top_level_function_decls
        &&& self.top_level_classes == before.top_level_classes
        &&& self.export_tree == before.export_tree
        &&& self.imports@ == before.imports@.push(import)
        &&& strings_view(self.importee@) == strings_view(before.importee@).push(import.source())
        &&& strings_view(self.imported_symbols@) == strings_view(before.imported_symbols@)
            + locals
    }

    /// Visits an expression before the walk goes into it: a `this` outside
    /// every function and class is replaced by `undefined`, unless the
    /// options allow a top-level `this`.
    pub fn visit_expression(&self, kind: ExpressionKind) -> (r: Option<Expression>)
        ensures
            r is Some <==> (kind == ExpressionKind::This && !self.options.allow_top_level_this
                && self.valid_tla_scope()),
            r matches Some(replacement) ==> replacement@ == ExpressionView::Undefined,
    {
        match kind {
            ExpressionKind::This => {
                if !self.options.allow_top_level_this && self.is_valid_tla_scope() {
                    Some(Expression::Undefined)
                } else {
                    None
                }
            },
            ExpressionKind::Other => None,
        }
    }
}

} // verus!
