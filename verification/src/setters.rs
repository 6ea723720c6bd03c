//! The import/export normalizer, first half: one setter per dependency.
use crate::ast::ExportAllDeclaration;
use crate::ast::ImportDeclaration;
use crate::ast::ImportDeclarationSpecifier;
use crate::ast::ModuleExportName;
use crate::identifier::legitimized;
use crate::js::assign_identifier;
use crate::js::assign_named;
use crate::js::assignment;
use crate::js::assignment_of;
use crate::js::binary;
use crate::js::binary_of;
use crate::js::call_identifier;
use crate::js::call_named;
use crate::js::expression_statement;
use crate::js::expressions_view;
use crate::js::for_in;
use crate::js::function;
use crate::js::identifier;
use crate::js::if_statement;
use crate::js::index;
use crate::js::index_of;
use crate::js::index_target;
use crate::js::member;
use crate::js::member_of;
use crate::js::object;
use crate::js::statements_view;
use crate::js::string_literal;
use crate::js::strings_view;
use crate::js::var_statement;
use crate::js::BinaryOperator;
use crate::js::Declarator;
use crate::js::DeclaratorView;
use crate::js::Expression;
use crate::js::ExpressionView;
use crate::js::Property;
use crate::js::Statement;
use crate::js::StatementView;
use crate::js::TargetView;
use crate::transpiler::ImportMap;
use crate::transpiler::SystemJsTranspiler;
use vstd::prelude::*;
use vstd::string::StringExecFns;

verus! {

/// The name of the publish entry point that generated code calls.
pub open spec fn exports_name() -> Seq<char> {
    "_exports"@
}

/// The name of a setter's parameter, which holds the namespace object of the
/// dependency: `_` followed by the legitimized module specifier.
pub open spec fn setter_parameter(source: Seq<char>) -> Seq<char> {
    seq!['_'] + legitimized(source)
}

/// The local binding that an import specifier introduces.
pub open spec fn specifier_local(specifier: ImportDeclarationSpecifier) -> Seq<char> {
    match specifier {
        ImportDeclarationSpecifier::Default { local } => local@,
        ImportDeclarationSpecifier::Namespace { local } => local@,
        ImportDeclarationSpecifier::Named { imported, local } => local@,
    }
}

/// The property of the namespace object that a named specifier reads: the
/// imported name where it is an identifier, the local name otherwise.
pub open spec fn specifier_property(imported: ModuleExportName, local: String) -> Seq<char> {
    match imported {
        ModuleExportName::Identifier(name) => name@,
        ModuleExportName::StringLiteral(_) => local@,
    }
}

/// What a setter assigns to the local binding of a specifier: `ns.default`
/// for a default import, `ns` for a namespace import, `ns.name` for a named
/// one.
pub open spec fn specifier_value(
    parameter: Seq<char>,
    specifier: ImportDeclarationSpecifier,
) -> ExpressionView {
    match specifier {
        ImportDeclarationSpecifier::Default { local } => member_of(
            ExpressionView::Identifier(parameter),
            "default"@,
        ),
        ImportDeclarationSpecifier::Namespace { local } => ExpressionView::Identifier(parameter),
        ImportDeclarationSpecifier::Named { imported, local } => member_of(
            ExpressionView::Identifier(parameter),
            specifier_property(imported, local),
        ),
    }
}

/// The statement of a setter that updates the binding of one specifier.
pub open spec fn specifier_update(
    parameter: Seq<char>,
    specifier: ImportDeclarationSpecifier,
) -> StatementView {
    StatementView::Expression(
        assign_named(specifier_local(specifier), specifier_value(parameter, specifier)),
    )
}

/// The body of the setter of an import declaration: one update per
/// specifier, in source order.
pub open spec fn import_updates(
    parameter: Seq<char>,
    specifiers: Option<Vec<ImportDeclarationSpecifier>>,
) -> Seq<StatementView> {
    match specifiers {
        Some(specifiers) => Seq::new(
            specifiers.len() as nat,
            |i: int| specifier_update(parameter, specifiers[i]),
        ),
        None => Seq::empty(),
    }
}

/// The setter of an import declaration.
pub open spec fn import_setter(import: ImportDeclaration) -> ExpressionView {
    ExpressionView::Function {
        parameters: seq![setter_parameter(import.source@)],
        strict: false,
        body: import_updates(setter_parameter(import.source@), import.specifiers),
    }
}

/// `_key !== text`
pub open spec fn key_is_not(text: Seq<char>) -> ExpressionView {
    binary_of(
        BinaryOperator::StrictInequality,
        ExpressionView::Identifier("_key"@),
        ExpressionView::StringLiteral(text),
    )
}

/// `if (_key !== "default" && _key !== "__esModule") _exportObj[_key] = ns[_key];`
pub open spec fn copy_key(parameter: Seq<char>) -> StatementView {
    StatementView::If {
        test: binary_of(
            BinaryOperator::LogicalAnd,
            key_is_not("default"@),
            key_is_not("__esModule"@),
        ),
        consequent: Box::new(
            StatementView::Expression(
                assignment_of(
                    TargetView::Index {
                        object: Box::new(ExpressionView::Identifier("_exportObj"@)),
                        index: Box::new(ExpressionView::Identifier("_key"@)),
                    },
                    index_of(
                        ExpressionView::Identifier(parameter),
                        ExpressionView::Identifier("_key"@),
                    ),
                ),
            ),
        ),
    }
}

/// The body of the setter of `export * from`: a fresh object receives every
/// key of the namespace object but `default` and `__esModule`, and is then
/// published as a whole.
pub open spec fn export_all_body(parameter: Seq<char>) -> Seq<StatementView> {
    seq![
        StatementView::Var(
            seq![
                DeclaratorView {
                    name: "_exportObj"@,
                    init: Some(ExpressionView::Object(Seq::empty())),
                },
            ],
        ),
        StatementView::ForIn {
            variable: "_key"@,
            object: ExpressionView::Identifier(parameter),
            body: seq![copy_key(parameter)],
        },
        StatementView::Expression(
            call_named(exports_name(), seq![ExpressionView::Identifier("_exportObj"@)]),
        ),
    ]
}

/// The body of the setter of `export * as name from`: it publishes an empty
/// object. The namespace is not bound under the alias.
pub open spec fn export_alias_body() -> Seq<StatementView> {
    seq![
        StatementView::Expression(
            call_named(exports_name(), seq![ExpressionView::Object(Seq::empty())]),
        ),
    ]
}

/// The setter of an export-all declaration.
pub open spec fn export_all_setter(export: ExportAllDeclaration) -> ExpressionView {
    ExpressionView::Function {
        parameters: seq![setter_parameter(export.source@)],
        strict: false,
        body: if export.exported is Some {
            export_alias_body()
        } else {
            export_all_body(setter_parameter(export.source@))
        },
    }
}

/// The setter of a dependency.
pub open spec fn setter_of(import: ImportMap) -> ExpressionView {
    match import {
        ImportMap::ImportDeclaration(import) => import_setter(import),
        ImportMap::ExportAllDeclaration(export) => export_all_setter(export),
    }
}

/// The setters of a list of dependencies, in the same order.
pub open spec fn setters_of(imports: Seq<ImportMap>) -> Seq<ExpressionView> {
    Seq::new(imports.len(), |i: int| setter_of(imports[i]))
}

/// The name of the parameter of the setter for a module specifier.
pub fn setter_parameter_name(source: &str) -> (name: String)
    ensures
        name@ == setter_parameter(source@),
{
    let legitimized_source = SystemJsTranspiler::legitimize_identifier_name(source);
    let mut name = "_".to_owned();
    proof {
        reveal_strlit("_");
    }
    name.append(legitimized_source.as_str());
    assert(name@ =~= setter_parameter(source@));
    name
}

/// A parameter list of one name.
fn single_parameter(name: String) -> (parameters: Vec<String>)
    ensures
        strings_view(parameters@) == seq![name@],
{
    let mut parameters: Vec<String> = Vec::new();
    parameters.push(name);
    assert(strings_view(parameters@) =~= seq![name@]);
    parameters
}

/// A list of one expression.
pub fn single_expression(expression: Expression) -> (items: Vec<Expression>)
    ensures
        expressions_view(items@) == seq![expression@],
{
    let mut items: Vec<Expression> = Vec::new();
    items.push(expression);
    assert(expressions_view(items@) =~= seq![expression@]);
    items
}

/// An object literal without properties.
pub fn empty_object() -> (r: Expression)
    ensures
        r@ == ExpressionView::Object(Seq::empty()),
{
    let properties: Vec<Property> = Vec::new();
    let r = object(properties);
    assert(r@->Object_0 =~= Seq::empty());
    r
}

impl SystemJsTranspiler {
    /// Builds the setter of an import declaration: a function of the
    /// namespace object that assigns every imported binding.
    pub fn convert_import_to_function(&self, import: &ImportDeclaration) -> (r: Expression)
        ensures
            r@ == import_setter(*import),
    {
        let name = setter_parameter_name(import.source.as_str());
        let ghost parameter = name@;
        let mut assigns: Vec<Statement> = Vec::new();
        match &import.specifiers {
            Some(specifiers) => {
                let mut i: usize = 0;
                while i < specifiers.len()
                    invariant
                        i <= specifiers.len(),
                        name@ == parameter,
                        statements_view(assigns@) == Seq::new(
                            i as nat,
                            |k: int| specifier_update(parameter, specifiers[k]),
                        ),
                    decreases specifiers.len() - i,
                {
                    let namespace = identifier(name.as_str());
                    let update = match &specifiers[i] {
                        ImportDeclarationSpecifier::Default { local } => assign_identifier(
                            local.as_str(),
                            member(namespace, "default"),
                        ),
                        ImportDeclarationSpecifier::Namespace { local } => assign_identifier(
                            local.as_str(),
                            namespace,
                        ),
                        ImportDeclarationSpecifier::Named { imported, local } => {
                            let property = match imported {
                                ModuleExportName::Identifier(imported_name) => imported_name,
                                ModuleExportName::StringLiteral(_) => local,
                            };
                            assign_identifier(local.as_str(), member(namespace, property.as_str()))
                        },
                    };
                    let statement = expression_statement(update);
                    assert(statement@ == specifier_update(parameter, specifiers[i as int]));
                    let ghost before = assigns@;
                    assigns.push(statement);
                    assert(statements_view(assigns@) =~= statements_view(before).push(statement@));
                    i += 1;
                }
            },
            None => {},
        }
        let r = function(single_parameter(name), false, assigns);
        assert(r@->Function_body =~= import_updates(parameter, import.specifiers));
        r
    }

    /// Builds the setter of an export-all declaration. For a plain
    /// `export *` it copies the namespace object, without `default` and
    /// `__esModule`, and publishes the copy. With an alias it publishes an
    /// empty object: the alias is not bound.
    pub fn convert_export_all_to_function(&self, export: &ExportAllDeclaration) -> (r: Expression)
        ensures
            r@ == export_all_setter(*export),
    {
        let name = setter_parameter_name(export.source.as_str());
        let ghost parameter = name@;
        let mut stmts: Vec<Statement> = Vec::new();
        if export.exported.is_some() {
            let publish = call_identifier("_exports", single_expression(empty_object()));
            stmts.push(expression_statement(publish));
            assert(statements_view(stmts@) =~= export_alias_body());
        } else {
            let mut declarators: Vec<Declarator> = Vec::new();
            let declarator = Declarator { name: "_exportObj".to_owned(), init: Some(empty_object()) };
            assert(declarator@ == (DeclaratorView {
                name: "_exportObj"@,
                init: Some(ExpressionView::Object(Seq::empty())),
            }));
            declarators.push(declarator);
            let declaration = var_statement(declarators);
            assert(declaration@->Var_0 =~= seq![
                DeclaratorView {
                    name: "_exportObj"@,
                    init: Some(ExpressionView::Object(Seq::empty())),
                },
            ]);
            let test = binary(
                BinaryOperator::LogicalAnd,
                binary(
                    BinaryOperator::StrictInequality,
                    identifier("_key"),
                    string_literal("default"),
                ),
                binary(
                    BinaryOperator::StrictInequality,
                    identifier("_key"),
                    string_literal("__esModule"),
                ),
            );
            let copy = assignment(
                index_target(identifier("_exportObj"), identifier("_key")),
                index(identifier(name.as_str()), identifier("_key")),
            );
            let guarded = if_statement(test, expression_statement(copy));
            assert(guarded@ == copy_key(parameter));
            let mut loop_body: Vec<Statement> = Vec::new();
            loop_body.push(guarded);
            let each_key = for_in("_key", identifier(name.as_str()), loop_body);
            assert(each_key@->ForIn_body =~= seq![copy_key(parameter)]);
            let publish = call_identifier("_exports", single_expression(identifier("_exportObj")));
            stmts.push(declaration);
            stmts.push(each_key);
            stmts.push(expression_statement(publish));
            assert(statements_view(stmts@) =~= export_all_body(parameter));
        }
        function(single_parameter(name), false, stmts)
    }

    /// Builds the setters of all dependencies met so far, in their order,
    /// and empties the dependency list: the dependencies are consumed once.
    pub fn convert_import_map(&mut self) -> (setters: Vec<Expression>)
        ensures
            expressions_view(setters@) == setters_of(old(self).imports@),
            final(self).imports@.len() == 0,
            *final(self) == (SystemJsTranspiler { imports: final(self).imports, ..*old(self) }),
    {
        let mut converted_imports: Vec<Expression> = Vec::new();
        let mut i: usize = 0;
        while i < self.imports.len()
            invariant
                i <= self.imports.len(),
                expressions_view(converted_imports@) == setters_of(
                    self.imports@.subrange(0, i as int),
                ),
            decreases self.imports.len() - i,
        {
            let setter = match &self.imports[i] {
                ImportMap::ImportDeclaration(import) => self.convert_import_to_function(import),
                ImportMap::ExportAllDeclaration(export) => self.convert_export_all_to_function(
                    export,
                ),
            };
            assert(setter@ == setter_of(self.imports[i as int]));
            let ghost before = converted_imports@;
            converted_imports.push(setter);
            assert(expressions_view(converted_imports@) =~= expressions_view(before).push(setter@));
            assert(self.imports@.subrange(0, i + 1) =~= self.imports@.subrange(0, i as int).push(
                self.imports[i as int],
            ));
            i += 1;
        }
        assert(self.imports@.subrange(0, i as int) =~= self.imports@);
        self.imports = Vec::new();
        converted_imports
    }
}

} // verus!
