//! The tree that the pass writes: the small part of JavaScript that a
//! registration call, its setters and the rewritten statements are made of.
//!
//! Every type has a mathematical model (`ExpressionView` for `Expression`, and
//! so on) in which strings are sequences of characters and vectors are
//! sequences. Contracts speak of the models; `x@` is the model of `x`.
use crate::ast::NodeId;
use vstd::prelude::*;

verus! {

/// The two binary operators that generated code uses.
#[derive(Debug, Clone, Copy, PartialEq, Eq, Structural)]
pub enum BinaryOperator {
    /// `!==`
    StrictInequality,
    /// `&&`
    LogicalAnd,
}

/// An expression of the output.
#[derive(Debug, PartialEq, Eq)]
pub enum Expression {
    /// A reference to a binding.
    Identifier(String),
    /// A string literal.
    StringLiteral(String),
    /// `void 0`.
    Undefined,
    /// An expression of the source, carried over unchanged.
    Kept(NodeId),
    /// The class of a class declaration of the source, as a class expression
    /// without a name.
    Class(NodeId),
    /// `target = value`.
    Assignment { target: Target, value: Box<Expression> },
    /// `a, b, c`.
    Sequence(Vec<Expression>),
    /// `callee(arguments)`.
    Call { callee: Box<Expression>, arguments: Vec<Expression> },
    /// `object.property`.
    Member { object: Box<Expression>, property: String },
    /// `object[index]`.
    Index { object: Box<Expression>, index: Box<Expression> },
    /// `left operator right`.
    Binary { operator: BinaryOperator, left: Box<Expression>, right: Box<Expression> },
    /// `{ key: value, ... }`.
    Object(Vec<Property>),
    /// `[a, b, c]`.
    Array(Vec<Expression>),
    /// `function (parameters) { body }`, with a leading `"use strict"`
    /// directive when `strict` is set.
    Function { parameters: Vec<String>, strict: bool, body: Vec<Statement> },
}

/// The left-hand side of an assignment.
#[derive(Debug, PartialEq, Eq)]
pub enum Target {
    /// A plain binding.
    Identifier(String),
    /// `object[index]`.
    Index { object: Box<Expression>, index: Box<Expression> },
    /// An assignment target that the host holds: the one it read back from
    /// the text of a declaration.
    Kept(NodeId),
}

/// One `key: value` entry of an object literal.
#[derive(Debug, PartialEq, Eq)]
pub struct Property {
    pub key: String,
    pub value: Expression,
}

/// One binding of a `var` statement.
#[derive(Debug, PartialEq, Eq)]
pub struct Declarator {
    pub name: String,
    pub init: Option<Expression>,
}

/// A statement of the output.
#[derive(Debug, PartialEq, Eq)]
pub enum Statement {
    /// A statement of the source, carried over as the walk left it.
    Kept(NodeId),
    /// A function declaration of the source, moved to where it stands now.
    Function(NodeId),
    /// An expression statement.
    Expression(Expression),
    /// `var a, b = init;`
    Var(Vec<Declarator>),
    /// `for (var variable in object) { body }`.
    ForIn { variable: String, object: Expression, body: Vec<Statement> },
    /// `if (test) consequent`.
    If { test: Expression, consequent: Box<Statement> },
    /// `return value;`
    Return(Expression),
    /// `;`
    Empty,
}

/// The model of an [`Expression`].
pub enum ExpressionView {
    Identifier(Seq<char>),
    StringLiteral(Seq<char>),
    Undefined,
    Kept(NodeId),
    Class(NodeId),
    Assignment { target: TargetView, value: Box<ExpressionView> },
    Sequence(Seq<ExpressionView>),
    Call { callee: Box<ExpressionView>, arguments: Seq<ExpressionView> },
    Member { object: Box<ExpressionView>, property: Seq<char> },
    Index { object: Box<ExpressionView>, index: Box<ExpressionView> },
    Binary { operator: BinaryOperator, left: Box<ExpressionView>, right: Box<ExpressionView> },
    Object(Seq<PropertyView>),
    Array(Seq<ExpressionView>),
    Function { parameters: Seq<Seq<char>>, strict: bool, body: Seq<StatementView> },
}

/// The model of a [`Target`].
pub enum TargetView {
    Identifier(Seq<char>),
    Index { object: Box<ExpressionView>, index: Box<ExpressionView> },
    Kept(NodeId),
}

/// The model of a [`Property`].
pub struct PropertyView {
    pub key: Seq<char>,
    pub value: ExpressionView,
}

/// The model of a [`Declarator`].
pub struct DeclaratorView {
    pub name: Seq<char>,
    pub init: Option<ExpressionView>,
}

/// The model of a [`Statement`].
pub enum StatementView {
    Kept(NodeId),
    Function(NodeId),
    Expression(ExpressionView),
    Var(Seq<DeclaratorView>),
    ForIn { variable: Seq<char>, object: ExpressionView, body: Seq<StatementView> },
    If { test: ExpressionView, consequent: Box<StatementView> },
    Return(ExpressionView),
    Empty,
}

impl Expression {
    /// The model of an expression.
    pub open spec fn model(self) -> ExpressionView
        decreases self,
    {
        match self {
            Expression::Identifier(name) => ExpressionView::Identifier(name@),
            Expression::StringLiteral(value) => ExpressionView::StringLiteral(value@),
            Expression::Undefined => ExpressionView::Undefined,
            Expression::Kept(node) => ExpressionView::Kept(node),
            Expression::Class(node) => ExpressionView::Class(node),
            Expression::Assignment { target, value } => ExpressionView::Assignment {
                target: target.model(),
                value: Box::new(value.model()),
            },
            Expression::Sequence(items) => ExpressionView::Sequence(
                Seq::new(
                    items.len() as nat,
                    |i: int|
                        if 0 <= i < items.len() {
                            items[i].model()
                        } else {
                            arbitrary()
                        },
                ),
            ),
            Expression::Call { callee, arguments } => ExpressionView::Call {
                callee: Box::new(callee.model()),
                arguments: Seq::new(
                    arguments.len() as nat,
                    |i: int|
                        if 0 <= i < arguments.len() {
                            arguments[i].model()
                        } else {
                            arbitrary()
                        },
                ),
            },
            Expression::Member { object, property } => ExpressionView::Member {
                object: Box::new(object.model()),
                property: property@,
            },
            Expression::Index { object, index } => ExpressionView::Index {
                object: Box::new(object.model()),
                index: Box::new(index.model()),
            },
            Expression::Binary { operator, left, right } => ExpressionView::Binary {
                operator,
                left: Box::new(left.model()),
                right: Box::new(right.model()),
            },
            Expression::Object(properties) => ExpressionView::Object(
                Seq::new(
                    properties.len() as nat,
                    |i: int|
                        if 0 <= i < properties.len() {
                            properties[i].model()
                        } else {
                            arbitrary()
                        },
                ),
            ),
            Expression::Array(items) => ExpressionView::Array(
                Seq::new(
                    items.len() as nat,
                    |i: int|
                        if 0 <= i < items.len() {
                            items[i].model()
                        } else {
                            arbitrary()
                        },
                ),
            ),
            Expression::Function { parameters, strict, body } => ExpressionView::Function {
                parameters: strings_view(parameters@),
                strict,
                body: Seq::new(
                    body.len() as nat,
                    |i: int|
                        if 0 <= i < body.len() {
                            body[i].model()
                        } else {
                            arbitrary()
                        },
                ),
            },
        }
    }
}

impl Target {
    /// The model of an assignment target.
    pub open spec fn model(self) -> TargetView
        decreases self,
    {
        match self {
            Target::Identifier(name) => TargetView::Identifier(name@),
            Target::Index { object, index } => TargetView::Index {
                object: Box::new(object.model()),
                index: Box::new(index.model()),
            },
            Target::Kept(node) => TargetView::Kept(node),
        }
    }
}

impl Property {
    /// The model of an object property.
    pub open spec fn model(self) -> PropertyView
        decreases self,
    {
        PropertyView { key: self.key@, value: self.value.model() }
    }
}

impl Declarator {
    /// The model of a `var` binding.
    pub open spec fn model(self) -> DeclaratorView
        decreases self,
    {
        DeclaratorView {
            name: self.name@,
            init: match self.init {
                Some(init) => Some(init.model()),
                None => None,
            },
        }
    }
}

impl Statement {
    /// The model of a statement.
    pub open spec fn model(self) -> StatementView
        decreases self,
    {
        match self {
            Statement::Kept(node) => StatementView::Kept(node),
            Statement::Function(node) => StatementView::Function(node),
            Statement::Expression(expression) => StatementView::Expression(expression.model()),
            Statement::Var(declarators) => StatementView::Var(
                Seq::new(
                    declarators.len() as nat,
                    |i: int|
                        if 0 <= i < declarators.len() {
                            declarators[i].model()
                        } else {
                            arbitrary()
                        },
                ),
            ),
            Statement::ForIn { variable, object, body } => StatementView::ForIn {
                variable: variable@,
                object: object.model(),
                body: Seq::new(
                    body.len() as nat,
                    |i: int|
                        if 0 <= i < body.len() {
                            body[i].model()
                        } else {
                            arbitrary()
                        },
                ),
            },
            Statement::If { test, consequent } => StatementView::If {
                test: test.model(),
                consequent: Box::new(consequent.model()),
            },
            Statement::Return(value) => StatementView::Return(value.model()),
            Statement::Empty => StatementView::Empty,
        }
    }
}

impl View for Expression {
    type V = ExpressionView;

    open spec fn view(&self) -> ExpressionView {
        self.model()
    }
}

impl View for Target {
    type V = TargetView;

    open spec fn view(&self) -> TargetView {
        self.model()
    }
}

impl View for Property {
    type V = PropertyView;

    open spec fn view(&self) -> PropertyView {
        self.model()
    }
}

impl View for Declarator {
    type V = DeclaratorView;

    open spec fn view(&self) -> DeclaratorView {
        self.model()
    }
}

impl View for Statement {
    type V = StatementView;

    open spec fn view(&self) -> StatementView {
        self.model()
    }
}

/// The strings of a sequence, each as its characters.
pub open spec fn strings_view(items: Seq<String>) -> Seq<Seq<char>> {
    Seq::new(items.len(), |i: int| items[i]@)
}

/// The models of a sequence of expressions.
pub open spec fn expressions_view(items: Seq<Expression>) -> Seq<ExpressionView> {
    Seq::new(items.len(), |i: int| items[i]@)
}

/// The models of a sequence of properties.
pub open spec fn properties_view(items: Seq<Property>) -> Seq<PropertyView> {
    Seq::new(items.len(), |i: int| items[i]@)
}

/// The models of a sequence of `var` bindings.
pub open spec fn declarators_view(items: Seq<Declarator>) -> Seq<DeclaratorView> {
    Seq::new(items.len(), |i: int| items[i]@)
}

/// The models of a sequence of statements.
pub open spec fn statements_view(items: Seq<Statement>) -> Seq<StatementView> {
    Seq::new(items.len(), |i: int| items[i]@)
}

/// The model of `name(argument, ...)` for a callee that is a plain binding.
pub open spec fn call_named(name: Seq<char>, arguments: Seq<ExpressionView>) -> ExpressionView {
    ExpressionView::Call { callee: Box::new(ExpressionView::Identifier(name)), arguments }
}

/// The model of `object.property`.
pub open spec fn member_of(object: ExpressionView, property: Seq<char>) -> ExpressionView {
    ExpressionView::Member { object: Box::new(object), property }
}

/// The model of `object[index]`.
pub open spec fn index_of(object: ExpressionView, index: ExpressionView) -> ExpressionView {
    ExpressionView::Index { object: Box::new(object), index: Box::new(index) }
}

/// The model of `left operator right`.
pub open spec fn binary_of(
    operator: BinaryOperator,
    left: ExpressionView,
    right: ExpressionView,
) -> ExpressionView {
    ExpressionView::Binary { operator, left: Box::new(left), right: Box::new(right) }
}

/// The model of `target = value`.
pub open spec fn assignment_of(target: TargetView, value: ExpressionView) -> ExpressionView {
    ExpressionView::Assignment { target, value: Box::new(value) }
}

/// The model of `name = value` for a plain binding.
pub open spec fn assign_named(name: Seq<char>, value: ExpressionView) -> ExpressionView {
    assignment_of(TargetView::Identifier(name), value)
}

/// The model of a `var` binding without an initial value.
pub open spec fn bare_declarator(name: Seq<char>) -> DeclaratorView {
    DeclaratorView { name, init: None }
}

/// An identifier expression.
pub fn identifier(name: &str) -> (r: Expression)
    ensures
        r@ == ExpressionView::Identifier(name@),
{
    Expression::Identifier(name.to_owned())
}

/// A string literal expression.
pub fn string_literal(value: &str) -> (r: Expression)
    ensures
        r@ == ExpressionView::StringLiteral(value@),
{
    Expression::StringLiteral(value.to_owned())
}

/// `callee(arguments)`.
pub fn call(callee: Expression, arguments: Vec<Expression>) -> (r: Expression)
    ensures
        r@ == (ExpressionView::Call {
            callee: Box::new(callee@),
            arguments: expressions_view(arguments@),
        }),
{
    let ghost expected = expressions_view(arguments@);
    let r = Expression::Call { callee: Box::new(callee), arguments };
    assert(r@->Call_arguments =~= expected);
    r
}

/// `name(arguments)`.
pub fn call_identifier(name: &str, arguments: Vec<Expression>) -> (r: Expression)
    ensures
        r@ == call_named(name@, expressions_view(arguments@)),
{
    call(identifier(name), arguments)
}

/// `a, b, c`.
pub fn sequence(items: Vec<Expression>) -> (r: Expression)
    ensures
        r@ == ExpressionView::Sequence(expressions_view(items@)),
{
    let ghost expected = expressions_view(items@);
    let r = Expression::Sequence(items);
    assert(r@->Sequence_0 =~= expected);
    r
}

/// `[a, b, c]`.
pub fn array(items: Vec<Expression>) -> (r: Expression)
    ensures
        r@ == ExpressionView::Array(expressions_view(items@)),
{
    let ghost expected = expressions_view(items@);
    let r = Expression::Array(items);
    assert(r@->Array_0 =~= expected);
    r
}

/// `{ key: value, ... }`.
pub fn object(properties: Vec<Property>) -> (r: Expression)
    ensures
        r@ == ExpressionView::Object(properties_view(properties@)),
{
    let ghost expected = properties_view(properties@);
    let r = Expression::Object(properties);
    assert(r@->Object_0 =~= expected);
    r
}

/// `key: value`.
pub fn property(key: &str, value: Expression) -> (r: Property)
    ensures
        r@ == (PropertyView { key: key@, value: value@ }),
{
    Property { key: key.to_owned(), value }
}

/// `object.property`.
pub fn member(object: Expression, property: &str) -> (r: Expression)
    ensures
        r@ == member_of(object@, property@),
{
    Expression::Member { object: Box::new(object), property: property.to_owned() }
}

/// `object[index]`.
pub fn index(object: Expression, key: Expression) -> (r: Expression)
    ensures
        r@ == index_of(object@, key@),
{
    Expression::Index { object: Box::new(object), index: Box::new(key) }
}

/// The target `object[index]`.
pub fn index_target(object: Expression, key: Expression) -> (r: Target)
    ensures
        r@ == (TargetView::Index { object: Box::new(object@), index: Box::new(key@) }),
{
    Target::Index { object: Box::new(object), index: Box::new(key) }
}

/// `left operator right`.
pub fn binary(operator: BinaryOperator, left: Expression, right: Expression) -> (r: Expression)
    ensures
        r@ == binary_of(operator, left@, right@),
{
    Expression::Binary { operator, left: Box::new(left), right: Box::new(right) }
}

/// `target = value`.
pub fn assignment(target: Target, value: Expression) -> (r: Expression)
    ensures
        r@ == assignment_of(target@, value@),
{
    Expression::Assignment { target, value: Box::new(value) }
}

/// `name = value`.
pub fn assign_identifier(name: &str, value: Expression) -> (r: Expression)
    ensures
        r@ == assign_named(name@, value@),
{
    let target = Target::Identifier(name.to_owned());
    assert(target@ == TargetView::Identifier(name@));
    assignment(target, value)
}

/// `function (parameters) { body }`.
pub fn function(parameters: Vec<String>, strict: bool, body: Vec<Statement>) -> (r: Expression)
    ensures
        r@ == (ExpressionView::Function {
            parameters: strings_view(parameters@),
            strict,
            body: statements_view(body@),
        }),
{
    let ghost expected = statements_view(body@);
    let r = Expression::Function { parameters, strict, body };
    assert(r@->Function_body =~= expected);
    r
}

/// An expression statement.
pub fn expression_statement(expression: Expression) -> (r: Statement)
    ensures
        r@ == StatementView::Expression(expression@),
{
    Statement::Expression(expression)
}

/// `var a, b = init;`
pub fn var_statement(declarators: Vec<Declarator>) -> (r: Statement)
    ensures
        r@ == StatementView::Var(declarators_view(declarators@)),
{
    let ghost expected = declarators_view(declarators@);
    let r = Statement::Var(declarators);
    assert(r@->Var_0 =~= expected);
    r
}

/// `for (var variable in object) { body }`.
pub fn for_in(variable: &str, object: Expression, body: Vec<Statement>) -> (r: Statement)
    ensures
        r@ == (StatementView::ForIn {
            variable: variable@,
            object: object@,
            body: statements_view(body@),
        }),
{
    let ghost expected = statements_view(body@);
    let r = Statement::ForIn { variable: variable.to_owned(), object, body };
    assert(r@->ForIn_body =~= expected);
    r
}

/// `if (test) consequent`.
pub fn if_statement(test: Expression, consequent: Statement) -> (r: Statement)
    ensures
        r@ == (StatementView::If { test: test@, consequent: Box::new(consequent@) }),
{
    Statement::If { test, consequent: Box::new(consequent) }
}

/// `return value;`
pub fn return_statement(value: Expression) -> (r: Statement)
    ensures
        r@ == StatementView::Return(value@),
{
    Statement::Return(value)
}

} // verus!
