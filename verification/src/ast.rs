//! What the pass reads of the source: for every node it decides on, the part
//! of the node that the decision depends on, as plain values. The host fills
//! these in from the syntax tree.
use crate::syntax::scope_bits_are_block;
use crate::syntax::scope_bits_are_top;
use vstd::prelude::*;

verus! {

/// Handle of a subtree that stays with the host: the library carries it to the
/// place where the subtree belongs in the output and never looks inside.
#[derive(Debug, Clone, Copy, PartialEq, Eq, Structural)]
pub struct NodeId(pub u32);

/// The kind of a node on the path from the root to the current position.
#[derive(Debug, Clone, Copy, PartialEq, Eq, Structural)]
pub enum NodeKind {
    /// The program root.
    Program,
    /// A class.
    Class,
    /// Any other node.
    Other,
}

/// The kind of a lexical scope, as far as hoisting goes.
#[derive(Debug, Clone, Copy, PartialEq, Eq, Structural)]
pub enum ScopeKind {
    /// The scope of the program.
    Top,
    /// The scope of a block.
    Block,
    /// The scope of a class.
    Class,
    /// The scope of a function, or another scope that declarations do not
    /// leave: that of an arrow function, a static block or a catch clause.
    Function,
}

/// The flags of a lexical scope, bit for bit as the semantic analysis of
/// `oxc` numbers them: bit 0 is strict mode, bit 1 the top scope, bit 2 a
/// function, and so on.
#[derive(Debug, Clone, Copy, PartialEq, Eq, Structural)]
pub struct ScopeFlags {
    pub bits: u16,
}

impl ScopeFlags {
    /// A block scope: no flag is set, or strict mode alone.
    pub open spec fn block(self) -> bool {
        self.bits == 0 || self.bits == 1
    }

    /// The top scope: the top flag is set.
    pub open spec fn top(self) -> bool {
        self.bits & 2 == 2
    }

    /// Whether this is a block scope.
    pub fn is_block(&self) -> (r: bool)
        ensures
            r == self.block(),
    {
        scope_bits_are_block(self.bits)
    }

    /// Whether this is the top scope.
    pub fn is_top(&self) -> (r: bool)
        ensures
            r == self.top(),
    {
        scope_bits_are_top(self.bits)
    }
}

/// A binding pattern: the left-hand side of a declarator. Keys and default
/// values are left out, since no decision reads them.
#[derive(Debug, PartialEq, Eq)]
pub enum BindingPattern {
    /// `a`
    Identifier(String),
    /// `[a, , b, ...rest]`; a hole is `None`.
    Array { elements: Vec<Option<BindingPattern>>, rest: Option<Box<BindingPattern>> },
    /// `{ k: a, b, ...rest }`, as the patterns that the properties bind.
    Object { properties: Vec<BindingPattern>, rest: Option<Box<BindingPattern>> },
    /// `a = default`, as the pattern on the left.
    Assignment(Box<BindingPattern>),
}

/// An assignment target: the left-hand side of an assignment expression.
#[derive(Debug, PartialEq, Eq)]
pub enum AssignmentTarget {
    /// A target without destructuring, with the name that it goes by: the
    /// identifier itself, or the static property name of a member expression.
    Simple(Option<String>),
    /// `[a, , b, ...rest]`
    Array {
        elements: Vec<Option<AssignmentTargetMaybeDefault>>,
        rest: Option<Box<AssignmentTarget>>,
    },
    /// `{ a, k: b, ...rest }`
    Object { properties: Vec<AssignmentTargetProperty>, rest: Option<Box<AssignmentTarget>> },
}

/// An element of a destructuring target.
#[derive(Debug, PartialEq, Eq)]
pub enum AssignmentTargetMaybeDefault {
    /// `target = default`, as the target on the left.
    WithDefault(AssignmentTarget),
    /// `target`
    Target(AssignmentTarget),
}

/// A property of an object destructuring target.
#[derive(Debug, PartialEq, Eq)]
pub enum AssignmentTargetProperty {
    /// `a` or `a = default`: the property and the binding share one name.
    Identifier(String),
    /// `key: element`
    Property(AssignmentTargetMaybeDefault),
}

/// The keyword of a variable declaration.
#[derive(Debug, Clone, Copy, PartialEq, Eq, Structural)]
pub enum VariableDeclarationKind {
    Var,
    Let,
    Const,
    Using,
    AwaitUsing,
}

/// One declarator of a variable declaration.
#[derive(Debug, PartialEq, Eq)]
pub struct VariableDeclarator {
    pub id: BindingPattern,
    /// The initializer, when there is one.
    pub init: Option<NodeId>,
}

/// `var a = 1, b;`
#[derive(Debug, PartialEq, Eq)]
pub struct VariableDeclaration {
    pub kind: VariableDeclarationKind,
    pub declarations: Vec<VariableDeclarator>,
}

/// `function f() {}`
#[derive(Debug, PartialEq, Eq)]
pub struct FunctionDeclaration {
    pub id: Option<String>,
    /// The function itself.
    pub node: NodeId,
}

/// `class C {}`
#[derive(Debug, PartialEq, Eq)]
pub struct ClassDeclaration {
    pub id: Option<String>,
    /// The class itself.
    pub node: NodeId,
}

/// The name of a declaration that carries one.
pub open spec fn name_of(id: Option<String>) -> Seq<char>
    recommends
        id is Some,
{
    id->Some_0@
}

/// A declaration.
#[derive(Debug, PartialEq, Eq)]
pub enum Declaration {
    Variable(VariableDeclaration),
    Function(FunctionDeclaration),
    Class(ClassDeclaration),
    /// A declaration that only declares types.
    Other,
}

/// A name on either side of `as` in an import or export specifier.
#[derive(Debug, PartialEq, Eq)]
pub enum ModuleExportName {
    /// `name`
    Identifier(String),
    /// `"any text"`
    StringLiteral(String),
}

/// One specifier of an import declaration.
#[derive(Debug, PartialEq, Eq)]
pub enum ImportDeclarationSpecifier {
    /// `import local from "m"`
    Default { local: String },
    /// `import * as local from "m"`
    Namespace { local: String },
    /// `import { imported as local } from "m"`
    Named { imported: ModuleExportName, local: String },
}

/// `import ... from "source"`. A declaration without a specifier list
/// (`import "source"`) has `None`.
#[derive(Debug, PartialEq, Eq)]
pub struct ImportDeclaration {
    pub source: String,
    pub specifiers: Option<Vec<ImportDeclarationSpecifier>>,
}

/// `export * from "source"`, or `export * as exported from "source"`.
#[derive(Debug, PartialEq, Eq)]
pub struct ExportAllDeclaration {
    pub source: String,
    pub exported: Option<ModuleExportName>,
}

/// `local as exported` in `export { ... }`.
#[derive(Debug, PartialEq, Eq)]
pub struct ExportSpecifier {
    pub local: ModuleExportName,
    pub exported: ModuleExportName,
}

/// What stands behind `export default`.
#[derive(Debug, PartialEq, Eq)]
pub enum ExportDefaultDeclarationKind {
    Expression(NodeId),
    Function(FunctionDeclaration),
    Class(ClassDeclaration),
    /// A declaration that only declares types.
    Other,
}

/// A statement, as far as the pass tells statements apart.
#[derive(Debug, PartialEq, Eq)]
pub enum Statement {
    Declaration(Declaration),
    Import,
    ExportAll,
    ExportNamed { declaration: Option<Declaration>, specifiers: Vec<ExportSpecifier> },
    ExportDefault(ExportDefaultDeclarationKind),
    Other,
}

/// An expression, as far as the pass tells expressions apart.
#[derive(Debug, Clone, Copy, PartialEq, Eq, Structural)]
pub enum ExpressionKind {
    This,
    Other,
}

/// A statement of the program body after the walk: an empty statement (one
/// that the source held, or one that the pass left where it erased a
/// statement), or any other.
#[derive(Debug, Clone, Copy, PartialEq, Eq, Structural)]
pub enum BodyStatementKind {
    Empty,
    Other,
}

/// A statement of the program body after the walk, with its handle.
#[derive(Debug, Clone, Copy, PartialEq, Eq, Structural)]
pub struct BodyStatement {
    pub kind: BodyStatementKind,
    pub node: NodeId,
}

/// An assignment expression that the host read back from text: the shape of
/// its left-hand side, and the handle of that left-hand side.
#[derive(Debug, PartialEq, Eq)]
pub struct ParsedAssignment {
    pub target: AssignmentTarget,
    pub node: NodeId,
}

/// One operand of a comma expression that the host read back from text.
#[derive(Debug, PartialEq, Eq)]
pub enum ParsedItem {
    Assignment(ParsedAssignment),
    Other,
}

/// The expression that the host read back from the text of a declaration.
#[derive(Debug, PartialEq, Eq)]
pub enum ParsedExpression {
    Assignment(ParsedAssignment),
    Sequence(Vec<ParsedItem>),
    Other,
}

} // verus!
