//! The declaration-to-assignment converter.
//!
//! A variable declaration becomes a comma expression of assignments. Binding
//! patterns and assignment targets are different shapes, so the host prints
//! the declaration without its initializers, drops the leading keyword, and
//! reads the text back as an expression; this module puts the initializers
//! back, in source order, and decides what is hoisted.
use crate::ast::name_of;
use crate::ast::Declaration;
use crate::ast::NodeId;
use crate::ast::ParsedAssignment;
use crate::ast::ParsedExpression;
use crate::ast::ParsedItem;
use crate::ast::VariableDeclaration;
use crate::ast::VariableDeclarationKind;
use crate::ast::VariableDeclarator;
use crate::error::TranspileError;
use crate::js::assign_identifier;
use crate::js::assign_named;
use crate::js::assignment;
use crate::js::assignment_of;
use crate::js::expressions_view;
use crate::js::properties_view;
use crate::js::strings_view;
use crate::js::Expression;
use crate::js::ExpressionView;
use crate::js::PropertyView;
use crate::js::Target;
use crate::js::TargetView;
use crate::setters::single_expression;
use crate::symbols::append_names;
use crate::symbols::binding_names;
use crate::symbols::lemma_parts_step;
use crate::syntax::strip_prefix;
use crate::transpiler::SystemJsTranspiler;
use vstd::prelude::*;

verus! {

/// What one step of the pass adds to the hoist sets and to the export
/// buffer.
pub struct Effects {
    /// Names added to the hoisted variables.
    pub vars: Seq<Seq<char>>,
    /// Names added to the hoisted classes.
    pub classes: Seq<Seq<char>>,
    /// Functions added to the hoisted function declarations.
    pub functions: Seq<NodeId>,
    /// Entries added to the export buffer.
    pub exports: Seq<PropertyView>,
}

/// A step that adds nothing.
pub open spec fn no_effects() -> Effects {
    Effects {
        vars: Seq::empty(),
        classes: Seq::empty(),
        functions: Seq::empty(),
        exports: Seq::empty(),
    }
}

/// What becomes of a declaration.
#[derive(Debug, PartialEq, Eq)]
pub enum Conversion {
    /// The declaration is not at a hoistable position and stays as it is.
    Unchanged,
    /// The declaration was hoisted as a whole and leaves nothing behind.
    Hoisted,
    /// The declaration is replaced by the comma expression of these
    /// assignments.
    Replaced(Vec<Expression>),
}

/// The model of a [`Conversion`].
pub enum ConversionView {
    Unchanged,
    Hoisted,
    Replaced(Seq<ExpressionView>),
}

impl View for Conversion {
    type V = ConversionView;

    open spec fn view(&self) -> ConversionView {
        match self {
            Conversion::Unchanged => ConversionView::Unchanged,
            Conversion::Hoisted => ConversionView::Hoisted,
            Conversion::Replaced(items) => ConversionView::Replaced(expressions_view(items@)),
        }
    }
}

/// The names that each declarator of a declaration binds.
pub open spec fn declarator_names(declaration: VariableDeclaration) -> Seq<Seq<Seq<char>>> {
    Seq::new(
        declaration.declarations.len() as nat,
        |i: int| binding_names(declaration.declarations[i].id),
    )
}

/// The names that a variable declaration binds, in source order.
pub open spec fn declared_variable_names(declaration: VariableDeclaration) -> Seq<Seq<char>> {
    declarator_names(declaration).flatten()
}

/// The initializers of a declaration, in source order; a declarator without
/// one gives none.
pub open spec fn initializers(declaration: VariableDeclaration) -> Seq<NodeId> {
    declaration.declarations@.filter_map(|declarator: VariableDeclarator| declarator.init)
}

/// The assignment that an operand of a comma expression is, if it is one.
pub open spec fn item_assignment(item: ParsedItem) -> Option<ParsedAssignment> {
    match item {
        ParsedItem::Assignment(assignment) => Some(assignment),
        ParsedItem::Other => None,
    }
}

/// The assignments of an expression that was read back: the expression
/// itself, or those operands of a comma expression that are assignments.
pub open spec fn parsed_assignments(parsed: ParsedExpression) -> Seq<ParsedAssignment> {
    match parsed {
        ParsedExpression::Assignment(assignment) => seq![assignment],
        ParsedExpression::Sequence(items) => items@.filter_map(
            |item: ParsedItem| item_assignment(item),
        ),
        ParsedExpression::Other => Seq::empty(),
    }
}

/// The value of the assignment at place `i`: the initializer at that place,
/// or the placeholder `void 0` where the initializers have run out.
pub open spec fn reattached_value(values: Seq<NodeId>, i: int) -> ExpressionView {
    if 0 <= i < values.len() {
        ExpressionView::Kept(values[i])
    } else {
        ExpressionView::Undefined
    }
}

/// The assignments with the initializers put back, pairwise and in order.
pub open spec fn reattached(
    targets: Seq<ParsedAssignment>,
    values: Seq<NodeId>,
) -> Seq<ExpressionView> {
    Seq::new(
        targets.len(),
        |i: int| assignment_of(TargetView::Kept(targets[i].node), reattached_value(values, i)),
    )
}

/// The assignments that replace a variable declaration.
pub open spec fn variable_assignments(
    declaration: VariableDeclaration,
    parsed: ParsedExpression,
) -> Seq<ExpressionView> {
    reattached(parsed_assignments(parsed), initializers(declaration))
}

/// The text of a printed `var` declaration without its keyword, if the text
/// starts with the keyword.
pub open spec fn without_keyword(code: Seq<char>) -> Option<Seq<char>> {
    if "var "@.is_prefix_of(code) {
        Some(code.subrange("var "@.len() as int, code.len() as int))
    } else {
        None
    }
}

/// Drops the leading `var ` of a printed declaration, so that what is left
/// reads as an expression. `None` when the text does not start with it.
pub fn strip_declaration_keyword(code: &str) -> (r: Option<String>)
    ensures
        r is Some <==> without_keyword(code@) is Some,
        r matches Some(rest) ==> Some(rest@) == without_keyword(code@),
{
    match strip_prefix(code, "var ") {
        Some(rest) => Some(rest.to_owned()),
        None => None,
    }
}

/// The initializers of a declaration, in source order.
pub fn declaration_initializers(declaration: &VariableDeclaration) -> (values: Vec<NodeId>)
    ensures
        values@ == initializers(*declaration),
{
    let ghost taken = |declarator: VariableDeclarator| declarator.init;
    let mut values: Vec<NodeId> = Vec::new();
    let mut i: usize = 0;
    while i < declaration.declarations.len()
        invariant
            i <= declaration.declarations.len(),
            taken == |declarator: VariableDeclarator| declarator.init,
            values@ == declaration.declarations@.take(i as int).filter_map(taken),
        decreases declaration.declarations.len() - i,
    {
        proof {
            declaration.declarations@.lemma_filter_map_take_succ(taken, i as int);
        }
        match declaration.declarations[i].init {
            Some(init) => {
                values.push(init);
            },
            None => {},
        }
        i += 1;
    }
    assert(declaration.declarations@.take(i as int) =~= declaration.declarations@);
    values
}

/// The assignments of an expression that was read back, in order.
pub fn assignments_of<'a>(parsed: &'a ParsedExpression) -> (found: Vec<&'a ParsedAssignment>)
    ensures
        found@.len() == parsed_assignments(*parsed).len(),
        forall|i: int| 0 <= i < found@.len() ==> *found@[i] == parsed_assignments(*parsed)[i],
{
    let mut found: Vec<&'a ParsedAssignment> = Vec::new();
    match parsed {
        ParsedExpression::Assignment(assignment) => {
            found.push(assignment);
        },
        ParsedExpression::Sequence(items) => {
            let ghost kept = |item: ParsedItem| item_assignment(item);
            let mut i: usize = 0;
            while i < items.len()
                invariant
                    i <= items.len(),
                    kept == |item: ParsedItem| item_assignment(item),
                    found@.len() == items@.take(i as int).filter_map(kept).len(),
                    forall|k: int|
                        0 <= k < found@.len() ==> *found@[k] == items@.take(i as int).filter_map(
                            kept,
                        )[k],
                decreases items.len() - i,
            {
                proof {
                    items@.lemma_filter_map_take_succ(kept, i as int);
                }
                match &items[i] {
                    ParsedItem::Assignment(assignment) => {
                        found.push(assignment);
                    },
                    ParsedItem::Other => {},
                }
                i += 1;
            }
            assert(items@.take(i as int) =~= items@);
        },
        ParsedExpression::Other => {},
    }
    found
}

/// Whether a variable declaration of this kind is converted at the position
/// of `state`: a `var` wherever declarations are hoisted, and any kind
/// directly in the program body.
pub open spec fn variable_converts(state: SystemJsTranspiler, kind: VariableDeclarationKind) -> bool {
    (state.valid_tla_scope() && kind == VariableDeclarationKind::Var) || state.strict_top_level()
}

/// Whether a declaration carries the name that its conversion at the
/// position of `state` needs: a class that is hoisted has one.
pub open spec fn conversion_is_named(state: SystemJsTranspiler, declaration: Declaration) -> bool {
    declaration matches Declaration::Class(class) ==> (state.valid_tla_scope() ==> class.id is Some)
}

/// What `convert_declaration` makes of a declaration at the position of
/// `state`: the additions to the hoist sets and the outcome, or the failure.
pub open spec fn declaration_conversion(
    state: SystemJsTranspiler,
    declaration: Declaration,
    reparsed: Option<&ParsedExpression>,
) -> Result<(Effects, ConversionView), TranspileError> {
    match declaration {
        Declaration::Variable(variable) if variable_converts(state, variable.kind) => match reparsed {
            Some(parsed) => Ok(
                (
                    Effects { vars: declared_variable_names(variable), ..no_effects() },
                    ConversionView::Replaced(variable_assignments(variable, *parsed)),
                ),
            ),
            None => Err(TranspileError::SubParseFailure),
        },
        Declaration::Function(function) if state.valid_tla_scope() => Ok(
            (Effects { functions: seq![function.node], ..no_effects() }, ConversionView::Hoisted),
        ),
        Declaration::Class(class) if state.valid_tla_scope() => Ok(
            (
                Effects { classes: seq![name_of(class.id)], ..no_effects() },
                ConversionView::Replaced(
                    seq![assign_named(name_of(class.id), ExpressionView::Class(class.node))],
                ),
            ),
        ),
        _ => Ok((no_effects(), ConversionView::Unchanged)),
    }
}

impl SystemJsTranspiler {
    /// Whether `self` is `before` with `effects` added: the hoist sets and
    /// the export buffer have grown at their ends by what `effects` lists,
    /// and nothing else has changed.
    pub open spec fn extends(self, before: SystemJsTranspiler, effects: Effects) -> bool {
        &&& self.options == before.options
        &&& self.scope_stack == before.scope_stack
        &&& self.path_stack == before.path_stack
        &&& self.imported_symbols == before.imported_symbols
        &&& self.imports == before.imports
        &&& self.importee == before.importee
        &&& strings_view(self.top_level_vars@) == strings_view(before.top_level_vars@)
            + effects.vars
        &&& self.top_level_function_decls@ == before.top_level_function_decls@ + effects.functions
        &&& strings_view(self.top_level_classes@) == strings_view(before.top_level_classes@)
            + effects.classes
        &&& properties_view(self.export_tree@) == properties_view(before.export_tree@)
            + effects.exports
    }

    /// Every state extends itself by nothing.
    pub proof fn lemma_extends_self(self)
        ensures
            self.extends(self, no_effects()),
    {
        assert(strings_view(self.top_level_vars@) + Seq::<Seq<char>>::empty() =~= strings_view(
            self.top_level_vars@,
        ));
        assert(self.top_level_function_decls@ + Seq::<NodeId>::empty()
            =~= self.top_level_function_decls@);
        assert(strings_view(self.top_level_classes@) + Seq::<Seq<char>>::empty() =~= strings_view(
            self.top_level_classes@,
        ));
        assert(properties_view(self.export_tree@) + Seq::<PropertyView>::empty()
            =~= properties_view(self.export_tree@));
    }

    /// Builds the assignments that replace a variable declaration: those of
    /// the expression that the host read back from the printed declaration,
    /// each with the initializer of its place in source order.
    pub fn hacked_var_decl_to_assignment(
        &self,
        decl: &VariableDeclaration,
        parsed: &ParsedExpression,
    ) -> (assignments: Vec<Expression>)
        ensures
            expressions_view(assignments@) == variable_assignments(*decl, *parsed),
    {
        let values = declaration_initializers(decl);
        let targets = assignments_of(parsed);
        let ghost expected = variable_assignments(*decl, *parsed);
        let mut assignments: Vec<Expression> = Vec::new();
        let mut i: usize = 0;
        while i < targets.len()
            invariant
                i <= targets.len(),
                values@ == initializers(*decl),
                targets@.len() == parsed_assignments(*parsed).len(),
                forall|k: int|
                    0 <= k < targets@.len() ==> *targets@[k] == parsed_assignments(*parsed)[k],
                expected == variable_assignments(*decl, *parsed),
                expressions_view(assignments@) == expected.take(i as int),
            decreases targets.len() - i,
        {
            let value = if i < values.len() {
                Expression::Kept(values[i])
            } else {
                Expression::Undefined
            };
            assert(value@ == reattached_value(values@, i as int));
            let target = Target::Kept(targets[i].node);
            assert(target@ == TargetView::Kept(targets[i as int].node));
            let item = assignment(target, value);
            let ghost before = assignments@;
            assignments.push(item);
            assert(expressions_view(assignments@) =~= expressions_view(before).push(item@));
            assert(expected.take(i + 1) =~= expected.take(i as int).push(expected[i as int]));
            i += 1;
        }
        assert(expected.take(i as int) =~= expected);
        assignments
    }

    /// The names that a variable declaration binds, in source order.
    pub fn declared_variable_symbols(&self, decl: &VariableDeclaration) -> (names: Vec<String>)
        ensures
            strings_view(names@) == declared_variable_names(*decl),
    {
        let ghost parts = declarator_names(*decl);
        let mut names: Vec<String> = Vec::new();
        let mut i: usize = 0;
        assert(parts.subrange(0, 0) =~= Seq::empty());
        assert(strings_view(names@) =~= Seq::empty());
        while i < decl.declarations.len()
            invariant
                i <= decl.declarations.len(),
                parts == declarator_names(*decl),
                strings_view(names@) == parts.subrange(0, i as int).flatten(),
            decreases decl.declarations.len() - i,
        {
            proof {
                lemma_parts_step(parts, i as int);
            }
            let more = self.extract_variable_symbols(&decl.declarations[i].id);
            append_names(&mut names, more);
            i += 1;
        }
        assert(parts.subrange(0, i as int) =~= parts);
        names
    }

    /// Converts a declaration at the current position.
    ///
    /// A variable declaration that is hoisted has its names added to the
    /// hoisted variables and is replaced by assignments; for these `reparsed`
    /// must hold what the host read back from the printed declaration, and
    /// the conversion fails without it. A function declaration at a hoistable
    /// position is moved to the hoisted functions. A class declaration at a
    /// hoistable position has its name added to the hoisted classes and is
    /// replaced by the assignment of a class expression to that name.
    /// Anything else is left alone. On failure the state is as before.
    ///
    /// A class declaration that is hoisted must carry a name.
    pub fn convert_declaration(
        &mut self,
        it: &Declaration,
        reparsed: Option<&ParsedExpression>,
    ) -> (r: Result<Conversion, TranspileError>)
        requires
            conversion_is_named(*old(self), *it),
        ensures
            match declaration_conversion(*old(self), *it, reparsed) {
                Ok((effects, conversion)) => {
                    &&& r matches Ok(converted)
                    &&& converted@ == conversion
                    &&& final(self).extends(*old(self), effects)
                },
                Err(error) => r == Err::<Conversion, TranspileError>(error) && *final(self) == *old(
                    self,
                ),
            },
    {
        proof {
            self.lemma_extends_self();
        }
        let hoistable = self.is_valid_tla_scope();
        match it {
            Declaration::Variable(variable) => {
                let is_var = match variable.kind {
                    VariableDeclarationKind::Var => true,
                    _ => false,
                };
                if (hoistable && is_var) || self.is_strict_top_level() {
                    match reparsed {
                        Some(parsed) => {
                            let names = self.declared_variable_symbols(variable);
                            let assignments = self.hacked_var_decl_to_assignment(variable, parsed);
                            append_names(&mut self.top_level_vars, names);
                            Ok(Conversion::Replaced(assignments))
                        },
                        None => Err(TranspileError::SubParseFailure),
                    }
                } else {
                    Ok(Conversion::Unchanged)
                }
            },
            Declaration::Function(function) => {
                if hoistable {
                    self.top_level_function_decls.push(function.node);
                    assert(self.top_level_function_decls@ =~= old(self).top_level_function_decls@
                        + seq![function.node]);
                    Ok(Conversion::Hoisted)
                } else {
                    Ok(Conversion::Unchanged)
                }
            },
            Declaration::Class(class) => {
                if hoistable {
                    let name = class.id.as_ref().unwrap();
                    let value = Expression::Class(class.node);
                    assert(value@ == ExpressionView::Class(class.node));
                    let assign = assign_identifier(name.as_str(), value);
                    let ghost before = self.top_level_classes@;
                    self.top_level_classes.push(name.clone());
                    assert(strings_view(self.top_level_classes@) =~= strings_view(before) + seq![
                        name@,
                    ]);
                    Ok(Conversion::Replaced(single_expression(assign)))
                } else {
                    Ok(Conversion::Unchanged)
                }
            },
            Declaration::Other => Ok(Conversion::Unchanged),
        }
    }
}

} // verus!
