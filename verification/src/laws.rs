//! What holds of the pass as a whole, proved from the contracts of its steps.
use crate::ast::BodyStatement;
use crate::ast::BodyStatementKind;
use crate::ast::ImportDeclaration;
use crate::ast::ImportDeclarationSpecifier;
use crate::ast::ParsedExpression;
use crate::convert::Effects;
use crate::js::assign_named;
use crate::js::member_of;
use crate::js::ExpressionView;
use crate::js::StatementView;
use crate::setters::import_setter;
use crate::setters::setter_of;
use crate::setters::setter_parameter;
use crate::setters::setters_of;
use crate::setters::specifier_local;
use crate::setters::specifier_property;
use crate::transpiler::ImportMap;
use crate::transpiler::SystemJsTranspiler;
use crate::visit::bulk_publish;
use crate::visit::dependencies;
use crate::visit::entry;
use crate::visit::execute_body;
use crate::visit::factory_body;
use crate::visit::hoisted_declaration;
use crate::visit::hoisted_functions;
use crate::visit::hoisted_names;
use crate::visit::registration_record;
use crate::visit::statement_outcome;
use vstd::prelude::*;

verus! {

/// A step that only adds to the hoist sets and the export buffer keeps the
/// dependency list and the specifier list in step.
pub proof fn law_statement_keeps_dependencies(
    before: SystemJsTranspiler,
    after: SystemJsTranspiler,
    effects: Effects,
)
    requires
        before.wf(),
        after.extends(before, effects),
    ensures
        after.wf(),
        after.imports == before.imports,
        after.importee == before.importee,
{
}

/// A new dependency keeps the dependency list and the specifier list in
/// step, and stands behind all earlier ones.
pub proof fn law_dependency_is_appended(
    before: SystemJsTranspiler,
    after: SystemJsTranspiler,
    import: ImportMap,
    locals: Seq<Seq<char>>,
)
    requires
        before.wf(),
        after.records(before, import, locals),
    ensures
        after.wf(),
        after.imports@.len() == before.imports@.len() + 1,
        after.imports@.last() == import,
        forall|i: int| 0 <= i < before.imports@.len() ==> after.imports@[i] == before.imports@[i],
{
    assert(crate::js::strings_view(after.importee@).len() == after.importee@.len());
    assert(crate::js::strings_view(before.importee@).len() == before.importee@.len());
    assert(after.importee@.len() == after.imports@.len());
    assert forall|i: int| 0 <= i < after.imports.len() implies (#[trigger] after.importee[i])@
        == after.imports[i].source() by {
        assert(crate::js::strings_view(after.importee@)[i] == after.importee[i]@);
        if i < before.imports.len() {
            assert(crate::js::strings_view(before.importee@)[i] == before.importee[i]@);
        }
    }
}

/// One step of a walk, as far as the dependencies go.
pub enum Step {
    /// The walk meets an import or an `export * from` declaration.
    Dependency { import: ImportMap, locals: Seq<Seq<char>> },
    /// Any other step.
    Other,
}

/// The dependency that a step meets, if it meets one.
pub open spec fn step_dependency(step: Step) -> Option<ImportMap> {
    match step {
        Step::Dependency { import, locals } => Some(import),
        Step::Other => None,
    }
}

/// Whether `after` is what a step can make of `before`: a dependency is
/// recorded as `visit_import_declaration` and `visit_export_all_declaration`
/// do it, and every other step leaves the dependencies alone.
pub open spec fn follows(before: SystemJsTranspiler, after: SystemJsTranspiler, step: Step) -> bool {
    match step {
        Step::Dependency { import, locals } => after.records(before, import, locals),
        Step::Other => after.imports == before.imports && after.importee == before.importee,
    }
}

/// Whether the states are those of a walk that makes the steps in order.
pub open spec fn is_walk(states: Seq<SystemJsTranspiler>, steps: Seq<Step>) -> bool {
    &&& states.len() == steps.len() + 1
    &&& forall|i: int|
        0 <= i < steps.len() ==> follows(states[i], states[i + 1], #[trigger] steps[i])
}

/// At the end of a walk that began without dependencies, the dependency list
/// holds the import and `export * from` declarations that the walk has met,
/// one entry for each, in the order in which it met them; the dependency
/// array and the setter array of the registration are that long.
pub proof fn law_dependencies_follow_the_walk(states: Seq<SystemJsTranspiler>, steps: Seq<Step>)
    requires
        is_walk(states, steps),
        states[0].wf(),
        states[0].imports@.len() == 0,
    ensures
        states.last().wf(),
        states.last().imports@ == steps.filter_map(|step: Step| step_dependency(step)),
        dependencies(states.last()).len() == steps.filter_map(
            |step: Step| step_dependency(step),
        ).len(),
        setters_of(states.last().imports@).len() == steps.filter_map(
            |step: Step| step_dependency(step),
        ).len(),
    decreases steps.len(),
{
    let met = |step: Step| step_dependency(step);
    if steps.len() == 0 {
        assert(states.last().imports@ =~= steps.filter_map(met));
    } else {
        let earlier = states.drop_last();
        assert(is_walk(earlier, steps.drop_last())) by {
            assert forall|i: int| 0 <= i < steps.drop_last().len() implies follows(
                earlier[i],
                earlier[i + 1],
                #[trigger] steps.drop_last()[i],
            ) by {
                assert(follows(states[i], states[i + 1], steps[i]));
            }
        }
        law_dependencies_follow_the_walk(earlier, steps.drop_last());
        let before = earlier.last();
        let after = states.last();
        assert(before == states[steps.len() - 1]);
        assert(follows(before, after, steps[steps.len() - 1]));
        match steps.last() {
            Step::Dependency { import, locals } => {
                law_dependency_is_appended(before, after, import, locals);
                assert(after.imports@ =~= steps.filter_map(met));
            },
            Step::Other => {
                assert(after.imports@ =~= steps.filter_map(met));
            },
        }
    }
}

/// The dependency array and the setter array of the registration are as long
/// as the dependency list, and at every place stand the module specifier and
/// the setter of the dependency that was met at that place.
pub proof fn law_setters_align_with_dependencies(state: SystemJsTranspiler)
    requires
        state.wf(),
    ensures
        dependencies(state).len() == state.imports@.len(),
        setters_of(state.imports@).len() == state.imports@.len(),
        forall|i: int|
            0 <= i < state.imports@.len() ==> {
                &&& #[trigger] dependencies(state)[i] == ExpressionView::StringLiteral(
                    state.imports@[i].source(),
                )
                &&& setters_of(state.imports@)[i] == setter_of(state.imports@[i])
            },
{
    assert forall|i: int| 0 <= i < state.imports@.len() implies #[trigger] dependencies(state)[i]
        == ExpressionView::StringLiteral(state.imports@[i].source()) by {
        assert(state.importee[i]@ == state.imports[i].source());
    }
}

/// The setter of an import declaration takes the namespace object as its one
/// parameter and holds one assignment per specifier, in source order: a
/// default import reads `.default`, a namespace import the whole object, a
/// named import the property of the imported name.
pub proof fn law_setter_matches_specifiers(
    import: ImportDeclaration,
    specifiers: Vec<ImportDeclarationSpecifier>,
)
    requires
        import.specifiers == Some(specifiers),
    ensures
        import_setter(import) is Function,
        import_setter(import)->Function_parameters == seq![setter_parameter(import.source@)],
        import_setter(import)->Function_body.len() == specifiers@.len(),
        forall|i: int|
            0 <= i < specifiers@.len() ==> #[trigger] import_setter(import)->Function_body[i]
                == StatementView::Expression(
                assign_named(
                    specifier_local(specifiers@[i]),
                    match specifiers@[i] {
                        ImportDeclarationSpecifier::Default { local } => member_of(
                            ExpressionView::Identifier(setter_parameter(import.source@)),
                            "default"@,
                        ),
                        ImportDeclarationSpecifier::Namespace { local } => ExpressionView::Identifier(
                            setter_parameter(import.source@),
                        ),
                        ImportDeclarationSpecifier::Named { imported, local } => member_of(
                            ExpressionView::Identifier(setter_parameter(import.source@)),
                            specifier_property(imported, local),
                        ),
                    },
                ),
            ),
{
}

/// A statement that is no export adds nothing to the export buffer.
pub proof fn law_only_exports_are_buffered(
    state: SystemJsTranspiler,
    it: crate::ast::Statement,
    reparsed: Option<&ParsedExpression>,
)
    requires
        !(it is ExportNamed),
        !(it is ExportDefault),
    ensures
        statement_outcome(state, it, reparsed) matches Ok((effects, rewrite))
            ==> effects.exports.len() == 0,
{
}

/// A module without imports and exports registers no dependency and no
/// setter and publishes nothing: its factory declares the hoisted names,
/// holds the hoisted functions, and returns the record whose `execute` runs
/// the statements of the body.
pub proof fn law_plain_module(state: SystemJsTranspiler, body: Seq<BodyStatement>)
    requires
        state.wf(),
        state.imports@.len() == 0,
        state.export_tree@.len() == 0,
    ensures
        dependencies(state) == Seq::<ExpressionView>::empty(),
        setters_of(state.imports@) == Seq::<ExpressionView>::empty(),
        bulk_publish(state) == Seq::<StatementView>::empty(),
        factory_body(state, body) == seq![hoisted_declaration(hoisted_names(state))]
            + hoisted_functions(state) + seq![
            StatementView::Return(
                ExpressionView::Object(
                    seq![
                        entry("setters"@, ExpressionView::Array(Seq::empty())),
                        entry(
                            "execute"@,
                            ExpressionView::Function {
                                parameters: Seq::empty(),
                                strict: false,
                                body: execute_body(body),
                            },
                        ),
                    ],
                ),
            ),
        ],
{
    assert(dependencies(state) =~= Seq::<ExpressionView>::empty());
    assert(setters_of(state.imports@) =~= Seq::<ExpressionView>::empty());
    assert(factory_body(state, body) =~= seq![hoisted_declaration(hoisted_names(state))]
        + hoisted_functions(state) + seq![
        StatementView::Return(registration_record(state, body)),
    ]);
}

/// `execute` holds statements of the source only: the pass never puts a
/// registration call of its own into the body that it wraps.
pub proof fn law_execute_holds_kept_statements(body: Seq<BodyStatement>, i: int)
    requires
        0 <= i < execute_body(body).len(),
    ensures
        execute_body(body)[i] is Kept,
    decreases body.len(),
{
    let keep = |statement: BodyStatement| crate::visit::kept_statement(statement);
    if body.len() > 0 {
        if i < body.drop_last().filter_map(keep).len() {
            law_execute_holds_kept_statements(body.drop_last(), i);
        }
    }
}

/// `execute` misses no statement of the body but the empty ones, and holds
/// the others in their order: its body is the body without its empty
/// statements, each statement kept as it is.
pub proof fn law_execute_drops_only_empty_statements(body: Seq<BodyStatement>)
    ensures
        execute_body(body) == body.filter(
            |statement: BodyStatement| statement.kind != BodyStatementKind::Empty,
        ).map_values(|statement: BodyStatement| StatementView::Kept(statement.node)),
    decreases body.len(),
{
    let keep = |statement: BodyStatement| crate::visit::kept_statement(statement);
    let stays = |statement: BodyStatement| statement.kind != BodyStatementKind::Empty;
    let kept = |statement: BodyStatement| StatementView::Kept(statement.node);
    reveal(Seq::filter);
    if body.len() > 0 {
        law_execute_drops_only_empty_statements(body.drop_last());
        assert(execute_body(body) =~= body.filter(stays).map_values(kept));
    } else {
        assert(execute_body(body) =~= body.filter(stays).map_values(kept));
    }
}

/// `execute` runs the statements of the body in their order: where none of
/// them is empty, its body holds them all.
pub proof fn law_execute_keeps_statements(body: Seq<BodyStatement>)
    requires
        forall|i: int| 0 <= i < body.len() ==> (#[trigger] body[i]).kind == BodyStatementKind::Other,
    ensures
        execute_body(body) == Seq::new(body.len(), |i: int| StatementView::Kept(body[i].node)),
    decreases body.len(),
{
    let keep = |statement: BodyStatement| crate::visit::kept_statement(statement);
    if body.len() > 0 {
        law_execute_keeps_statements(body.drop_last());
        assert(execute_body(body) == body.drop_last().filter_map(keep) + seq![
            StatementView::Kept(body.last().node),
        ]);
        assert(execute_body(body) =~= Seq::new(
            body.len(),
            |i: int| StatementView::Kept(body[i].node),
        ));
    } else {
        assert(execute_body(body) =~= Seq::new(
            body.len(),
            |i: int| StatementView::Kept(body[i].node),
        ));
    }
}

} // verus!
