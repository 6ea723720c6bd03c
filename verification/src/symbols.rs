//! The declaration collector: the names that patterns bind, in source order.
use crate::ast::AssignmentTarget;
use crate::ast::AssignmentTargetMaybeDefault;
use crate::ast::AssignmentTargetProperty;
use crate::ast::BindingPattern;
use crate::js::strings_view;
use crate::transpiler::SystemJsTranspiler;
use vstd::prelude::*;

verus! {

/// The names that one element of an array pattern binds; a hole binds none.
pub open spec fn binding_element_names(element: Option<BindingPattern>) -> Seq<Seq<char>>
    decreases element, 1nat,
{
    match element {
        Some(pattern) => binding_names(pattern),
        None => Seq::empty(),
    }
}

/// For an array or object pattern, the names that each of its elements or
/// properties binds, one entry per element; empty for the other patterns.
pub open spec fn binding_parts(pattern: BindingPattern) -> Seq<Seq<Seq<char>>>
    decreases pattern, 0nat,
{
    match pattern {
        BindingPattern::Array { elements, rest } => Seq::new(
            elements.len() as nat,
            |i: int|
                if 0 <= i < elements.len() {
                    binding_element_names(elements[i])
                } else {
                    arbitrary()
                },
        ),
        BindingPattern::Object { properties, rest } => Seq::new(
            properties.len() as nat,
            |i: int|
                if 0 <= i < properties.len() {
                    binding_names(properties[i])
                } else {
                    arbitrary()
                },
        ),
        _ => Seq::empty(),
    }
}

/// The names that the rest element of a pattern binds.
pub open spec fn binding_rest_names(rest: Option<Box<BindingPattern>>) -> Seq<Seq<char>>
    decreases rest, 1nat,
{
    match rest {
        Some(pattern) => binding_names(*pattern),
        None => Seq::empty(),
    }
}

/// The leaf names of a binding pattern, left to right and depth first: an
/// identifier binds itself, a pattern with a default binds what its left side
/// binds, and an array or object pattern binds what its parts bind, in order,
/// and then what its rest element binds.
pub open spec fn binding_names(pattern: BindingPattern) -> Seq<Seq<char>>
    decreases pattern, 1nat,
{
    match pattern {
        BindingPattern::Identifier(name) => seq![name@],
        BindingPattern::Assignment(left) => binding_names(*left),
        BindingPattern::Array { elements, rest } => binding_parts(pattern).flatten()
            + binding_rest_names(rest),
        BindingPattern::Object { properties, rest } => binding_parts(pattern).flatten()
            + binding_rest_names(rest),
    }
}

/// The names that an element of a destructuring target assigns: with or
/// without a default value, those of its target.
pub open spec fn maybe_default_names(element: AssignmentTargetMaybeDefault) -> Seq<Seq<char>>
    decreases element, 1nat,
{
    match element {
        AssignmentTargetMaybeDefault::WithDefault(target) => target_names(target),
        AssignmentTargetMaybeDefault::Target(target) => target_names(target),
    }
}

/// The names that an element of an array target assigns; a hole assigns none.
pub open spec fn target_element_names(
    element: Option<AssignmentTargetMaybeDefault>,
) -> Seq<Seq<char>>
    decreases element, 1nat,
{
    match element {
        Some(element) => maybe_default_names(element),
        None => Seq::empty(),
    }
}

/// The names that a property of an object target assigns.
pub open spec fn target_property_names(property: AssignmentTargetProperty) -> Seq<Seq<char>>
    decreases property, 1nat,
{
    match property {
        AssignmentTargetProperty::Identifier(name) => seq![name@],
        AssignmentTargetProperty::Property(element) => maybe_default_names(element),
    }
}

/// For an array or object target, the names that each of its elements or
/// properties assigns, one entry per element; empty for a simple target.
pub open spec fn target_parts(target: AssignmentTarget) -> Seq<Seq<Seq<char>>>
    decreases target, 0nat,
{
    match target {
        AssignmentTarget::Array { elements, rest } => Seq::new(
            elements.len() as nat,
            |i: int|
                if 0 <= i < elements.len() {
                    target_element_names(elements[i])
                } else {
                    arbitrary()
                },
        ),
        AssignmentTarget::Object { properties, rest } => Seq::new(
            properties.len() as nat,
            |i: int|
                if 0 <= i < properties.len() {
                    target_property_names(properties[i])
                } else {
                    arbitrary()
                },
        ),
        AssignmentTarget::Simple(_) => Seq::empty(),
    }
}

/// The names that the rest element of a destructuring target assigns.
pub open spec fn target_rest_names(rest: Option<Box<AssignmentTarget>>) -> Seq<Seq<char>>
    decreases rest, 1nat,
{
    match rest {
        Some(target) => target_names(*target),
        None => Seq::empty(),
    }
}

/// The names that an assignment target assigns, left to right and depth
/// first. A simple target gives its name, if it has one. An array or object
/// target gives what its elements give, in order, and then what its rest
/// element gives; an element with a default value gives what its target
/// gives.
pub open spec fn target_names(target: AssignmentTarget) -> Seq<Seq<char>>
    decreases target, 1nat,
{
    match target {
        AssignmentTarget::Simple(Some(name)) => seq![name@],
        AssignmentTarget::Simple(None) => Seq::empty(),
        AssignmentTarget::Array { elements, rest } => target_parts(target).flatten()
            + target_rest_names(rest),
        AssignmentTarget::Object { properties, rest } => target_parts(target).flatten()
            + target_rest_names(rest),
    }
}

/// Appends `more` to `names`.
pub fn append_names(names: &mut Vec<String>, more: Vec<String>)
    ensures
        strings_view(final(names)@) == strings_view(old(names)@) + strings_view(more@),
{
    let mut more = more;
    let ghost before = names@;
    let ghost added = more@;
    names.append(&mut more);
    assert(strings_view(names@) =~= strings_view(before) + strings_view(added));
}

/// A vector that holds one name.
pub fn single_name(name: &String) -> (names: Vec<String>)
    ensures
        strings_view(names@) == seq![name@],
{
    let mut names: Vec<String> = Vec::new();
    names.push(name.clone());
    assert(strings_view(names@) =~= seq![name@]);
    names
}

/// A step of a loop over the parts of a pattern: the names of the first
/// `i + 1` parts are those of the first `i` followed by those of part `i`.
pub proof fn lemma_parts_step(parts: Seq<Seq<Seq<char>>>, i: int)
    requires
        0 <= i < parts.len(),
    ensures
        parts.subrange(0, i + 1).flatten() == parts.subrange(0, i).flatten() + parts[i],
{
    assert(parts.subrange(0, i + 1) =~= parts.subrange(0, i).push(parts[i]));
    parts.subrange(0, i).lemma_flatten_push(parts[i]);
}

impl SystemJsTranspiler {
    /// Flattens a binding pattern into the names it binds, left to right and
    /// depth first.
    pub fn extract_variable_symbols(&self, pattern: &BindingPattern) -> (names: Vec<String>)
        ensures
            strings_view(names@) == binding_names(*pattern),
        decreases pattern,
    {
        match pattern {
            BindingPattern::Identifier(name) => single_name(name),
            BindingPattern::Array { elements, rest } => {
                let ghost parts = binding_parts(*pattern);
                let mut names: Vec<String> = Vec::new();
                let mut i: usize = 0;
                assert(parts.subrange(0, 0) =~= Seq::empty());
                assert(strings_view(names@) =~= Seq::empty());
                while i < elements.len()
                    invariant
                        i <= elements.len(),
                        *pattern == (BindingPattern::Array { elements: *elements, rest: *rest }),
                        parts == binding_parts(*pattern),
                        strings_view(names@) == parts.subrange(0, i as int).flatten(),
                    decreases elements.len() - i,
                {
                    let ghost before = strings_view(names@);
                    proof {
                        lemma_parts_step(parts, i as int);
                    }
                    match &elements[i] {
                        Some(element) => {
                            assert(decreases_to!(*pattern => pattern->Array_elements));
                            assert(decreases_to!(*elements => elements[i as int]));
                            let more = self.extract_variable_symbols(element);
                            append_names(&mut names, more);
                        },
                        None => {
                            assert(before + Seq::<Seq<char>>::empty() =~= before);
                        },
                    }
                    i += 1;
                }
                assert(parts.subrange(0, i as int) =~= parts);
                let ghost front = strings_view(names@);
                match rest {
                    Some(rest_pattern) => {
                        let more = self.extract_variable_symbols(rest_pattern);
                        append_names(&mut names, more);
                    },
                    None => {
                        assert(front + Seq::<Seq<char>>::empty() =~= front);
                    },
                }
                assert(strings_view(names@) == front + binding_rest_names(*rest));
                assert(binding_names(*pattern) == parts.flatten() + binding_rest_names(*rest));
                names
            },
            BindingPattern::Object { properties, rest } => {
                let ghost parts = binding_parts(*pattern);
                let mut names: Vec<String> = Vec::new();
                let mut i: usize = 0;
                assert(parts.subrange(0, 0) =~= Seq::empty());
                assert(strings_view(names@) =~= Seq::empty());
                while i < properties.len()
                    invariant
                        i <= properties.len(),
                        *pattern == (BindingPattern::Object {
                            properties: *properties,
                            rest: *rest,
                        }),
                        parts == binding_parts(*pattern),
                        strings_view(names@) == parts.subrange(0, i as int).flatten(),
                    decreases properties.len() - i,
                {
                    proof {
                        lemma_parts_step(parts, i as int);
                    }
                    assert(decreases_to!(*pattern => pattern->Object_properties));
                    assert(decreases_to!(*properties => properties[i as int]));
                    let more = self.extract_variable_symbols(&properties[i]);
                    append_names(&mut names, more);
                    i += 1;
                }
                assert(parts.subrange(0, i as int) =~= parts);
                let ghost front = strings_view(names@);
                match rest {
                    Some(rest_pattern) => {
                        let more = self.extract_variable_symbols(rest_pattern);
                        append_names(&mut names, more);
                    },
                    None => {
                        assert(front + Seq::<Seq<char>>::empty() =~= front);
                    },
                }
                assert(strings_view(names@) == front + binding_rest_names(*rest));
                assert(binding_names(*pattern) == parts.flatten() + binding_rest_names(*rest));
                names
            },
            BindingPattern::Assignment(left) => self.extract_variable_symbols(left),
        }
    }

    /// The names that an element of a destructuring target assigns.
    fn maybe_default_symbols(&self, element: &AssignmentTargetMaybeDefault) -> (names: Vec<String>)
        ensures
            strings_view(names@) == maybe_default_names(*element),
        decreases element, 1nat,
    {
        match element {
            AssignmentTargetMaybeDefault::WithDefault(target) => self.extract_assignment_symbols(
                target,
            ),
            AssignmentTargetMaybeDefault::Target(target) => self.extract_assignment_symbols(target),
        }
    }

    /// Flattens an assignment target into the names it assigns, left to right
    /// and depth first. The pass publishes exports under the names that their
    /// declarations bind; this is the same question asked of an assignment.
    pub fn extract_assignment_symbols(&self, target: &AssignmentTarget) -> (names: Vec<String>)
        ensures
            strings_view(names@) == target_names(*target),
        decreases target, 0nat,
    {
        match target {
            AssignmentTarget::Simple(name) => {
                match name {
                    Some(name) => single_name(name),
                    None => {
                        let names: Vec<String> = Vec::new();
                        assert(strings_view(names@) =~= Seq::empty());
                        names
                    },
                }
            },
            AssignmentTarget::Array { elements, rest } => {
                let ghost parts = target_parts(*target);
                let mut names: Vec<String> = Vec::new();
                let mut i: usize = 0;
                assert(parts.subrange(0, 0) =~= Seq::empty());
                assert(strings_view(names@) =~= Seq::empty());
                while i < elements.len()
                    invariant
                        i <= elements.len(),
                        *target == (AssignmentTarget::Array { elements: *elements, rest: *rest }),
                        parts == target_parts(*target),
                        strings_view(names@) == parts.subrange(0, i as int).flatten(),
                    decreases elements.len() - i,
                {
                    let ghost before = strings_view(names@);
                    proof {
                        lemma_parts_step(parts, i as int);
                    }
                    match &elements[i] {
                        Some(element) => {
                            assert(decreases_to!(*target => target->Array_elements));
                            assert(decreases_to!(*elements => elements[i as int]));
                            let more = self.maybe_default_symbols(element);
                            append_names(&mut names, more);
                        },
                        None => {
                            assert(before + Seq::<Seq<char>>::empty() =~= before);
                        },
                    }
                    i += 1;
                }
                assert(parts.subrange(0, i as int) =~= parts);
                let ghost front = strings_view(names@);
                match rest {
                    Some(rest_target) => {
                        let more = self.extract_assignment_symbols(rest_target);
                        append_names(&mut names, more);
                    },
                    None => {
                        assert(front + Seq::<Seq<char>>::empty() =~= front);
                    },
                }
                names
            },
            AssignmentTarget::Object { properties, rest } => {
                let ghost parts = target_parts(*target);
                let mut names: Vec<String> = Vec::new();
                let mut i: usize = 0;
                assert(parts.subrange(0, 0) =~= Seq::empty());
                assert(strings_view(names@) =~= Seq::empty());
                while i < properties.len()
                    invariant
                        i <= properties.len(),
                        *target == (AssignmentTarget::Object {
                            properties: *properties,
                            rest: *rest,
                        }),
                        parts == target_parts(*target),
                        strings_view(names@) == parts.subrange(0, i as int).flatten(),
                    decreases properties.len() - i,
                {
                    proof {
                        lemma_parts_step(parts, i as int);
                    }
                    assert(decreases_to!(*target => target->Object_properties));
                    assert(decreases_to!(*properties => properties[i as int]));
                    match &properties[i] {
                        AssignmentTargetProperty::Identifier(name) => {
                            let more = single_name(name);
                            append_names(&mut names, more);
                        },
                        AssignmentTargetProperty::Property(element) => {
                            let more = self.maybe_default_symbols(element);
                            append_names(&mut names, more);
                        },
                    }
                    i += 1;
                }
                assert(parts.subrange(0, i as int) =~= parts);
                let ghost front = strings_view(names@);
                match rest {
                    Some(rest_target) => {
                        let more = self.extract_assignment_symbols(rest_target);
                        append_names(&mut names, more);
                    },
                    None => {
                        assert(front + Seq::<Seq<char>>::empty() =~= front);
                    },
                }
                names
            },
        }
    }
}

} // verus!
