//! Turning a module specifier into a name that can stand as an identifier.
use crate::syntax::identifier_part;
use crate::syntax::identifier_start;
use crate::syntax::is_identifier_part;
use crate::syntax::is_identifier_start;
use crate::syntax::push_char;
use crate::transpiler::SystemJsTranspiler;
use vstd::prelude::*;

verus! {

/// A character that may continue an identifier stays; any other becomes `_`.
pub open spec fn legitimized_char(c: char) -> char {
    if identifier_part(c) {
        c
    } else {
        '_'
    }
}

/// The legitimized form of a name. The empty name stays empty. A name whose
/// first character may start an identifier keeps it; otherwise a `_` is put in
/// front of the name. Every other character that may not continue an
/// identifier is replaced by `_`.
pub open spec fn legitimized(name: Seq<char>) -> Seq<char> {
    if name.len() == 0 {
        name
    } else if identifier_start(name[0]) {
        seq![name[0]] + name.drop_first().map_values(|c: char| legitimized_char(c))
    } else {
        seq!['_'] + name.map_values(|c: char| legitimized_char(c))
    }
}

impl SystemJsTranspiler {
    /// Makes an identifier name out of any text.
    pub fn legitimize_identifier_name(name: &str) -> (r: String)
        ensures
            r@ == legitimized(name@),
    {
        let mut legitimized_name = String::new();
        let mut first = true;
        for c in it: name.chars()
            invariant
                it.seq() == name@,
                first == (it.index() == 0),
                it.index() > 0 ==> legitimized_name@ == legitimized(
                    name@.subrange(0, it.index() as int),
                ),
                it.index() == 0 ==> legitimized_name@ == Seq::<char>::empty(),
        {
            if first {
                if is_identifier_start(c) {
                    push_char(&mut legitimized_name, c);
                } else {
                    push_char(&mut legitimized_name, '_');
                    if is_identifier_part(c) {
                        push_char(&mut legitimized_name, c);
                    } else {
                        push_char(&mut legitimized_name, '_');
                    }
                }
                first = false;
            } else {
                if is_identifier_part(c) {
                    push_char(&mut legitimized_name, c);
                } else {
                    push_char(&mut legitimized_name, '_');
                }
            }
        }
        legitimized_name
    }
}

} // verus!
