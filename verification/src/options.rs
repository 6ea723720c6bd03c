use vstd::prelude::*;

verus! {

/// Options recognised by the pass.
///
/// Only `allow_top_level_this` changes the output; the others are reserved.
#[derive(Debug)]
pub struct SystemJsTranspilerOptions {
    /// Emit a named registration (reserved).
    pub module_ids: bool,
    /// Explicit registration name (reserved).
    pub module_id: String,
    /// Base path from which a registration name would be computed (reserved).
    pub module_root: String,
    /// Keep a top-level `this` instead of rewriting it to `undefined`.
    pub allow_top_level_this: bool,
    /// Name of the registration global (reserved).
    pub system_global: String,
}

impl Default for SystemJsTranspilerOptions {
    fn default() -> (r: Self)
        ensures
            !r.module_ids,
            r.module_id@ == Seq::<char>::empty(),
            r.module_root@ == Seq::<char>::empty(),
            !r.allow_top_level_this,
            r.system_global@ == Seq::<char>::empty(),
    {
        SystemJsTranspilerOptions {
            module_ids: false,
            module_id: String::new(),
            module_root: String::new(),
            allow_top_level_this: false,
            system_global: String::new(),
        }
    }
}

} // verus!
