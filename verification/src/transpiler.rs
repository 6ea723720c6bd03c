//! The state of the pass, and the scope classifier.
use crate::ast::ExportAllDeclaration;
use crate::ast::ImportDeclaration;
use crate::ast::NodeId;
use crate::ast::NodeKind;
use crate::ast::ScopeFlags;
use crate::ast::ScopeKind;
use crate::js::Property;
use crate::options::SystemJsTranspilerOptions;
use vstd::prelude::*;

verus! {

/// A dependency of the module: the statement that names it.
#[derive(Debug, PartialEq, Eq)]
pub enum ImportMap {
    ImportDeclaration(ImportDeclaration),
    ExportAllDeclaration(ExportAllDeclaration),
}

impl ImportMap {
    /// The module specifier of the dependency.
    pub open spec fn source(self) -> Seq<char> {
        match self {
            ImportMap::ImportDeclaration(import) => import.source@,
            ImportMap::ExportAllDeclaration(export) => export.source@,
        }
    }
}

/// The pass: what one walk over a module has collected so far.
pub struct SystemJsTranspiler {
    pub options: SystemJsTranspilerOptions,
    /// The scopes around the current position, outermost first.
    pub scope_stack: Vec<ScopeKind>,
    /// The nodes around the current position, outermost first.
    pub path_stack: Vec<NodeKind>,
    /// Names of hoisted variables.
    pub top_level_vars: Vec<String>,
    /// Hoisted function declarations.
    pub top_level_function_decls: Vec<NodeId>,
    /// Names of hoisted classes.
    pub top_level_classes: Vec<String>,
    /// Local names of imported bindings.
    pub imported_symbols: Vec<String>,
    /// The dependencies, in the order in which the walk met them.
    pub imports: Vec<ImportMap>,
    /// The module specifiers of the dependencies, in the same order.
    pub importee: Vec<String>,
    /// Exports that are published in bulk when the module is registered.
    pub export_tree: Vec<Property>,
}

impl SystemJsTranspiler {
    /// The dependency list and the specifier list run in step: equally long,
    /// and each specifier is that of the dependency at the same place.
    pub open spec fn wf(self) -> bool {
        &&& self.imports.len() == self.importee.len()
        &&& forall|i: int|
            0 <= i < self.imports.len() ==> (#[trigger] self.importee[i])@ == self.imports[i].source()
    }

    /// The kind of the scope with these flags, entered at the current
    /// position: the scope of a class where the innermost node is a class
    /// (the flags do not tell it from a strict block); else the top scope or
    /// a block where the flags say so; else a function.
    pub open spec fn entered_scope(self, flags: ScopeFlags) -> ScopeKind {
        if self.path_stack@.len() > 0 && self.path_stack@.last() == NodeKind::Class {
            ScopeKind::Class
        } else if flags.top() {
            ScopeKind::Top
        } else if flags.block() {
            ScopeKind::Block
        } else {
            ScopeKind::Function
        }
    }

    /// Whether every scope around the current position is a block or the top
    /// scope: no function and no class lies between the position and the
    /// program root.
    pub open spec fn valid_tla_scope(self) -> bool {
        forall|i: int|
            0 <= i < self.scope_stack.len() ==> {
                let kind = #[trigger] self.scope_stack[i];
                kind == ScopeKind::Block || kind == ScopeKind::Top
            }
    }

    /// Whether the program root is the one node around the current position.
    pub open spec fn strict_top_level(self) -> bool {
        self.path_stack.len() == 1 && self.path_stack[0] == NodeKind::Program
    }

    /// A pass that has seen nothing yet.
    pub fn new(options: SystemJsTranspilerOptions) -> (r: Self)
        ensures
            r.wf(),
            r.options == options,
            r.scope_stack@.len() == 0,
            r.path_stack@.len() == 0,
            r.top_level_vars@.len() == 0,
            r.top_level_function_decls@.len() == 0,
            r.top_level_classes@.len() == 0,
            r.imported_symbols@.len() == 0,
            r.imports@.len() == 0,
            r.importee@.len() == 0,
            r.export_tree@.len() == 0,
    {
        SystemJsTranspiler {
            options,
            scope_stack: Vec::new(),
            path_stack: Vec::new(),
            top_level_vars: Vec::new(),
            top_level_function_decls: Vec::new(),
            top_level_classes: Vec::new(),
            imported_symbols: Vec::new(),
            imports: Vec::new(),
            importee: Vec::new(),
            export_tree: Vec::new(),
        }
    }

    /// The walk enters a scope.
    pub fn enter_scope(&mut self, flags: ScopeFlags)
        ensures
            *final(self) == (SystemJsTranspiler {
                scope_stack: final(self).scope_stack,
                ..*old(self)
            }),
            final(self).scope_stack@ == old(self).scope_stack@.push(
                old(self).entered_scope(flags),
            ),
    {
        let depth = self.path_stack.len();
        let kind = if depth > 0 && self.path_stack[depth - 1] == NodeKind::Class {
            ScopeKind::Class
        } else if flags.is_top() {
            ScopeKind::Top
        } else if flags.is_block() {
            ScopeKind::Block
        } else {
            ScopeKind::Function
        };
        self.scope_stack.push(kind);
    }

    /// The walk leaves the innermost scope. Without a scope to leave, nothing
    /// changes.
    pub fn leave_scope(&mut self)
        ensures
            *final(self) == (SystemJsTranspiler {
                scope_stack: final(self).scope_stack,
                ..*old(self)
            }),
            old(self).scope_stack@.len() > 0 ==> final(self).scope_stack@ == old(
                self,
            ).scope_stack@.drop_last(),
            old(self).scope_stack@.len() == 0 ==> final(self).scope_stack@ == old(
                self,
            ).scope_stack@,
    {
        self.scope_stack.pop();
    }

    /// The walk enters a node.
    pub fn enter_node(&mut self, kind: NodeKind)
        ensures
            *final(self) == (SystemJsTranspiler {
                path_stack: final(self).path_stack,
                ..*old(self)
            }),
            final(self).path_stack@ == old(self).path_stack@.push(kind),
    {
        self.path_stack.push(kind);
    }

    /// The walk leaves the innermost node. Without a node to leave, nothing
    /// changes.
    pub fn leave_node(&mut self, _kind: NodeKind)
        ensures
            *final(self) == (SystemJsTranspiler {
                path_stack: final(self).path_stack,
                ..*old(self)
            }),
            old(self).path_stack@.len() > 0 ==> final(self).path_stack@ == old(
                self,
            ).path_stack@.drop_last(),
            old(self).path_stack@.len() == 0 ==> final(self).path_stack@ == old(self).path_stack@,
    {
        self.path_stack.pop();
    }

    /// Whether declarations at the current position are hoisted: no function
    /// or class body lies between the position and the program root.
    pub fn is_valid_tla_scope(&self) -> (r: bool)
        ensures
            r == self.valid_tla_scope(),
    {
        let mut i: usize = self.scope_stack.len();
        while i > 0
            invariant
                i <= self.scope_stack.len(),
                forall|k: int|
                    i <= k < self.scope_stack.len() ==> {
                        let kind = #[trigger] self.scope_stack[k];
                        kind == ScopeKind::Block || kind == ScopeKind::Top
                    },
            decreases i,
        {
            i -= 1;
            match self.scope_stack[i] {
                ScopeKind::Block => {},
                ScopeKind::Top => {},
                _ => {
                    return false;
                },
            }
        }
        true
    }

    /// Whether the current statement stands directly in the program body.
    pub fn is_strict_top_level(&self) -> (r: bool)
        ensures
            r == self.strict_top_level(),
    {
        self.path_stack.len() == 1 && self.path_stack[0] == NodeKind::Program
    }
}

} // verus!
