//! Rewrites an ECMAScript module into SystemJS registration form:
//!
//! ```text
//! System.register([dependencies], function (_exports) {
//!   "use strict";
//!   var <hoisted names>;
//!   <hoisted function declarations>
//!   _exports({ <buffered exports> });
//!   return {
//!     setters: [function (_dependency) { <bindings> }, ...],
//!     execute: function () { <rewritten body> }
//!   };
//! });
//! ```
//!
//! The pass is driven by one depth-first walk over the syntax tree of the
//! module. Parsing, walking and printing are the work of a host that uses the
//! `oxc` toolchain; this library holds every decision of the rewrite. The host
//! owns the tree. For each node that the pass decides on, it hands a plain
//! summary of the node (module [`ast`]) to the
//! [`SystemJsTranspiler`](transpiler::SystemJsTranspiler), which answers with
//! the tree that takes the node's place (module [`js`]). Subtrees that are
//! carried over unchanged are named by [`NodeId`](ast::NodeId) handles that
//! the host gives out and resolves.
//!
//! The steps of a walk, in the order in which the host makes them:
//!
//! - `enter_scope` / `leave_scope` and `enter_node` / `leave_node`, around
//!   every scope and node;
//! - `visit_import_declaration` and `visit_export_all_declaration`, at these
//!   declarations;
//! - `visit_expression`, before the walk goes into an expression;
//! - `visit_statement`, after the walk has been through a statement, provided
//!   that `has_required_names` holds of it: a function or class that is
//!   exported, and a class that is hoisted, must carry a name, and the host
//!   gives up a module in which one does not. Where
//!   `needs_reparse` says so, the host first prints the declaration of the
//!   statement with `var` for its keyword and `void 0` for every initializer,
//!   takes the keyword off with
//!   [`strip_declaration_keyword`](convert::strip_declaration_keyword), and
//!   reads the rest back as an expression;
//! - `visit_program`, when the walk has returned to the root.
//!
//! Module [`laws`] states what holds across these steps.
pub mod ast;
pub mod convert;
pub mod error;
pub mod identifier;
pub mod js;
pub mod laws;
pub mod options;
pub mod setters;
pub mod symbols;
pub mod syntax;
pub mod transpiler;
pub mod visit;

pub use crate::error::TranspileError;
pub use crate::options::SystemJsTranspilerOptions;
pub use crate::transpiler::ImportMap;
pub use crate::transpiler::SystemJsTranspiler;
