//! Rewrites `async` functions and `await` expressions of a JavaScript syntax
//! tree into generator functions driven by the `_ngAsyncToGenerator` runtime
//! helper.
//!
//! - [`ast`]: the tree and its model.
//! - [`scan`]: the suspension and context probes and rewriters.
//! - [`builders`]: the nodes the rewritten forms are made of.
//! - [`transforms`]: the generator builder and the four construct transformers.
//! - [`hoist`]: placement of hoisted helper declarations.
//! - [`names`]: the generated wrapper names.
//! - [`bound`]: a bound on the number of generated names.
//! - [`walker`]: the pass over a whole module.
//! - [`laws`]: properties of the pass, proved over the model.
//! - [`config`]: the options of the pass.

pub mod ast;
pub mod bound;
pub mod builders;
pub mod config;
pub mod hoist;
pub mod laws;
pub mod names;
pub mod scan;
pub mod transforms;
pub mod walker;
