//! A verified core of a JavaScript/TypeScript compiler front end.
//!
//! - `version`, `browser_data`, `feature`: target versions per platform, the
//!   feature compatibility matrix and the rule that decides which lowerings run.
//! - `preset`: the composer that orders the lowering stages and switches each on or off.
//! - `polyfill`: the usage scan and the injection of polyfill imports.
//! - `types`, `ast`, `ops`, `analyzer`, `extract`, `type_of`: the expression
//!   type analyzer, with call and `new` resolution and type expansion.
//! - `jsx`: the `__self` attribute injector.

pub mod version;
pub mod browser_data;
pub mod feature;
pub mod preset;
pub mod types;
pub mod ast;
pub mod ops;
pub mod analyzer;
pub mod extract;
pub mod type_of;
pub mod polyfill;
pub mod jsx;
