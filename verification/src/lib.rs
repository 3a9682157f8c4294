//! Invariant guards for methods.
//!
//! Given a method declaration and the name of an invariant predicate, this
//! library produces two methods: the declaration's body under an internal
//! name, and a wrapper under the declared name that calls it and checks the
//! invariant on entry, on exit, or both.
//!
//! The configuration is a list of tokens (`token`), of which `attr` makes
//! the predicate's name and a timing (`timing`). From the declaration
//! `signature` takes what a wrapper has to reproduce and to forward.
//! `synth` builds the two methods, `render` writes them out as source
//! text, and `guard` says how a call of the wrapper proceeds. `laws` holds
//! what is proved of all of this. `source` reads the configuration and the
//! declaration from source text.

pub mod attr;
pub mod error;
pub mod guard;
pub mod laws;
pub mod render;
pub mod signature;
pub mod source;
pub mod synth;
pub mod text;
pub mod timing;
pub mod token;

pub use attr::{parse_attribute, AttrList, AttributeSpec};
pub use error::TransformError;
pub use guard::{CallAction, CallEvent, CallState, InvariantViolation};
pub use signature::{extract_signature, MethodDecl, MethodSignature, Param};
pub use source::{expand_parsed, expand_source, read_method, reserve_keywords, tokenize};
pub use synth::{
    check_invariant, synthesize, GuardedCall, MethodBody, MethodDefinition, TransformationResult,
};
pub use timing::{parse_timing_keyword, Phase, TimingPolicy};
pub use token::ConfigToken;
