//! Emission of C declarations: the type model, the declarator synthesizer,
//! and the function-body builder.

pub mod function;
pub mod types;
