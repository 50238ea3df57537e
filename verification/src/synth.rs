pub mod annotation;
pub mod expression;
pub mod laws;
pub mod statement;
pub mod support;

pub use annotation::synth_annotation;
pub use expression::{check, synth};
pub use statement::check_statement;
pub use support::{try_check, try_check_statement, try_synth, try_synth_annotation};
