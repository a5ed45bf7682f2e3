//! The owned reflection tree: a one-shot, copied-out description of a runtime
//! class, struct or function, safe to retain after the originating foreign
//! lookup is gone.
pub mod class;
pub mod function;
pub mod property;
pub mod sort;
pub mod strct;
