//! Isolated execution of provers on untrusted input.

pub mod container;
