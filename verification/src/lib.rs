//! Decision logic for a two-node push-button selector: a controller that
//! debounces a button into a four-valued selector and an actuator that turns
//! the selector's one-byte code into one of three indicator outputs.

pub mod actuator;
pub mod controller;
pub mod debounce;
pub mod indicator;
pub mod level;
pub mod link;
pub mod peer;
pub mod selector;
