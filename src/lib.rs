//! Keeps a desktop's keyboard layout in step with the application that has
//! focus: the decision logic of the focus-tracking engine, over plain values
//! that the operating-system binding hands in.

pub mod locale;
pub mod policy;
pub mod system;
pub mod control;
