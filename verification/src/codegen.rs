//! Options of an agent: how their values are read, and the code that is
//! generated to read them.

pub mod __private;
pub mod options;
