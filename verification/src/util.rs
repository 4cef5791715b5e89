//! Small building blocks shared by the rendering modules.

pub mod bitflag;
pub mod input;
pub mod math;
pub mod text;
pub mod variable;
