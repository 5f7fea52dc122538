pub mod evaluate;
pub mod parse;
pub mod tokenize;

pub use evaluate::evaluate;
pub use parse::parse;
pub use tokenize::tokenize;
