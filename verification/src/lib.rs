pub mod importing;
pub mod indexes;
pub mod models;
pub mod numbers;
pub mod printer;
pub mod text;
pub mod timefmt;
