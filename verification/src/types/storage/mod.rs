pub mod vertices;
