pub mod text;
pub mod rows;
pub mod release;
pub mod pages;
pub mod model;
pub mod laws;
