pub mod middleware;
pub mod result;
