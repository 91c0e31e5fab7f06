pub mod errors;
pub mod instructions;
pub mod state;
pub mod utils;
