pub mod casino;
