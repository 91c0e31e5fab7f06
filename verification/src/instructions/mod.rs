pub mod casino_vrf;
pub mod model;
