use vstd::prelude::*;

pub mod contract;
pub mod decimal;
pub mod encode;
pub mod laws;
pub mod model;
pub mod msg;
pub mod state;
pub mod types;
