//! The kinds of vault token.

pub mod cw20;
pub mod cw4626;
pub mod neutron;
pub mod osmosis;
