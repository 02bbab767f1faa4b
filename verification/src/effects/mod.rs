//! Card effects: common primitives, Pokemon abilities and attacks, trainers,
//! tools, stadiums, energy, and the dispatch from effect identifiers.

pub mod common;
pub mod dispatch;
pub mod energy;
pub mod pokemon;
pub mod stadiums;
pub mod tools;
pub mod trainers;

