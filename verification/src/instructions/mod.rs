pub mod claim;
pub mod initialize;
pub mod merge;
pub mod split;
pub mod winner;
