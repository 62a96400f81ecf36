use vstd::prelude::*;

pub mod account;
pub mod aggregation;
pub mod aug_data;
pub mod block_epilogue;
pub mod engine;
pub mod laws;
pub mod network_loss;

verus! {

} // verus!
