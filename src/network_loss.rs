use vstd::prelude::*;

verus! {

/// The share of packets dropped while the test runs, in percent.
pub const LOSS_PERCENTAGE: u64 = 20;

/// The correlation between successive drops, in percent.
pub const CORRELATION_PERCENTAGE: u64 = 10;

/// A network test that makes the network drop a share of its packets.
pub struct NetworkLossTest;

impl NetworkLossTest {
    pub fn name(&self) -> (r: &'static str)
        ensures
            r@ == "network::loss-test"@,
    {
        "network::loss-test"
    }

    /// The loss to inject: the share of packets dropped and the correlation
    /// between drops, both in percent.
    pub fn loss(&self) -> (r: (u64, u64))
        ensures
            r == (LOSS_PERCENTAGE, CORRELATION_PERCENTAGE),
    {
        (LOSS_PERCENTAGE, CORRELATION_PERCENTAGE)
    }
}

} // verus!
