use vstd::prelude::*;

verus! {

/// A 32-byte hash.
#[derive(Debug, Clone, Copy, PartialEq, Eq)]
pub struct HashValue {
    pub bytes: [u8; 32],
}

/// What a block's execution reports about the limits it met.
#[derive(Debug, Clone, PartialEq, Eq, Structural)]
pub struct BlockEndInfo {
    /// Whether block gas limit was reached
    pub block_gas_limit_reached: bool,
    /// Whether block output limit was reached
    pub block_output_limit_reached: bool,
    pub block_effective_block_gas: u64,
    pub block_approx_output_size: u64,
}

/// The payload of the transaction that closes a block.
#[derive(Debug, Clone, PartialEq, Eq)]
pub enum BlockEpiloguePayload {
    BlockId(HashValue),
    WithBlockEndInfo { block_id: HashValue, block_end_info: BlockEndInfo },
}

impl BlockEpiloguePayload {
    /// The block end info, where the payload carries one.
    pub fn try_as_block_end_info(&self) -> (r: Option<&BlockEndInfo>)
        ensures
            match self {
                BlockEpiloguePayload::BlockId(_) => r is None,
                BlockEpiloguePayload::WithBlockEndInfo { block_end_info, .. } => r matches Some(
                    b,
                ) && *b == *block_end_info,
            },
    {
        match self {
            BlockEpiloguePayload::BlockId(_) => None,
            BlockEpiloguePayload::WithBlockEndInfo { block_end_info, .. } => Some(block_end_info),
        }
    }
}

} // verus!
