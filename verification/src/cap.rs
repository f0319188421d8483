//! Space limits of one execution.

use vstd::prelude::*;

verus! {

/// Space limits of one execution.
#[derive(Debug, Clone, Copy)]
pub struct SpaceCap {
    pub max_gas_of_tx: usize,
    pub call_depth: usize,
    pub load_contract: usize,
    pub max_value_size: usize,
    pub total_stack: usize,
    pub total_local: usize,
    pub max_heap_seg: usize,
    pub max_global: usize,
    pub max_memory: usize,
    pub max_contract_size: usize,
    pub inherits_parent: usize,
    pub librarys_link: usize,
}

impl SpaceCap {
    /// The limits in force at a block height (the same at every height).
    pub fn new(_hei: u64) -> (r: SpaceCap)
        ensures
            r.max_gas_of_tx == 65535,
            r.call_depth == 16,
            r.load_contract == 20,
            r.max_value_size == 2048,
            r.total_stack == 256,
            r.total_local == 256,
            r.max_heap_seg == 64,
            r.max_global == 20,
            r.max_memory == 12,
            r.max_contract_size == 65535 * 2,
            r.inherits_parent == 4,
            r.librarys_link == 250,
    {
        SpaceCap {
            max_gas_of_tx: 65535,
            call_depth: 16,
            load_contract: 20,
            max_value_size: 2048,
            total_stack: 256,
            total_local: 256,
            max_heap_seg: 64,
            max_global: 20,
            max_memory: 12,
            max_contract_size: 65535 * 2,
            inherits_parent: 4,
            librarys_link: 250,
        }
    }
}

} // verus!
