//! Host actions, environment reads and views callable from contracts, by id,
//! with their display names, return types and argument counts.

use vstd::prelude::*;
use crate::value::ValueTy;

verus! {

/// A host definition: id, display name, return type, argument count.
pub type ActDefTy = (u8, &'static str, ValueTy, usize);

/// The host action table.
pub open spec fn spec_action_defs() -> Seq<ActDefTy> {
    seq![
        (0x01u8, "transfer_hac_to", ValueTy::Nil, 2usize),
        (0x0du8, "transfer_hac_from", ValueTy::Nil, 2usize),
        (0x0eu8, "transfer_hac_from_to", ValueTy::Nil, 3usize),
        (0x0au8, "transfer_sat_to", ValueTy::Nil, 2usize),
        (0x0bu8, "transfer_sat_from", ValueTy::Nil, 2usize),
        (0x0cu8, "transfer_sat_from_to", ValueTy::Nil, 3usize),
        (0x05u8, "transfer_hacd_single_to", ValueTy::Nil, 2usize),
        (0x07u8, "transfer_hacd_to", ValueTy::Nil, 2usize),
        (0x08u8, "transfer_hacd_from", ValueTy::Nil, 2usize),
        (0x06u8, "transfer_hacd_from_to", ValueTy::Nil, 3usize),
        (0x22u8, "hacd_insc_edit", ValueTy::Nil, 5usize),
        (0x11u8, "transfer_asset_to", ValueTy::Nil, 2usize),
        (0x12u8, "transfer_asset_from", ValueTy::Nil, 2usize),
        (0x13u8, "transfer_asset_from_to", ValueTy::Nil, 3usize),
    ]
}

/// Host actions.
pub fn action_defs() -> (r: Vec<ActDefTy>)
    ensures
        r@ == spec_action_defs(),
{
    let mut v: Vec<ActDefTy> = Vec::new();
    v.push((0x01, "transfer_hac_to", ValueTy::Nil, 2));
    v.push((0x0d, "transfer_hac_from", ValueTy::Nil, 2));
    v.push((0x0e, "transfer_hac_from_to", ValueTy::Nil, 3));
    v.push((0x0a, "transfer_sat_to", ValueTy::Nil, 2));
    v.push((0x0b, "transfer_sat_from", ValueTy::Nil, 2));
    v.push((0x0c, "transfer_sat_from_to", ValueTy::Nil, 3));
    v.push((0x05, "transfer_hacd_single_to", ValueTy::Nil, 2));
    v.push((0x07, "transfer_hacd_to", ValueTy::Nil, 2));
    v.push((0x08, "transfer_hacd_from", ValueTy::Nil, 2));
    v.push((0x06, "transfer_hacd_from_to", ValueTy::Nil, 3));
    v.push((0x22, "hacd_insc_edit", ValueTy::Nil, 5));
    v.push((0x11, "transfer_asset_to", ValueTy::Nil, 2));
    v.push((0x12, "transfer_asset_from", ValueTy::Nil, 2));
    v.push((0x13, "transfer_asset_from_to", ValueTy::Nil, 3));
    assert(v@ =~= spec_action_defs());
    v
}

/// The host environment-read table.
pub open spec fn spec_action_env_defs() -> Seq<ActDefTy> {
    seq![
        (0x01u8, "block_height", ValueTy::U64, 0usize),
        (0x02u8, "tx_main_addr", ValueTy::Address, 0usize),
        (0x03u8, "block_author_addr", ValueTy::Address, 0usize),
    ]
}

/// Host environment reads.
pub fn action_env_defs() -> (r: Vec<ActDefTy>)
    ensures
        r@ == spec_action_env_defs(),
{
    let mut v: Vec<ActDefTy> = Vec::new();
    v.push((0x01, "block_height", ValueTy::U64, 0));
    v.push((0x02, "tx_main_addr", ValueTy::Address, 0));
    v.push((0x03, "block_author_addr", ValueTy::Address, 0));
    assert(v@ =~= spec_action_env_defs());
    v
}

/// The host view table.
pub open spec fn spec_action_view_defs() -> Seq<ActDefTy> {
    seq![
        (0x01u8, "balance", ValueTy::Bytes, 1usize),
        (0x02u8, "asset_balance", ValueTy::U64, 2usize),
        (0x09u8, "check_signature", ValueTy::Bool, 1usize),
        (0x11u8, "hacd_insc_num", ValueTy::U8, 1usize),
        (0x12u8, "hacd_insc_get", ValueTy::Bytes, 2usize),
        (0x13u8, "hacd_name_list", ValueTy::Bytes, 3usize),
        (0x14u8, "hacd_owner_addrs", ValueTy::Bytes, 1usize),
    ]
}

/// Host views.
pub fn action_view_defs() -> (r: Vec<ActDefTy>)
    ensures
        r@ == spec_action_view_defs(),
{
    let mut v: Vec<ActDefTy> = Vec::new();
    v.push((0x01, "balance", ValueTy::Bytes, 1));
    v.push((0x02, "asset_balance", ValueTy::U64, 2));
    v.push((0x09, "check_signature", ValueTy::Bool, 1));
    v.push((0x11, "hacd_insc_num", ValueTy::U8, 1));
    v.push((0x12, "hacd_insc_get", ValueTy::Bytes, 2));
    v.push((0x13, "hacd_name_list", ValueTy::Bytes, 3));
    v.push((0x14, "hacd_owner_addrs", ValueTy::Bytes, 1));
    assert(v@ =~= spec_action_view_defs());
    v
}

/// The position of the first definition with id `id`.
pub open spec fn first_act(exts: Seq<ActDefTy>, id: u8) -> Option<int> {
    if exists|i: int| 0 <= i < exts.len() && exts[i].0 == id {
        Some(choose|i: int| 0 <= i < exts.len() && exts[i].0 == id && forall|j: int| 0 <= j < i ==> exts[j].0 != id)
    } else {
        None
    }
}

proof fn lemma_first_act(exts: Seq<ActDefTy>, id: u8, i: int)
    requires
        0 <= i < exts.len(),
        exts[i].0 == id,
        forall|j: int| 0 <= j < i ==> exts[j].0 != id,
    ensures
        first_act(exts, id) == Some(i),
{
    let k = choose|k: int| 0 <= k < exts.len() && exts[k].0 == id && forall|j: int| 0 <= j < k ==> exts[j].0 != id;
    assert(exts[k].0 == id);
    if k < i {
        assert(exts[k].0 != id);
    }
    if k > i {
        assert(exts[i].0 != id);
    }
}

/// The first definition with id `id`.
pub fn search_act_by_id<'a>(id: u8, exts: &'a [ActDefTy]) -> (r: Option<&'a ActDefTy>)
    ensures
        match first_act(exts@, id) {
            Some(i) => r matches Some(d) && *d == exts@[i],
            None => r is None,
        },
{
    let mut i: usize = 0;
    while i < exts.len()
        invariant
            i <= exts@.len(),
            forall|j: int| 0 <= j < i ==> exts@[j].0 != id,
        decreases exts@.len() - i,
    {
        if exts[i].0 == id {
            proof {
                lemma_first_act(exts@, id, i as int);
            }
            return Some(&exts[i]);
        }
        i = i + 1;
    }
    None
}

/// The display name of the first definition with id `id`, or `__unknown__`.
pub fn search_act_name_by_id(id: u8, exts: &[ActDefTy]) -> (r: &'static str)
    ensures
        match first_act(exts@, id) {
            Some(i) => r == exts@[i].1,
            None => r@ == "__unknown__"@,
        },
{
    match search_act_by_id(id, exts) {
        Some(def) => def.1,
        None => "__unknown__",
    }
}

} // verus!
