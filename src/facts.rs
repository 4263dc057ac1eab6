//! What the checks read of a transaction and of the outputs it spends.
use vstd::prelude::*;

use crate::balance::{AssetAmount, MintAmount};
use crate::utxo::UtxoEntry;

verus! {

/// A reference to an output of an earlier transaction.
pub struct InputRef {
    pub tx_hash: String,
    pub index: u64,
}

/// What the checks read of one output: its base-currency amount and the
/// network id its address carries (`None` for an address without one).
pub struct OutputFacts {
    pub lovelace: u64,
    pub network_id: Option<u8>,
}

/// What the checks read of a decoded transaction; an input of a
/// non-standard kind is `None` and cannot be resolved; `output_assets` lists the
/// assets of all outputs together, `mint` what is minted or burned,
/// `aux_data_hash` the hash the body declares for the auxiliary data and
/// `aux_data` the bytes of the auxiliary data.
pub struct TxFacts {
    pub inputs: Vec<Option<InputRef>>,
    pub collateral: Vec<InputRef>,
    pub reference_inputs: Vec<InputRef>,
    pub outputs: Vec<OutputFacts>,
    pub output_assets: Vec<AssetAmount>,
    pub mint: Vec<MintAmount>,
    pub fee: Option<u64>,
    pub validity_start: Option<u64>,
    pub ttl: Option<u64>,
    pub size: Option<u64>,
    pub aux_data_hash: Option<Vec<u8>>,
    pub aux_data: Option<Vec<u8>>,
}

/// The outputs spent by a transaction's inputs, collateral inputs and
/// reference inputs, position by position; `None` where a lookup failed.
pub struct Resolution {
    pub inputs: Vec<Option<UtxoEntry>>,
    pub collateral: Vec<Option<UtxoEntry>>,
    pub reference_inputs: Vec<Option<UtxoEntry>>,
}

/// Every one of `n` references was resolved.
pub open spec fn all_resolved(s: Seq<Option<UtxoEntry>>, n: int) -> bool {
    s.len() == n && forall|i: int| 0 <= i < s.len() ==> (#[trigger] s[i]) is Some
}

/// The base currency held by the resolved entries.
pub open spec fn resolved_lovelace(s: Seq<Option<UtxoEntry>>) -> int
    decreases s.len(),
{
    if s.len() == 0 {
        0
    } else {
        resolved_lovelace(s.drop_last()) + match s.last() {
            Some(e) => e.value.lovelace as int,
            None => 0,
        }
    }
}

/// The base currency held by the outputs.
pub open spec fn outputs_lovelace(s: Seq<OutputFacts>) -> int
    decreases s.len(),
{
    if s.len() == 0 {
        0
    } else {
        outputs_lovelace(s.drop_last()) + s.last().lovelace as int
    }
}

pub proof fn lemma_resolved_lovelace_bound(s: Seq<Option<UtxoEntry>>)
    ensures
        0 <= resolved_lovelace(s) <= s.len() * (u64::MAX as int),
    decreases s.len(),
{
    if s.len() > 0 {
        lemma_resolved_lovelace_bound(s.drop_last());
    }
}

pub proof fn lemma_outputs_lovelace_bound(s: Seq<OutputFacts>)
    ensures
        0 <= outputs_lovelace(s) <= s.len() * (u64::MAX as int),
    decreases s.len(),
{
    if s.len() > 0 {
        lemma_outputs_lovelace_bound(s.drop_last());
    }
}

/// Whether every reference of a list was resolved.
pub fn check_all_resolved(s: &Vec<Option<UtxoEntry>>, n: usize) -> (r: bool)
    ensures
        r == all_resolved(s@, n as int),
{
    if s.len() != n {
        return false;
    }
    let mut i: usize = 0;
    while i < s.len()
        invariant
            i <= s@.len(),
            forall|j: int| 0 <= j < i ==> (#[trigger] s@[j]) is Some,
        decreases s@.len() - i,
    {
        if s[i].is_none() {
            return false;
        }
        i = i + 1;
    }
    true
}

/// The base currency held by the resolved entries.
pub fn sum_resolved(s: &Vec<Option<UtxoEntry>>) -> (r: u128)
    ensures
        r == resolved_lovelace(s@),
{
    let mut total: u128 = 0;
    let mut i: usize = 0;
    while i < s.len()
        invariant
            i <= s@.len(),
            total == resolved_lovelace(s@.take(i as int)),
        decreases s@.len() - i,
    {
        proof {
            assert(s@.take(i + 1).drop_last() =~= s@.take(i as int));
            lemma_resolved_lovelace_bound(s@.take(i + 1));
            assert((i + 1) * (u64::MAX as int) <= (usize::MAX as int) * (u64::MAX as int))
                by (nonlinear_arith)
                requires
                    i + 1 <= usize::MAX,
            ;
            assert((usize::MAX as int) * (u64::MAX as int) <= u128::MAX);
        }
        match &s[i] {
            Some(e) => {
                total = total + e.value.lovelace as u128;
            },
            None => {},
        }
        i = i + 1;
    }
    proof {
        assert(s@.take(s@.len() as int) =~= s@);
    }
    total
}

/// The base currency held by the outputs.
pub fn sum_outputs(s: &Vec<OutputFacts>) -> (r: u128)
    ensures
        r == outputs_lovelace(s@),
{
    let mut total: u128 = 0;
    let mut i: usize = 0;
    while i < s.len()
        invariant
            i <= s@.len(),
            total == outputs_lovelace(s@.take(i as int)),
        decreases s@.len() - i,
    {
        proof {
            assert(s@.take(i + 1).drop_last() =~= s@.take(i as int));
            lemma_outputs_lovelace_bound(s@.take(i + 1));
            assert((i + 1) * (u64::MAX as int) <= (usize::MAX as int) * (u64::MAX as int))
                by (nonlinear_arith)
                requires
                    i + 1 <= usize::MAX,
            ;
            assert((usize::MAX as int) * (u64::MAX as int) <= u128::MAX);
        }
        total = total + s[i].lovelace as u128;
        i = i + 1;
    }
    proof {
        assert(s@.take(s@.len() as int) =~= s@);
    }
    total
}

} // verus!
