//! Balance of the assets other than the base currency: what the spent
//! outputs hold plus what is minted (less what is burned) equals what the
//! new outputs hold, asset by asset.
use vstd::prelude::*;

use crate::utxo::{AssetQuantity, PolicyAssets, UtxoEntry};

verus! {

/// A quantity of one asset held by an output; the unit is the policy id
/// followed by the asset name, both in hexadecimal.
pub struct AssetAmount {
    pub unit: String,
    pub amount: u64,
}

/// A quantity of one asset minted (positive) or burned (negative).
pub struct MintAmount {
    pub unit: String,
    pub quantity: i64,
}

/// One movement of an asset into (`outgoing` false) or out of the balance.
pub struct Movement {
    pub unit: String,
    pub outgoing: bool,
    pub amount: u64,
}

/// A movement as a unit and a signed quantity.
pub open spec fn move_of(m: Movement) -> (Seq<char>, int) {
    (m.unit@, if m.outgoing {
        -(m.amount as int)
    } else {
        m.amount as int
    })
}

/// The signed movements of a list.
pub open spec fn moves_of(s: Seq<Movement>) -> Seq<(Seq<char>, int)> {
    s.map_values(|m: Movement| move_of(m))
}

/// The net quantity of unit `u` over a list of movements.
pub open spec fn unit_total(s: Seq<(Seq<char>, int)>, u: Seq<char>) -> int
    decreases s.len(),
{
    if s.len() == 0 {
        0
    } else {
        unit_total(s.drop_last(), u) + if s.last().0 == u {
            s.last().1
        } else {
            0
        }
    }
}

/// Every unit that moves nets to zero.
pub open spec fn balanced(s: Seq<(Seq<char>, int)>) -> bool {
    forall|k: int| 0 <= k < s.len() ==> unit_total(s, (#[trigger] s[k]).0) == 0
}

/// The assets of one policy as movements into the balance.
pub open spec fn group_moves(p: PolicyAssets) -> Seq<(Seq<char>, int)> {
    p.assets@.map_values(|a: AssetQuantity| (p.policy@ + a.name@, a.quantity as int))
}

/// The assets of a value as movements into the balance.
pub open spec fn value_moves(g: Seq<PolicyAssets>) -> Seq<(Seq<char>, int)>
    decreases g.len(),
{
    if g.len() == 0 {
        Seq::empty()
    } else {
        value_moves(g.drop_last()) + group_moves(g.last())
    }
}

/// The assets of the resolved entries as movements into the balance.
pub open spec fn entry_moves(s: Seq<Option<UtxoEntry>>) -> Seq<(Seq<char>, int)>
    decreases s.len(),
{
    if s.len() == 0 {
        Seq::empty()
    } else {
        entry_moves(s.drop_last()) + match s.last() {
            Some(e) => value_moves(e.value.assets@),
            None => Seq::empty(),
        }
    }
}

/// Minting as movements into the balance, burning as movements out.
pub open spec fn mint_moves(s: Seq<MintAmount>) -> Seq<(Seq<char>, int)> {
    s.map_values(|m: MintAmount| (m.unit@, m.quantity as int))
}

/// The assets of the new outputs as movements out of the balance.
pub open spec fn output_moves(s: Seq<AssetAmount>) -> Seq<(Seq<char>, int)> {
    s.map_values(|a: AssetAmount| (a.unit@, -(a.amount as int)))
}

/// The spent outputs' assets plus the minted ones equal the new outputs'
/// assets, unit by unit.
pub open spec fn assets_balance(
    inputs: Seq<Option<UtxoEntry>>,
    mint: Seq<MintAmount>,
    outputs: Seq<AssetAmount>,
) -> bool {
    balanced(entry_moves(inputs) + mint_moves(mint) + output_moves(outputs))
}

/// The net quantity of a unit over two lists is the sum over each.
pub proof fn lemma_unit_total_concat(a: Seq<(Seq<char>, int)>, b: Seq<(Seq<char>, int)>, u: Seq<char>)
    ensures
        unit_total(a + b, u) == unit_total(a, u) + unit_total(b, u),
    decreases b.len(),
{
    if b.len() > 0 {
        lemma_unit_total_concat(a, b.drop_last(), u);
        assert((a + b).drop_last() =~= a + b.drop_last());
    } else {
        assert(a + b =~= a);
    }
}

/// Adding one asset to the group at `k` adds its quantity to its unit.
pub proof fn lemma_value_moves_add(
    g: Seq<PolicyAssets>,
    k: int,
    p: PolicyAssets,
    a: AssetQuantity,
    u: Seq<char>,
)
    requires
        0 <= k < g.len(),
        p.policy@ == g[k].policy@,
        p.assets@ == g[k].assets@.push(a),
    ensures
        unit_total(value_moves(g.update(k, p)), u) == unit_total(value_moves(g), u) + if g[k].policy@
            + a.name@ == u {
            a.quantity as int
        } else {
            0
        },
    decreases g.len(),
{
    let h = g.update(k, p);
    assert(group_moves(p) =~= group_moves(g[k]).push((g[k].policy@ + a.name@, a.quantity as int)));
    if k == g.len() - 1 {
        assert(h.drop_last() =~= g.drop_last());
        lemma_unit_total_concat(value_moves(g.drop_last()), group_moves(p), u);
        lemma_unit_total_concat(value_moves(g.drop_last()), group_moves(g[k]), u);
        assert(group_moves(p).drop_last() =~= group_moves(g[k]));
    } else {
        lemma_value_moves_add(g.drop_last(), k, p, a, u);
        assert(h.drop_last() =~= g.drop_last().update(k, p));
        lemma_unit_total_concat(value_moves(h.drop_last()), group_moves(g.last()), u);
        lemma_unit_total_concat(value_moves(g.drop_last()), group_moves(g.last()), u);
    }
}

fn push_move(out: &mut Vec<Movement>, m: Movement)
    ensures
        moves_of(final(out)@) == moves_of(old(out)@).push(move_of(m)),
{
    out.push(m);
    proof {
        assert(moves_of(final(out)@) =~= moves_of(old(out)@).push(move_of(m)));
    }
}

/// Appends the assets of the resolved entries as movements in.
fn push_entry_moves(out: &mut Vec<Movement>, s: &Vec<Option<UtxoEntry>>)
    ensures
        moves_of(final(out)@) == moves_of(old(out)@) + entry_moves(s@),
{
    let ghost start = moves_of(out@);
    let mut i: usize = 0;
    while i < s.len()
        invariant
            i <= s@.len(),
            moves_of(out@) == start + entry_moves(s@.take(i as int)),
        decreases s@.len() - i,
    {
        proof {
            assert(s@.take(i + 1).drop_last() =~= s@.take(i as int));
        }
        if let Some(e) = &s[i] {
            let groups = &e.value.assets;
            let ghost before = moves_of(out@);
            let mut j: usize = 0;
            while j < groups.len()
                invariant
                    j <= groups@.len(),
                    moves_of(out@) == before + value_moves(groups@.take(j as int)),
                decreases groups@.len() - j,
            {
                proof {
                    assert(groups@.take(j + 1).drop_last() =~= groups@.take(j as int));
                }
                let p = &groups[j];
                let ghost mid = moves_of(out@);
                let mut k: usize = 0;
                while k < p.assets.len()
                    invariant
                        k <= p.assets@.len(),
                        moves_of(out@) == mid + group_moves(*p).take(k as int),
                    decreases p.assets@.len() - k,
                {
                    let a = &p.assets[k];
                    let unit = p.policy.clone().concat(a.name.as_str());
                    push_move(out, Movement { unit, outgoing: false, amount: a.quantity });
                    proof {
                        assert(group_moves(*p).take(k + 1) =~= group_moves(*p).take(k as int).push(
                            (p.policy@ + a.name@, a.quantity as int),
                        ));
                        assert(moves_of(out@) =~= mid + group_moves(*p).take(k + 1));
                    }
                    k = k + 1;
                }
                proof {
                    assert(group_moves(*p).take(p.assets@.len() as int) =~= group_moves(*p));
                    assert(moves_of(out@) =~= before + value_moves(groups@.take(j + 1)));
                }
                j = j + 1;
            }
            proof {
                assert(groups@.take(groups@.len() as int) =~= groups@);
                assert(moves_of(out@) =~= start + entry_moves(s@.take(i + 1)));
            }
        } else {
            proof {
                assert(moves_of(out@) =~= start + entry_moves(s@.take(i + 1)));
            }
        }
        i = i + 1;
    }
    proof {
        assert(s@.take(s@.len() as int) =~= s@);
    }
}

/// Appends minting as movements in and burning as movements out.
fn push_mint_moves(out: &mut Vec<Movement>, s: &Vec<MintAmount>)
    ensures
        moves_of(final(out)@) == moves_of(old(out)@) + mint_moves(s@),
{
    let ghost start = moves_of(out@);
    let mut i: usize = 0;
    while i < s.len()
        invariant
            i <= s@.len(),
            moves_of(out@) == start + mint_moves(s@).take(i as int),
        decreases s@.len() - i,
    {
        let q = s[i].quantity;
        let m = if q < 0 {
            Movement { unit: s[i].unit.clone(), outgoing: true, amount: (0 - (q as i128)) as u64 }
        } else {
            Movement { unit: s[i].unit.clone(), outgoing: false, amount: q as u64 }
        };
        push_move(out, m);
        proof {
            assert(mint_moves(s@).take(i + 1) =~= mint_moves(s@).take(i as int).push(
                (s@[i as int].unit@, q as int),
            ));
            assert(moves_of(out@) =~= start + mint_moves(s@).take(i + 1));
        }
        i = i + 1;
    }
    proof {
        assert(mint_moves(s@).take(s@.len() as int) =~= mint_moves(s@));
    }
}

/// Appends the new outputs' assets as movements out.
fn push_output_moves(out: &mut Vec<Movement>, s: &Vec<AssetAmount>)
    ensures
        moves_of(final(out)@) == moves_of(old(out)@) + output_moves(s@),
{
    let ghost start = moves_of(out@);
    let mut i: usize = 0;
    while i < s.len()
        invariant
            i <= s@.len(),
            moves_of(out@) == start + output_moves(s@).take(i as int),
        decreases s@.len() - i,
    {
        push_move(out, Movement { unit: s[i].unit.clone(), outgoing: true, amount: s[i].amount });
        proof {
            assert(output_moves(s@).take(i + 1) =~= output_moves(s@).take(i as int).push(
                (s@[i as int].unit@, -(s@[i as int].amount as int)),
            ));
            assert(moves_of(out@) =~= start + output_moves(s@).take(i + 1));
        }
        i = i + 1;
    }
    proof {
        assert(output_moves(s@).take(s@.len() as int) =~= output_moves(s@));
    }
}

/// The amounts moving into and out of unit `u` separately.
proof fn lemma_split_total(s: Seq<Movement>, u: Seq<char>)
    ensures
        unit_total(moves_of(s), u) == into_total(s, u) - out_total(s, u),
        0 <= into_total(s, u) <= s.len() * (u64::MAX as int),
        0 <= out_total(s, u) <= s.len() * (u64::MAX as int),
    decreases s.len(),
{
    if s.len() > 0 {
        lemma_split_total(s.drop_last(), u);
        assert(moves_of(s).drop_last() =~= moves_of(s.drop_last()));
    }
}

/// What moves into unit `u`.
pub open spec fn into_total(s: Seq<Movement>, u: Seq<char>) -> int
    decreases s.len(),
{
    if s.len() == 0 {
        0
    } else {
        into_total(s.drop_last(), u) + if s.last().unit@ == u && !s.last().outgoing {
            s.last().amount as int
        } else {
            0
        }
    }
}

/// What moves out of unit `u`.
pub open spec fn out_total(s: Seq<Movement>, u: Seq<char>) -> int
    decreases s.len(),
{
    if s.len() == 0 {
        0
    } else {
        out_total(s.drop_last(), u) + if s.last().unit@ == u && s.last().outgoing {
            s.last().amount as int
        } else {
            0
        }
    }
}

/// Whether unit `u` nets to zero over the movements.
fn unit_nets_to_zero(s: &Vec<Movement>, u: &String) -> (r: bool)
    ensures
        r == (unit_total(moves_of(s@), u@) == 0),
{
    let mut into: u128 = 0;
    let mut out: u128 = 0;
    let mut j: usize = 0;
    while j < s.len()
        invariant
            j <= s@.len(),
            into == into_total(s@.take(j as int), u@),
            out == out_total(s@.take(j as int), u@),
        decreases s@.len() - j,
    {
        proof {
            assert(s@.take(j + 1).drop_last() =~= s@.take(j as int));
            lemma_split_total(s@.take(j + 1), u@);
            assert((j + 1) * (u64::MAX as int) <= (usize::MAX as int) * (u64::MAX as int))
                by (nonlinear_arith)
                requires
                    j + 1 <= usize::MAX,
            ;
            assert((usize::MAX as int) * (u64::MAX as int) <= u128::MAX);
        }
        if s[j].unit == *u {
            if s[j].outgoing {
                out = out + s[j].amount as u128;
            } else {
                into = into + s[j].amount as u128;
            }
        }
        j = j + 1;
    }
    proof {
        assert(s@.take(s@.len() as int) =~= s@);
        lemma_split_total(s@, u@);
    }
    into == out
}

/// Whether every unit that moves nets to zero.
pub fn is_balanced(s: &Vec<Movement>) -> (r: bool)
    ensures
        r == balanced(moves_of(s@)),
{
    let mut k: usize = 0;
    while k < s.len()
        invariant
            k <= s@.len(),
            forall|i: int| 0 <= i < k ==> unit_total(moves_of(s@), (#[trigger] moves_of(s@)[i]).0) == 0,
        decreases s@.len() - k,
    {
        if !unit_nets_to_zero(s, &s[k].unit) {
            proof {
                assert(moves_of(s@)[k as int].0 == s@[k as int].unit@);
            }
            return false;
        }
        k = k + 1;
    }
    true
}

/// Whether the spent outputs' assets plus the minted ones equal the new
/// outputs' assets, unit by unit.
pub fn check_assets_balance(
    inputs: &Vec<Option<UtxoEntry>>,
    mint: &Vec<MintAmount>,
    outputs: &Vec<AssetAmount>,
) -> (r: bool)
    ensures
        r == assets_balance(inputs@, mint@, outputs@),
{
    let mut moves: Vec<Movement> = Vec::new();
    proof {
        assert(moves_of(moves@) =~= Seq::empty());
    }
    push_entry_moves(&mut moves, inputs);
    push_mint_moves(&mut moves, mint);
    push_output_moves(&mut moves, outputs);
    proof {
        assert(moves_of(moves@) =~= entry_moves(inputs@) + mint_moves(mint@) + output_moves(
            outputs@,
        ));
    }
    is_balanced(&moves)
}

} // verus!
