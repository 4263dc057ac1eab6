//! Spent outputs as a chain-data provider describes them.
use vstd::prelude::*;

use crate::balance::{lemma_unit_total_concat, lemma_value_moves_add, group_moves, unit_total, value_moves};
use crate::params::{parse_u64, u64_of_text};

verus! {

/// One amount as a chain-data provider lists it: a unit (`lovelace`, or a
/// policy id of 56 hexadecimal digits followed by an asset name in
/// hexadecimal) and a decimal quantity.
pub struct Amount {
    pub unit: String,
    pub quantity: String,
}

/// A quantity of one asset under a policy; the name is hexadecimal text.
pub struct AssetQuantity {
    pub name: String,
    pub quantity: u64,
}

/// The assets of one policy, in the order they were listed.
pub struct PolicyAssets {
    pub policy: String,
    pub assets: Vec<AssetQuantity>,
}

/// A value: an amount of the base currency and assets grouped by policy.
pub struct UtxoValue {
    pub lovelace: u64,
    pub assets: Vec<PolicyAssets>,
}

/// An output that an input spends, as the provider described it: its
/// address (bech32 text), value, and optional datum hash, inline datum and
/// reference-script hash.
pub struct UtxoRecord {
    pub address: String,
    pub amounts: Vec<Amount>,
    pub data_hash: Option<String>,
    pub inline_datum: Option<String>,
    pub reference_script_hash: Option<String>,
}

/// A resolved output: address, value, optional datum hash, inline datum and
/// reference-script hash.
pub struct UtxoEntry {
    pub address: String,
    pub value: UtxoValue,
    pub datum_hash: Option<String>,
    pub inline_datum: Option<String>,
    pub script_ref: Option<String>,
}

/// The length of a policy id in hexadecimal digits.
pub const POLICY_ID_DIGITS: usize = 56;

/// The quantity an amount carries, if its text is a valid `u64`.
pub open spec fn quantity_of(a: Amount) -> Option<u64> {
    u64_of_text(a.quantity@)
}

/// The amount is of the base currency.
pub open spec fn is_lovelace(a: Amount) -> bool {
    a.unit@ == "lovelace"@
}

/// The amount names an asset: its unit holds at least a whole policy id.
pub open spec fn is_asset_amount(a: Amount) -> bool {
    !is_lovelace(a) && quantity_of(a) is Some && a.unit@.len() >= POLICY_ID_DIGITS
}

/// The base currency over the amounts whose quantity is valid.
pub open spec fn lovelace_total(s: Seq<Amount>) -> int
    decreases s.len(),
{
    if s.len() == 0 {
        0
    } else {
        let a = s.last();
        lovelace_total(s.drop_last()) + if is_lovelace(a) && quantity_of(a) is Some {
            quantity_of(a).unwrap() as int
        } else {
            0
        }
    }
}

/// The base currency of the amounts, capped at the largest `u64`.
pub open spec fn capped_lovelace(s: Seq<Amount>) -> u64 {
    if lovelace_total(s) > u64::MAX {
        u64::MAX
    } else {
        lovelace_total(s) as u64
    }
}

/// How many amounts name an asset with a valid quantity.
pub open spec fn asset_amount_count(s: Seq<Amount>) -> int
    decreases s.len(),
{
    if s.len() == 0 {
        0
    } else {
        asset_amount_count(s.drop_last()) + if is_asset_amount(s.last()) {
            1int
        } else {
            0
        }
    }
}

/// The quantity of asset unit `u` over the amounts with a valid quantity.
pub open spec fn asset_total(s: Seq<Amount>, u: Seq<char>) -> int
    decreases s.len(),
{
    if s.len() == 0 {
        0
    } else {
        asset_total(s.drop_last(), u) + if is_asset_amount(s.last()) && s.last().unit@ == u {
            quantity_of(s.last()).unwrap() as int
        } else {
            0
        }
    }
}

/// The policy id an asset amount's unit begins with.
pub open spec fn policy_of(a: Amount) -> Seq<char> {
    a.unit@.subrange(0, POLICY_ID_DIGITS as int)
}

/// The asset name that follows the policy id in an asset amount's unit.
pub open spec fn name_of(a: Amount) -> Seq<char> {
    a.unit@.subrange(POLICY_ID_DIGITS as int, a.unit@.len() as int)
}

/// The distinct policies of the asset amounts, in order of first appearance.
pub open spec fn policies_in_order(s: Seq<Amount>) -> Seq<Seq<char>>
    decreases s.len(),
{
    if s.len() == 0 {
        Seq::empty()
    } else {
        let d = policies_in_order(s.drop_last());
        if is_asset_amount(s.last()) && !d.contains(policy_of(s.last())) {
            d.push(policy_of(s.last()))
        } else {
            d
        }
    }
}

/// The names and quantities of the asset amounts under policy `p`, in order.
pub open spec fn assets_under(s: Seq<Amount>, p: Seq<char>) -> Seq<(Seq<char>, u64)>
    decreases s.len(),
{
    if s.len() == 0 {
        Seq::empty()
    } else {
        let a = s.last();
        let prev = assets_under(s.drop_last(), p);
        if is_asset_amount(a) && policy_of(a) == p {
            prev.push((name_of(a), quantity_of(a).unwrap()))
        } else {
            prev
        }
    }
}

/// The names and quantities of a group's assets, in order.
pub open spec fn group_view(g: PolicyAssets) -> Seq<(Seq<char>, u64)> {
    g.assets@.map_values(|a: AssetQuantity| (a.name@, a.quantity))
}

/// The policies of the groups, in order.
pub open spec fn group_policies(g: Seq<PolicyAssets>) -> Seq<Seq<char>> {
    g.map_values(|x: PolicyAssets| x.policy@)
}

/// Groups that each hold an asset hold at least one asset per group.
proof fn lemma_grouped_count_lower(g: Seq<PolicyAssets>)
    requires
        forall|k: int| 0 <= k < g.len() ==> (#[trigger] g[k]).assets@.len() > 0,
    ensures
        grouped_count(g) >= g.len(),
    decreases g.len(),
{
    if g.len() > 0 {
        lemma_grouped_count_lower(g.drop_last());
    }
}

/// A policy that no asset amount names has no assets.
proof fn lemma_absent_policy(s: Seq<Amount>, p: Seq<char>)
    requires
        !policies_in_order(s).contains(p),
    ensures
        assets_under(s, p) == Seq::<(Seq<char>, u64)>::empty(),
    decreases s.len(),
{
    if s.len() > 0 {
        let d = policies_in_order(s.drop_last());
        if d.contains(p) {
            let k = choose|k: int| 0 <= k < d.len() && d[k] == p;
            if is_asset_amount(s.last()) && !d.contains(policy_of(s.last())) {
                assert(policies_in_order(s)[k] == p);
            }
            assert(policies_in_order(s).contains(p));
        }
        lemma_absent_policy(s.drop_last(), p);
        if is_asset_amount(s.last()) && policy_of(s.last()) == p {
            assert(policies_in_order(s) == d.push(p));
            assert(policies_in_order(s)[d.len() as int] == p);
        }
    }
}

/// How many assets the groups hold in all.
pub open spec fn grouped_count(g: Seq<PolicyAssets>) -> int
    decreases g.len(),
{
    if g.len() == 0 {
        0
    } else {
        grouped_count(g.drop_last()) + g.last().assets@.len()
    }
}

/// No two groups share a policy.
pub open spec fn policies_distinct(g: Seq<PolicyAssets>) -> bool {
    forall|i: int, j: int| 0 <= i < j < g.len() ==> g[i].policy@ != g[j].policy@
}

proof fn lemma_lovelace_total_bound(s: Seq<Amount>)
    ensures
        0 <= lovelace_total(s) <= s.len() * (u64::MAX as int),
    decreases s.len(),
{
    if s.len() > 0 {
        lemma_lovelace_total_bound(s.drop_last());
    }
}

proof fn lemma_grouped_count_update(g: Seq<PolicyAssets>, k: int, p: PolicyAssets)
    requires
        0 <= k < g.len(),
        p.assets@.len() == g[k].assets@.len() + 1,
    ensures
        grouped_count(g.update(k, p)) == grouped_count(g) + 1,
    decreases g.len(),
{
    if k < g.len() - 1 {
        lemma_grouped_count_update(g.drop_last(), k, p);
        assert(g.update(k, p).drop_last() =~= g.drop_last().update(k, p));
    } else {
        assert(g.update(k, p).drop_last() =~= g.drop_last());
    }
}

/// The index of the group for `policy`, if there is one.
fn find_policy(groups: &Vec<PolicyAssets>, policy: &String) -> (r: Option<usize>)
    ensures
        r matches Some(k) ==> k < groups@.len() && groups@[k as int].policy@ == policy@,
        r is None ==> forall|k: int| 0 <= k < groups@.len() ==> groups@[k].policy@ != policy@,
{
    let mut k: usize = 0;
    while k < groups.len()
        invariant
            k <= groups@.len(),
            forall|j: int| 0 <= j < k ==> groups@[j].policy@ != policy@,
        decreases groups@.len() - k,
    {
        if groups[k].policy == *policy {
            return Some(k);
        }
        k = k + 1;
    }
    None
}

/// Reads a provider's amounts as a value. Amounts whose quantity is not a
/// valid `u64` are skipped, as are asset units too short to hold a policy id.
/// Asset amounts are grouped by policy, each group keeping the order in
/// which its assets were listed. A base-currency total beyond the largest
/// `u64` is capped there.
pub fn from_amounts(amounts: &Vec<Amount>) -> (r: UtxoValue)
    ensures
        r.lovelace == capped_lovelace(amounts@),
        grouped_count(r.assets@) == asset_amount_count(amounts@),
        policies_distinct(r.assets@),
        forall|u: Seq<char>|
            #[trigger] unit_total(value_moves(r.assets@), u) == asset_total(amounts@, u),
        group_policies(r.assets@) == policies_in_order(amounts@),
        forall|k: int|
            0 <= k < r.assets@.len() ==> group_view(#[trigger] r.assets@[k]) == assets_under(
                amounts@,
                r.assets@[k].policy@,
            ) && r.assets@[k].assets@.len() > 0,
        asset_amount_count(amounts@) == 0 ==> r.assets@.len() == 0,
{
    let mut lovelace: u128 = 0;
    let mut groups: Vec<PolicyAssets> = Vec::new();
    let lovelace_unit = String::from_str("lovelace");
    let mut i: usize = 0;
    while i < amounts.len()
        invariant
            i <= amounts@.len(),
            lovelace_unit@ == "lovelace"@,
            lovelace == lovelace_total(amounts@.take(i as int)),
            grouped_count(groups@) == asset_amount_count(amounts@.take(i as int)),
            policies_distinct(groups@),
            group_policies(groups@) == policies_in_order(amounts@.take(i as int)),
            forall|k: int|
                0 <= k < groups@.len() ==> group_view(#[trigger] groups@[k]) == assets_under(
                    amounts@.take(i as int),
                    groups@[k].policy@,
                ) && groups@[k].assets@.len() > 0,
            forall|u: Seq<char>|
                #[trigger] unit_total(value_moves(groups@), u) == asset_total(
                    amounts@.take(i as int),
                    u,
                ),
        decreases amounts@.len() - i,
    {
        let a = &amounts[i];
        proof {
            assert(amounts@.take(i + 1).drop_last() =~= amounts@.take(i as int));
            lemma_lovelace_total_bound(amounts@.take(i + 1));
        }
        match parse_u64(a.quantity.as_str()) {
            Some(q) => {
                if a.unit == lovelace_unit {
                    lovelace = lovelace + q as u128;
                } else if a.unit.as_str().unicode_len() >= POLICY_ID_DIGITS {
                    let len = a.unit.as_str().unicode_len();
                    let policy = a.unit.as_str().substring_char(0, POLICY_ID_DIGITS).to_string();
                    let name = a.unit.as_str().substring_char(POLICY_ID_DIGITS, len).to_string();
                    let entry = AssetQuantity { name, quantity: q };
                    match find_policy(&groups, &policy) {
                        Some(k) => {
                            let ghost before = groups@;
                            let mut group = groups.remove(k);
                            let ghost old_group = group;
                            group.assets.push(entry);
                            groups.insert(k, group);
                            proof {
                                assert(groups@ =~= before.update(k as int, group));
                                lemma_grouped_count_update(before, k as int, group);
                                assert(policy@ + name@ =~= a.unit@);
                                assert(amounts@.take(i + 1).last() == amounts@[i as int]);
                                assert(is_asset_amount(amounts@[i as int]));
                                assert forall|u: Seq<char>|
                                    #[trigger] unit_total(value_moves(groups@), u) == asset_total(
                                        amounts@.take(i + 1),
                                        u,
                                    ) by {
                                    lemma_value_moves_add(before, k as int, group, entry, u);
                                }
                                let pre = amounts@.take(i as int);
                                let post = amounts@.take(i + 1);
                                assert(policy@ == policy_of(*a));
                                assert(name@ == name_of(*a));
                                assert(group_policies(before)[k as int] == policy@);
                                assert(policies_in_order(pre).contains(policy@));
                                assert(group_policies(groups@) =~= group_policies(before));
                                assert forall|k2: int|
                                    0 <= k2 < groups@.len() implies group_view(
                                        #[trigger] groups@[k2],
                                    ) == assets_under(post, groups@[k2].policy@)
                                        && groups@[k2].assets@.len() > 0 by {
                                    if k2 == k {
                                        assert(group_view(groups@[k2]) =~= group_view(before[k2]).push(
                                            (name@, q),
                                        ));
                                    } else {
                                        assert(before[k2].policy@ != before[k as int].policy@);
                                    }
                                }
                            }
                        },
                        None => {
                            let mut names: Vec<AssetQuantity> = Vec::new();
                            names.push(entry);
                            let ghost before = groups@;
                            let ghost unit = policy@ + name@;
                            let ghost q = entry.quantity;
                            groups.push(PolicyAssets { policy, assets: names });
                            proof {
                                assert(groups@.drop_last() =~= before);
                                assert(unit =~= a.unit@);
                                let g = groups@.last();
                                assert(group_moves(g) =~= seq![(unit, q as int)]);
                                assert(value_moves(groups@) =~= value_moves(before) + group_moves(g));
                                assert(amounts@.take(i + 1).last() == amounts@[i as int]);
                                assert(is_asset_amount(amounts@[i as int]));
                                let pre = amounts@.take(i as int);
                                let post = amounts@.take(i + 1);
                                assert(policy@ == policy_of(*a));
                                assert(name@ == name_of(*a));
                                assert(!policies_in_order(pre).contains(policy@)) by {
                                    if policies_in_order(pre).contains(policy@) {
                                        let j = choose|j: int|
                                            0 <= j < policies_in_order(pre).len()
                                                && policies_in_order(pre)[j] == policy@;
                                        assert(group_policies(before)[j] == before[j].policy@);
                                    }
                                }
                                lemma_absent_policy(pre, policy@);
                                assert(group_policies(groups@) =~= group_policies(before).push(
                                    policy@,
                                ));
                                assert forall|k2: int|
                                    0 <= k2 < groups@.len() implies group_view(
                                        #[trigger] groups@[k2],
                                    ) == assets_under(post, groups@[k2].policy@)
                                        && groups@[k2].assets@.len() > 0 by {
                                    if k2 == before.len() {
                                        assert(group_view(groups@[k2]) =~= seq![(name@, q)]);
                                        assert(assets_under(post, policy@) =~= seq![(name@, q)]);
                                    } else {
                                        assert(groups@[k2] == before[k2]);
                                        assert(before[k2].policy@ != policy@);
                                    }
                                }
                                assert forall|u: Seq<char>|
                                    #[trigger] unit_total(value_moves(groups@), u) == asset_total(
                                        amounts@.take(i + 1),
                                        u,
                                    ) by {
                                    lemma_unit_total_concat(value_moves(before), group_moves(g), u);
                                    let one = group_moves(g);
                                    assert(one.drop_last() =~= Seq::<(Seq<char>, int)>::empty());
                                    assert(one.last() == (unit, q as int));
                                    assert(unit_total(one, u) == unit_total(one.drop_last(), u) + if one.last().0 == u {
                                        one.last().1
                                    } else {
                                        0
                                    });
                                    assert(unit_total(value_moves(before), u) == asset_total(
                                        amounts@.take(i as int),
                                        u,
                                    ));
                                }
                            }
                        },
                    }
                }
            },
            None => {},
        }
        i = i + 1;
    }
    proof {
        assert(amounts@.take(amounts@.len() as int) =~= amounts@);
    }
    let capped: u64 = if lovelace > u64::MAX as u128 {
        u64::MAX
    } else {
        lovelace as u64
    };
    proof {
        lemma_grouped_count_lower(groups@);
    }
    UtxoValue { lovelace: capped, assets: groups }
}

/// Turns a provider's record into a resolved entry.
pub fn from_record(record: &UtxoRecord) -> (r: UtxoEntry)
    ensures
        r.address@ == record.address@,
        r.value.lovelace == capped_lovelace(record.amounts@),
        grouped_count(r.value.assets@) == asset_amount_count(record.amounts@),
        policies_distinct(r.value.assets@),
        forall|u: Seq<char>|
            #[trigger] unit_total(value_moves(r.value.assets@), u) == asset_total(
                record.amounts@,
                u,
            ),
        group_policies(r.value.assets@) == policies_in_order(record.amounts@),
        forall|k: int|
            0 <= k < r.value.assets@.len() ==> group_view(#[trigger] r.value.assets@[k])
                == assets_under(record.amounts@, r.value.assets@[k].policy@),
        r.datum_hash == record.data_hash,
        r.inline_datum == record.inline_datum,
        r.script_ref == record.reference_script_hash,
{
    UtxoEntry {
        address: record.address.clone(),
        value: from_amounts(&record.amounts),
        datum_hash: record.data_hash.clone(),
        inline_datum: record.inline_datum.clone(),
        script_ref: record.reference_script_hash.clone(),
    }
}

} // verus!
