//! Protocol parameters, their era-specific shapes, and the network table.
use vstd::prelude::*;

verus! {

/// The value of a non-empty run of decimal digits, or `None`.
pub open spec fn digits_value(s: Seq<char>) -> Option<int>
    decreases s.len(),
{
    if s.len() == 0 {
        None
    } else if !('0' <= s.last() && s.last() <= '9') {
        None
    } else if s.len() == 1 {
        Some(s.last() as int - '0' as int)
    } else {
        match digits_value(s.drop_last()) {
            Some(v) => Some(v * 10 + (s.last() as int - '0' as int)),
            None => None,
        }
    }
}

/// The integer that `s` writes as an optional sign followed by decimal digits.
pub open spec fn signed_decimal(s: Seq<char>) -> Option<int> {
    if s.len() > 0 && s[0] == '-' {
        match digits_value(s.drop_first()) {
            Some(v) => Some(-v),
            None => None,
        }
    } else if s.len() > 0 && s[0] == '+' {
        digits_value(s.drop_first())
    } else {
        digits_value(s)
    }
}

/// The integer that `s` writes as an optional `+` followed by decimal digits.
pub open spec fn unsigned_decimal(s: Seq<char>) -> Option<int> {
    if s.len() > 0 && s[0] == '+' {
        digits_value(s.drop_first())
    } else {
        digits_value(s)
    }
}

/// What `s` parses to as an `i64`: its signed decimal value where that fits.
pub open spec fn i64_of_text(s: Seq<char>) -> Option<i64> {
    match signed_decimal(s) {
        Some(v) => if i64::MIN <= v <= i64::MAX {
            Some(v as i64)
        } else {
            None
        },
        None => None,
    }
}

/// What `s` parses to as a `u32`: its unsigned decimal value where that fits.
pub open spec fn u32_of_text(s: Seq<char>) -> Option<u32> {
    match unsigned_decimal(s) {
        Some(v) => if v <= u32::MAX {
            Some(v as u32)
        } else {
            None
        },
        None => None,
    }
}

/// What `s` parses to as a `u64`: its unsigned decimal value where that fits.
pub open spec fn u64_of_text(s: Seq<char>) -> Option<u64> {
    match unsigned_decimal(s) {
        Some(v) => if v <= u64::MAX {
            Some(v as u64)
        } else {
            None
        },
        None => None,
    }
}

/// Relies on `<i64 as FromStr>::from_str`: an optional `+` or `-` and then
/// only decimal digits, with a value in range; anything else is an error.
#[verifier::external_body]
fn parse_i64(s: &str) -> (r: Option<i64>)
    ensures
        r == i64_of_text(s@),
{
    s.parse::<i64>().ok()
}

/// Relies on `<u32 as FromStr>::from_str`: an optional `+` and then only
/// decimal digits, with a value in range; anything else is an error.
#[verifier::external_body]
fn parse_u32(s: &str) -> (r: Option<u32>)
    ensures
        r == u32_of_text(s@),
{
    s.parse::<u32>().ok()
}

/// Relies on `<u64 as FromStr>::from_str`: an optional `+` and then only
/// decimal digits, with a value in range; anything else is an error.
#[verifier::external_body]
pub(crate) fn parse_u64(s: &str) -> (r: Option<u64>)
    ensures
        r == u64_of_text(s@),
{
    s.parse::<u64>().ok()
}

/// The character of a decimal digit.
pub open spec fn digit_char(d: int) -> char {
    seq!['0', '1', '2', '3', '4', '5', '6', '7', '8', '9'][d]
}

/// A natural number in decimal, without leading zeros.
pub open spec fn decimal_of(n: nat) -> Seq<char>
    decreases n,
{
    if n < 10 {
        seq![digit_char(n as int)]
    } else {
        decimal_of(n / 10) + seq![digit_char((n % 10) as int)]
    }
}

/// An integer in decimal, with a leading `-` when negative.
pub open spec fn signed_decimal_of(n: int) -> Seq<char> {
    if n < 0 {
        seq!['-'] + decimal_of((-n) as nat)
    } else {
        decimal_of(n as nat)
    }
}

/// Relies on the `Display` of `u64`: the number in decimal, without leading
/// zeros.
#[verifier::external_body]
pub(crate) fn decimal_u64(n: u64) -> (r: String)
    ensures
        r@ == decimal_of(n as nat),
{
    n.to_string()
}

/// Relies on the `Display` of `i64`: the number in decimal, with a leading
/// `-` when negative.
#[verifier::external_body]
pub(crate) fn decimal_i64(n: i64) -> (r: String)
    ensures
        r@ == signed_decimal_of(n as int),
{
    n.to_string()
}

/// Decimal text as an `i64`; text that is not one gives zero.
pub fn parse_string_to_i64(value: String) -> (r: i64)
    ensures
        r == (match i64_of_text(value@) {
            Some(v) => v,
            None => 0,
        }),
{
    match parse_i64(value.as_str()) {
        Some(n) => n,
        None => 0,
    }
}

/// Optional decimal text as an `i64`; absent or invalid text gives zero.
pub fn parse_option_string_to_i64(value: Option<String>) -> (r: i64)
    ensures
        r == (match value {
            Some(s) => match i64_of_text(s@) {
                Some(v) => v,
                None => 0,
            },
            None => 0,
        }),
{
    match value {
        Some(s) => parse_string_to_i64(s),
        None => 0,
    }
}

/// Optional decimal text as a `u32`; absent, invalid or out-of-range text
/// gives zero.
pub fn parse_option_string_to_u32(value: Option<String>) -> (r: u32)
    ensures
        r == (match value {
            Some(s) => match u32_of_text(s@) {
                Some(v) => v,
                None => 0,
            },
            None => 0,
        }),
{
    match value {
        Some(s) => match parse_u32(s.as_str()) {
            Some(n) => n,
            None => 0,
        },
        None => 0,
    }
}

/// An optional `i32` as a `u32`; an absent or negative value gives zero.
pub fn parse_option_i32_to_u32(value: Option<i32>) -> (r: u32)
    ensures
        r == (match value {
            Some(v) => if v < 0 {
                0
            } else {
                v as u32
            },
            None => 0,
        }),
{
    match value {
        Some(v) => if v < 0 {
            0
        } else {
            v as u32
        },
        None => 0,
    }
}

/// A signed field read as unsigned: negative values become zero.
pub open spec fn unsigned_of(x: i64) -> u64 {
    if x < 0 {
        0
    } else {
        x as u64
    }
}

/// A signed field as unsigned, with zero for negative values.
pub fn to_unsigned(x: i64) -> (r: u64)
    ensures
        r == unsigned_of(x),
{
    if x < 0 {
        0
    } else {
        x as u64
    }
}

/// A rate as an integer numerator and denominator, never reduced.
#[derive(Clone, Copy, PartialEq, Eq, Structural, Debug)]
pub struct Rational {
    pub numerator: u64,
    pub denominator: u64,
}

/// The generic per-epoch protocol parameters, as integers; every rate is a
/// numerator and a denominator.
#[derive(Clone, Copy, PartialEq, Eq, Structural, Debug)]
pub struct ProtocolParams {
    pub epoch: u32,
    pub min_fee_a: u32,
    pub min_fee_b: u32,
    pub max_block_size: u32,
    pub max_tx_size: u32,
    pub max_block_header_size: u32,
    pub key_deposit: i64,
    pub pool_deposit: i64,
    pub e_max: i64,
    pub n_opt: u32,
    pub a0_numerator: i64,
    pub a0_denominator: i64,
    pub rho_numerator: i64,
    pub rho_denominator: i64,
    pub tau_numerator: i64,
    pub tau_denominator: i64,
    pub decentralisation_param_numerator: i64,
    pub decentralisation_param_denominator: i64,
    pub extra_entropy_numerator: u32,
    pub extra_entropy_denominator: u32,
    pub protocol_major_ver: i64,
    pub protocol_minor_ver: i64,
    pub min_utxo: i64,
    pub min_pool_cost: i64,
    pub price_mem_numerator: i64,
    pub price_mem_denominator: i64,
    pub price_step_numerator: i64,
    pub price_step_denominator: i64,
    pub max_tx_ex_mem: u32,
    pub max_tx_ex_steps: i64,
    pub max_block_ex_mem: u32,
    pub max_block_ex_steps: i64,
    pub max_val_size: u32,
    pub collateral_percent: u32,
    pub max_collateral_inputs: u32,
    pub coins_per_utxo_size: i64,
    pub coins_per_utxo_word: i64,
}

/// Every field of `p` is zero.
pub open spec fn all_zero(p: ProtocolParams) -> bool {
    p == ProtocolParams {
        epoch: 0,
        min_fee_a: 0,
        min_fee_b: 0,
        max_block_size: 0,
        max_tx_size: 0,
        max_block_header_size: 0,
        key_deposit: 0,
        pool_deposit: 0,
        e_max: 0,
        n_opt: 0,
        a0_numerator: 0,
        a0_denominator: 0,
        rho_numerator: 0,
        rho_denominator: 0,
        tau_numerator: 0,
        tau_denominator: 0,
        decentralisation_param_numerator: 0,
        decentralisation_param_denominator: 0,
        extra_entropy_numerator: 0,
        extra_entropy_denominator: 0,
        protocol_major_ver: 0,
        protocol_minor_ver: 0,
        min_utxo: 0,
        min_pool_cost: 0,
        price_mem_numerator: 0,
        price_mem_denominator: 0,
        price_step_numerator: 0,
        price_step_denominator: 0,
        max_tx_ex_mem: 0,
        max_tx_ex_steps: 0,
        max_block_ex_mem: 0,
        max_block_ex_steps: 0,
        max_val_size: 0,
        collateral_percent: 0,
        max_collateral_inputs: 0,
        coins_per_utxo_size: 0,
        coins_per_utxo_word: 0,
    }
}

impl ProtocolParams {
    /// A record with every field zero: epoch zero and all defaults.
    pub fn new() -> (r: ProtocolParams)
        ensures
            all_zero(r),
    {
        ProtocolParams {
            epoch: 0,
            min_fee_a: 0,
            min_fee_b: 0,
            max_block_size: 0,
            max_tx_size: 0,
            max_block_header_size: 0,
            key_deposit: 0,
            pool_deposit: 0,
            e_max: 0,
            n_opt: 0,
            a0_numerator: 0,
            a0_denominator: 0,
            rho_numerator: 0,
            rho_denominator: 0,
            tau_numerator: 0,
            tau_denominator: 0,
            decentralisation_param_numerator: 0,
            decentralisation_param_denominator: 0,
            extra_entropy_numerator: 0,
            extra_entropy_denominator: 0,
            protocol_major_ver: 0,
            protocol_minor_ver: 0,
            min_utxo: 0,
            min_pool_cost: 0,
            price_mem_numerator: 0,
            price_mem_denominator: 0,
            price_step_numerator: 0,
            price_step_denominator: 0,
            max_tx_ex_mem: 0,
            max_tx_ex_steps: 0,
            max_block_ex_mem: 0,
            max_block_ex_steps: 0,
            max_val_size: 0,
            collateral_percent: 0,
            max_collateral_inputs: 0,
            coins_per_utxo_size: 0,
            coins_per_utxo_word: 0,
        }
    }
}

/// The parameters that the Shelley, Allegra and Mary battery reads.
#[derive(Clone, Copy, PartialEq, Eq, Structural, Debug)]
pub struct ShelleyParams {
    pub minfee_a: u32,
    pub minfee_b: u32,
    pub max_block_body_size: u32,
    pub max_transaction_size: u32,
    pub max_block_header_size: u32,
    pub key_deposit: u64,
    pub pool_deposit: u64,
    pub maximum_epoch: u64,
    pub desired_number_of_stake_pools: u32,
    pub pool_pledge_influence: Rational,
    pub expansion_rate: Rational,
    pub treasury_growth_rate: Rational,
    pub decentralization_constant: Rational,
    pub protocol_major: u64,
    pub protocol_minor: u64,
    pub min_utxo_value: u64,
    pub min_pool_cost: u64,
}

/// The parameters that the Alonzo and Babbage batteries read.
#[derive(Clone, Copy, PartialEq, Eq, Structural, Debug)]
pub struct AlonzoParams {
    pub minfee_a: u32,
    pub minfee_b: u32,
    pub max_block_body_size: u32,
    pub max_transaction_size: u32,
    pub max_block_header_size: u32,
    pub key_deposit: u64,
    pub pool_deposit: u64,
    pub maximum_epoch: u64,
    pub desired_number_of_stake_pools: u32,
    pub pool_pledge_influence: Rational,
    pub expansion_rate: Rational,
    pub treasury_growth_rate: Rational,
    pub decentralization_constant: Rational,
    pub protocol_major: u64,
    pub protocol_minor: u64,
    pub min_pool_cost: u64,
    pub ada_per_utxo_byte: u64,
    pub mem_price: Rational,
    pub step_price: Rational,
    pub max_tx_ex_mem: u32,
    pub max_tx_ex_steps: u64,
    pub max_block_ex_mem: u32,
    pub max_block_ex_steps: u64,
    pub max_value_size: u32,
    pub collateral_percentage: u32,
    pub max_collateral_inputs: u32,
}

/// A numerator and denominator carried over unchanged, negative parts
/// becoming zero.
pub open spec fn rational_of(numerator: i64, denominator: i64) -> Rational {
    Rational { numerator: unsigned_of(numerator), denominator: unsigned_of(denominator) }
}

/// A numerator and denominator carried over as they are.
pub fn to_rational(numerator: i64, denominator: i64) -> (r: Rational)
    ensures
        r == rational_of(numerator, denominator),
{
    Rational { numerator: to_unsigned(numerator), denominator: to_unsigned(denominator) }
}

/// The Shelley-family parameters that `p` gives.
pub open spec fn shelley_params_of(p: ProtocolParams) -> ShelleyParams {
    ShelleyParams {
        minfee_a: p.min_fee_a,
        minfee_b: p.min_fee_b,
        max_block_body_size: p.max_block_size,
        max_transaction_size: p.max_tx_size,
        max_block_header_size: p.max_block_header_size,
        key_deposit: unsigned_of(p.key_deposit),
        pool_deposit: unsigned_of(p.pool_deposit),
        maximum_epoch: unsigned_of(p.e_max),
        desired_number_of_stake_pools: p.n_opt,
        pool_pledge_influence: rational_of(p.a0_numerator, p.a0_denominator),
        expansion_rate: rational_of(p.rho_numerator, p.rho_denominator),
        treasury_growth_rate: rational_of(p.tau_numerator, p.tau_denominator),
        decentralization_constant: rational_of(
            p.decentralisation_param_numerator,
            p.decentralisation_param_denominator,
        ),
        protocol_major: unsigned_of(p.protocol_major_ver),
        protocol_minor: unsigned_of(p.protocol_minor_ver),
        min_utxo_value: unsigned_of(p.min_utxo),
        min_pool_cost: unsigned_of(p.min_pool_cost),
    }
}

/// The Alonzo-family parameters that `p` gives.
pub open spec fn alonzo_params_of(p: ProtocolParams) -> AlonzoParams {
    AlonzoParams {
        minfee_a: p.min_fee_a,
        minfee_b: p.min_fee_b,
        max_block_body_size: p.max_block_size,
        max_transaction_size: p.max_tx_size,
        max_block_header_size: p.max_block_header_size,
        key_deposit: unsigned_of(p.key_deposit),
        pool_deposit: unsigned_of(p.pool_deposit),
        maximum_epoch: unsigned_of(p.e_max),
        desired_number_of_stake_pools: p.n_opt,
        pool_pledge_influence: rational_of(p.a0_numerator, p.a0_denominator),
        expansion_rate: rational_of(p.rho_numerator, p.rho_denominator),
        treasury_growth_rate: rational_of(p.tau_numerator, p.tau_denominator),
        decentralization_constant: rational_of(
            p.decentralisation_param_numerator,
            p.decentralisation_param_denominator,
        ),
        protocol_major: unsigned_of(p.protocol_major_ver),
        protocol_minor: unsigned_of(p.protocol_minor_ver),
        min_pool_cost: unsigned_of(p.min_pool_cost),
        ada_per_utxo_byte: unsigned_of(p.coins_per_utxo_size),
        mem_price: rational_of(p.price_mem_numerator, p.price_mem_denominator),
        step_price: rational_of(p.price_step_numerator, p.price_step_denominator),
        max_tx_ex_mem: p.max_tx_ex_mem,
        max_tx_ex_steps: unsigned_of(p.max_tx_ex_steps),
        max_block_ex_mem: p.max_block_ex_mem,
        max_block_ex_steps: unsigned_of(p.max_block_ex_steps),
        max_value_size: p.max_val_size,
        collateral_percentage: p.collateral_percent,
        max_collateral_inputs: p.max_collateral_inputs,
    }
}

/// Adapts the generic parameters to the Shelley-family shape.
pub fn shelley_params(p: &ProtocolParams) -> (r: ShelleyParams)
    ensures
        r == shelley_params_of(*p),
{
    ShelleyParams {
        minfee_a: p.min_fee_a,
        minfee_b: p.min_fee_b,
        max_block_body_size: p.max_block_size,
        max_transaction_size: p.max_tx_size,
        max_block_header_size: p.max_block_header_size,
        key_deposit: to_unsigned(p.key_deposit),
        pool_deposit: to_unsigned(p.pool_deposit),
        maximum_epoch: to_unsigned(p.e_max),
        desired_number_of_stake_pools: p.n_opt,
        pool_pledge_influence: to_rational(p.a0_numerator, p.a0_denominator),
        expansion_rate: to_rational(p.rho_numerator, p.rho_denominator),
        treasury_growth_rate: to_rational(p.tau_numerator, p.tau_denominator),
        decentralization_constant: to_rational(
            p.decentralisation_param_numerator,
            p.decentralisation_param_denominator,
        ),
        protocol_major: to_unsigned(p.protocol_major_ver),
        protocol_minor: to_unsigned(p.protocol_minor_ver),
        min_utxo_value: to_unsigned(p.min_utxo),
        min_pool_cost: to_unsigned(p.min_pool_cost),
    }
}

/// Adapts the generic parameters to the Alonzo-family shape.
pub fn alonzo_params(p: &ProtocolParams) -> (r: AlonzoParams)
    ensures
        r == alonzo_params_of(*p),
{
    AlonzoParams {
        minfee_a: p.min_fee_a,
        minfee_b: p.min_fee_b,
        max_block_body_size: p.max_block_size,
        max_transaction_size: p.max_tx_size,
        max_block_header_size: p.max_block_header_size,
        key_deposit: to_unsigned(p.key_deposit),
        pool_deposit: to_unsigned(p.pool_deposit),
        maximum_epoch: to_unsigned(p.e_max),
        desired_number_of_stake_pools: p.n_opt,
        pool_pledge_influence: to_rational(p.a0_numerator, p.a0_denominator),
        expansion_rate: to_rational(p.rho_numerator, p.rho_denominator),
        treasury_growth_rate: to_rational(p.tau_numerator, p.tau_denominator),
        decentralization_constant: to_rational(
            p.decentralisation_param_numerator,
            p.decentralisation_param_denominator,
        ),
        protocol_major: to_unsigned(p.protocol_major_ver),
        protocol_minor: to_unsigned(p.protocol_minor_ver),
        min_pool_cost: to_unsigned(p.min_pool_cost),
        ada_per_utxo_byte: to_unsigned(p.coins_per_utxo_size),
        mem_price: to_rational(p.price_mem_numerator, p.price_mem_denominator),
        step_price: to_rational(p.price_step_numerator, p.price_step_denominator),
        max_tx_ex_mem: p.max_tx_ex_mem,
        max_tx_ex_steps: to_unsigned(p.max_tx_ex_steps),
        max_block_ex_mem: p.max_block_ex_mem,
        max_block_ex_steps: to_unsigned(p.max_block_ex_steps),
        max_value_size: p.max_val_size,
        collateral_percentage: p.collateral_percent,
        max_collateral_inputs: p.max_collateral_inputs,
    }
}

/// The rates of the generic record reach both era-specific shapes as the
/// same numerator and denominator: nothing is reduced or rounded.
pub proof fn lemma_rates_carried_exactly(p: ProtocolParams)
    requires
        p.a0_numerator >= 0,
        p.a0_denominator >= 0,
        p.rho_numerator >= 0,
        p.rho_denominator >= 0,
        p.tau_numerator >= 0,
        p.tau_denominator >= 0,
        p.decentralisation_param_numerator >= 0,
        p.decentralisation_param_denominator >= 0,
    ensures
        shelley_params_of(p).pool_pledge_influence.numerator == p.a0_numerator,
        shelley_params_of(p).pool_pledge_influence.denominator == p.a0_denominator,
        shelley_params_of(p).expansion_rate.numerator == p.rho_numerator,
        shelley_params_of(p).expansion_rate.denominator == p.rho_denominator,
        shelley_params_of(p).treasury_growth_rate.numerator == p.tau_numerator,
        shelley_params_of(p).treasury_growth_rate.denominator == p.tau_denominator,
        shelley_params_of(p).decentralization_constant.numerator
            == p.decentralisation_param_numerator,
        shelley_params_of(p).decentralization_constant.denominator
            == p.decentralisation_param_denominator,
        alonzo_params_of(p).pool_pledge_influence == shelley_params_of(p).pool_pledge_influence,
        alonzo_params_of(p).expansion_rate == shelley_params_of(p).expansion_rate,
        alonzo_params_of(p).treasury_growth_rate == shelley_params_of(p).treasury_growth_rate,
        alonzo_params_of(p).decentralization_constant
            == shelley_params_of(p).decentralization_constant,
{
}

/// The networks that a context can name.
#[derive(Clone, Copy, PartialEq, Eq, Structural, Debug)]
pub enum Network {
    Mainnet,
    Preprod,
    Preview,
}

/// The network that a name designates, if any.
pub open spec fn network_named(name: Seq<char>) -> Option<Network> {
    if name == "Mainnet"@ {
        Some(Network::Mainnet)
    } else if name == "Preprod"@ {
        Some(Network::Preprod)
    } else if name == "Preview"@ {
        Some(Network::Preview)
    } else {
        None
    }
}

/// The network a context's name selects: an unknown name selects mainnet.
pub open spec fn network_or_default(name: Seq<char>) -> Network {
    match network_named(name) {
        Some(n) => n,
        None => Network::Mainnet,
    }
}

/// The protocol magic of a network.
pub open spec fn magic_of(n: Network) -> u32 {
    match n {
        Network::Mainnet => 764824073,
        Network::Preprod => 1,
        Network::Preview => 2,
    }
}

/// The network-id bit that outputs on a network carry.
pub open spec fn network_id_of(n: Network) -> u8 {
    match n {
        Network::Mainnet => 1,
        _ => 0,
    }
}

/// Looks a network up by name; `None` for a name that is not in the table.
pub fn lookup_network(name: &String) -> (r: Option<Network>)
    ensures
        r == network_named(name@),
{
    if *name == String::from_str("Mainnet") {
        Some(Network::Mainnet)
    } else if *name == String::from_str("Preprod") {
        Some(Network::Preprod)
    } else if *name == String::from_str("Preview") {
        Some(Network::Preview)
    } else {
        None
    }
}

/// The network a context's name selects, mainnet being the default for an
/// unknown name.
pub fn select_network(name: &String) -> (r: Network)
    ensures
        r == network_or_default(name@),
{
    match lookup_network(name) {
        Some(n) => n,
        None => Network::Mainnet,
    }
}

impl Network {
    /// The protocol magic of this network.
    pub fn magic(&self) -> (r: u32)
        ensures
            r == magic_of(*self),
    {
        match self {
            Network::Mainnet => 764824073,
            Network::Preprod => 1,
            Network::Preview => 2,
        }
    }

    /// The network-id bit of this network's addresses.
    pub fn network_id(&self) -> (r: u8)
        ensures
            r == network_id_of(*self),
    {
        match self {
            Network::Mainnet => 1,
            _ => 0,
        }
    }
}

/// What a validation call is given besides the transaction.
pub struct ValidationContext {
    pub protocol_params: ProtocolParams,
    pub network: String,
    pub era: String,
    pub block_slot: u64,
}

} // verus!
