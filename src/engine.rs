//! The era validation engines: one fixed, ordered battery of named checks
//! per era, run in full whatever fails, each reporting a name, a value and
//! a description.
//!
//! The ledger library exposes its rules only as one whole-transaction
//! validator that stops at the first failure. The checks that read plain
//! facts (sizes, inputs, outputs, fees, validity bounds, network ids, the
//! balance of value, the auxiliary-data hash) are this library's own
//! statements of those rules, as the spec functions below give them; they
//! are not the ledger's rules and can disagree with them: value
//! preservation ignores withdrawals and deposits, the fees are the linear
//! minimum only, and the Byron fee does not exempt redeem addresses. A
//! report of these checks says what those statements find, not what the
//! ledger decides. The other checks place the validator's single error on
//! the check that raises it.
use vstd::prelude::*;

use crate::balance::{assets_balance, check_assets_balance};
use crate::facts::{
    all_resolved, check_all_resolved, outputs_lovelace, resolved_lovelace, sum_outputs,
    sum_resolved, OutputFacts, Resolution, TxFacts,
};
use crate::ledger::{blake2b_256, blake2b_256_of};
use crate::params::{AlonzoParams, ShelleyParams};
use crate::validation::{names_of, validation_is, Validation, Validations};

verus! {

/// The closed set of eras a transaction is decoded and validated for; the
/// Shelley, Allegra and Mary eras share one battery.
#[derive(Clone, Copy, PartialEq, Eq, Structural, Debug)]
pub enum EraKind {
    Byron,
    ShelleyMa,
    Alonzo,
    Babbage,
    Conway,
}

/// The eras whose codec a transaction can be decoded with.
#[derive(Clone, Copy, PartialEq, Eq, Structural, Debug)]
pub enum LedgerEra {
    Byron,
    Shelley,
    Alonzo,
    Babbage,
    Conway,
}

/// Everything a battery reads: the transaction's facts, the outputs its
/// inputs spend, the network id and block slot of the context, the
/// era-specific parameters, and the ledger's own verdict on the transaction.
pub struct BatteryInput {
    pub facts: TxFacts,
    pub resolution: Resolution,
    pub network_id: u8,
    pub block_slot: u64,
    pub shelley: ShelleyParams,
    pub alonzo: AlonzoParams,
    pub verdict: Result<(), String>,
}

/// How a check came out.
#[derive(Clone, Copy, PartialEq, Eq, Structural, Debug)]
pub enum Finding {
    /// The rule holds.
    Holds,
    /// The transaction's size, which the rule needs, could not be obtained.
    SizeUnknown,
    /// An output spent by the transaction could not be resolved.
    Unresolved,
    /// The rule is violated.
    Violated,
    /// The ledger validator stopped at an earlier failing check before it
    /// reached this one.
    NotEvaluated,
}

/// The largest Byron transaction, in bytes: a fixed historical constant.
pub const BYRON_MAX_TX_SIZE: u64 = 4096;

/// The constant part of the Byron minimum fee.
pub const BYRON_FEE_SUMMAND: u64 = 155381;

/// The per-byte part of the Byron minimum fee.
pub const BYRON_FEE_MULTIPLIER: u64 = 44;

/// The description of a check whose size could not be obtained.
pub open spec fn size_unknown_text() -> Seq<char> {
    "The transaction size could not be obtained."@
}

/// The description of a check that met an unresolved input.
pub open spec fn unresolved_text() -> Seq<char> {
    "Error: Unresolved input: an output spent by the transaction could not be found."@
}

/// What a violated check that the library evaluates itself reports after the
/// "Error: " prefix.
pub open spec fn violation_text(rule: Rule) -> Seq<char> {
    match rule {
        Rule::TxSize | Rule::BabbageTxSize => "The transaction size exceeds the maximum allowed."@,
        Rule::InsNotEmpty => "The set of transaction inputs is empty."@,
        Rule::OutsNotEmpty => "The set of transaction outputs is empty."@,
        Rule::OutsHaveLovelace => "A transaction output holds no Lovelace."@,
        Rule::Preservation => "The value consumed differs from the value produced."@,
        Rule::ByronFees | Rule::ShelleyFees => "The fee is below the protocol minimum."@,
        Rule::Ttl => "The TTL of the transaction is missing or has been exceeded."@,
        Rule::AlonzoValidityInterval | Rule::BabbageValidityInterval =>
            "The block slot lies outside the transaction validity interval."@,
        Rule::ShelleyNetworkId | Rule::AlonzoNetworkId | Rule::BabbageNetworkId =>
            "The network ID of an output differs from the global network ID."@,
        Rule::ShelleyMetadata | Rule::AlonzoAuxData | Rule::BabbageAuxData =>
            "The auxiliary data does not match the hash declared in the transaction body."@,
        _ => "The rule is violated."@,
    }
}

/// The size limit an era's size check uses.
pub open spec fn size_limit(era: EraKind, c: BatteryInput) -> int {
    match era {
        EraKind::Byron => BYRON_MAX_TX_SIZE as int,
        EraKind::ShelleyMa => c.shelley.max_transaction_size as int,
        _ => c.alonzo.max_transaction_size as int,
    }
}

/// Every output's base-currency amount is non-zero.
pub open spec fn outputs_have_lovelace(s: Seq<OutputFacts>) -> bool {
    forall|i: int| 0 <= i < s.len() ==> (#[trigger] s[i]).lovelace != 0
}

/// Every output that carries a network id carries `id`.
pub open spec fn outputs_on_network(s: Seq<OutputFacts>, id: u8) -> bool {
    forall|i: int| 0 <= i < s.len() ==> ((#[trigger] s[i]).network_id matches Some(n) ==> n == id)
}

/// The block slot lies within the optional bounds of the validity interval.
pub open spec fn slot_in_interval(f: TxFacts, slot: u64) -> bool {
    &&& (f.validity_start matches Some(s) ==> s <= slot)
    &&& (f.ttl matches Some(t) ==> slot <= t)
}

/// The inputs of the transaction were all resolved.
pub open spec fn inputs_resolved(c: BatteryInput) -> bool {
    all_resolved(c.resolution.inputs@, c.facts.inputs@.len() as int)
}

/// The base currency of the spent outputs equals that of the new outputs
/// plus the fee.
pub open spec fn lovelace_preserved(c: BatteryInput) -> bool {
    resolved_lovelace(c.resolution.inputs@) == outputs_lovelace(c.facts.outputs@) + match c.facts.fee {
        Some(f) => f as int,
        None => 0,
    }
}

/// The value consumed equals the value produced: the base currency
/// balances with the fee, and every other asset balances with what is
/// minted and burned.
pub open spec fn value_preserved(c: BatteryInput) -> bool {
    lovelace_preserved(c) && assets_balance(
        c.resolution.inputs@,
        c.facts.mint@,
        c.facts.output_assets@,
    )
}

/// The Byron fee, the surplus of the inputs over the outputs, reaches the
/// linear minimum for a transaction of `size` bytes.
pub open spec fn byron_fee_sufficient(c: BatteryInput, size: u64) -> bool {
    resolved_lovelace(c.resolution.inputs@) - outputs_lovelace(c.facts.outputs@)
        >= BYRON_FEE_SUMMAND + BYRON_FEE_MULTIPLIER * size
}

/// The declared fee reaches the linear minimum for a transaction of `size`
/// bytes.
pub open spec fn shelley_fee_sufficient(c: BatteryInput, size: u64) -> bool {
    match c.facts.fee {
        Some(f) => f >= c.shelley.minfee_b + c.shelley.minfee_a * size,
        None => false,
    }
}

/// The auxiliary data and the hash the body declares for it are both absent,
/// or both present with the hash the BLAKE2b digest of the data.
pub open spec fn aux_data_intact(f: TxFacts) -> bool {
    match (f.aux_data_hash, f.aux_data) {
        (Some(h), Some(d)) => h@ == blake2b_256_of(d@),
        (None, None) => true,
        _ => false,
    }
}

/// The position of a check among the ledger validator's own checks for an
/// era: the validator runs them in this order and stops at the first failure.
pub open spec fn ledger_rank(era: EraKind, rule: Rule) -> int {
    match (era, rule) {
        (EraKind::Byron, Rule::InsNotEmpty) => 0,
        (EraKind::Byron, Rule::OutsNotEmpty) => 1,
        (EraKind::Byron, Rule::ByronInsInUtxos) => 2,
        (EraKind::Byron, Rule::OutsHaveLovelace) => 3,
        (EraKind::Byron, Rule::ByronFees) => 4,
        (EraKind::Byron, Rule::TxSize) => 5,
        (EraKind::Byron, Rule::ByronWitnesses) => 6,
        (EraKind::ShelleyMa, Rule::InsNotEmpty) => 0,
        (EraKind::ShelleyMa, Rule::ShelleyInsInUtxos) => 1,
        (EraKind::ShelleyMa, Rule::Ttl) => 2,
        (EraKind::ShelleyMa, Rule::TxSize) => 3,
        (EraKind::ShelleyMa, Rule::ShelleyMinLovelace) => 4,
        (EraKind::ShelleyMa, Rule::Preservation) => 5,
        (EraKind::ShelleyMa, Rule::ShelleyFees) => 6,
        (EraKind::ShelleyMa, Rule::ShelleyNetworkId) => 7,
        (EraKind::ShelleyMa, Rule::ShelleyMetadata) => 8,
        (EraKind::ShelleyMa, Rule::ShelleyWitnesses) => 9,
        (EraKind::ShelleyMa, Rule::ShelleyMinting) => 10,
        (EraKind::Alonzo, Rule::InsNotEmpty) => 0,
        (EraKind::Alonzo, Rule::AlonzoInsAndCollateral) => 1,
        (EraKind::Alonzo, Rule::AlonzoValidityInterval) => 2,
        (EraKind::Alonzo, Rule::AlonzoFee) => 3,
        (EraKind::Alonzo, Rule::Preservation) => 4,
        (EraKind::Alonzo, Rule::AlonzoMinLovelace) => 5,
        (EraKind::Alonzo, Rule::AlonzoOutputValSize) => 6,
        (EraKind::Alonzo, Rule::AlonzoNetworkId) => 7,
        (EraKind::Alonzo, Rule::TxSize) => 8,
        (EraKind::Alonzo, Rule::AlonzoExUnits) => 9,
        (EraKind::Alonzo, Rule::AlonzoWitnessSet) => 10,
        (EraKind::Alonzo, Rule::AlonzoLanguages) => 11,
        (EraKind::Alonzo, Rule::AlonzoAuxData) => 12,
        (EraKind::Alonzo, Rule::AlonzoScriptDataHash) => 13,
        (EraKind::Alonzo, Rule::AlonzoMinting) => 14,
        (EraKind::Babbage, Rule::InsNotEmpty) => 0,
        (EraKind::Babbage, Rule::BabbageAllIns) => 1,
        (EraKind::Babbage, Rule::BabbageValidityInterval) => 2,
        (EraKind::Babbage, Rule::BabbageFee) => 3,
        (EraKind::Babbage, Rule::Preservation) => 4,
        (EraKind::Babbage, Rule::BabbageMinLovelace) => 5,
        (EraKind::Babbage, Rule::BabbageOutputValSize) => 6,
        (EraKind::Babbage, Rule::BabbageNetworkId) => 7,
        (EraKind::Babbage, Rule::BabbageTxSize) => 8,
        (EraKind::Babbage, Rule::BabbageExUnits) => 9,
        (EraKind::Babbage, Rule::BabbageMinting) => 10,
        (EraKind::Babbage, Rule::BabbageWellFormed) => 11,
        (EraKind::Babbage, Rule::BabbageWitnessSet) => 12,
        (EraKind::Babbage, Rule::BabbageLanguages) => 13,
        (EraKind::Babbage, Rule::BabbageAuxData) => 14,
        (EraKind::Babbage, Rule::BabbageScriptDataHash) => 15,
        _ => 0,
    }
}

/// The position of a check among the ledger validator's own checks.
fn rank_of(era: EraKind, rule: Rule) -> (r: u8)
    ensures
        r as int == ledger_rank(era, rule),
{
    match (era, rule) {
        (EraKind::Byron, Rule::InsNotEmpty) => 0,
        (EraKind::Byron, Rule::OutsNotEmpty) => 1,
        (EraKind::Byron, Rule::ByronInsInUtxos) => 2,
        (EraKind::Byron, Rule::OutsHaveLovelace) => 3,
        (EraKind::Byron, Rule::ByronFees) => 4,
        (EraKind::Byron, Rule::TxSize) => 5,
        (EraKind::Byron, Rule::ByronWitnesses) => 6,
        (EraKind::ShelleyMa, Rule::InsNotEmpty) => 0,
        (EraKind::ShelleyMa, Rule::ShelleyInsInUtxos) => 1,
        (EraKind::ShelleyMa, Rule::Ttl) => 2,
        (EraKind::ShelleyMa, Rule::TxSize) => 3,
        (EraKind::ShelleyMa, Rule::ShelleyMinLovelace) => 4,
        (EraKind::ShelleyMa, Rule::Preservation) => 5,
        (EraKind::ShelleyMa, Rule::ShelleyFees) => 6,
        (EraKind::ShelleyMa, Rule::ShelleyNetworkId) => 7,
        (EraKind::ShelleyMa, Rule::ShelleyMetadata) => 8,
        (EraKind::ShelleyMa, Rule::ShelleyWitnesses) => 9,
        (EraKind::ShelleyMa, Rule::ShelleyMinting) => 10,
        (EraKind::Alonzo, Rule::InsNotEmpty) => 0,
        (EraKind::Alonzo, Rule::AlonzoInsAndCollateral) => 1,
        (EraKind::Alonzo, Rule::AlonzoValidityInterval) => 2,
        (EraKind::Alonzo, Rule::AlonzoFee) => 3,
        (EraKind::Alonzo, Rule::Preservation) => 4,
        (EraKind::Alonzo, Rule::AlonzoMinLovelace) => 5,
        (EraKind::Alonzo, Rule::AlonzoOutputValSize) => 6,
        (EraKind::Alonzo, Rule::AlonzoNetworkId) => 7,
        (EraKind::Alonzo, Rule::TxSize) => 8,
        (EraKind::Alonzo, Rule::AlonzoExUnits) => 9,
        (EraKind::Alonzo, Rule::AlonzoWitnessSet) => 10,
        (EraKind::Alonzo, Rule::AlonzoLanguages) => 11,
        (EraKind::Alonzo, Rule::AlonzoAuxData) => 12,
        (EraKind::Alonzo, Rule::AlonzoScriptDataHash) => 13,
        (EraKind::Alonzo, Rule::AlonzoMinting) => 14,
        (EraKind::Babbage, Rule::InsNotEmpty) => 0,
        (EraKind::Babbage, Rule::BabbageAllIns) => 1,
        (EraKind::Babbage, Rule::BabbageValidityInterval) => 2,
        (EraKind::Babbage, Rule::BabbageFee) => 3,
        (EraKind::Babbage, Rule::Preservation) => 4,
        (EraKind::Babbage, Rule::BabbageMinLovelace) => 5,
        (EraKind::Babbage, Rule::BabbageOutputValSize) => 6,
        (EraKind::Babbage, Rule::BabbageNetworkId) => 7,
        (EraKind::Babbage, Rule::BabbageTxSize) => 8,
        (EraKind::Babbage, Rule::BabbageExUnits) => 9,
        (EraKind::Babbage, Rule::BabbageMinting) => 10,
        (EraKind::Babbage, Rule::BabbageWellFormed) => 11,
        (EraKind::Babbage, Rule::BabbageWitnessSet) => 12,
        (EraKind::Babbage, Rule::BabbageLanguages) => 13,
        (EraKind::Babbage, Rule::BabbageAuxData) => 14,
        (EraKind::Babbage, Rule::BabbageScriptDataHash) => 15,
        _ => 0,
    }
}

/// The check a variant of the ledger validator's error belongs to: the
/// first check, in the validator's order, that can raise it.
pub open spec fn error_rule(era: EraKind, variant: Seq<char>) -> Option<Rule> {
    if era == EraKind::Byron {
        if variant == "FeesBelowMin"@ {
            Some(Rule::ByronFees)
        } else if variant == "InputNotInUTxO"@ {
            Some(Rule::ByronInsInUtxos)
        } else if variant == "MaxTxSizeExceeded"@ {
            Some(Rule::TxSize)
        } else if variant == "MissingWitness"@ {
            Some(Rule::ByronWitnesses)
        } else if variant == "OutputWithoutLovelace"@ {
            Some(Rule::OutsHaveLovelace)
        } else if variant == "TxInsEmpty"@ {
            Some(Rule::InsNotEmpty)
        } else if variant == "TxOutsEmpty"@ {
            Some(Rule::OutsNotEmpty)
        } else if variant == "UnableToComputeFees"@ {
            Some(Rule::ByronFees)
        } else if variant == "UnableToProcessWitness"@ {
            Some(Rule::ByronWitnesses)
        } else if variant == "WrongSignature"@ {
            Some(Rule::ByronWitnesses)
        } else {
            None
        }
    } else if era == EraKind::ShelleyMa {
        if variant == "AddressDecoding"@ {
            Some(Rule::ShelleyNetworkId)
        } else if variant == "AlonzoCompNotShelley"@ {
            Some(Rule::Ttl)
        } else if variant == "FeesBelowMin"@ {
            Some(Rule::ShelleyFees)
        } else if variant == "InputNotInUTxO"@ {
            Some(Rule::ShelleyInsInUtxos)
        } else if variant == "MaxTxSizeExceeded"@ {
            Some(Rule::TxSize)
        } else if variant == "MetadataHash"@ {
            Some(Rule::ShelleyMetadata)
        } else if variant == "MinLovelaceUnreached"@ {
            Some(Rule::ShelleyMinLovelace)
        } else if variant == "MintingLacksPolicy"@ {
            Some(Rule::ShelleyMinting)
        } else if variant == "MissingScriptWitness"@ {
            Some(Rule::ShelleyWitnesses)
        } else if variant == "MissingVKWitness"@ {
            Some(Rule::ShelleyWitnesses)
        } else if variant == "NegativeValue"@ {
            Some(Rule::Preservation)
        } else if variant == "PreservationOfValue"@ {
            Some(Rule::Preservation)
        } else if variant == "TTLExceeded"@ {
            Some(Rule::Ttl)
        } else if variant == "TxInsEmpty"@ {
            Some(Rule::InsNotEmpty)
        } else if variant == "ValueNotShelley"@ {
            Some(Rule::ShelleyMinLovelace)
        } else if variant == "WrongEraOutput"@ {
            Some(Rule::Preservation)
        } else if variant == "WrongNetworkID"@ {
            Some(Rule::ShelleyNetworkId)
        } else if variant == "WrongSignature"@ {
            Some(Rule::ShelleyWitnesses)
        } else {
            None
        }
    } else if era == EraKind::Alonzo {
        if variant == "AddressDecoding"@ {
            Some(Rule::AlonzoNetworkId)
        } else if variant == "BlockExceedsValInt"@ {
            Some(Rule::AlonzoValidityInterval)
        } else if variant == "BlockPrecedesValInt"@ {
            Some(Rule::AlonzoValidityInterval)
        } else if variant == "CollateralMinLovelace"@ {
            Some(Rule::AlonzoFee)
        } else if variant == "CollateralMissing"@ {
            Some(Rule::AlonzoFee)
        } else if variant == "CollateralNotInUTxO"@ {
            Some(Rule::AlonzoInsAndCollateral)
        } else if variant == "CollateralNotVKeyLocked"@ {
            Some(Rule::AlonzoFee)
        } else if variant == "DatumMissing"@ {
            Some(Rule::AlonzoWitnessSet)
        } else if variant == "FeeBelowMin"@ {
            Some(Rule::AlonzoFee)
        } else if variant == "InputDecoding"@ {
            Some(Rule::AlonzoFee)
        } else if variant == "InputNotInUTxO"@ {
            Some(Rule::AlonzoInsAndCollateral)
        } else if variant == "MaxTxSizeExceeded"@ {
            Some(Rule::TxSize)
        } else if variant == "MaxValSizeExceeded"@ {
            Some(Rule::AlonzoOutputValSize)
        } else if variant == "MetadataHash"@ {
            Some(Rule::AlonzoAuxData)
        } else if variant == "MinLovelaceUnreached"@ {
            Some(Rule::AlonzoMinLovelace)
        } else if variant == "MintingLacksPolicy"@ {
            Some(Rule::AlonzoWitnessSet)
        } else if variant == "NegativeValue"@ {
            Some(Rule::Preservation)
        } else if variant == "NonLovelaceCollateral"@ {
            Some(Rule::AlonzoFee)
        } else if variant == "OutputWrongNetworkID"@ {
            Some(Rule::AlonzoNetworkId)
        } else if variant == "PreservationOfValue"@ {
            Some(Rule::Preservation)
        } else if variant == "RedeemerMissing"@ {
            Some(Rule::AlonzoExUnits)
        } else if variant == "ReqSignerMissing"@ {
            Some(Rule::AlonzoWitnessSet)
        } else if variant == "ReqSignerWrongSig"@ {
            Some(Rule::AlonzoWitnessSet)
        } else if variant == "ScriptIntegrityHash"@ {
            Some(Rule::AlonzoScriptDataHash)
        } else if variant == "ScriptWitnessMissing"@ {
            Some(Rule::AlonzoWitnessSet)
        } else if variant == "TooManyCollaterals"@ {
            Some(Rule::AlonzoFee)
        } else if variant == "TxExUnitsExceeded"@ {
            Some(Rule::AlonzoExUnits)
        } else if variant == "TxInsEmpty"@ {
            Some(Rule::InsNotEmpty)
        } else if variant == "TxWrongNetworkID"@ {
            Some(Rule::AlonzoNetworkId)
        } else if variant == "UnneededDatum"@ {
            Some(Rule::AlonzoWitnessSet)
        } else if variant == "UnneededNativeScript"@ {
            Some(Rule::AlonzoWitnessSet)
        } else if variant == "UnneededPlutusScript"@ {
            Some(Rule::AlonzoWitnessSet)
        } else if variant == "UnneededRedeemer"@ {
            Some(Rule::AlonzoWitnessSet)
        } else if variant == "VKWitnessMissing"@ {
            Some(Rule::AlonzoWitnessSet)
        } else if variant == "VKWrongSignature"@ {
            Some(Rule::AlonzoWitnessSet)
        } else {
            None
        }
    } else if era == EraKind::Babbage {
        if variant == "AddressDecoding"@ {
            Some(Rule::BabbageNetworkId)
        } else if variant == "BlockExceedsValInt"@ {
            Some(Rule::BabbageValidityInterval)
        } else if variant == "BlockPrecedesValInt"@ {
            Some(Rule::BabbageValidityInterval)
        } else if variant == "CollateralAnnotation"@ {
            Some(Rule::BabbageFee)
        } else if variant == "CollateralMinLovelace"@ {
            Some(Rule::BabbageFee)
        } else if variant == "CollateralMissing"@ {
            Some(Rule::BabbageFee)
        } else if variant == "CollateralNotInUTxO"@ {
            Some(Rule::BabbageAllIns)
        } else if variant == "CollateralNotVKeyLocked"@ {
            Some(Rule::BabbageFee)
        } else if variant == "DatumMissing"@ {
            Some(Rule::BabbageWitnessSet)
        } else if variant == "FeeBelowMin"@ {
            Some(Rule::BabbageFee)
        } else if variant == "InputDecoding"@ {
            Some(Rule::BabbageFee)
        } else if variant == "InputNotInUTxO"@ {
            Some(Rule::BabbageAllIns)
        } else if variant == "MaxTxSizeExceeded"@ {
            Some(Rule::BabbageTxSize)
        } else if variant == "MaxValSizeExceeded"@ {
            Some(Rule::BabbageOutputValSize)
        } else if variant == "MetadataHash"@ {
            Some(Rule::BabbageAuxData)
        } else if variant == "MinLovelaceUnreached"@ {
            Some(Rule::BabbageMinLovelace)
        } else if variant == "MintingLacksPolicy"@ {
            Some(Rule::BabbageMinting)
        } else if variant == "NegativeValue"@ {
            Some(Rule::BabbageFee)
        } else if variant == "NonLovelaceCollateral"@ {
            Some(Rule::BabbageFee)
        } else if variant == "OutputWrongNetworkID"@ {
            Some(Rule::BabbageNetworkId)
        } else if variant == "PreservationOfValue"@ {
            Some(Rule::Preservation)
        } else if variant == "RedeemerMissing"@ {
            Some(Rule::BabbageExUnits)
        } else if variant == "ReferenceInputNotInUTxO"@ {
            Some(Rule::BabbageAllIns)
        } else if variant == "ReqSignerMissing"@ {
            Some(Rule::BabbageWitnessSet)
        } else if variant == "ReqSignerWrongSig"@ {
            Some(Rule::BabbageWitnessSet)
        } else if variant == "ScriptIntegrityHash"@ {
            Some(Rule::BabbageScriptDataHash)
        } else if variant == "ScriptWitnessMissing"@ {
            Some(Rule::BabbageWitnessSet)
        } else if variant == "TooManyCollaterals"@ {
            Some(Rule::BabbageFee)
        } else if variant == "TxExUnitsExceeded"@ {
            Some(Rule::BabbageExUnits)
        } else if variant == "TxInsEmpty"@ {
            Some(Rule::InsNotEmpty)
        } else if variant == "TxWrongNetworkID"@ {
            Some(Rule::BabbageNetworkId)
        } else if variant == "UnneededDatum"@ {
            Some(Rule::BabbageWitnessSet)
        } else if variant == "UnneededNativeScript"@ {
            Some(Rule::BabbageWitnessSet)
        } else if variant == "UnneededPlutusV1Script"@ {
            Some(Rule::BabbageWitnessSet)
        } else if variant == "UnneededPlutusV2Script"@ {
            Some(Rule::BabbageWitnessSet)
        } else if variant == "UnneededRedeemer"@ {
            Some(Rule::BabbageWitnessSet)
        } else if variant == "UnsupportedPlutusLanguage"@ {
            Some(Rule::BabbageLanguages)
        } else if variant == "VKWitnessMissing"@ {
            Some(Rule::BabbageWitnessSet)
        } else if variant == "VKWrongSignature"@ {
            Some(Rule::BabbageWitnessSet)
        } else {
            None
        }
    } else {
        None
    }
}

/// The check a variant of the ledger validator's error belongs to.
fn rule_of_error(era: EraKind, variant: &String) -> (r: Option<Rule>)
    ensures
        r == error_rule(era, variant@),
{
    if era == EraKind::Byron {
        if *variant == String::from_str("FeesBelowMin") {
            Some(Rule::ByronFees)
        } else if *variant == String::from_str("InputNotInUTxO") {
            Some(Rule::ByronInsInUtxos)
        } else if *variant == String::from_str("MaxTxSizeExceeded") {
            Some(Rule::TxSize)
        } else if *variant == String::from_str("MissingWitness") {
            Some(Rule::ByronWitnesses)
        } else if *variant == String::from_str("OutputWithoutLovelace") {
            Some(Rule::OutsHaveLovelace)
        } else if *variant == String::from_str("TxInsEmpty") {
            Some(Rule::InsNotEmpty)
        } else if *variant == String::from_str("TxOutsEmpty") {
            Some(Rule::OutsNotEmpty)
        } else if *variant == String::from_str("UnableToComputeFees") {
            Some(Rule::ByronFees)
        } else if *variant == String::from_str("UnableToProcessWitness") {
            Some(Rule::ByronWitnesses)
        } else if *variant == String::from_str("WrongSignature") {
            Some(Rule::ByronWitnesses)
        } else {
            None
        }
    } else if era == EraKind::ShelleyMa {
        if *variant == String::from_str("AddressDecoding") {
            Some(Rule::ShelleyNetworkId)
        } else if *variant == String::from_str("AlonzoCompNotShelley") {
            Some(Rule::Ttl)
        } else if *variant == String::from_str("FeesBelowMin") {
            Some(Rule::ShelleyFees)
        } else if *variant == String::from_str("InputNotInUTxO") {
            Some(Rule::ShelleyInsInUtxos)
        } else if *variant == String::from_str("MaxTxSizeExceeded") {
            Some(Rule::TxSize)
        } else if *variant == String::from_str("MetadataHash") {
            Some(Rule::ShelleyMetadata)
        } else if *variant == String::from_str("MinLovelaceUnreached") {
            Some(Rule::ShelleyMinLovelace)
        } else if *variant == String::from_str("MintingLacksPolicy") {
            Some(Rule::ShelleyMinting)
        } else if *variant == String::from_str("MissingScriptWitness") {
            Some(Rule::ShelleyWitnesses)
        } else if *variant == String::from_str("MissingVKWitness") {
            Some(Rule::ShelleyWitnesses)
        } else if *variant == String::from_str("NegativeValue") {
            Some(Rule::Preservation)
        } else if *variant == String::from_str("PreservationOfValue") {
            Some(Rule::Preservation)
        } else if *variant == String::from_str("TTLExceeded") {
            Some(Rule::Ttl)
        } else if *variant == String::from_str("TxInsEmpty") {
            Some(Rule::InsNotEmpty)
        } else if *variant == String::from_str("ValueNotShelley") {
            Some(Rule::ShelleyMinLovelace)
        } else if *variant == String::from_str("WrongEraOutput") {
            Some(Rule::Preservation)
        } else if *variant == String::from_str("WrongNetworkID") {
            Some(Rule::ShelleyNetworkId)
        } else if *variant == String::from_str("WrongSignature") {
            Some(Rule::ShelleyWitnesses)
        } else {
            None
        }
    } else if era == EraKind::Alonzo {
        if *variant == String::from_str("AddressDecoding") {
            Some(Rule::AlonzoNetworkId)
        } else if *variant == String::from_str("BlockExceedsValInt") {
            Some(Rule::AlonzoValidityInterval)
        } else if *variant == String::from_str("BlockPrecedesValInt") {
            Some(Rule::AlonzoValidityInterval)
        } else if *variant == String::from_str("CollateralMinLovelace") {
            Some(Rule::AlonzoFee)
        } else if *variant == String::from_str("CollateralMissing") {
            Some(Rule::AlonzoFee)
        } else if *variant == String::from_str("CollateralNotInUTxO") {
            Some(Rule::AlonzoInsAndCollateral)
        } else if *variant == String::from_str("CollateralNotVKeyLocked") {
            Some(Rule::AlonzoFee)
        } else if *variant == String::from_str("DatumMissing") {
            Some(Rule::AlonzoWitnessSet)
        } else if *variant == String::from_str("FeeBelowMin") {
            Some(Rule::AlonzoFee)
        } else if *variant == String::from_str("InputDecoding") {
            Some(Rule::AlonzoFee)
        } else if *variant == String::from_str("InputNotInUTxO") {
            Some(Rule::AlonzoInsAndCollateral)
        } else if *variant == String::from_str("MaxTxSizeExceeded") {
            Some(Rule::TxSize)
        } else if *variant == String::from_str("MaxValSizeExceeded") {
            Some(Rule::AlonzoOutputValSize)
        } else if *variant == String::from_str("MetadataHash") {
            Some(Rule::AlonzoAuxData)
        } else if *variant == String::from_str("MinLovelaceUnreached") {
            Some(Rule::AlonzoMinLovelace)
        } else if *variant == String::from_str("MintingLacksPolicy") {
            Some(Rule::AlonzoWitnessSet)
        } else if *variant == String::from_str("NegativeValue") {
            Some(Rule::Preservation)
        } else if *variant == String::from_str("NonLovelaceCollateral") {
            Some(Rule::AlonzoFee)
        } else if *variant == String::from_str("OutputWrongNetworkID") {
            Some(Rule::AlonzoNetworkId)
        } else if *variant == String::from_str("PreservationOfValue") {
            Some(Rule::Preservation)
        } else if *variant == String::from_str("RedeemerMissing") {
            Some(Rule::AlonzoExUnits)
        } else if *variant == String::from_str("ReqSignerMissing") {
            Some(Rule::AlonzoWitnessSet)
        } else if *variant == String::from_str("ReqSignerWrongSig") {
            Some(Rule::AlonzoWitnessSet)
        } else if *variant == String::from_str("ScriptIntegrityHash") {
            Some(Rule::AlonzoScriptDataHash)
        } else if *variant == String::from_str("ScriptWitnessMissing") {
            Some(Rule::AlonzoWitnessSet)
        } else if *variant == String::from_str("TooManyCollaterals") {
            Some(Rule::AlonzoFee)
        } else if *variant == String::from_str("TxExUnitsExceeded") {
            Some(Rule::AlonzoExUnits)
        } else if *variant == String::from_str("TxInsEmpty") {
            Some(Rule::InsNotEmpty)
        } else if *variant == String::from_str("TxWrongNetworkID") {
            Some(Rule::AlonzoNetworkId)
        } else if *variant == String::from_str("UnneededDatum") {
            Some(Rule::AlonzoWitnessSet)
        } else if *variant == String::from_str("UnneededNativeScript") {
            Some(Rule::AlonzoWitnessSet)
        } else if *variant == String::from_str("UnneededPlutusScript") {
            Some(Rule::AlonzoWitnessSet)
        } else if *variant == String::from_str("UnneededRedeemer") {
            Some(Rule::AlonzoWitnessSet)
        } else if *variant == String::from_str("VKWitnessMissing") {
            Some(Rule::AlonzoWitnessSet)
        } else if *variant == String::from_str("VKWrongSignature") {
            Some(Rule::AlonzoWitnessSet)
        } else {
            None
        }
    } else if era == EraKind::Babbage {
        if *variant == String::from_str("AddressDecoding") {
            Some(Rule::BabbageNetworkId)
        } else if *variant == String::from_str("BlockExceedsValInt") {
            Some(Rule::BabbageValidityInterval)
        } else if *variant == String::from_str("BlockPrecedesValInt") {
            Some(Rule::BabbageValidityInterval)
        } else if *variant == String::from_str("CollateralAnnotation") {
            Some(Rule::BabbageFee)
        } else if *variant == String::from_str("CollateralMinLovelace") {
            Some(Rule::BabbageFee)
        } else if *variant == String::from_str("CollateralMissing") {
            Some(Rule::BabbageFee)
        } else if *variant == String::from_str("CollateralNotInUTxO") {
            Some(Rule::BabbageAllIns)
        } else if *variant == String::from_str("CollateralNotVKeyLocked") {
            Some(Rule::BabbageFee)
        } else if *variant == String::from_str("DatumMissing") {
            Some(Rule::BabbageWitnessSet)
        } else if *variant == String::from_str("FeeBelowMin") {
            Some(Rule::BabbageFee)
        } else if *variant == String::from_str("InputDecoding") {
            Some(Rule::BabbageFee)
        } else if *variant == String::from_str("InputNotInUTxO") {
            Some(Rule::BabbageAllIns)
        } else if *variant == String::from_str("MaxTxSizeExceeded") {
            Some(Rule::BabbageTxSize)
        } else if *variant == String::from_str("MaxValSizeExceeded") {
            Some(Rule::BabbageOutputValSize)
        } else if *variant == String::from_str("MetadataHash") {
            Some(Rule::BabbageAuxData)
        } else if *variant == String::from_str("MinLovelaceUnreached") {
            Some(Rule::BabbageMinLovelace)
        } else if *variant == String::from_str("MintingLacksPolicy") {
            Some(Rule::BabbageMinting)
        } else if *variant == String::from_str("NegativeValue") {
            Some(Rule::BabbageFee)
        } else if *variant == String::from_str("NonLovelaceCollateral") {
            Some(Rule::BabbageFee)
        } else if *variant == String::from_str("OutputWrongNetworkID") {
            Some(Rule::BabbageNetworkId)
        } else if *variant == String::from_str("PreservationOfValue") {
            Some(Rule::Preservation)
        } else if *variant == String::from_str("RedeemerMissing") {
            Some(Rule::BabbageExUnits)
        } else if *variant == String::from_str("ReferenceInputNotInUTxO") {
            Some(Rule::BabbageAllIns)
        } else if *variant == String::from_str("ReqSignerMissing") {
            Some(Rule::BabbageWitnessSet)
        } else if *variant == String::from_str("ReqSignerWrongSig") {
            Some(Rule::BabbageWitnessSet)
        } else if *variant == String::from_str("ScriptIntegrityHash") {
            Some(Rule::BabbageScriptDataHash)
        } else if *variant == String::from_str("ScriptWitnessMissing") {
            Some(Rule::BabbageWitnessSet)
        } else if *variant == String::from_str("TooManyCollaterals") {
            Some(Rule::BabbageFee)
        } else if *variant == String::from_str("TxExUnitsExceeded") {
            Some(Rule::BabbageExUnits)
        } else if *variant == String::from_str("TxInsEmpty") {
            Some(Rule::InsNotEmpty)
        } else if *variant == String::from_str("TxWrongNetworkID") {
            Some(Rule::BabbageNetworkId)
        } else if *variant == String::from_str("UnneededDatum") {
            Some(Rule::BabbageWitnessSet)
        } else if *variant == String::from_str("UnneededNativeScript") {
            Some(Rule::BabbageWitnessSet)
        } else if *variant == String::from_str("UnneededPlutusV1Script") {
            Some(Rule::BabbageWitnessSet)
        } else if *variant == String::from_str("UnneededPlutusV2Script") {
            Some(Rule::BabbageWitnessSet)
        } else if *variant == String::from_str("UnneededRedeemer") {
            Some(Rule::BabbageWitnessSet)
        } else if *variant == String::from_str("UnsupportedPlutusLanguage") {
            Some(Rule::BabbageLanguages)
        } else if *variant == String::from_str("VKWitnessMissing") {
            Some(Rule::BabbageWitnessSet)
        } else if *variant == String::from_str("VKWrongSignature") {
            Some(Rule::BabbageWitnessSet)
        } else {
            None
        }
    } else {
        None
    }
}

/// The tag the ledger validator's error carries for an era.
pub open spec fn error_tag(era: EraKind) -> Seq<char> {
    match era {
        EraKind::Byron => "Byron"@,
        EraKind::ShelleyMa => "ShelleyMA"@,
        EraKind::Alonzo => "Alonzo"@,
        EraKind::Babbage => "Babbage"@,
        EraKind::Conway => "Conway"@,
    }
}

/// The tag the ledger validator's error carries for an era.
fn tag_of_errors(era: EraKind) -> (r: String)
    ensures
        r@ == error_tag(era),
{
    match era {
        EraKind::Byron => String::from_str("Byron"),
        EraKind::ShelleyMa => String::from_str("ShelleyMA"),
        EraKind::Alonzo => String::from_str("Alonzo"),
        EraKind::Babbage => String::from_str("Babbage"),
        EraKind::Conway => String::from_str("Conway"),
    }
}

/// The variant an error text of the form `tag(variant)` names.
pub open spec fn variant_in(e: Seq<char>, tag: Seq<char>) -> Option<Seq<char>> {
    if e.len() >= tag.len() + 2 && e.subrange(0, tag.len() as int) == tag && e[tag.len() as int]
        == '(' && e.last() == ')' {
        Some(e.subrange((tag.len() + 1) as int, (e.len() - 1) as int))
    } else {
        None
    }
}

/// How a check judged by the ledger validator comes out. The validator runs
/// its checks in order and reports the first failure only: the check that
/// failure belongs to is violated, the checks before it held, and the
/// checks after it were not evaluated. An error the table does not place
/// leaves every such check not evaluated.
pub open spec fn ledger_finding(rule: Rule, era: EraKind, verdict: Result<(), String>) -> Finding {
    match verdict {
        Ok(_) => Finding::Holds,
        Err(e) => match variant_in(e@, error_tag(era)) {
            Some(v) => match error_rule(era, v) {
                Some(failed) => if failed == rule {
                    Finding::Violated
                } else if ledger_rank(era, failed) < ledger_rank(era, rule) {
                    Finding::NotEvaluated
                } else {
                    Finding::Holds
                },
                None => Finding::NotEvaluated,
            },
            None => Finding::NotEvaluated,
        },
    }
}

/// The fee checks of the script eras need the size.
pub open spec fn needs_size(rule: Rule) -> bool {
    rule == Rule::AlonzoFee || rule == Rule::BabbageFee
}

/// How a check comes out for an era and a battery input.
pub open spec fn rule_finding(rule: Rule, era: EraKind, c: BatteryInput) -> Finding {
    if is_ledger_rule(rule) {
        if needs_size(rule) && c.facts.size is None {
            Finding::SizeUnknown
        } else {
            ledger_finding(rule, era, c.verdict)
        }
    } else {
        match rule {
            Rule::TxSize | Rule::BabbageTxSize => match c.facts.size {
                Some(s) => if s <= size_limit(era, c) {
                    Finding::Holds
                } else {
                    Finding::Violated
                },
                None => Finding::SizeUnknown,
            },
            Rule::InsNotEmpty => if c.facts.inputs@.len() > 0 {
                Finding::Holds
            } else {
                Finding::Violated
            },
            Rule::OutsNotEmpty => if c.facts.outputs@.len() > 0 {
                Finding::Holds
            } else {
                Finding::Violated
            },
            Rule::OutsHaveLovelace => if outputs_have_lovelace(c.facts.outputs@) {
                Finding::Holds
            } else {
                Finding::Violated
            },
            Rule::ByronInsInUtxos | Rule::ShelleyInsInUtxos => if inputs_resolved(c) {
                Finding::Holds
            } else {
                Finding::Unresolved
            },
            Rule::AlonzoInsAndCollateral => if inputs_resolved(c) && all_resolved(
                c.resolution.collateral@,
                c.facts.collateral@.len() as int,
            ) {
                Finding::Holds
            } else {
                Finding::Unresolved
            },
            Rule::BabbageAllIns => if inputs_resolved(c) && all_resolved(
                c.resolution.collateral@,
                c.facts.collateral@.len() as int,
            ) && all_resolved(
                c.resolution.reference_inputs@,
                c.facts.reference_inputs@.len() as int,
            ) {
                Finding::Holds
            } else {
                Finding::Unresolved
            },
            Rule::Preservation => if !inputs_resolved(c) {
                Finding::Unresolved
            } else if value_preserved(c) {
                Finding::Holds
            } else {
                Finding::Violated
            },
            Rule::ByronFees => if !inputs_resolved(c) {
                Finding::Unresolved
            } else {
                match c.facts.size {
                    Some(s) => if byron_fee_sufficient(c, s) {
                        Finding::Holds
                    } else {
                        Finding::Violated
                    },
                    None => Finding::SizeUnknown,
                }
            },
            Rule::ShelleyFees => match c.facts.size {
                Some(s) => if shelley_fee_sufficient(c, s) {
                    Finding::Holds
                } else {
                    Finding::Violated
                },
                None => Finding::SizeUnknown,
            },
            Rule::Ttl => if c.facts.ttl matches Some(t) && c.block_slot <= t {
                Finding::Holds
            } else {
                Finding::Violated
            },
            Rule::AlonzoValidityInterval | Rule::BabbageValidityInterval => if slot_in_interval(
                c.facts,
                c.block_slot,
            ) {
                Finding::Holds
            } else {
                Finding::Violated
            },
            Rule::ShelleyMetadata | Rule::AlonzoAuxData | Rule::BabbageAuxData => if aux_data_intact(
                c.facts,
            ) {
                Finding::Holds
            } else {
                Finding::Violated
            },
            _ => if outputs_on_network(c.facts.outputs@, c.network_id) {
                Finding::Holds
            } else {
                Finding::Violated
            },
        }
    }
}

/// The description a check reports: its rule when it holds, else what went
/// wrong; a check judged by the ledger reports the ledger's error.
pub open spec fn rule_description(rule: Rule, era: EraKind, c: BatteryInput) -> Seq<char> {
    match rule_finding(rule, era, c) {
        Finding::Holds => rule_statement(rule),
        Finding::SizeUnknown => if rule == Rule::AlonzoFee {
            "The size could not be obtained."@
        } else {
            size_unknown_text()
        },
        Finding::Unresolved => unresolved_text(),
        Finding::NotEvaluated => match c.verdict {
            Err(e) => "Error: Not evaluated: an earlier rule failed: "@ + e@,
            Ok(_) => "Error: Not evaluated: an earlier rule failed: "@,
        },
        Finding::Violated => if is_ledger_rule(rule) {
            match c.verdict {
                Err(e) => "Error: "@ + e@,
                Ok(_) => "Error: "@,
            }
        } else {
            "Error: "@ + violation_text(rule)
        },
    }
}

/// The report of a check: its name, whether it holds, and its description.
pub open spec fn reports_rule(v: Validation, rule: Rule, era: EraKind, c: BatteryInput) -> bool {
    validation_is(
        v,
        rule_name(rule),
        rule_finding(rule, era, c) == Finding::Holds,
        rule_description(rule, era, c),
    )
}

/// The era tag a battery is reported under; the Babbage battery reports the
/// era name the context gave.
pub open spec fn era_tag(era: EraKind, context_era: Seq<char>) -> Seq<char> {
    match era {
        EraKind::Byron => "Byron"@,
        EraKind::ShelleyMa => "Shelley Mary Allegra"@,
        EraKind::Alonzo => "Alonzo"@,
        EraKind::Babbage => context_era,
        EraKind::Conway => "Conway"@,
    }
}

/// `r` is the report of an era's battery over input `c`: the era's tag and
/// one entry per check of the battery, in the battery's order.
pub open spec fn is_battery_report(
    r: Validations,
    era: EraKind,
    c: BatteryInput,
    context_era: Seq<char>,
) -> bool {
    &&& r.era@ == era_tag(era, context_era)
    &&& r.validations@.len() == battery(era).len()
    &&& forall|i: int|
        0 <= i < battery(era).len() ==> reports_rule(
            #[trigger] r.validations@[i],
            battery(era)[i],
            era,
            c,
        )
}

/// The names of an era's battery, in order.
pub open spec fn battery_names(era: EraKind) -> Seq<Seq<char>> {
    battery(era).map_values(|r: Rule| rule_name(r))
}

/// Every named check of the era batteries.
#[derive(Clone, Copy, PartialEq, Eq, Structural, Debug)]
pub enum Rule {
    TxSize,
    BabbageTxSize,
    InsNotEmpty,
    OutsNotEmpty,
    OutsHaveLovelace,
    ByronInsInUtxos,
    ByronWitnesses,
    ByronFees,
    ShelleyMetadata,
    ShelleyMinting,
    ShelleyMinLovelace,
    ShelleyFees,
    Ttl,
    ShelleyNetworkId,
    ShelleyInsInUtxos,
    Preservation,
    ShelleyWitnesses,
    AlonzoAuxData,
    AlonzoScriptDataHash,
    AlonzoMinting,
    AlonzoMinLovelace,
    AlonzoOutputValSize,
    AlonzoExUnits,
    AlonzoLanguages,
    AlonzoNetworkId,
    AlonzoValidityInterval,
    AlonzoInsAndCollateral,
    AlonzoWitnessSet,
    AlonzoFee,
    BabbageMinting,
    BabbageWellFormed,
    BabbageAuxData,
    BabbageMinLovelace,
    BabbageOutputValSize,
    BabbageExUnits,
    BabbageFee,
    BabbageWitnessSet,
    BabbageAllIns,
    BabbageLanguages,
    BabbageScriptDataHash,
    BabbageValidityInterval,
    BabbageNetworkId,
}

/// The name a check is reported under.
pub open spec fn rule_name(rule: Rule) -> Seq<char> {
    match rule {
        Rule::TxSize => "Transaction size"@,
        Rule::BabbageTxSize => "Transaction size"@,
        Rule::InsNotEmpty => "Non empty inputs"@,
        Rule::OutsNotEmpty => "Non empty outputs"@,
        Rule::OutsHaveLovelace => "Outputs have lovelace"@,
        Rule::ByronInsInUtxos => "Inputs in UTXOs"@,
        Rule::ByronWitnesses => "Witnesses"@,
        Rule::ByronFees => "Fees"@,
        Rule::ShelleyMetadata => "Metadata"@,
        Rule::ShelleyMinting => "Minting"@,
        Rule::ShelleyMinLovelace => "Minimum lovelace"@,
        Rule::ShelleyFees => "Fees"@,
        Rule::Ttl => "TTL"@,
        Rule::ShelleyNetworkId => "Network id"@,
        Rule::ShelleyInsInUtxos => "Inputs in UTxOs"@,
        Rule::Preservation => "Preservation of value"@,
        Rule::ShelleyWitnesses => "Witnesses"@,
        Rule::AlonzoAuxData => "Auxiliary data"@,
        Rule::AlonzoScriptDataHash => "Script data hash"@,
        Rule::AlonzoMinting => "Minting"@,
        Rule::AlonzoMinLovelace => "Minimum lovelace"@,
        Rule::AlonzoOutputValSize => "Outputs value size"@,
        Rule::AlonzoExUnits => "Execution units"@,
        Rule::AlonzoLanguages => "Languages"@,
        Rule::AlonzoNetworkId => "Network ID"@,
        Rule::AlonzoValidityInterval => "Transaction validity interval"@,
        Rule::AlonzoInsAndCollateral => "Inputs and collateral in UTxOs"@,
        Rule::AlonzoWitnessSet => "Witness set"@,
        Rule::AlonzoFee => "Fee"@,
        Rule::BabbageMinting => "Minting policy"@,
        Rule::BabbageWellFormed => "Well formedness"@,
        Rule::BabbageAuxData => "Auxiliary data"@,
        Rule::BabbageMinLovelace => "Minimum lovelace"@,
        Rule::BabbageOutputValSize => "Output value size"@,
        Rule::BabbageExUnits => "Transaction execution units"@,
        Rule::BabbageFee => "Fee"@,
        Rule::BabbageWitnessSet => "Witness set"@,
        Rule::BabbageAllIns => "All inputs in UTxOs"@,
        Rule::BabbageLanguages => "Languages"@,
        Rule::BabbageScriptDataHash => "Script data hash"@,
        Rule::BabbageValidityInterval => "Validity interval"@,
        Rule::BabbageNetworkId => "Network id"@,
    }
}

/// The rule a check states, reported when it holds.
pub open spec fn rule_statement(rule: Rule) -> Seq<char> {
    match rule {
        Rule::TxSize => "The transaction size does not exceed the protocol limit."@,
        Rule::BabbageTxSize => "The size of the transaction does not exceed the maximum allowed."@,
        Rule::InsNotEmpty => "The set of transaction inputs is not empty."@,
        Rule::OutsNotEmpty => "The set of transaction outputs is not empty."@,
        Rule::OutsHaveLovelace => "All transaction outputs contain non-null Lovelace values."@,
        Rule::ByronInsInUtxos => "All transaction inputs are in the set of (yet) unspent transaction outputs."@,
        Rule::ByronWitnesses => "All transaction witnesses are valid."@,
        Rule::ByronFees => "Fees are not less than what is determined by the protocol."@,
        Rule::ShelleyMetadata => "The metadata of the transaction is valid."@,
        Rule::ShelleyMinting => "The minting of the transaction is valid."@,
        Rule::ShelleyMinLovelace => "All transaction outputs contain Lovelace values not under the minimum."@,
        Rule::ShelleyFees => "The fee paid by the transaction has to be greater than or equal to the minimum fee."@,
        Rule::Ttl => "The TTL limit of the transaction has not been exceeded."@,
        Rule::ShelleyNetworkId => "The network ID of each output matches the global network ID."@,
        Rule::ShelleyInsInUtxos => "All transaction inputs are in the set of (yet) unspent transaction outputs."@,
        Rule::Preservation => "The preservation of value property holds."@,
        Rule::ShelleyWitnesses => "The owner of each transaction input signed the transaction."@,
        Rule::AlonzoAuxData => "The auxiliary data of the transaction is valid."@,
        Rule::AlonzoScriptDataHash => "The script data integrity hash matches the hash of the redeemers, languages and datums of the transaction witness set."@,
        Rule::AlonzoMinting => "Each minted / burned asset is paired with an appropriate native script or Plutus script."@,
        Rule::AlonzoMinLovelace => "All transaction outputs (regular outputs and collateral outputs) should contain at least the minimum lovelace"@,
        Rule::AlonzoOutputValSize => "The size of the value in each of the transaction outputs (regular outputs and collateral outputs) is not greater than the maximum allowed"@,
        Rule::AlonzoExUnits => "The number of execution units of the transaction should not exceed the maximum allowed"@,
        Rule::AlonzoLanguages => "The required script languages are included in the protocol parameters."@,
        Rule::AlonzoNetworkId => "The network ID of each output matches the global network ID."@,
        Rule::AlonzoValidityInterval => "The upper bound of the validity time interval is suitable for script execution: if there are minting policies, native scripts or Plutus scripts involved in the transaction, and if the upper bound of its validity interval is a finite number, then it can be translated to system time."@,
        Rule::AlonzoInsAndCollateral => "All transaction inputs and collateral inputs are in the set of (yet) unspent transaction outputs."@,
        Rule::AlonzoWitnessSet => "The transaction witness set is valid."@,
        Rule::AlonzoFee => "The fee paid by the transaction should be greater than or equal to the minimum fee."@,
        Rule::BabbageMinting => "Each minted / burned asset is paired with an appropriate native script or Plutus script"@,
        Rule::BabbageWellFormed => "The transaction is well-formed"@,
        Rule::BabbageAuxData => "The metadata of the transaction is valid."@,
        Rule::BabbageMinLovelace => "All transaction outputs (regular outputs and collateral outputs) contains at least the minimum lovelace."@,
        Rule::BabbageOutputValSize => "The size of the value in each of the outputs is not greater than the maximum allowed."@,
        Rule::BabbageExUnits => "The number of execution units of the transaction does not exceed the maximum allowed."@,
        Rule::BabbageFee => "The fee of the transaction is valid."@,
        Rule::BabbageWitnessSet => "The witness set of the transaction is valid."@,
        Rule::BabbageAllIns => "All transaction inputs, collateral inputs and reference inputs are in the UTxO"@,
        Rule::BabbageLanguages => "The Plutus scripts and native scripts of the transaction are valid."@,
        Rule::BabbageScriptDataHash => "The Plutus scripts and native scripts of the transaction are valid."@,
        Rule::BabbageValidityInterval => "The block slot is contained in the transaction validity interval."@,
        Rule::BabbageNetworkId => "The network ID of each regular output as well as that of the collateral output match the global network ID."@,
    }
}

/// The name a check is reported under.
pub fn name_of_rule(rule: Rule) -> (r: String)
    ensures
        r@ == rule_name(rule),
{
    match rule {
        Rule::TxSize => String::from_str("Transaction size"),
        Rule::BabbageTxSize => String::from_str("Transaction size"),
        Rule::InsNotEmpty => String::from_str("Non empty inputs"),
        Rule::OutsNotEmpty => String::from_str("Non empty outputs"),
        Rule::OutsHaveLovelace => String::from_str("Outputs have lovelace"),
        Rule::ByronInsInUtxos => String::from_str("Inputs in UTXOs"),
        Rule::ByronWitnesses => String::from_str("Witnesses"),
        Rule::ByronFees => String::from_str("Fees"),
        Rule::ShelleyMetadata => String::from_str("Metadata"),
        Rule::ShelleyMinting => String::from_str("Minting"),
        Rule::ShelleyMinLovelace => String::from_str("Minimum lovelace"),
        Rule::ShelleyFees => String::from_str("Fees"),
        Rule::Ttl => String::from_str("TTL"),
        Rule::ShelleyNetworkId => String::from_str("Network id"),
        Rule::ShelleyInsInUtxos => String::from_str("Inputs in UTxOs"),
        Rule::Preservation => String::from_str("Preservation of value"),
        Rule::ShelleyWitnesses => String::from_str("Witnesses"),
        Rule::AlonzoAuxData => String::from_str("Auxiliary data"),
        Rule::AlonzoScriptDataHash => String::from_str("Script data hash"),
        Rule::AlonzoMinting => String::from_str("Minting"),
        Rule::AlonzoMinLovelace => String::from_str("Minimum lovelace"),
        Rule::AlonzoOutputValSize => String::from_str("Outputs value size"),
        Rule::AlonzoExUnits => String::from_str("Execution units"),
        Rule::AlonzoLanguages => String::from_str("Languages"),
        Rule::AlonzoNetworkId => String::from_str("Network ID"),
        Rule::AlonzoValidityInterval => String::from_str("Transaction validity interval"),
        Rule::AlonzoInsAndCollateral => String::from_str("Inputs and collateral in UTxOs"),
        Rule::AlonzoWitnessSet => String::from_str("Witness set"),
        Rule::AlonzoFee => String::from_str("Fee"),
        Rule::BabbageMinting => String::from_str("Minting policy"),
        Rule::BabbageWellFormed => String::from_str("Well formedness"),
        Rule::BabbageAuxData => String::from_str("Auxiliary data"),
        Rule::BabbageMinLovelace => String::from_str("Minimum lovelace"),
        Rule::BabbageOutputValSize => String::from_str("Output value size"),
        Rule::BabbageExUnits => String::from_str("Transaction execution units"),
        Rule::BabbageFee => String::from_str("Fee"),
        Rule::BabbageWitnessSet => String::from_str("Witness set"),
        Rule::BabbageAllIns => String::from_str("All inputs in UTxOs"),
        Rule::BabbageLanguages => String::from_str("Languages"),
        Rule::BabbageScriptDataHash => String::from_str("Script data hash"),
        Rule::BabbageValidityInterval => String::from_str("Validity interval"),
        Rule::BabbageNetworkId => String::from_str("Network id"),
    }
}

/// The rule a check states.
pub fn statement_of_rule(rule: Rule) -> (r: String)
    ensures
        r@ == rule_statement(rule),
{
    match rule {
        Rule::TxSize => String::from_str("The transaction size does not exceed the protocol limit."),
        Rule::BabbageTxSize => String::from_str("The size of the transaction does not exceed the maximum allowed."),
        Rule::InsNotEmpty => String::from_str("The set of transaction inputs is not empty."),
        Rule::OutsNotEmpty => String::from_str("The set of transaction outputs is not empty."),
        Rule::OutsHaveLovelace => String::from_str("All transaction outputs contain non-null Lovelace values."),
        Rule::ByronInsInUtxos => String::from_str("All transaction inputs are in the set of (yet) unspent transaction outputs."),
        Rule::ByronWitnesses => String::from_str("All transaction witnesses are valid."),
        Rule::ByronFees => String::from_str("Fees are not less than what is determined by the protocol."),
        Rule::ShelleyMetadata => String::from_str("The metadata of the transaction is valid."),
        Rule::ShelleyMinting => String::from_str("The minting of the transaction is valid."),
        Rule::ShelleyMinLovelace => String::from_str("All transaction outputs contain Lovelace values not under the minimum."),
        Rule::ShelleyFees => String::from_str("The fee paid by the transaction has to be greater than or equal to the minimum fee."),
        Rule::Ttl => String::from_str("The TTL limit of the transaction has not been exceeded."),
        Rule::ShelleyNetworkId => String::from_str("The network ID of each output matches the global network ID."),
        Rule::ShelleyInsInUtxos => String::from_str("All transaction inputs are in the set of (yet) unspent transaction outputs."),
        Rule::Preservation => String::from_str("The preservation of value property holds."),
        Rule::ShelleyWitnesses => String::from_str("The owner of each transaction input signed the transaction."),
        Rule::AlonzoAuxData => String::from_str("The auxiliary data of the transaction is valid."),
        Rule::AlonzoScriptDataHash => String::from_str("The script data integrity hash matches the hash of the redeemers, languages and datums of the transaction witness set."),
        Rule::AlonzoMinting => String::from_str("Each minted / burned asset is paired with an appropriate native script or Plutus script."),
        Rule::AlonzoMinLovelace => String::from_str("All transaction outputs (regular outputs and collateral outputs) should contain at least the minimum lovelace"),
        Rule::AlonzoOutputValSize => String::from_str("The size of the value in each of the transaction outputs (regular outputs and collateral outputs) is not greater than the maximum allowed"),
        Rule::AlonzoExUnits => String::from_str("The number of execution units of the transaction should not exceed the maximum allowed"),
        Rule::AlonzoLanguages => String::from_str("The required script languages are included in the protocol parameters."),
        Rule::AlonzoNetworkId => String::from_str("The network ID of each output matches the global network ID."),
        Rule::AlonzoValidityInterval => String::from_str("The upper bound of the validity time interval is suitable for script execution: if there are minting policies, native scripts or Plutus scripts involved in the transaction, and if the upper bound of its validity interval is a finite number, then it can be translated to system time."),
        Rule::AlonzoInsAndCollateral => String::from_str("All transaction inputs and collateral inputs are in the set of (yet) unspent transaction outputs."),
        Rule::AlonzoWitnessSet => String::from_str("The transaction witness set is valid."),
        Rule::AlonzoFee => String::from_str("The fee paid by the transaction should be greater than or equal to the minimum fee."),
        Rule::BabbageMinting => String::from_str("Each minted / burned asset is paired with an appropriate native script or Plutus script"),
        Rule::BabbageWellFormed => String::from_str("The transaction is well-formed"),
        Rule::BabbageAuxData => String::from_str("The metadata of the transaction is valid."),
        Rule::BabbageMinLovelace => String::from_str("All transaction outputs (regular outputs and collateral outputs) contains at least the minimum lovelace."),
        Rule::BabbageOutputValSize => String::from_str("The size of the value in each of the outputs is not greater than the maximum allowed."),
        Rule::BabbageExUnits => String::from_str("The number of execution units of the transaction does not exceed the maximum allowed."),
        Rule::BabbageFee => String::from_str("The fee of the transaction is valid."),
        Rule::BabbageWitnessSet => String::from_str("The witness set of the transaction is valid."),
        Rule::BabbageAllIns => String::from_str("All transaction inputs, collateral inputs and reference inputs are in the UTxO"),
        Rule::BabbageLanguages => String::from_str("The Plutus scripts and native scripts of the transaction are valid."),
        Rule::BabbageScriptDataHash => String::from_str("The Plutus scripts and native scripts of the transaction are valid."),
        Rule::BabbageValidityInterval => String::from_str("The block slot is contained in the transaction validity interval."),
        Rule::BabbageNetworkId => String::from_str("The network ID of each regular output as well as that of the collateral output match the global network ID."),
    }
}

/// The checks whose outcome is the ledger's own verdict on the transaction:
/// those that need signatures, scripts or hashes of the witness set.
pub open spec fn is_ledger_rule(rule: Rule) -> bool {
    match rule {
        Rule::AlonzoExUnits => true,
        Rule::AlonzoFee => true,
        Rule::AlonzoLanguages => true,
        Rule::AlonzoMinLovelace => true,
        Rule::AlonzoMinting => true,
        Rule::AlonzoOutputValSize => true,
        Rule::AlonzoScriptDataHash => true,
        Rule::AlonzoWitnessSet => true,
        Rule::BabbageExUnits => true,
        Rule::BabbageFee => true,
        Rule::BabbageLanguages => true,
        Rule::BabbageMinLovelace => true,
        Rule::BabbageMinting => true,
        Rule::BabbageOutputValSize => true,
        Rule::BabbageScriptDataHash => true,
        Rule::BabbageWellFormed => true,
        Rule::BabbageWitnessSet => true,
        Rule::ByronWitnesses => true,
        Rule::ShelleyMinLovelace => true,
        Rule::ShelleyMinting => true,
        Rule::ShelleyWitnesses => true,
        _ => false,
    }
}

/// Whether a check takes its outcome from the ledger's verdict.
pub fn ledger_rule(rule: Rule) -> (r: bool)
    ensures
        r == is_ledger_rule(rule),
{
    match rule {
        Rule::AlonzoExUnits => true,
        Rule::AlonzoFee => true,
        Rule::AlonzoLanguages => true,
        Rule::AlonzoMinLovelace => true,
        Rule::AlonzoMinting => true,
        Rule::AlonzoOutputValSize => true,
        Rule::AlonzoScriptDataHash => true,
        Rule::AlonzoWitnessSet => true,
        Rule::BabbageExUnits => true,
        Rule::BabbageFee => true,
        Rule::BabbageLanguages => true,
        Rule::BabbageMinLovelace => true,
        Rule::BabbageMinting => true,
        Rule::BabbageOutputValSize => true,
        Rule::BabbageScriptDataHash => true,
        Rule::BabbageWellFormed => true,
        Rule::BabbageWitnessSet => true,
        Rule::ByronWitnesses => true,
        Rule::ShelleyMinLovelace => true,
        Rule::ShelleyMinting => true,
        Rule::ShelleyWitnesses => true,
        _ => false,
    }
}

/// The ordered battery of an era.
pub open spec fn battery(era: EraKind) -> Seq<Rule> {
    match era {
        EraKind::Byron => seq![Rule::TxSize, Rule::InsNotEmpty, Rule::OutsNotEmpty, Rule::OutsHaveLovelace, Rule::ByronInsInUtxos, Rule::ByronWitnesses, Rule::ByronFees],
        EraKind::ShelleyMa => seq![Rule::TxSize, Rule::InsNotEmpty, Rule::ShelleyMetadata, Rule::ShelleyMinting, Rule::ShelleyMinLovelace, Rule::ShelleyFees, Rule::Ttl, Rule::ShelleyNetworkId, Rule::ShelleyInsInUtxos, Rule::Preservation, Rule::ShelleyWitnesses],
        EraKind::Alonzo => seq![Rule::TxSize, Rule::InsNotEmpty, Rule::AlonzoAuxData, Rule::AlonzoScriptDataHash, Rule::AlonzoMinting, Rule::AlonzoMinLovelace, Rule::AlonzoOutputValSize, Rule::AlonzoExUnits, Rule::AlonzoLanguages, Rule::AlonzoNetworkId, Rule::AlonzoValidityInterval, Rule::AlonzoInsAndCollateral, Rule::Preservation, Rule::AlonzoWitnessSet, Rule::AlonzoFee],
        EraKind::Babbage => seq![Rule::InsNotEmpty, Rule::BabbageMinting, Rule::BabbageWellFormed, Rule::BabbageAuxData, Rule::BabbageMinLovelace, Rule::BabbageOutputValSize, Rule::BabbageExUnits, Rule::BabbageTxSize, Rule::BabbageFee, Rule::BabbageWitnessSet, Rule::BabbageAllIns, Rule::Preservation, Rule::BabbageLanguages, Rule::BabbageScriptDataHash, Rule::BabbageValidityInterval, Rule::BabbageNetworkId],
        EraKind::Conway => Seq::empty(),
    }
}

/// The ordered battery of an era.
pub fn battery_of(era: EraKind) -> (r: Vec<Rule>)
    ensures
        r@ == battery(era),
{
    let mut v: Vec<Rule> = Vec::new();
    match era {
        EraKind::Byron => {
            v.push(Rule::TxSize);
            v.push(Rule::InsNotEmpty);
            v.push(Rule::OutsNotEmpty);
            v.push(Rule::OutsHaveLovelace);
            v.push(Rule::ByronInsInUtxos);
            v.push(Rule::ByronWitnesses);
            v.push(Rule::ByronFees);
        },
        EraKind::ShelleyMa => {
            v.push(Rule::TxSize);
            v.push(Rule::InsNotEmpty);
            v.push(Rule::ShelleyMetadata);
            v.push(Rule::ShelleyMinting);
            v.push(Rule::ShelleyMinLovelace);
            v.push(Rule::ShelleyFees);
            v.push(Rule::Ttl);
            v.push(Rule::ShelleyNetworkId);
            v.push(Rule::ShelleyInsInUtxos);
            v.push(Rule::Preservation);
            v.push(Rule::ShelleyWitnesses);
        },
        EraKind::Alonzo => {
            v.push(Rule::TxSize);
            v.push(Rule::InsNotEmpty);
            v.push(Rule::AlonzoAuxData);
            v.push(Rule::AlonzoScriptDataHash);
            v.push(Rule::AlonzoMinting);
            v.push(Rule::AlonzoMinLovelace);
            v.push(Rule::AlonzoOutputValSize);
            v.push(Rule::AlonzoExUnits);
            v.push(Rule::AlonzoLanguages);
            v.push(Rule::AlonzoNetworkId);
            v.push(Rule::AlonzoValidityInterval);
            v.push(Rule::AlonzoInsAndCollateral);
            v.push(Rule::Preservation);
            v.push(Rule::AlonzoWitnessSet);
            v.push(Rule::AlonzoFee);
        },
        EraKind::Babbage => {
            v.push(Rule::InsNotEmpty);
            v.push(Rule::BabbageMinting);
            v.push(Rule::BabbageWellFormed);
            v.push(Rule::BabbageAuxData);
            v.push(Rule::BabbageMinLovelace);
            v.push(Rule::BabbageOutputValSize);
            v.push(Rule::BabbageExUnits);
            v.push(Rule::BabbageTxSize);
            v.push(Rule::BabbageFee);
            v.push(Rule::BabbageWitnessSet);
            v.push(Rule::BabbageAllIns);
            v.push(Rule::Preservation);
            v.push(Rule::BabbageLanguages);
            v.push(Rule::BabbageScriptDataHash);
            v.push(Rule::BabbageValidityInterval);
            v.push(Rule::BabbageNetworkId);
        },
        EraKind::Conway => {},
    }
    proof {
        assert(v@ =~= battery(era));
    }
    v
}
/// Whether every output's base-currency amount is non-zero.
fn all_outputs_have_lovelace(s: &Vec<OutputFacts>) -> (r: bool)
    ensures
        r == outputs_have_lovelace(s@),
{
    let mut i: usize = 0;
    while i < s.len()
        invariant
            i <= s@.len(),
            forall|j: int| 0 <= j < i ==> (#[trigger] s@[j]).lovelace != 0,
        decreases s@.len() - i,
    {
        if s[i].lovelace == 0 {
            return false;
        }
        i = i + 1;
    }
    true
}

/// Whether every output that carries a network id carries `id`.
fn all_outputs_on_network(s: &Vec<OutputFacts>, id: u8) -> (r: bool)
    ensures
        r == outputs_on_network(s@, id),
{
    let mut i: usize = 0;
    while i < s.len()
        invariant
            i <= s@.len(),
            forall|j: int| 0 <= j < i ==> ((#[trigger] s@[j]).network_id matches Some(n) ==> n == id),
        decreases s@.len() - i,
    {
        if let Some(n) = s[i].network_id {
            if n != id {
                return false;
            }
        }
        i = i + 1;
    }
    true
}

/// The variant an error text of the form `tag(variant)` names.
fn error_variant(e: &String, tag: &String) -> (r: Option<String>)
    ensures
        r matches Some(v) ==> variant_in(e@, tag@) == Some(v@),
        r is None ==> variant_in(e@, tag@) is None,
{
    let n = e.as_str().unicode_len();
    let t = tag.as_str().unicode_len();
    if n < 2 || t > n - 2 {
        return None;
    }
    let head = e.as_str().substring_char(0, t).to_string();
    if head != *tag || e.as_str().get_char(t) != '(' || e.as_str().get_char(n - 1) != ')' {
        return None;
    }
    Some(e.as_str().substring_char(t + 1, n - 1).to_string())
}

/// Judges a check by the ledger validator's verdict.
fn judge(rule: Rule, era: EraKind, verdict: &Result<(), String>) -> (f: Finding)
    ensures
        f == ledger_finding(rule, era, *verdict),
{
    match verdict {
        Ok(_) => Finding::Holds,
        Err(e) => match error_variant(e, &tag_of_errors(era)) {
            Some(v) => match rule_of_error(era, &v) {
                Some(failed) => if failed == rule {
                    Finding::Violated
                } else if rank_of(era, failed) < rank_of(era, rule) {
                    Finding::NotEvaluated
                } else {
                    Finding::Holds
                },
                None => Finding::NotEvaluated,
            },
            None => Finding::NotEvaluated,
        },
    }
}

/// Whether two byte strings are equal.
fn bytes_equal(a: &Vec<u8>, b: &Vec<u8>) -> (r: bool)
    ensures
        r == (a@ == b@),
{
    if a.len() != b.len() {
        return false;
    }
    let mut i: usize = 0;
    while i < a.len()
        invariant
            i <= a@.len(),
            a@.len() == b@.len(),
            forall|j: int| 0 <= j < i ==> a@[j] == b@[j],
        decreases a@.len() - i,
    {
        if a[i] != b[i] {
            return false;
        }
        i = i + 1;
    }
    proof {
        assert(a@ =~= b@);
    }
    true
}

fn holds_if(b: bool) -> (f: Finding)
    ensures
        f == (if b {
            Finding::Holds
        } else {
            Finding::Violated
        }),
{
    if b {
        Finding::Holds
    } else {
        Finding::Violated
    }
}

/// Evaluates one check.
pub fn evaluate(rule: Rule, era: EraKind, c: &BatteryInput) -> (f: Finding)
    ensures
        f == rule_finding(rule, era, *c),
{
    if ledger_rule(rule) {
        if (rule == Rule::AlonzoFee || rule == Rule::BabbageFee) && c.facts.size.is_none() {
            return Finding::SizeUnknown;
        }
        return judge(rule, era, &c.verdict);
    }
    let n_inputs = c.facts.inputs.len();
    match rule {
        Rule::TxSize | Rule::BabbageTxSize => match c.facts.size {
            Some(s) => {
                let limit: u64 = match era {
                    EraKind::Byron => BYRON_MAX_TX_SIZE,
                    EraKind::ShelleyMa => c.shelley.max_transaction_size as u64,
                    _ => c.alonzo.max_transaction_size as u64,
                };
                holds_if(s <= limit)
            },
            None => Finding::SizeUnknown,
        },
        Rule::InsNotEmpty => holds_if(n_inputs > 0),
        Rule::OutsNotEmpty => holds_if(c.facts.outputs.len() > 0),
        Rule::OutsHaveLovelace => holds_if(all_outputs_have_lovelace(&c.facts.outputs)),
        Rule::ByronInsInUtxos | Rule::ShelleyInsInUtxos => if check_all_resolved(
            &c.resolution.inputs,
            n_inputs,
        ) {
            Finding::Holds
        } else {
            Finding::Unresolved
        },
        Rule::AlonzoInsAndCollateral => if check_all_resolved(&c.resolution.inputs, n_inputs)
            && check_all_resolved(&c.resolution.collateral, c.facts.collateral.len()) {
            Finding::Holds
        } else {
            Finding::Unresolved
        },
        Rule::BabbageAllIns => if check_all_resolved(&c.resolution.inputs, n_inputs)
            && check_all_resolved(&c.resolution.collateral, c.facts.collateral.len())
            && check_all_resolved(
            &c.resolution.reference_inputs,
            c.facts.reference_inputs.len(),
        ) {
            Finding::Holds
        } else {
            Finding::Unresolved
        },
        Rule::Preservation => {
            if !check_all_resolved(&c.resolution.inputs, n_inputs) {
                return Finding::Unresolved;
            }
            let consumed = sum_resolved(&c.resolution.inputs);
            let produced = sum_outputs(&c.facts.outputs);
            let fee: u128 = match c.facts.fee {
                Some(f) => f as u128,
                None => 0,
            };
            let assets_ok = check_assets_balance(
                &c.resolution.inputs,
                &c.facts.mint,
                &c.facts.output_assets,
            );
            holds_if(consumed >= produced && consumed - produced == fee && assets_ok)
        },
        Rule::ByronFees => {
            if !check_all_resolved(&c.resolution.inputs, n_inputs) {
                return Finding::Unresolved;
            }
            match c.facts.size {
                Some(s) => {
                    let consumed = sum_resolved(&c.resolution.inputs);
                    let produced = sum_outputs(&c.facts.outputs);
                    let minimum: u128 = BYRON_FEE_SUMMAND as u128 + BYRON_FEE_MULTIPLIER as u128
                        * s as u128;
                    holds_if(consumed >= produced && consumed - produced >= minimum)
                },
                None => Finding::SizeUnknown,
            }
        },
        Rule::ShelleyFees => match c.facts.size {
            Some(s) => {
                let a = c.shelley.minfee_a as u128;
                let size = s as u128;
                proof {
                    assert(a * size <= (u32::MAX as int) * (u64::MAX as int)) by (nonlinear_arith)
                        requires
                            a <= u32::MAX,
                            size <= u64::MAX,
                    ;
                }
                let minimum: u128 = c.shelley.minfee_b as u128 + a * size;
                match c.facts.fee {
                    Some(f) => holds_if(f as u128 >= minimum),
                    None => Finding::Violated,
                }
            },
            None => Finding::SizeUnknown,
        },
        Rule::Ttl => match c.facts.ttl {
            Some(t) => holds_if(c.block_slot <= t),
            None => Finding::Violated,
        },
        Rule::AlonzoValidityInterval | Rule::BabbageValidityInterval => {
            let after_start = match c.facts.validity_start {
                Some(s) => s <= c.block_slot,
                None => true,
            };
            let before_end = match c.facts.ttl {
                Some(t) => c.block_slot <= t,
                None => true,
            };
            holds_if(after_start && before_end)
        },
        Rule::ShelleyMetadata | Rule::AlonzoAuxData | Rule::BabbageAuxData => match (
            &c.facts.aux_data_hash,
            &c.facts.aux_data,
        ) {
            (Some(h), Some(d)) => {
                let digest = blake2b_256(d.as_slice());
                holds_if(bytes_equal(h, &digest))
            },
            (None, None) => Finding::Holds,
            _ => Finding::Violated,
        },
        _ => holds_if(all_outputs_on_network(&c.facts.outputs, c.network_id)),
    }
}

/// The violation text of a check that the library evaluates itself.
fn violation_of(rule: Rule) -> (r: String)
    ensures
        r@ == violation_text(rule),
{
    match rule {
        Rule::TxSize | Rule::BabbageTxSize => String::from_str(
            "The transaction size exceeds the maximum allowed.",
        ),
        Rule::InsNotEmpty => String::from_str("The set of transaction inputs is empty."),
        Rule::OutsNotEmpty => String::from_str("The set of transaction outputs is empty."),
        Rule::OutsHaveLovelace => String::from_str("A transaction output holds no Lovelace."),
        Rule::Preservation => String::from_str(
            "The value consumed differs from the value produced.",
        ),
        Rule::ByronFees | Rule::ShelleyFees => String::from_str(
            "The fee is below the protocol minimum.",
        ),
        Rule::Ttl => String::from_str("The TTL of the transaction is missing or has been exceeded."),
        Rule::AlonzoValidityInterval | Rule::BabbageValidityInterval => String::from_str(
            "The block slot lies outside the transaction validity interval.",
        ),
        Rule::ShelleyNetworkId | Rule::AlonzoNetworkId | Rule::BabbageNetworkId => String::from_str(
            "The network ID of an output differs from the global network ID.",
        ),
        Rule::ShelleyMetadata | Rule::AlonzoAuxData | Rule::BabbageAuxData => String::from_str(
            "The auxiliary data does not match the hash declared in the transaction body.",
        ),
        _ => String::from_str("The rule is violated."),
    }
}

/// Runs one check and reports it under its name.
pub fn check(rule: Rule, era: EraKind, c: &BatteryInput) -> (v: Validation)
    ensures
        reports_rule(v, rule, era, *c),
{
    let finding = evaluate(rule, era, c);
    let description = match finding {
        Finding::Holds => statement_of_rule(rule),
        Finding::SizeUnknown => if rule == Rule::AlonzoFee {
            String::from_str("The size could not be obtained.")
        } else {
            String::from_str("The transaction size could not be obtained.")
        },
        Finding::NotEvaluated => {
            let prefix = String::from_str("Error: Not evaluated: an earlier rule failed: ");
            match &c.verdict {
                Err(e) => prefix.concat(e.as_str()),
                Ok(_) => prefix,
            }
        },
        Finding::Unresolved => String::from_str(
            "Error: Unresolved input: an output spent by the transaction could not be found.",
        ),
        Finding::Violated => {
            let prefix = String::from_str("Error: ");
            if ledger_rule(rule) {
                match &c.verdict {
                    Err(e) => prefix.concat(e.as_str()),
                    Ok(_) => prefix,
                }
            } else {
                let text = violation_of(rule);
                prefix.concat(text.as_str())
            }
        },
    };
    Validation::new().with_name(name_of_rule(rule)).with_value(finding == Finding::Holds).with_description(
        description,
    )
}

/// The tag of a battery's report.
fn tag_of(era: EraKind, context_era: &String) -> (r: String)
    ensures
        r@ == era_tag(era, context_era@),
{
    match era {
        EraKind::Byron => String::from_str("Byron"),
        EraKind::ShelleyMa => String::from_str("Shelley Mary Allegra"),
        EraKind::Alonzo => String::from_str("Alonzo"),
        EraKind::Babbage => context_era.clone(),
        EraKind::Conway => String::from_str("Conway"),
    }
}

/// Runs an era's whole battery in its fixed order; a failing check never
/// stops the ones after it. The Conway battery holds no checks.
pub fn run_battery(era: EraKind, c: &BatteryInput, context_era: &String) -> (r: Validations)
    ensures
        is_battery_report(r, era, *c, context_era@),
        names_of(r.validations@) == battery_names(era),
{
    let rules = battery_of(era);
    let mut out = Validations::new().with_era(tag_of(era, context_era));
    let mut i: usize = 0;
    while i < rules.len()
        invariant
            i <= rules@.len(),
            rules@ == battery(era),
            out.era@ == era_tag(era, context_era@),
            out.validations@.len() == i,
            forall|j: int|
                0 <= j < i ==> reports_rule(#[trigger] out.validations@[j], rules@[j], era, *c),
        decreases rules@.len() - i,
    {
        let v = check(rules[i], era, c);
        out = out.add_new_validation(v);
        i = i + 1;
    }
    proof {
        assert(names_of(out.validations@) =~= battery_names(era));
    }
    out
}

/// Two runs of a battery over the same transaction and context report the
/// same checks in the same order, with the same values and descriptions.
pub proof fn lemma_battery_deterministic(
    era: EraKind,
    c: BatteryInput,
    context_era: Seq<char>,
    r1: Validations,
    r2: Validations,
)
    requires
        is_battery_report(r1, era, c, context_era),
        is_battery_report(r2, era, c, context_era),
    ensures
        r1.era@ == r2.era@,
        names_of(r1.validations@) == names_of(r2.validations@),
        r1.validations@.len() == r2.validations@.len(),
        forall|i: int|
            0 <= i < r1.validations@.len() ==> (#[trigger] r1.validations@[i]).value
                == r2.validations@[i].value && r1.validations@[i].description@
                == r2.validations@[i].description@,
{
    assert forall|i: int| 0 <= i < r1.validations@.len() implies names_of(r1.validations@)[i]
        == names_of(r2.validations@)[i] by {
        assert(reports_rule(r1.validations@[i], battery(era)[i], era, c));
        assert(reports_rule(r2.validations@[i], battery(era)[i], era, c));
    }
    assert(names_of(r1.validations@) =~= names_of(r2.validations@));
    assert forall|i: int| 0 <= i < r1.validations@.len() implies (#[trigger] r1.validations@[i]).value
        == r2.validations@[i].value && r1.validations@[i].description@
        == r2.validations@[i].description@ by {
        assert(reports_rule(r1.validations@[i], battery(era)[i], era, c));
        assert(reports_rule(r2.validations@[i], battery(era)[i], era, c));
    }
}

/// With no inputs, the non-empty-inputs check of every era that has one
/// reports false.
pub proof fn lemma_empty_inputs_fail(era: EraKind, c: BatteryInput, i: int)
    requires
        c.facts.inputs@.len() == 0,
        0 <= i < battery(era).len(),
        battery(era)[i] == Rule::InsNotEmpty,
    ensures
        rule_finding(battery(era)[i], era, c) != Finding::Holds,
{
}

/// An input whose output could not be resolved makes every existence check
/// of the battery report false with the unresolved-input description.
pub proof fn lemma_unresolved_input_fails(era: EraKind, c: BatteryInput, i: int)
    requires
        !inputs_resolved(c),
        0 <= i < battery(era).len(),
        battery(era)[i] == Rule::ByronInsInUtxos || battery(era)[i] == Rule::ShelleyInsInUtxos
            || battery(era)[i] == Rule::AlonzoInsAndCollateral || battery(era)[i]
            == Rule::BabbageAllIns,
    ensures
        rule_finding(battery(era)[i], era, c) == Finding::Unresolved,
        rule_description(battery(era)[i], era, c) == unresolved_text(),
{
}

/// With every input resolved, value preservation holds exactly when the
/// spent outputs plus what is minted equal the new outputs plus the fee plus
/// what is burned, asset by asset; a balance off by any amount fails.
pub proof fn lemma_preservation_balance(era: EraKind, c: BatteryInput)
    requires
        inputs_resolved(c),
    ensures
        rule_finding(Rule::Preservation, era, c) == Finding::Holds <==> (resolved_lovelace(
            c.resolution.inputs@,
        ) == outputs_lovelace(c.facts.outputs@) + match c.facts.fee {
            Some(f) => f as int,
            None => 0,
        } && assets_balance(c.resolution.inputs@, c.facts.mint@, c.facts.output_assets@)),
{
}

} // verus!
