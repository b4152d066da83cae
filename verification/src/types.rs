//! Hook specifications: what a hook looks for, and what is done with its
//! matches.
use vstd::prelude::*;

verus! {

/// Delivery of a payload by an HTTP request.
#[derive(Clone, Debug, PartialEq)]
pub struct HttpHook {
    pub url: String,
    pub method: String,
    pub authorization_header: String,
}

/// Delivery of a payload by appending to a file.
#[derive(Clone, Debug, PartialEq)]
pub struct FileHook {
    pub path: String,
}

/// What is done with the matches of a hook. `Noop` hands the matches back to
/// the caller as data.
#[derive(Clone, Debug, PartialEq)]
pub enum HookAction {
    Http(HttpHook),
    File(FileHook),
    Noop,
}

/// How a text of a hook is compared with a text of a transaction.
#[derive(Clone, Debug, PartialEq)]
pub enum MatchingRule {
    Equals(String),
    StartsWith(String),
    EndsWith(String),
}

/// A script template, kept as the text it was written in.
#[derive(Clone, Debug, PartialEq)]
pub struct ScriptTemplate {
    pub template: String,
}

/// The part of a transaction that a predicate of the UTXO chain looks at.
#[derive(Clone, Copy, Debug, PartialEq)]
pub enum Scope {
    Inputs,
    Outputs,
}

/// What a hook of the UTXO chain looks for in a transaction.
#[derive(Clone, Debug, PartialEq)]
pub enum BitcoinPredicateType {
    TransactionIdentifierHash(String),
    Hex(MatchingRule),
    P2pkh(MatchingRule),
    P2sh(MatchingRule),
    P2wpkh(MatchingRule),
    P2wsh(MatchingRule),
    Script(ScriptTemplate),
}

#[derive(Clone, Debug, PartialEq)]
pub struct BitcoinTransactionFilterPredicate {
    pub scope: Scope,
    pub kind: BitcoinPredicateType,
}

/// A registered hook of the UTXO chain.
#[derive(Clone, Debug, PartialEq)]
pub struct BitcoinChainhookSpecification {
    pub uuid: String,
    pub predicate: BitcoinTransactionFilterPredicate,
    pub action: HookAction,
}

#[derive(Clone, Debug, PartialEq)]
pub enum StacksContractDeploymentPredicate {
    Principal(String),
    Trait(String),
}

#[derive(Clone, Debug, PartialEq)]
pub struct StacksContractCallBasedPredicate {
    pub contract_identifier: String,
    pub method: String,
}

#[derive(Clone, Debug, PartialEq)]
pub struct StacksPrintEventBasedPredicate {
    pub contract_identifier: String,
    pub contains: String,
}

#[derive(Clone, Debug, PartialEq)]
pub struct StacksFtEventBasedPredicate {
    pub asset_identifier: String,
    pub actions: Vec<String>,
}

#[derive(Clone, Debug, PartialEq)]
pub struct StacksNftEventBasedPredicate {
    pub asset_identifier: String,
    pub actions: Vec<String>,
}

#[derive(Clone, Debug, PartialEq)]
pub struct StacksStxEventBasedPredicate {
    pub actions: Vec<String>,
}

/// What a hook of the contract chain looks for in a transaction.
#[derive(Clone, Debug, PartialEq)]
pub enum StacksTransactionFilterPredicate {
    ContractDeployment(StacksContractDeploymentPredicate),
    ContractCall(StacksContractCallBasedPredicate),
    PrintEvent(StacksPrintEventBasedPredicate),
    FtEvent(StacksFtEventBasedPredicate),
    NftEvent(StacksNftEventBasedPredicate),
    StxEvent(StacksStxEventBasedPredicate),
    TransactionIdentifierHash(String),
}

/// A registered hook of the contract chain.
#[derive(Clone, Debug, PartialEq)]
pub struct StacksChainhookSpecification {
    pub uuid: String,
    pub decode_clarity_values: Option<bool>,
    pub transaction_predicate: StacksTransactionFilterPredicate,
    pub action: HookAction,
}

} // verus!
