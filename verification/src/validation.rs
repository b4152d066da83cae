//! Validation of hooks when they are registered, so that a malformed hook is
//! turned away before any event is evaluated.
use vstd::prelude::*;
use vstd::string::StringExecFns;
use crate::dispatch::{http_method_accepted, is_http_method};
use crate::script::{address_hash, decode_address_hash};
use crate::types::{
    BitcoinChainhookSpecification, BitcoinPredicateType, HookAction, MatchingRule,
    StacksChainhookSpecification,
};

verus! {

/// The part of a hook that is malformed.
#[derive(Clone, Copy, Debug, PartialEq, Eq)]
pub enum MalformedField {
    /// The address of the predicate is no base58 address with a hash.
    PredicateAddress,
    /// The method of the HTTP action is no HTTP method.
    ActionMethod,
}

/// Why a hook is turned away: its identifier and its malformed part.
#[derive(Clone, Debug, PartialEq)]
pub struct HookConfigurationError {
    pub uuid: String,
    pub field: MalformedField,
}

/// What is said of a malformed part.
pub open spec fn fault_sentence(field: MalformedField) -> Seq<char> {
    match field {
        MalformedField::PredicateAddress => ": the address of the predicate is malformed"@,
        MalformedField::ActionMethod => ": the method of the HTTP action is malformed"@,
    }
}

impl HookConfigurationError {
    /// The error as a sentence that names the hook and its malformed part.
    pub fn message(&self) -> (text: String)
        ensures
            text@ == "hook "@ + self.uuid@ + fault_sentence(self.field),
    {
        let mut text = "hook ".to_owned();
        text.append(self.uuid.as_str());
        match self.field {
            MalformedField::PredicateAddress => {
                text.append(": the address of the predicate is malformed");
            },
            MalformedField::ActionMethod => {
                text.append(": the method of the HTTP action is malformed");
            },
        }
        text
    }
}

/// Whether an action is well formed: an HTTP action has an HTTP method.
pub open spec fn action_is_well_formed(action: HookAction) -> bool {
    match action {
        HookAction::Http(http) => http_method_accepted(http.method@),
        _ => true,
    }
}

/// Whether a predicate of the UTXO chain is well formed: an address that is
/// matched for equality carries a hash.
pub open spec fn bitcoin_predicate_is_well_formed(kind: BitcoinPredicateType) -> bool {
    match kind {
        BitcoinPredicateType::P2pkh(MatchingRule::Equals(address)) => address_hash(address@)
            is Some,
        BitcoinPredicateType::P2sh(MatchingRule::Equals(address)) => address_hash(address@)
            is Some,
        _ => true,
    }
}

/// What the validation of a hook of the UTXO chain finds: the predicate is
/// looked at before the action.
pub open spec fn bitcoin_hook_fault(hook: BitcoinChainhookSpecification) -> Option<MalformedField> {
    if !bitcoin_predicate_is_well_formed(hook.predicate.kind) {
        Some(MalformedField::PredicateAddress)
    } else if !action_is_well_formed(hook.action) {
        Some(MalformedField::ActionMethod)
    } else {
        None
    }
}

/// What the validation of a hook of the contract chain finds.
pub open spec fn stacks_hook_fault(hook: StacksChainhookSpecification) -> Option<MalformedField> {
    if !action_is_well_formed(hook.action) {
        Some(MalformedField::ActionMethod)
    } else {
        None
    }
}

/// Whether an action is well formed.
fn check_action(action: &HookAction) -> (well_formed: bool)
    ensures
        well_formed == action_is_well_formed(*action),
{
    match action {
        HookAction::Http(http) => is_http_method(http.method.as_str()),
        _ => true,
    }
}

impl BitcoinChainhookSpecification {
    /// Validates the hook: its predicate first, then its action.
    pub fn validate(&self) -> (outcome: Result<(), HookConfigurationError>)
        ensures
            outcome is Ok <==> bitcoin_hook_fault(*self) is None,
            outcome matches Err(error) ==> error.uuid@ == self.uuid@ && bitcoin_hook_fault(*self)
                == Some(error.field),
    {
        let predicate_is_well_formed = match &self.predicate.kind {
            BitcoinPredicateType::P2pkh(MatchingRule::Equals(address)) => decode_address_hash(
                address.as_str(),
            ).is_some(),
            BitcoinPredicateType::P2sh(MatchingRule::Equals(address)) => decode_address_hash(
                address.as_str(),
            ).is_some(),
            _ => true,
        };
        if !predicate_is_well_formed {
            return Err(
                HookConfigurationError {
                    uuid: self.uuid.clone(),
                    field: MalformedField::PredicateAddress,
                },
            );
        }
        if !check_action(&self.action) {
            return Err(
                HookConfigurationError {
                    uuid: self.uuid.clone(),
                    field: MalformedField::ActionMethod,
                },
            );
        }
        Ok(())
    }
}

impl StacksChainhookSpecification {
    /// Validates the hook: its action.
    pub fn validate(&self) -> (outcome: Result<(), HookConfigurationError>)
        ensures
            outcome is Ok <==> stacks_hook_fault(*self) is None,
            outcome matches Err(error) ==> error.uuid@ == self.uuid@ && stacks_hook_fault(*self)
                == Some(error.field),
    {
        if !check_action(&self.action) {
            return Err(
                HookConfigurationError {
                    uuid: self.uuid.clone(),
                    field: MalformedField::ActionMethod,
                },
            );
        }
        Ok(())
    }
}

} // verus!
