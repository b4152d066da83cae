//! The JSON documents of hooks: what a payload says of the hook that it
//! belongs to.
use vstd::prelude::*;
use crate::json::{
    json_map_insert, json_map_new, json_model, json_object, json_string, json_strings, no_fields,
    string_docs, Json,
};
use crate::types::{
    BitcoinPredicateType, BitcoinTransactionFilterPredicate, MatchingRule, Scope,
    StacksContractDeploymentPredicate, StacksTransactionFilterPredicate,
};

verus! {

/// The document of an object with a single entry.
pub open spec fn single_field_doc(key: Seq<char>, value: Json) -> Json {
    Json::Object(no_fields().insert(key, value))
}

/// The document of a rule with its type: the name under `type` and the rule
/// under `rule`.
pub open spec fn typed_rule_doc(name: Seq<char>, rule: Json) -> Json {
    Json::Object(no_fields().insert("type"@, Json::String(name)).insert("rule"@, rule))
}

/// The document of a matching rule: its text under the name of the rule.
pub open spec fn matching_rule_doc(rule: MatchingRule) -> Json {
    match rule {
        MatchingRule::Equals(text) => single_field_doc("equals"@, Json::String(text@)),
        MatchingRule::StartsWith(text) => single_field_doc("starts_with"@, Json::String(text@)),
        MatchingRule::EndsWith(text) => single_field_doc("ends_with"@, Json::String(text@)),
    }
}

/// The name of a scope.
pub open spec fn scope_name(scope: Scope) -> Seq<char> {
    match scope {
        Scope::Inputs => "inputs"@,
        Scope::Outputs => "outputs"@,
    }
}

/// The name of the type of a predicate of the UTXO chain.
pub open spec fn bitcoin_predicate_name(kind: BitcoinPredicateType) -> Seq<char> {
    match kind {
        BitcoinPredicateType::TransactionIdentifierHash(_) => "transaction_identifier_hash"@,
        BitcoinPredicateType::Hex(_) => "hex"@,
        BitcoinPredicateType::P2pkh(_) => "p2pkh"@,
        BitcoinPredicateType::P2sh(_) => "p2sh"@,
        BitcoinPredicateType::P2wpkh(_) => "p2wpkh"@,
        BitcoinPredicateType::P2wsh(_) => "p2wsh"@,
        BitcoinPredicateType::Script(_) => "script"@,
    }
}

/// The document of the rule of a predicate of the UTXO chain.
pub open spec fn bitcoin_predicate_rule_doc(kind: BitcoinPredicateType) -> Json {
    match kind {
        BitcoinPredicateType::TransactionIdentifierHash(txid) => Json::String(txid@),
        BitcoinPredicateType::Hex(rule) => matching_rule_doc(rule),
        BitcoinPredicateType::P2pkh(rule) => matching_rule_doc(rule),
        BitcoinPredicateType::P2sh(rule) => matching_rule_doc(rule),
        BitcoinPredicateType::P2wpkh(rule) => matching_rule_doc(rule),
        BitcoinPredicateType::P2wsh(rule) => matching_rule_doc(rule),
        BitcoinPredicateType::Script(template) => Json::String(template.template@),
    }
}

/// The document of a predicate of the UTXO chain: its scope, the name of its
/// type and its rule.
pub open spec fn bitcoin_predicate_doc(predicate: BitcoinTransactionFilterPredicate) -> Json {
    Json::Object(
        no_fields().insert("scope"@, Json::String(scope_name(predicate.scope))).insert(
            "type"@,
            Json::String(bitcoin_predicate_name(predicate.kind)),
        ).insert("rule"@, bitcoin_predicate_rule_doc(predicate.kind)),
    )
}

/// The document of an object of a text and a list of actions.
pub open spec fn asset_actions_doc(asset_identifier: Seq<char>, actions: Seq<String>) -> Json {
    Json::Object(
        no_fields().insert("asset_identifier"@, Json::String(asset_identifier)).insert(
            "actions"@,
            Json::Array(string_docs(actions)),
        ),
    )
}

/// The document of a predicate of the contract chain: the name of its type
/// and its rule.
pub open spec fn stacks_predicate_doc(predicate: StacksTransactionFilterPredicate) -> Json {
    match predicate {
        StacksTransactionFilterPredicate::ContractDeployment(
            StacksContractDeploymentPredicate::Principal(deployer),
        ) => typed_rule_doc(
            "contract_deployment"@,
            single_field_doc("principal"@, Json::String(deployer@)),
        ),
        StacksTransactionFilterPredicate::ContractDeployment(
            StacksContractDeploymentPredicate::Trait(name),
        ) => typed_rule_doc("contract_deployment"@, single_field_doc("trait"@, Json::String(name@))),
        StacksTransactionFilterPredicate::ContractCall(call) => typed_rule_doc(
            "contract_call"@,
            Json::Object(
                no_fields().insert(
                    "contract_identifier"@,
                    Json::String(call.contract_identifier@),
                ).insert("method"@, Json::String(call.method@)),
            ),
        ),
        StacksTransactionFilterPredicate::PrintEvent(print) => typed_rule_doc(
            "print_event"@,
            Json::Object(
                no_fields().insert(
                    "contract_identifier"@,
                    Json::String(print.contract_identifier@),
                ).insert("contains"@, Json::String(print.contains@)),
            ),
        ),
        StacksTransactionFilterPredicate::FtEvent(event) => typed_rule_doc(
            "ft_event"@,
            asset_actions_doc(event.asset_identifier@, event.actions@),
        ),
        StacksTransactionFilterPredicate::NftEvent(event) => typed_rule_doc(
            "nft_event"@,
            asset_actions_doc(event.asset_identifier@, event.actions@),
        ),
        StacksTransactionFilterPredicate::StxEvent(event) => typed_rule_doc(
            "stx_event"@,
            single_field_doc("actions"@, Json::Array(string_docs(event.actions@))),
        ),
        StacksTransactionFilterPredicate::TransactionIdentifierHash(txid) => typed_rule_doc(
            "transaction_identifier_hash"@,
            Json::String(txid@),
        ),
    }
}

/// The object with a single entry.
fn single_field_to_json(key: &str, value: serde_json::Value) -> (doc: serde_json::Value)
    ensures
        json_model(doc) == single_field_doc(key@, json_model(value)),
{
    let mut map = json_map_new();
    json_map_insert(&mut map, key, value);
    json_object(map)
}

/// The document of a rule with its type.
fn typed_rule_to_json(name: &str, rule: serde_json::Value) -> (doc: serde_json::Value)
    ensures
        json_model(doc) == typed_rule_doc(name@, json_model(rule)),
{
    let mut map = json_map_new();
    json_map_insert(&mut map, "type", json_string(name));
    json_map_insert(&mut map, "rule", rule);
    json_object(map)
}

/// The document of an object of a text and a list of actions.
fn asset_actions_to_json(asset_identifier: &String, actions: &Vec<String>) -> (doc:
    serde_json::Value)
    ensures
        json_model(doc) == asset_actions_doc(asset_identifier@, actions@),
{
    let mut map = json_map_new();
    json_map_insert(&mut map, "asset_identifier", json_string(asset_identifier.as_str()));
    json_map_insert(&mut map, "actions", json_strings(actions));
    json_object(map)
}

impl MatchingRule {
    /// Renders the rule as its document.
    pub fn to_json(&self) -> (doc: serde_json::Value)
        ensures
            json_model(doc) == matching_rule_doc(*self),
    {
        match self {
            MatchingRule::Equals(text) => single_field_to_json(
                "equals",
                json_string(text.as_str()),
            ),
            MatchingRule::StartsWith(text) => single_field_to_json(
                "starts_with",
                json_string(text.as_str()),
            ),
            MatchingRule::EndsWith(text) => single_field_to_json(
                "ends_with",
                json_string(text.as_str()),
            ),
        }
    }
}

impl BitcoinTransactionFilterPredicate {
    /// Renders the predicate as its document.
    pub fn to_json(&self) -> (doc: serde_json::Value)
        ensures
            json_model(doc) == bitcoin_predicate_doc(*self),
    {
        let scope = match self.scope {
            Scope::Inputs => "inputs",
            Scope::Outputs => "outputs",
        };
        let (name, rule) = match &self.kind {
            BitcoinPredicateType::TransactionIdentifierHash(txid) => (
                "transaction_identifier_hash",
                json_string(txid.as_str()),
            ),
            BitcoinPredicateType::Hex(rule) => ("hex", rule.to_json()),
            BitcoinPredicateType::P2pkh(rule) => ("p2pkh", rule.to_json()),
            BitcoinPredicateType::P2sh(rule) => ("p2sh", rule.to_json()),
            BitcoinPredicateType::P2wpkh(rule) => ("p2wpkh", rule.to_json()),
            BitcoinPredicateType::P2wsh(rule) => ("p2wsh", rule.to_json()),
            BitcoinPredicateType::Script(template) => (
                "script",
                json_string(template.template.as_str()),
            ),
        };
        let mut map = json_map_new();
        json_map_insert(&mut map, "scope", json_string(scope));
        json_map_insert(&mut map, "type", json_string(name));
        json_map_insert(&mut map, "rule", rule);
        json_object(map)
    }
}

impl StacksTransactionFilterPredicate {
    /// Renders the predicate as its document.
    pub fn to_json(&self) -> (doc: serde_json::Value)
        ensures
            json_model(doc) == stacks_predicate_doc(*self),
    {
        match self {
            StacksTransactionFilterPredicate::ContractDeployment(
                StacksContractDeploymentPredicate::Principal(deployer),
            ) => typed_rule_to_json(
                "contract_deployment",
                single_field_to_json("principal", json_string(deployer.as_str())),
            ),
            StacksTransactionFilterPredicate::ContractDeployment(
                StacksContractDeploymentPredicate::Trait(name),
            ) => typed_rule_to_json(
                "contract_deployment",
                single_field_to_json("trait", json_string(name.as_str())),
            ),
            StacksTransactionFilterPredicate::ContractCall(call) => {
                let mut rule = json_map_new();
                json_map_insert(
                    &mut rule,
                    "contract_identifier",
                    json_string(call.contract_identifier.as_str()),
                );
                json_map_insert(&mut rule, "method", json_string(call.method.as_str()));
                typed_rule_to_json("contract_call", json_object(rule))
            },
            StacksTransactionFilterPredicate::PrintEvent(print) => {
                let mut rule = json_map_new();
                json_map_insert(
                    &mut rule,
                    "contract_identifier",
                    json_string(print.contract_identifier.as_str()),
                );
                json_map_insert(&mut rule, "contains", json_string(print.contains.as_str()));
                typed_rule_to_json("print_event", json_object(rule))
            },
            StacksTransactionFilterPredicate::FtEvent(event) => typed_rule_to_json(
                "ft_event",
                asset_actions_to_json(&event.asset_identifier, &event.actions),
            ),
            StacksTransactionFilterPredicate::NftEvent(event) => typed_rule_to_json(
                "nft_event",
                asset_actions_to_json(&event.asset_identifier, &event.actions),
            ),
            StacksTransactionFilterPredicate::StxEvent(event) => typed_rule_to_json(
                "stx_event",
                single_field_to_json("actions", json_strings(&event.actions)),
            ),
            StacksTransactionFilterPredicate::TransactionIdentifierHash(txid) => {
                typed_rule_to_json("transaction_identifier_hash", json_string(txid.as_str()))
            },
        }
    }
}

} // verus!
