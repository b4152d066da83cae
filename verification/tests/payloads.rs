use chainhooks::bitcoin::BitcoinTriggerChainhook;
use chainhooks::chain::{
    BitcoinTransactionData, BitcoinTransactionMetadata, BlockIdentifier, DataMapDeleteEventData,
    DataMapInsertEventData, DataMapUpdateEventData, DataVarSetEventData, FTMintEventData,
    NFTBurnEventData, NFTMintEventData, NFTTransferEventData, STXTransferEventData,
    SmartContractEventData, StacksContractCallData, StacksContractDeploymentData,
    StacksTransactionData, StacksTransactionEvent, StacksTransactionKind,
    StacksTransactionMetadata, StacksTransactionReceipt, TransactionIdentifier, TxOut,
};
use chainhooks::payload::{
    serialize_bitcoin_payload_to_json, serialize_stacks_payload_to_json, TransactionProofs,
    CONFIRMATIONS,
};
use chainhooks::render::{
    encode_transaction_including_with_clarity_decoding,
    serialized_event_with_decoded_clarity_value,
};
use chainhooks::stacks::StacksTriggerChainhook;
use chainhooks::types::{
    BitcoinChainhookSpecification, BitcoinPredicateType, BitcoinTransactionFilterPredicate,
    HookAction, MatchingRule, Scope, ScriptTemplate, StacksChainhookSpecification,
    StacksContractCallBasedPredicate, StacksContractDeploymentPredicate,
    StacksFtEventBasedPredicate, StacksNftEventBasedPredicate, StacksPrintEventBasedPredicate,
    StacksStxEventBasedPredicate, StacksTransactionFilterPredicate,
};

const UINT_ONE: &str = "0x0100000000000000000000000000000001";

fn json(text: &str) -> serde_json::Value {
    serde_json::from_str(text).unwrap()
}

fn txid(hash: &str) -> TransactionIdentifier {
    TransactionIdentifier { hash: hash.to_string() }
}

fn block_id(index: u64) -> BlockIdentifier {
    BlockIdentifier { index, hash: format!("0xblock{}", index) }
}

fn bitcoin_tx(hash: &str) -> BitcoinTransactionData {
    BitcoinTransactionData {
        transaction_identifier: txid(hash),
        operations: json(r#"[{"type": "CREDIT"}]"#),
        metadata: BitcoinTransactionMetadata {
            inputs: json(r#"[{"sequence": 7}]"#),
            outputs: vec![
                TxOut { value: 1000, script_pubkey: "beef".to_string() },
                TxOut { value: u64::MAX, script_pubkey: String::new() },
            ],
            stacks_operations: json("[]"),
            ordinal_operations: serde_json::Value::Array(vec![]),
            proof: Some("carried".to_string()),
            fee: 250,
        },
    }
}

fn bitcoin_tx_doc(hash: &str) -> String {
    format!(
        r#"{{"transaction_identifier": {{"hash": "{}"}},
            "operations": [{{"type": "CREDIT"}}],
            "metadata": {{
                "inputs": [{{"sequence": 7}}],
                "outputs": [
                    {{"value": 1000, "script_pubkey": "beef"}},
                    {{"value": 18446744073709551615, "script_pubkey": ""}}
                ],
                "stacks_operations": [],
                "ordinal_operations": [],
                "proof": "carried",
                "fee": 250
            }}}}"#,
        hash
    )
}

fn bitcoin_hook(kind: BitcoinPredicateType) -> BitcoinChainhookSpecification {
    BitcoinChainhookSpecification {
        uuid: "hook-1".to_string(),
        predicate: BitcoinTransactionFilterPredicate { scope: Scope::Outputs, kind },
        action: HookAction::Noop,
    }
}

fn events() -> Vec<StacksTransactionEvent> {
    vec![
        StacksTransactionEvent::STXTransferEvent(STXTransferEventData {
            sender: "ST1S".to_string(),
            recipient: "ST1R".to_string(),
            amount: "5".to_string(),
        }),
        StacksTransactionEvent::NFTMintEvent(NFTMintEventData {
            asset_class_identifier: "ST1.art::piece".to_string(),
            hex_asset_identifier: UINT_ONE.to_string(),
            recipient: "ST1R".to_string(),
        }),
        StacksTransactionEvent::SmartContractEvent(SmartContractEventData {
            contract_identifier: "ST1.logger".to_string(),
            topic: "print".to_string(),
            hex_value: "0x0d0000000568656c6c6f".to_string(),
        }),
    ]
}

fn stacks_tx(hash: &str) -> StacksTransactionData {
    StacksTransactionData {
        transaction_identifier: txid(hash),
        operations: json("[]"),
        metadata: StacksTransactionMetadata {
            success: true,
            raw_tx: "0x8080".to_string(),
            result: "0x0703".to_string(),
            sender: "ST1SENDER".to_string(),
            nonce: 12,
            fee: 180,
            kind: StacksTransactionKind::ContractCall(StacksContractCallData {
                contract_identifier: "ST1.counter".to_string(),
                method: "increment".to_string(),
                args: vec!["u1".to_string(), "true".to_string()],
            }),
            receipt: StacksTransactionReceipt {
                mutated_contracts_radius: vec!["ST1.counter".to_string()],
                mutated_assets_radius: vec![],
                contract_calls_stack: vec![],
                events: events(),
            },
            description: "invoked: ST1.counter::increment(u1, true)".to_string(),
            sponsor: None,
            execution_cost: Some(json(r#"{"runtime": 9}"#)),
            position: json(r#"{"index": 3}"#),
            proof: None,
        },
    }
}

fn stacks_tx_doc(hash: &str, result: &str, events: &str) -> String {
    format!(
        r#"{{"transaction_identifier": {{"hash": "{}"}},
            "operations": [],
            "metadata": {{
                "success": true,
                "raw_tx": "0x8080",
                "result": {},
                "sender": "ST1SENDER",
                "nonce": 12,
                "fee": 180,
                "kind": {{"type": "ContractCall", "data": {{
                    "contract_identifier": "ST1.counter",
                    "method": "increment",
                    "args": ["u1", "true"]
                }}}},
                "receipt": {{
                    "mutated_contracts_radius": ["ST1.counter"],
                    "mutated_assets_radius": [],
                    "contract_calls_stack": [],
                    "events": {}
                }},
                "description": "invoked: ST1.counter::increment(u1, true)",
                "execution_cost": {{"runtime": 9}},
                "position": {{"index": 3}},
                "proof": null
            }}}}"#,
        hash, result, events
    )
}

const REPORTED_EVENTS: &str = r#"[
    {"type": "STXTransferEvent", "data": {"sender": "ST1S", "recipient": "ST1R", "amount": "5"}},
    {"type": "NFTMintEvent", "data": {
        "asset_identifier": "ST1.art::piece",
        "raw_value": "0x0100000000000000000000000000000001",
        "recipient": "ST1R"
    }},
    {"type": "SmartContractEvent", "data": {
        "contract_identifier": "ST1.logger",
        "topic": "print",
        "raw_value": "0x0d0000000568656c6c6f"
    }}
]"#;

const DECODED_EVENTS: &str = r#"[
    {"type": "STXTransferEvent", "data": {"sender": "ST1S", "recipient": "ST1R", "amount": "5"}},
    {"type": "NFTMintEvent", "data": {
        "asset_class_identifier": "ST1.art::piece",
        "asset_identifier": 1,
        "recipient": "ST1R"
    }},
    {"type": "SmartContractEvent", "data": {
        "contract_identifier": "ST1.logger",
        "topic": "print",
        "value": "hello"
    }}
]"#;

fn stacks_hook(decode: Option<bool>) -> StacksChainhookSpecification {
    StacksChainhookSpecification {
        uuid: "hook-2".to_string(),
        decode_clarity_values: decode,
        transaction_predicate: StacksTransactionFilterPredicate::ContractCall(
            StacksContractCallBasedPredicate {
                contract_identifier: "ST1.counter".to_string(),
                method: "increment".to_string(),
            },
        ),
        action: HookAction::Noop,
    }
}

const STACKS_HOOK_DOC: &str = r#"{
    "uuid": "hook-2",
    "transaction_predicate": {"type": "contract_call", "rule": {
        "contract_identifier": "ST1.counter", "method": "increment"}},
    "block_predicate": {"type": "contract_call", "rule": {
        "contract_identifier": "ST1.counter", "method": "increment"}}
}"#;

#[test]
fn the_confirmation_count_is_one() {
    assert_eq!(CONFIRMATIONS, 1);
}

#[test]
fn a_payload_of_the_utxo_chain_has_three_parts() {
    let hook = bitcoin_hook(BitcoinPredicateType::Hex(MatchingRule::Equals("beef".to_string())));
    let (first, second, third) = (bitcoin_tx("0xa"), bitcoin_tx("0xb"), bitcoin_tx("0xc"));
    let (one, two) = (block_id(1), block_id(2));
    let mut proofs = TransactionProofs::new();
    proofs.insert(txid("0xb"), "proof of b".to_string());
    let trigger = BitcoinTriggerChainhook {
        chainhook: &hook,
        apply: vec![(&first, &one), (&second, &two)],
        rollback: vec![(&third, &one)],
    };
    let payload = serialize_bitcoin_payload_to_json(trigger, &proofs);
    let expected = format!(
        r#"{{
            "apply": [
                {{"transaction": {}, "block_identifier": {{"index": 1, "hash": "0xblock1"}},
                  "confirmations": 1, "proof": null}},
                {{"transaction": {}, "block_identifier": {{"index": 2, "hash": "0xblock2"}},
                  "confirmations": 1, "proof": "proof of b"}}
            ],
            "rollback": [
                {{"transaction": {}, "block_identifier": {{"index": 1, "hash": "0xblock1"}},
                  "confirmations": 1}}
            ],
            "chainhook": {{
                "uuid": "hook-1",
                "predicate": {{"scope": "outputs", "type": "hex", "rule": {{"equals": "beef"}}}}
            }}
        }}"#,
        bitcoin_tx_doc("0xa"),
        bitcoin_tx_doc("0xb"),
        bitcoin_tx_doc("0xc")
    );
    assert_eq!(payload, json(&expected));
    let keys: Vec<&String> = payload.as_object().unwrap().keys().collect();
    assert_eq!(keys, vec!["apply", "chainhook", "rollback"]);
    assert!(payload["rollback"][0].get("proof").is_none());
}

#[test]
fn an_empty_trigger_has_empty_lists() {
    let hook = bitcoin_hook(BitcoinPredicateType::TransactionIdentifierHash("0xa".to_string()));
    let trigger = BitcoinTriggerChainhook { chainhook: &hook, apply: vec![], rollback: vec![] };
    let payload = serialize_bitcoin_payload_to_json(trigger, &TransactionProofs::new());
    assert_eq!(
        payload,
        json(
            r#"{"apply": [], "rollback": [], "chainhook": {"uuid": "hook-1", "predicate":
                {"scope": "outputs", "type": "transaction_identifier_hash", "rule": "0xa"}}}"#
        )
    );
}

#[test]
fn every_predicate_of_the_utxo_chain_has_a_summary() {
    let summary = |scope: Scope, kind: BitcoinPredicateType| {
        BitcoinTransactionFilterPredicate { scope, kind }.to_json()
    };
    let address = "1A1zP1eP5QGefi2DMPTfTL5SLmv7DivfNa".to_string();
    assert_eq!(
        summary(Scope::Inputs, BitcoinPredicateType::Hex(MatchingRule::StartsWith("a".to_string()))),
        json(r#"{"scope": "inputs", "type": "hex", "rule": {"starts_with": "a"}}"#)
    );
    assert_eq!(
        summary(Scope::Outputs, BitcoinPredicateType::Hex(MatchingRule::EndsWith("b".to_string()))),
        json(r#"{"scope": "outputs", "type": "hex", "rule": {"ends_with": "b"}}"#)
    );
    assert_eq!(
        summary(Scope::Outputs, BitcoinPredicateType::P2pkh(MatchingRule::Equals(address.clone()))),
        json(
            r#"{"scope": "outputs", "type": "p2pkh",
                "rule": {"equals": "1A1zP1eP5QGefi2DMPTfTL5SLmv7DivfNa"}}"#
        )
    );
    assert_eq!(
        summary(Scope::Outputs, BitcoinPredicateType::P2sh(MatchingRule::Equals("x".to_string()))),
        json(r#"{"scope": "outputs", "type": "p2sh", "rule": {"equals": "x"}}"#)
    );
    assert_eq!(
        summary(Scope::Outputs, BitcoinPredicateType::P2wpkh(MatchingRule::Equals("x".to_string()))),
        json(r#"{"scope": "outputs", "type": "p2wpkh", "rule": {"equals": "x"}}"#)
    );
    assert_eq!(
        summary(Scope::Outputs, BitcoinPredicateType::P2wsh(MatchingRule::Equals("x".to_string()))),
        json(r#"{"scope": "outputs", "type": "p2wsh", "rule": {"equals": "x"}}"#)
    );
    assert_eq!(
        summary(
            Scope::Outputs,
            BitcoinPredicateType::Script(ScriptTemplate { template: "OP_DUP".to_string() })
        ),
        json(r#"{"scope": "outputs", "type": "script", "rule": "OP_DUP"}"#)
    );
}

#[test]
fn every_predicate_of_the_contract_chain_has_a_summary() {
    let names = vec!["mint".to_string(), "burn".to_string()];
    assert_eq!(
        StacksTransactionFilterPredicate::ContractDeployment(
            StacksContractDeploymentPredicate::Principal("ST1".to_string())
        )
        .to_json(),
        json(r#"{"type": "contract_deployment", "rule": {"principal": "ST1"}}"#)
    );
    assert_eq!(
        StacksTransactionFilterPredicate::ContractDeployment(
            StacksContractDeploymentPredicate::Trait("ST1.t".to_string())
        )
        .to_json(),
        json(r#"{"type": "contract_deployment", "rule": {"trait": "ST1.t"}}"#)
    );
    assert_eq!(
        StacksTransactionFilterPredicate::PrintEvent(StacksPrintEventBasedPredicate {
            contract_identifier: "ST1.c".to_string(),
            contains: "x".to_string(),
        })
        .to_json(),
        json(r#"{"type": "print_event", "rule": {"contract_identifier": "ST1.c", "contains": "x"}}"#)
    );
    assert_eq!(
        StacksTransactionFilterPredicate::FtEvent(StacksFtEventBasedPredicate {
            asset_identifier: "ST1.c::coin".to_string(),
            actions: names.clone(),
        })
        .to_json(),
        json(
            r#"{"type": "ft_event",
                "rule": {"asset_identifier": "ST1.c::coin", "actions": ["mint", "burn"]}}"#
        )
    );
    assert_eq!(
        StacksTransactionFilterPredicate::NftEvent(StacksNftEventBasedPredicate {
            asset_identifier: "ST1.c::art".to_string(),
            actions: vec![],
        })
        .to_json(),
        json(r#"{"type": "nft_event", "rule": {"asset_identifier": "ST1.c::art", "actions": []}}"#)
    );
    assert_eq!(
        StacksTransactionFilterPredicate::StxEvent(StacksStxEventBasedPredicate { actions: names })
            .to_json(),
        json(r#"{"type": "stx_event", "rule": {"actions": ["mint", "burn"]}}"#)
    );
    assert_eq!(
        StacksTransactionFilterPredicate::TransactionIdentifierHash("0x1".to_string()).to_json(),
        json(r#"{"type": "transaction_identifier_hash", "rule": "0x1"}"#)
    );
}

#[test]
fn without_decoding_the_transaction_is_emitted_as_reported() {
    for decode in [None, Some(false)] {
        let hook = stacks_hook(decode);
        let (tx, block) = (stacks_tx("0x1"), block_id(4));
        let trigger =
            StacksTriggerChainhook { chainhook: &hook, apply: vec![(&tx, &block)], rollback: vec![] };
        let payload = serialize_stacks_payload_to_json(trigger, &TransactionProofs::new());
        let expected = format!(
            r#"{{"apply": [{{"transaction": {},
                "block_identifier": {{"index": 4, "hash": "0xblock4"}},
                "confirmations": 1, "proof": null}}],
                "rollback": [], "chainhook": {}}}"#,
            stacks_tx_doc("0x1", "\"0x0703\"", REPORTED_EVENTS),
            STACKS_HOOK_DOC
        );
        assert_eq!(payload, json(&expected));
        assert_eq!(payload["apply"][0]["transaction"], tx.to_json());
    }
}

#[test]
fn with_decoding_the_result_and_the_events_are_decoded() {
    let hook = stacks_hook(Some(true));
    let (tx, old, block) = (stacks_tx("0x1"), stacks_tx("0x0"), block_id(4));
    let mut proofs = TransactionProofs::new();
    proofs.insert(txid("0x1"), "merkle".to_string());
    proofs.insert(txid("0x0"), "unused".to_string());
    let trigger = StacksTriggerChainhook {
        chainhook: &hook,
        apply: vec![(&tx, &block)],
        rollback: vec![(&old, &block)],
    };
    let payload = serialize_stacks_payload_to_json(trigger, &proofs);
    let expected = format!(
        r#"{{"apply": [{{"transaction": {},
            "block_identifier": {{"index": 4, "hash": "0xblock4"}},
            "confirmations": 1, "proof": "merkle"}}],
            "rollback": [{{"transaction": {},
            "block_identifier": {{"index": 4, "hash": "0xblock4"}},
            "confirmations": 1}}],
            "chainhook": {}}}"#,
        stacks_tx_doc("0x1", r#"{"success": true, "value": true}"#, DECODED_EVENTS),
        stacks_tx_doc("0x0", r#"{"success": true, "value": true}"#, DECODED_EVENTS),
        STACKS_HOOK_DOC
    );
    assert_eq!(payload, json(&expected));
    assert_eq!(
        payload["apply"][0]["transaction"],
        encode_transaction_including_with_clarity_decoding(&tx)
    );
    assert_eq!(
        payload["rollback"][0]["transaction"],
        encode_transaction_including_with_clarity_decoding(&old)
    );
}

#[test]
fn without_decoding_a_transaction_to_roll_back_is_emitted_as_reported() {
    for decode in [None, Some(false)] {
        let hook = stacks_hook(decode);
        let (old, block) = (stacks_tx("0x0"), block_id(4));
        let trigger =
            StacksTriggerChainhook { chainhook: &hook, apply: vec![], rollback: vec![(&old, &block)] };
        let payload = serialize_stacks_payload_to_json(trigger, &TransactionProofs::new());
        assert_eq!(payload["rollback"][0]["transaction"], old.to_json());
        assert_eq!(payload["rollback"][0]["transaction"]["metadata"]["result"], "0x0703");
    }
}

#[test]
fn the_two_documents_of_a_transaction_differ_only_in_the_result_and_the_events() {
    let tx = stacks_tx("0x1");
    let mut reported = tx.to_json();
    let mut decoded = encode_transaction_including_with_clarity_decoding(&tx);
    assert_ne!(reported, decoded);
    for document in [&mut reported, &mut decoded] {
        let metadata = document["metadata"].as_object_mut().unwrap();
        metadata.remove("result");
        metadata["receipt"].as_object_mut().unwrap().remove("events");
    }
    assert_eq!(reported, decoded);
}

#[test]
fn the_kinds_of_transactions_have_tagged_documents() {
    assert_eq!(
        StacksTransactionKind::ContractDeployment(StacksContractDeploymentData {
            contract_identifier: "ST1.c".to_string(),
            code: "(ok 1)".to_string(),
        })
        .to_json(),
        json(r#"{"type": "ContractDeployment", "data": {"contract_identifier": "ST1.c", "code": "(ok 1)"}}"#)
    );
    assert_eq!(
        StacksTransactionKind::NativeTokenTransfer.to_json(),
        json(r#"{"type": "NativeTokenTransfer"}"#)
    );
    assert_eq!(StacksTransactionKind::Coinbase.to_json(), json(r#"{"type": "Coinbase"}"#));
    assert_eq!(StacksTransactionKind::Unsupported.to_json(), json(r#"{"type": "Unsupported"}"#));
    assert_eq!(
        StacksTransactionKind::BitcoinOp(json(r#"{"type": "StackSTX"}"#)).to_json(),
        json(r#"{"type": "BitcoinOp", "data": {"type": "StackSTX"}}"#)
    );
}

#[test]
fn an_absent_sponsor_and_an_absent_execution_cost_have_no_key() {
    let mut tx = stacks_tx("0x1");
    tx.metadata.execution_cost = None;
    for document in [tx.to_json(), encode_transaction_including_with_clarity_decoding(&tx)] {
        let metadata = document["metadata"].as_object().unwrap();
        assert!(!metadata.contains_key("sponsor"));
        assert!(!metadata.contains_key("execution_cost"));
        assert!(metadata.contains_key("proof"));
        assert!(metadata["proof"].is_null());
    }
    assert!(stacks_tx("0x1").to_json()["metadata"].as_object().unwrap().contains_key("execution_cost"));
}

#[test]
fn a_sponsor_is_emitted_where_there_is_one() {
    let mut tx = stacks_tx("0x1");
    tx.metadata.sponsor = Some("ST1SPONSOR".to_string());
    assert_eq!(tx.to_json()["metadata"]["sponsor"], json("\"ST1SPONSOR\""));
    assert_eq!(
        encode_transaction_including_with_clarity_decoding(&tx)["metadata"]["sponsor"],
        json("\"ST1SPONSOR\"")
    );
}

#[test]
fn an_undecodable_result_is_emitted_as_it_is() {
    let mut tx = stacks_tx("0x1");
    tx.metadata.result = "(ok true)".to_string();
    assert_eq!(
        encode_transaction_including_with_clarity_decoding(&tx)["metadata"]["result"],
        json("\"(ok true)\"")
    );
}

#[test]
fn events_with_encoded_values_are_decoded() {
    let decoded = |event: StacksTransactionEvent| serialized_event_with_decoded_clarity_value(&event);
    assert_eq!(
        decoded(StacksTransactionEvent::NFTTransferEvent(NFTTransferEventData {
            asset_class_identifier: "ST1.art::piece".to_string(),
            hex_asset_identifier: UINT_ONE.to_string(),
            sender: "ST1S".to_string(),
            recipient: "ST1R".to_string(),
        })),
        json(
            r#"{"type": "NFTTransferEvent", "data": {"asset_class_identifier": "ST1.art::piece",
                "asset_identifier": 1, "sender": "ST1S", "recipient": "ST1R"}}"#
        )
    );
    assert_eq!(
        decoded(StacksTransactionEvent::NFTBurnEvent(NFTBurnEventData {
            asset_class_identifier: "ST1.art::piece".to_string(),
            hex_asset_identifier: "0x0200000001ff".to_string(),
            sender: "ST1S".to_string(),
        })),
        json(
            r#"{"type": "NFTBurnEvent", "data": {"asset_class_identifier": "ST1.art::piece",
                "asset_identifier": "0xff", "sender": "ST1S"}}"#
        )
    );
    assert_eq!(
        decoded(StacksTransactionEvent::DataVarSetEvent(DataVarSetEventData {
            contract_identifier: "ST1.c".to_string(),
            var: "counter".to_string(),
            hex_new_value: UINT_ONE.to_string(),
        })),
        json(
            r#"{"type": "DataVarSetEvent", "data": {"contract_identifier": "ST1.c",
                "var": "counter", "new_value": 1}}"#
        )
    );
    assert_eq!(
        decoded(StacksTransactionEvent::DataMapInsertEvent(DataMapInsertEventData {
            contract_identifier: "ST1.c".to_string(),
            map: "owners".to_string(),
            hex_inserted_key: UINT_ONE.to_string(),
            hex_inserted_value: "0x03".to_string(),
        })),
        json(
            r#"{"type": "DataMapInsertEvent", "data": {"contract_identifier": "ST1.c",
                "map": "owners", "inserted_key": 1, "inserted_value": true}}"#
        )
    );
    assert_eq!(
        decoded(StacksTransactionEvent::DataMapUpdateEvent(DataMapUpdateEventData {
            contract_identifier: "ST1.c".to_string(),
            map: "owners".to_string(),
            hex_key: UINT_ONE.to_string(),
            hex_new_value: "0x04".to_string(),
        })),
        json(
            r#"{"type": "DataMapUpdateEvent", "data": {"contract_identifier": "ST1.c",
                "map": "owners", "key": 1, "new_value": false}}"#
        )
    );
    assert_eq!(
        decoded(StacksTransactionEvent::DataMapDeleteEvent(DataMapDeleteEventData {
            contract_identifier: "ST1.c".to_string(),
            map: "owners".to_string(),
            hex_deleted_key: "not encoded".to_string(),
        })),
        json(
            r#"{"type": "DataMapDeleteEvent", "data": {"contract_identifier": "ST1.c",
                "map": "owners", "deleted_key": "not encoded"}}"#
        )
    );
}

#[test]
fn events_without_encoded_values_are_emitted_as_reported() {
    let event = StacksTransactionEvent::FTMintEvent(FTMintEventData {
        asset_class_identifier: "ST1.token::coin".to_string(),
        recipient: "ST1R".to_string(),
        amount: "0x03".to_string(),
    });
    let expected = json(
        r#"{"type": "FTMintEvent", "data": {"asset_identifier": "ST1.token::coin",
            "recipient": "ST1R", "amount": "0x03"}}"#,
    );
    assert_eq!(serialized_event_with_decoded_clarity_value(&event), expected);
    assert_eq!(event.to_json(), expected);
    assert_eq!(event.name(), "FTMintEvent");
}

#[test]
fn identifiers_have_documents() {
    assert_eq!(txid("0xabc").to_json(), json(r#"{"hash": "0xabc"}"#));
    assert_eq!(block_id(9).to_json(), json(r#"{"index": 9, "hash": "0xblock9"}"#));
    assert_eq!(
        TxOut { value: 0, script_pubkey: "00".to_string() }.to_json(),
        json(r#"{"value": 0, "script_pubkey": "00"}"#)
    );
    assert_eq!(bitcoin_tx("0x1").to_json(), json(&bitcoin_tx_doc("0x1")));
}

#[test]
fn a_later_proof_replaces_an_earlier_one() {
    let mut proofs = TransactionProofs::new();
    assert_eq!(proofs.get(&txid("0x1")), None);
    proofs.insert(txid("0x1"), "first".to_string());
    proofs.insert(txid("0x2"), "other".to_string());
    assert_eq!(proofs.get(&txid("0x1")), Some(&"first".to_string()));
    proofs.insert(txid("0x1"), "second".to_string());
    assert_eq!(proofs.get(&txid("0x1")), Some(&"second".to_string()));
    assert_eq!(proofs.get(&txid("0x2")), Some(&"other".to_string()));
    assert_eq!(proofs.get(&txid("0x3")), None);
    assert_eq!(proofs.get(&txid("0x")), None);
}

#[test]
fn the_encoded_values_of_an_event_are_those_that_are_decoded() {
    let all = events();
    assert!(all[0].encoded_values().is_empty());
    assert_eq!(all[1].encoded_values(), vec![&UINT_ONE.to_string()]);
    assert_eq!(all[2].encoded_values(), vec![&"0x0d0000000568656c6c6f".to_string()]);
    let insert = StacksTransactionEvent::DataMapInsertEvent(DataMapInsertEventData {
        contract_identifier: "ST1.c".to_string(),
        map: "owners".to_string(),
        hex_inserted_key: "key".to_string(),
        hex_inserted_value: "value".to_string(),
    });
    assert_eq!(insert.encoded_values(), vec![&"key".to_string(), &"value".to_string()]);
}
