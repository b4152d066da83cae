use chainhooks::bitcoin::BitcoinTriggerChainhook;
use chainhooks::chain::{
    BitcoinTransactionData, BitcoinTransactionMetadata, BlockIdentifier, StacksTransactionData,
    StacksTransactionKind, StacksTransactionMetadata, StacksTransactionReceipt,
    TransactionIdentifier, TxOut,
};
use chainhooks::dispatch::{
    build_http_request, handle_bitcoin_hook_action, handle_stacks_hook_action,
    BitcoinChainhookOccurrence, HttpRequest, StacksChainhookOccurrence,
};
use chainhooks::payload::{
    serialize_bitcoin_payload_to_json, serialize_stacks_payload_to_json, TransactionProofs,
};
use chainhooks::stacks::StacksTriggerChainhook;
use chainhooks::types::{
    BitcoinChainhookSpecification, BitcoinPredicateType, BitcoinTransactionFilterPredicate,
    FileHook, HookAction, HttpHook, Scope, StacksChainhookSpecification,
    StacksTransactionFilterPredicate,
};
use chainhooks::validation::{HookConfigurationError, MalformedField};

fn txid(hash: &str) -> TransactionIdentifier {
    TransactionIdentifier { hash: hash.to_string() }
}

fn block_id(index: u64) -> BlockIdentifier {
    BlockIdentifier { index, hash: format!("0xblock{}", index) }
}

fn bitcoin_tx(hash: &str) -> BitcoinTransactionData {
    BitcoinTransactionData {
        transaction_identifier: txid(hash),
        operations: serde_json::Value::Array(vec![serde_json::Value::Bool(true)]),
        metadata: BitcoinTransactionMetadata {
            inputs: serde_json::Value::Null,
            outputs: vec![TxOut { value: 5, script_pubkey: "beef".to_string() }],
            stacks_operations: serde_json::Value::String("none".to_string()),
            ordinal_operations: serde_json::Value::Array(vec![]),
            proof: None,
            fee: 250,
        },
    }
}

fn stacks_tx(hash: &str) -> StacksTransactionData {
    StacksTransactionData {
        transaction_identifier: txid(hash),
        operations: serde_json::Value::Array(vec![]),
        metadata: StacksTransactionMetadata {
            success: false,
            raw_tx: "0x00".to_string(),
            result: "0x03".to_string(),
            sender: "ST1SENDER".to_string(),
            nonce: 12,
            fee: 1,
            kind: StacksTransactionKind::Coinbase,
            receipt: StacksTransactionReceipt {
                mutated_contracts_radius: vec!["ST1.c".to_string()],
                mutated_assets_radius: vec!["ST1.c::coin".to_string()],
                contract_calls_stack: vec![],
                events: vec![],
            },
            description: "coinbase".to_string(),
            sponsor: Some("ST1SPONSOR".to_string()),
            execution_cost: None,
            position: serde_json::Value::Bool(false),
            proof: None,
        },
    }
}

fn http(method: &str) -> HookAction {
    HookAction::Http(HttpHook {
        url: "http://localhost:3000/events".to_string(),
        method: method.to_string(),
        authorization_header: "Bearer secret".to_string(),
    })
}

fn bitcoin_hook(action: HookAction) -> BitcoinChainhookSpecification {
    BitcoinChainhookSpecification {
        uuid: "hook-1".to_string(),
        predicate: BitcoinTransactionFilterPredicate {
            scope: Scope::Outputs,
            kind: BitcoinPredicateType::TransactionIdentifierHash("0xa".to_string()),
        },
        action,
    }
}

fn stacks_hook(action: HookAction) -> StacksChainhookSpecification {
    StacksChainhookSpecification {
        uuid: "hook-2".to_string(),
        decode_clarity_values: Some(true),
        transaction_predicate: StacksTransactionFilterPredicate::TransactionIdentifierHash(
            "0xa".to_string(),
        ),
        action,
    }
}

fn proofs() -> TransactionProofs {
    let mut proofs = TransactionProofs::new();
    proofs.insert(txid("0xa"), "proof of a".to_string());
    proofs
}

fn header(name: &str, value: &str) -> (String, String) {
    (name.to_string(), value.to_string())
}

#[test]
fn an_http_action_of_the_utxo_chain_builds_an_authorized_request() {
    let hook = bitcoin_hook(http("POST"));
    let (tx, block) = (bitcoin_tx("0xa"), block_id(1));
    let trigger = || BitcoinTriggerChainhook {
        chainhook: &hook,
        apply: vec![(&tx, &block)],
        rollback: vec![],
    };
    let body = serde_json::to_vec(&serialize_bitcoin_payload_to_json(trigger(), &proofs())).unwrap();
    match handle_bitcoin_hook_action(trigger(), &proofs()) {
        Some(BitcoinChainhookOccurrence::Http(request)) => {
            assert_eq!(request.method, "POST");
            assert_eq!(request.url, "http://localhost:3000/events");
            assert_eq!(
                request.headers,
                vec![
                    header("Content-Type", "application/json"),
                    header("Authorization", "Bearer secret")
                ]
            );
            assert_eq!(request.body, body);
            let sent: serde_json::Value = serde_json::from_slice(&request.body).unwrap();
            assert_eq!(sent["apply"][0]["proof"], "proof of a");
            assert_eq!(sent["apply"][0]["confirmations"], 1);
            assert_eq!(sent["chainhook"]["uuid"], "hook-1");
        }
        other => panic!("an HTTP request was expected, not {:?}", other),
    }
}

#[test]
fn an_http_action_of_the_contract_chain_builds_a_request_without_authorization() {
    let hook = stacks_hook(http("PUT"));
    let (tx, block) = (stacks_tx("0xa"), block_id(1));
    let trigger = || StacksTriggerChainhook {
        chainhook: &hook,
        apply: vec![(&tx, &block)],
        rollback: vec![(&tx, &block)],
    };
    let body = serde_json::to_vec(&serialize_stacks_payload_to_json(trigger(), &proofs())).unwrap();
    match handle_stacks_hook_action(trigger(), &proofs()) {
        Some(StacksChainhookOccurrence::Http(request)) => {
            assert_eq!(request.method, "PUT");
            assert_eq!(request.url, "http://localhost:3000/events");
            assert_eq!(request.headers, vec![header("Content-Type", "application/json")]);
            assert_eq!(request.body, body);
            let sent: serde_json::Value = serde_json::from_slice(&request.body).unwrap();
            assert_eq!(sent["apply"][0]["transaction"]["metadata"]["result"], true);
            assert_eq!(sent["rollback"][0]["transaction"]["metadata"]["result"], true);
        }
        other => panic!("an HTTP request was expected, not {:?}", other),
    }
}

#[test]
fn a_malformed_method_gives_no_occurrence() {
    for method in ["", "PO ST", "GET\n", "(GET)", "é", "GET#", "$", "a%b", "A&B", "'", "GET/1", "\0"] {
        let hook = bitcoin_hook(http(method));
        let trigger = BitcoinTriggerChainhook { chainhook: &hook, apply: vec![], rollback: vec![] };
        assert!(handle_bitcoin_hook_action(trigger, &proofs()).is_none());
        let hook = stacks_hook(http(method));
        let trigger = StacksTriggerChainhook { chainhook: &hook, apply: vec![], rollback: vec![] };
        assert!(handle_stacks_hook_action(trigger, &proofs()).is_none());
    }
}

#[test]
fn any_token_is_a_method() {
    for method in [
        "GET",
        "DELETE",
        "post",
        "PROPFIND",
        "M-SEARCH",
        "A-VERY-LONG-METHOD-NAME-OF-MANY-LETTERS",
        "!*+-.^_`|~",
        "09azAZ",
        "x",
    ] {
        let hook = bitcoin_hook(http(method));
        let trigger = BitcoinTriggerChainhook { chainhook: &hook, apply: vec![], rollback: vec![] };
        match handle_bitcoin_hook_action(trigger, &proofs()) {
            Some(BitcoinChainhookOccurrence::Http(request)) => assert_eq!(request.method, method),
            other => panic!("an HTTP request was expected, not {:?}", other),
        }
    }
}

#[test]
fn a_file_action_pairs_the_path_with_the_payload() {
    let file = || HookAction::File(FileHook { path: "/tmp/events.json".to_string() });
    let hook = bitcoin_hook(file());
    let (tx, block) = (bitcoin_tx("0xa"), block_id(1));
    let trigger =
        || BitcoinTriggerChainhook { chainhook: &hook, apply: vec![], rollback: vec![(&tx, &block)] };
    let bytes = serde_json::to_vec(&serialize_bitcoin_payload_to_json(trigger(), &proofs())).unwrap();
    match handle_bitcoin_hook_action(trigger(), &proofs()) {
        Some(BitcoinChainhookOccurrence::File(path, written)) => {
            assert_eq!(path, "/tmp/events.json");
            assert_eq!(written, bytes);
            assert!(written.starts_with(b"{\"apply\":[],\"chainhook\":{"));
        }
        other => panic!("a file was expected, not {:?}", other),
    }
    let hook = stacks_hook(file());
    let (tx, block) = (stacks_tx("0xa"), block_id(1));
    let trigger =
        || StacksTriggerChainhook { chainhook: &hook, apply: vec![(&tx, &block)], rollback: vec![] };
    let bytes = serde_json::to_vec(&serialize_stacks_payload_to_json(trigger(), &proofs())).unwrap();
    match handle_stacks_hook_action(trigger(), &proofs()) {
        Some(StacksChainhookOccurrence::File(path, written)) => {
            assert_eq!(path, "/tmp/events.json");
            assert_eq!(written, bytes);
        }
        other => panic!("a file was expected, not {:?}", other),
    }
}

#[test]
fn the_third_action_of_the_utxo_chain_hands_back_copies() {
    let hook = bitcoin_hook(HookAction::Noop);
    let (first, second, old) = (bitcoin_tx("0xa"), bitcoin_tx("0xb"), bitcoin_tx("0xc"));
    let (one, two) = (block_id(1), block_id(2));
    let trigger = BitcoinTriggerChainhook {
        chainhook: &hook,
        apply: vec![(&first, &one), (&second, &two)],
        rollback: vec![(&old, &one)],
    };
    match handle_bitcoin_hook_action(trigger, &proofs()) {
        Some(BitcoinChainhookOccurrence::Data(payload)) => {
            assert_eq!(payload.chainhook.uuid, "hook-1");
            assert_eq!(payload.apply.len(), 2);
            assert_eq!(payload.apply[0].transaction, first);
            assert_eq!(payload.apply[0].block_identifier, one);
            assert_eq!(payload.apply[0].confirmations, 1);
            assert_eq!(payload.apply[0].proof, Some(b"proof of a".to_vec()));
            assert_eq!(payload.apply[1].transaction, second);
            assert_eq!(payload.apply[1].block_identifier, two);
            assert_eq!(payload.apply[1].confirmations, 1);
            assert_eq!(payload.apply[1].proof, None);
            assert_eq!(payload.rollback.len(), 1);
            assert_eq!(payload.rollback[0].transaction, old);
            assert_eq!(payload.rollback[0].block_identifier, one);
            assert_eq!(payload.rollback[0].confirmations, 1);
        }
        other => panic!("data was expected, not {:?}", other),
    }
}

#[test]
fn the_third_action_of_the_contract_chain_hands_back_copies() {
    let hook = stacks_hook(HookAction::Noop);
    let (first, old) = (stacks_tx("0xa"), stacks_tx("0xb"));
    let (one, two) = (block_id(1), block_id(2));
    let trigger = StacksTriggerChainhook {
        chainhook: &hook,
        apply: vec![(&first, &two)],
        rollback: vec![(&old, &one), (&first, &one)],
    };
    match handle_stacks_hook_action(trigger, &proofs()) {
        Some(StacksChainhookOccurrence::Data(payload)) => {
            assert_eq!(payload.chainhook.uuid, "hook-2");
            assert_eq!(payload.apply.len(), 1);
            assert_eq!(payload.apply[0].transaction, first);
            assert_eq!(payload.apply[0].block_identifier, two);
            assert_eq!(payload.apply[0].confirmations, 1);
            assert_eq!(payload.apply[0].proof, Some(b"proof of a".to_vec()));
            assert_eq!(payload.rollback.len(), 2);
            assert_eq!(payload.rollback[0].transaction, old);
            assert_eq!(payload.rollback[0].block_identifier, one);
            assert_eq!(payload.rollback[1].transaction, first);
            assert_eq!(payload.rollback[1].confirmations, 1);
        }
        other => panic!("data was expected, not {:?}", other),
    }
}

#[test]
fn a_request_is_built_only_for_an_accepted_method() {
    let hook = HttpHook {
        url: "http://host/path".to_string(),
        method: "PATCH".to_string(),
        authorization_header: "token".to_string(),
    };
    assert_eq!(build_http_request(&hook, false, true, vec![1, 2]), None);
    assert_eq!(build_http_request(&hook, false, false, vec![]), None);
    assert_eq!(
        build_http_request(&hook, true, true, vec![1, 2]),
        Some(HttpRequest {
            method: "PATCH".to_string(),
            url: "http://host/path".to_string(),
            headers: vec![header("Content-Type", "application/json"), header("Authorization", "token")],
            body: vec![1, 2],
        })
    );
    assert_eq!(
        build_http_request(&hook, true, false, vec![]),
        Some(HttpRequest {
            method: "PATCH".to_string(),
            url: "http://host/path".to_string(),
            headers: vec![header("Content-Type", "application/json")],
            body: vec![],
        })
    );
}

#[test]
fn the_records_of_an_occurrence_can_be_copied() {
    let hook = bitcoin_hook(HookAction::Noop);
    let (tx, block) = (bitcoin_tx("0xa"), block_id(1));
    let trigger = BitcoinTriggerChainhook {
        chainhook: &hook,
        apply: vec![(&tx, &block)],
        rollback: vec![(&tx, &block)],
    };
    match handle_bitcoin_hook_action(trigger, &proofs()) {
        Some(BitcoinChainhookOccurrence::Data(payload)) => {
            let copy = payload.clone();
            assert_eq!(copy.apply[0].transaction, payload.apply[0].transaction);
            assert_eq!(copy.apply[0].clone().proof, payload.apply[0].proof);
            assert_eq!(copy.rollback[0].clone().block_identifier, block);
            assert_eq!(copy.chainhook.uuid, "hook-1");
        }
        other => panic!("data was expected, not {:?}", other),
    }
    let hook = stacks_hook(HookAction::Noop);
    let (tx, block) = (stacks_tx("0xa"), block_id(1));
    let trigger = StacksTriggerChainhook {
        chainhook: &hook,
        apply: vec![(&tx, &block)],
        rollback: vec![(&tx, &block)],
    };
    match handle_stacks_hook_action(trigger, &proofs()) {
        Some(StacksChainhookOccurrence::Data(payload)) => {
            let copy = payload.clone();
            assert_eq!(copy.apply[0].clone().transaction, tx);
            assert_eq!(copy.rollback[0].clone().transaction, tx);
            assert_eq!(copy.chainhook.uuid, "hook-2");
        }
        other => panic!("data was expected, not {:?}", other),
    }
}

#[test]
fn a_well_formed_hook_passes_validation() {
    assert_eq!(bitcoin_hook(HookAction::Noop).validate(), Ok(()));
    assert_eq!(bitcoin_hook(http("POST")).validate(), Ok(()));
    assert_eq!(
        bitcoin_hook(HookAction::File(FileHook { path: String::new() })).validate(),
        Ok(())
    );
    assert_eq!(stacks_hook(HookAction::Noop).validate(), Ok(()));
    assert_eq!(stacks_hook(http("GET")).validate(), Ok(()));
    let mut hook = bitcoin_hook(http("POST"));
    hook.predicate.kind = BitcoinPredicateType::P2pkh(chainhooks::types::MatchingRule::Equals(
        "1A1zP1eP5QGefi2DMPTfTL5SLmv7DivfNa".to_string(),
    ));
    assert_eq!(hook.validate(), Ok(()));
    hook.predicate.kind = BitcoinPredicateType::P2wpkh(chainhooks::types::MatchingRule::Equals(
        "not looked at".to_string(),
    ));
    assert_eq!(hook.validate(), Ok(()));
}

#[test]
fn a_malformed_hook_is_turned_away_with_its_identifier_and_field() {
    let method = HookConfigurationError {
        uuid: "hook-1".to_string(),
        field: MalformedField::ActionMethod,
    };
    assert_eq!(bitcoin_hook(http("NOT A METHOD")).validate(), Err(method.clone()));
    assert_eq!(
        stacks_hook(http("")).validate(),
        Err(HookConfigurationError { uuid: "hook-2".to_string(), field: MalformedField::ActionMethod })
    );
    let address = HookConfigurationError {
        uuid: "hook-1".to_string(),
        field: MalformedField::PredicateAddress,
    };
    for malformed in ["", "0OIl", "1111", "é"] {
        let mut hook = bitcoin_hook(http("NOT A METHOD"));
        hook.predicate.kind = BitcoinPredicateType::P2pkh(chainhooks::types::MatchingRule::Equals(
            malformed.to_string(),
        ));
        assert_eq!(hook.validate(), Err(address.clone()));
        hook.predicate.kind = BitcoinPredicateType::P2sh(chainhooks::types::MatchingRule::Equals(
            malformed.to_string(),
        ));
        assert_eq!(hook.validate(), Err(address.clone()));
    }
    assert_eq!(method.message(), "hook hook-1: the method of the HTTP action is malformed");
    assert_eq!(address.message(), "hook hook-1: the address of the predicate is malformed");
}

#[test]
fn a_validated_hook_is_always_dispatched() {
    for action in [http("POST"), HookAction::Noop, HookAction::File(FileHook { path: "p".to_string() })] {
        let hook = bitcoin_hook(action.clone());
        assert_eq!(hook.validate(), Ok(()));
        let trigger = BitcoinTriggerChainhook { chainhook: &hook, apply: vec![], rollback: vec![] };
        assert!(handle_bitcoin_hook_action(trigger, &proofs()).is_some());
        let hook = stacks_hook(action);
        assert_eq!(hook.validate(), Ok(()));
        let trigger = StacksTriggerChainhook { chainhook: &hook, apply: vec![], rollback: vec![] };
        assert!(handle_stacks_hook_action(trigger, &proofs()).is_some());
    }
}
