use chainhooks::chain::{
    BlockIdentifier, FTBurnEventData, FTMintEventData, FTTransferEventData, NFTBurnEventData,
    NFTMintEventData, NFTTransferEventData, STXBurnEventData, STXLockEventData, STXMintEventData,
    STXTransferEventData, SmartContractEventData, StacksBlockData, StacksBlockUpdate,
    StacksChainEvent, StacksChainUpdatedWithBlocksData, StacksChainUpdatedWithMicroblocksData,
    StacksChainUpdatedWithMicroblocksReorgData, StacksChainUpdatedWithReorgData,
    StacksContractCallData, StacksContractDeploymentData, StacksMicroblockData,
    StacksTransactionData, StacksTransactionEvent, StacksTransactionKind,
    StacksTransactionMetadata, StacksTransactionReceipt, TransactionIdentifier,
};
use chainhooks::stacks::{
    evaluate_stacks_chainhooks_on_chain_event,
    evaluate_stacks_transaction_predicate_on_transaction, StacksTriggerChainhook,
};
use chainhooks::types::{
    HookAction, StacksChainhookSpecification, StacksContractCallBasedPredicate,
    StacksContractDeploymentPredicate, StacksFtEventBasedPredicate, StacksNftEventBasedPredicate,
    StacksPrintEventBasedPredicate, StacksStxEventBasedPredicate,
    StacksTransactionFilterPredicate,
};

fn transaction(
    hash: &str,
    kind: StacksTransactionKind,
    events: Vec<StacksTransactionEvent>,
) -> StacksTransactionData {
    StacksTransactionData {
        transaction_identifier: TransactionIdentifier { hash: hash.to_string() },
        operations: serde_json::Value::Array(vec![]),
        metadata: StacksTransactionMetadata {
            success: true,
            raw_tx: "0x00".to_string(),
            result: "0x03".to_string(),
            sender: "ST1SENDER".to_string(),
            nonce: 12,
            fee: 180,
            kind,
            receipt: StacksTransactionReceipt {
                mutated_contracts_radius: vec![],
                mutated_assets_radius: vec![],
                contract_calls_stack: vec![],
                events,
            },
            description: String::new(),
            sponsor: None,
            execution_cost: None,
            position: serde_json::Value::Null,
            proof: None,
        },
    }
}

fn call(hash: &str, contract: &str, method: &str) -> StacksTransactionData {
    transaction(
        hash,
        StacksTransactionKind::ContractCall(StacksContractCallData {
            contract_identifier: contract.to_string(),
            method: method.to_string(),
            args: vec![],
        }),
        vec![],
    )
}

fn with_events(hash: &str, events: Vec<StacksTransactionEvent>) -> StacksTransactionData {
    transaction(hash, StacksTransactionKind::NativeTokenTransfer, events)
}

fn identifier(index: u64, tag: &str) -> BlockIdentifier {
    BlockIdentifier { index, hash: format!("0x{}{}", tag, index) }
}

fn block(index: u64, transactions: Vec<StacksTransactionData>) -> StacksBlockData {
    StacksBlockData { block_identifier: identifier(index, "block"), transactions }
}

fn microblock(index: u64, transactions: Vec<StacksTransactionData>) -> StacksMicroblockData {
    StacksMicroblockData { block_identifier: identifier(index, "micro"), transactions }
}

fn update(block: StacksBlockData) -> StacksBlockUpdate {
    StacksBlockUpdate {
        block,
        parent_microblocks_to_rollback: vec![],
        parent_microblocks_to_apply: vec![],
    }
}

fn hook(uuid: &str, predicate: StacksTransactionFilterPredicate) -> StacksChainhookSpecification {
    StacksChainhookSpecification {
        uuid: uuid.to_string(),
        decode_clarity_values: None,
        transaction_predicate: predicate,
        action: HookAction::Noop,
    }
}

fn named(hash: &str) -> StacksChainhookSpecification {
    hook("named", StacksTransactionFilterPredicate::TransactionIdentifierHash(hash.to_string()))
}

fn places(entries: &[(&StacksTransactionData, &BlockIdentifier)]) -> Vec<(String, String)> {
    entries
        .iter()
        .map(|(tx, block)| (tx.transaction_identifier.hash.clone(), block.hash.clone()))
        .collect()
}

fn pair(hash: &str, block: &str) -> (String, String) {
    (hash.to_string(), block.to_string())
}

fn ft_mint() -> StacksTransactionEvent {
    StacksTransactionEvent::FTMintEvent(FTMintEventData {
        asset_class_identifier: "ST1.token::coin".to_string(),
        recipient: "ST1R".to_string(),
        amount: "10".to_string(),
    })
}

fn ft_transfer() -> StacksTransactionEvent {
    StacksTransactionEvent::FTTransferEvent(FTTransferEventData {
        asset_class_identifier: "ST1.token::coin".to_string(),
        sender: "ST1S".to_string(),
        recipient: "ST1R".to_string(),
        amount: "10".to_string(),
    })
}

fn ft_burn() -> StacksTransactionEvent {
    StacksTransactionEvent::FTBurnEvent(FTBurnEventData {
        asset_class_identifier: "ST1.token::coin".to_string(),
        sender: "ST1S".to_string(),
        amount: "10".to_string(),
    })
}

fn nft_mint() -> StacksTransactionEvent {
    StacksTransactionEvent::NFTMintEvent(NFTMintEventData {
        asset_class_identifier: "ST1.art::piece".to_string(),
        hex_asset_identifier: "0x0100000000000000000000000000000001".to_string(),
        recipient: "ST1R".to_string(),
    })
}

fn nft_transfer() -> StacksTransactionEvent {
    StacksTransactionEvent::NFTTransferEvent(NFTTransferEventData {
        asset_class_identifier: "ST1.art::piece".to_string(),
        hex_asset_identifier: "0x0100000000000000000000000000000001".to_string(),
        sender: "ST1S".to_string(),
        recipient: "ST1R".to_string(),
    })
}

fn nft_burn() -> StacksTransactionEvent {
    StacksTransactionEvent::NFTBurnEvent(NFTBurnEventData {
        asset_class_identifier: "ST1.art::piece".to_string(),
        hex_asset_identifier: "0x0100000000000000000000000000000001".to_string(),
        sender: "ST1S".to_string(),
    })
}

fn stx_mint() -> StacksTransactionEvent {
    StacksTransactionEvent::STXMintEvent(STXMintEventData {
        recipient: "ST1R".to_string(),
        amount: "10".to_string(),
    })
}

fn stx_transfer() -> StacksTransactionEvent {
    StacksTransactionEvent::STXTransferEvent(STXTransferEventData {
        sender: "ST1S".to_string(),
        recipient: "ST1R".to_string(),
        amount: "10".to_string(),
    })
}

fn stx_lock() -> StacksTransactionEvent {
    StacksTransactionEvent::STXLockEvent(STXLockEventData {
        locked_amount: "10".to_string(),
        unlock_height: "100".to_string(),
        locked_address: "ST1S".to_string(),
    })
}

fn stx_burn() -> StacksTransactionEvent {
    StacksTransactionEvent::STXBurnEvent(STXBurnEventData {
        sender: "ST1S".to_string(),
        amount: "10".to_string(),
    })
}

fn print(contract: &str) -> StacksTransactionEvent {
    StacksTransactionEvent::SmartContractEvent(SmartContractEventData {
        contract_identifier: contract.to_string(),
        topic: "print".to_string(),
        hex_value: "0x03".to_string(),
    })
}

fn actions(names: &[&str]) -> Vec<String> {
    names.iter().map(|name| name.to_string()).collect()
}

fn matches(spec: &StacksChainhookSpecification, tx: &StacksTransactionData) -> bool {
    evaluate_stacks_transaction_predicate_on_transaction(tx, spec)
}

#[test]
fn a_contract_call_hook_matches_the_exact_contract_and_method() {
    let event = StacksChainEvent::ChainUpdatedWithBlocks(StacksChainUpdatedWithBlocksData {
        new_blocks: vec![update(block(
            1,
            vec![call("0x1", "ST1.contract-x", "method-y"), call("0x2", "ST1.contract-x", "method-z")],
        ))],
    });
    let spec = hook(
        "calls",
        StacksTransactionFilterPredicate::ContractCall(StacksContractCallBasedPredicate {
            contract_identifier: "ST1.contract-x".to_string(),
            method: "method-y".to_string(),
        }),
    );
    let triggers = evaluate_stacks_chainhooks_on_chain_event(&event, vec![&spec]);
    assert_eq!(triggers.len(), 1);
    assert_eq!(places(&triggers[0].apply), vec![pair("0x1", "0xblock1")]);
    assert!(triggers[0].rollback.is_empty());
}

#[test]
fn a_reorg_with_a_mint_on_both_forks_fills_both_directions() {
    let event = StacksChainEvent::ChainUpdatedWithReorg(StacksChainUpdatedWithReorgData {
        blocks_to_rollback: vec![update(block(5, vec![with_events("0xold", vec![ft_mint()])]))],
        blocks_to_apply: vec![update(block(6, vec![with_events("0xnew", vec![ft_mint()])]))],
    });
    let spec = hook(
        "mints",
        StacksTransactionFilterPredicate::FtEvent(StacksFtEventBasedPredicate {
            asset_identifier: "ST1.token::coin".to_string(),
            actions: actions(&["mint"]),
        }),
    );
    let triggers = evaluate_stacks_chainhooks_on_chain_event(&event, vec![&spec]);
    assert_eq!(triggers.len(), 1);
    assert_eq!(places(&triggers[0].apply), vec![pair("0xnew", "0xblock6")]);
    assert_eq!(places(&triggers[0].rollback), vec![pair("0xold", "0xblock5")]);
}

#[test]
fn a_deployment_hook_matches_a_prefix_of_the_contract_identifier() {
    let deployment = transaction(
        "0x1",
        StacksTransactionKind::ContractDeployment(StacksContractDeploymentData {
            contract_identifier: "ST1DEPLOYER.counter".to_string(),
            code: "(define-public (f) (ok true))".to_string(),
        }),
        vec![],
    );
    let by = |deployer: &str| {
        hook(
            "d",
            StacksTransactionFilterPredicate::ContractDeployment(
                StacksContractDeploymentPredicate::Principal(deployer.to_string()),
            ),
        )
    };
    assert!(matches(&by("ST1DEPLOYER"), &deployment));
    assert!(matches(&by("ST1DEPLOYER.counter"), &deployment));
    assert!(matches(&by(""), &deployment));
    assert!(!matches(&by("ST2"), &deployment));
    assert!(!matches(&by("ST1DEPLOYER.counter2"), &deployment));
    assert!(!matches(&by("ST1DEPLOYER"), &call("0x2", "ST1DEPLOYER.counter", "f")));
}

#[test]
fn a_trait_hook_matches_nothing() {
    let deployment = transaction(
        "0x1",
        StacksTransactionKind::ContractDeployment(StacksContractDeploymentData {
            contract_identifier: "ST1DEPLOYER.counter".to_string(),
            code: String::new(),
        }),
        vec![],
    );
    let spec = hook(
        "t",
        StacksTransactionFilterPredicate::ContractDeployment(
            StacksContractDeploymentPredicate::Trait("ST1DEPLOYER.counter".to_string()),
        ),
    );
    assert!(!matches(&spec, &deployment));
    assert!(!matches(&spec, &call("0x2", "ST1DEPLOYER.counter", "f")));
    assert!(spec.transaction_predicate.is_unimplemented());
    assert!(!named("0x1").transaction_predicate.is_unimplemented());
    let by_principal = StacksTransactionFilterPredicate::ContractDeployment(
        StacksContractDeploymentPredicate::Principal("ST1".to_string()),
    );
    assert!(!by_principal.is_unimplemented());
}

#[test]
fn a_contract_call_hook_does_not_match_other_kinds() {
    let spec = hook(
        "calls",
        StacksTransactionFilterPredicate::ContractCall(StacksContractCallBasedPredicate {
            contract_identifier: "ST1.c".to_string(),
            method: "m".to_string(),
        }),
    );
    assert!(matches(&spec, &call("0x1", "ST1.c", "m")));
    assert!(!matches(&spec, &call("0x1", "ST1.c", "m2")));
    assert!(!matches(&spec, &call("0x1", "ST1.c2", "m")));
    assert!(!matches(&spec, &with_events("0x1", vec![print("ST1.c")])));
    assert!(!matches(&spec, &transaction("0x1", StacksTransactionKind::Coinbase, vec![])));
}

#[test]
fn a_fungible_token_hook_matches_the_named_actions() {
    let wanting = |names: &[&str]| {
        hook(
            "ft",
            StacksTransactionFilterPredicate::FtEvent(StacksFtEventBasedPredicate {
                asset_identifier: "ST1.token::coin".to_string(),
                actions: actions(names),
            }),
        )
    };
    assert!(matches(&wanting(&["mint"]), &with_events("0x1", vec![stx_mint(), ft_mint()])));
    assert!(!matches(&wanting(&["mint"]), &with_events("0x1", vec![ft_transfer(), ft_burn()])));
    assert!(matches(&wanting(&["transfer"]), &with_events("0x1", vec![ft_transfer()])));
    assert!(matches(&wanting(&["burn", "mint"]), &with_events("0x1", vec![ft_burn()])));
    assert!(!matches(&wanting(&["burn"]), &with_events("0x1", vec![nft_burn(), stx_burn()])));
    assert!(!matches(&wanting(&[]), &with_events("0x1", vec![ft_mint(), ft_transfer(), ft_burn()])));
    assert!(!matches(&wanting(&["Mint", "lock"]), &with_events("0x1", vec![ft_mint()])));
    assert!(!matches(&wanting(&["mint"]), &with_events("0x1", vec![])));
}

#[test]
fn a_non_fungible_token_hook_matches_the_named_actions() {
    let wanting = |names: &[&str]| {
        hook(
            "nft",
            StacksTransactionFilterPredicate::NftEvent(StacksNftEventBasedPredicate {
                asset_identifier: "ST1.art::piece".to_string(),
                actions: actions(names),
            }),
        )
    };
    assert!(matches(&wanting(&["mint"]), &with_events("0x1", vec![nft_mint()])));
    assert!(matches(&wanting(&["transfer"]), &with_events("0x1", vec![ft_mint(), nft_transfer()])));
    assert!(matches(&wanting(&["burn"]), &with_events("0x1", vec![nft_burn()])));
    assert!(!matches(&wanting(&["burn"]), &with_events("0x1", vec![nft_mint(), nft_transfer()])));
    assert!(!matches(&wanting(&["mint"]), &with_events("0x1", vec![ft_mint(), stx_mint()])));
}

#[test]
fn a_native_token_hook_matches_mint_transfer_and_lock() {
    let wanting = |names: &[&str]| {
        hook(
            "stx",
            StacksTransactionFilterPredicate::StxEvent(StacksStxEventBasedPredicate {
                actions: actions(names),
            }),
        )
    };
    assert!(matches(&wanting(&["mint"]), &with_events("0x1", vec![stx_mint()])));
    assert!(matches(&wanting(&["transfer"]), &with_events("0x1", vec![stx_transfer()])));
    assert!(matches(&wanting(&["lock"]), &with_events("0x1", vec![stx_lock()])));
    assert!(!matches(&wanting(&["burn"]), &with_events("0x1", vec![stx_burn()])));
    assert!(!matches(&wanting(&["lock"]), &with_events("0x1", vec![stx_mint(), stx_transfer()])));
    assert!(!matches(&wanting(&["mint"]), &with_events("0x1", vec![ft_mint(), nft_mint()])));
}

#[test]
fn a_print_hook_matches_the_emitting_contract() {
    let spec = hook(
        "print",
        StacksTransactionFilterPredicate::PrintEvent(StacksPrintEventBasedPredicate {
            contract_identifier: "ST1.logger".to_string(),
            contains: "anything".to_string(),
        }),
    );
    assert!(matches(&spec, &with_events("0x1", vec![stx_mint(), print("ST1.logger")])));
    assert!(!matches(&spec, &with_events("0x1", vec![print("ST1.logger2"), print("ST1")])));
    assert!(!matches(&spec, &with_events("0x1", vec![])));
}

#[test]
fn a_named_transaction_matches_by_its_hash() {
    assert!(matches(&named("0xfeed"), &call("0xfeed", "ST1.c", "m")));
    assert!(!matches(&named("0xfeed"), &call("0xfee", "ST1.c", "m")));
}

#[test]
fn parent_microblocks_are_scanned_before_their_block() {
    let any = || call("0xfeed", "ST1.c", "m");
    let event = StacksChainEvent::ChainUpdatedWithBlocks(StacksChainUpdatedWithBlocksData {
        new_blocks: vec![
            StacksBlockUpdate {
                block: block(1, vec![any(), call("0x0", "ST1.c", "m"), any()]),
                parent_microblocks_to_rollback: vec![microblock(90, vec![any()])],
                parent_microblocks_to_apply: vec![
                    microblock(10, vec![any()]),
                    microblock(11, vec![call("0x0", "ST1.c", "m")]),
                    microblock(12, vec![any()]),
                ],
            },
            StacksBlockUpdate {
                block: block(2, vec![any()]),
                parent_microblocks_to_rollback: vec![
                    microblock(91, vec![]),
                    microblock(92, vec![any(), any()]),
                ],
                parent_microblocks_to_apply: vec![microblock(20, vec![any()])],
            },
        ],
    });
    let spec = named("0xfeed");
    let triggers = evaluate_stacks_chainhooks_on_chain_event(&event, vec![&spec]);
    assert_eq!(triggers.len(), 1);
    assert_eq!(
        places(&triggers[0].apply),
        vec![
            pair("0xfeed", "0xmicro10"),
            pair("0xfeed", "0xmicro12"),
            pair("0xfeed", "0xblock1"),
            pair("0xfeed", "0xblock1"),
            pair("0xfeed", "0xmicro20"),
            pair("0xfeed", "0xblock2"),
        ]
    );
    assert_eq!(
        places(&triggers[0].rollback),
        vec![pair("0xfeed", "0xmicro90"), pair("0xfeed", "0xmicro92"), pair("0xfeed", "0xmicro92")]
    );
}

#[test]
fn a_reorg_retracts_a_block_before_the_microblocks_of_its_parent() {
    let any = || call("0xfeed", "ST1.c", "m");
    let event = StacksChainEvent::ChainUpdatedWithReorg(StacksChainUpdatedWithReorgData {
        blocks_to_rollback: vec![
            StacksBlockUpdate {
                block: block(1, vec![any()]),
                parent_microblocks_to_rollback: vec![
                    microblock(10, vec![any()]),
                    microblock(11, vec![any()]),
                ],
                parent_microblocks_to_apply: vec![microblock(19, vec![any()])],
            },
            StacksBlockUpdate {
                block: block(2, vec![any()]),
                parent_microblocks_to_rollback: vec![microblock(20, vec![any()])],
                parent_microblocks_to_apply: vec![],
            },
        ],
        blocks_to_apply: vec![StacksBlockUpdate {
            block: block(3, vec![any()]),
            parent_microblocks_to_rollback: vec![microblock(39, vec![any()])],
            parent_microblocks_to_apply: vec![microblock(30, vec![any()])],
        }],
    });
    let spec = named("0xfeed");
    let triggers = evaluate_stacks_chainhooks_on_chain_event(&event, vec![&spec]);
    assert_eq!(triggers.len(), 1);
    assert_eq!(
        places(&triggers[0].apply),
        vec![pair("0xfeed", "0xmicro30"), pair("0xfeed", "0xblock3")]
    );
    assert_eq!(
        places(&triggers[0].rollback),
        vec![
            pair("0xfeed", "0xblock1"),
            pair("0xfeed", "0xmicro10"),
            pair("0xfeed", "0xmicro11"),
            pair("0xfeed", "0xblock2"),
            pair("0xfeed", "0xmicro20"),
        ]
    );
}

#[test]
fn new_microblocks_only_apply() {
    let event =
        StacksChainEvent::ChainUpdatedWithMicroblocks(StacksChainUpdatedWithMicroblocksData {
            new_microblocks: vec![
                microblock(1, vec![call("0xfeed", "ST1.c", "m")]),
                microblock(2, vec![call("0x0", "ST1.c", "m"), call("0xfeed", "ST1.c", "m")]),
            ],
        });
    let spec = named("0xfeed");
    let triggers = evaluate_stacks_chainhooks_on_chain_event(&event, vec![&spec]);
    assert_eq!(triggers.len(), 1);
    assert_eq!(
        places(&triggers[0].apply),
        vec![pair("0xfeed", "0xmicro1"), pair("0xfeed", "0xmicro2")]
    );
    assert!(triggers[0].rollback.is_empty());
}

#[test]
fn a_microblock_reorg_fills_both_directions() {
    let event = StacksChainEvent::ChainUpdatedWithMicroblocksReorg(
        StacksChainUpdatedWithMicroblocksReorgData {
            microblocks_to_rollback: vec![
                microblock(1, vec![call("0xfeed", "ST1.c", "m")]),
                microblock(2, vec![call("0xfeed", "ST1.c", "m")]),
            ],
            microblocks_to_apply: vec![microblock(3, vec![call("0xfeed", "ST1.c", "m")])],
        },
    );
    let spec = named("0xfeed");
    let triggers = evaluate_stacks_chainhooks_on_chain_event(&event, vec![&spec]);
    assert_eq!(places(&triggers[0].apply), vec![pair("0xfeed", "0xmicro3")]);
    assert_eq!(
        places(&triggers[0].rollback),
        vec![pair("0xfeed", "0xmicro1"), pair("0xfeed", "0xmicro2")]
    );
}

#[test]
fn a_hook_with_matches_only_in_what_is_retracted_is_triggered() {
    let event = StacksChainEvent::ChainUpdatedWithBlocks(StacksChainUpdatedWithBlocksData {
        new_blocks: vec![StacksBlockUpdate {
            block: block(1, vec![call("0x0", "ST1.c", "m")]),
            parent_microblocks_to_rollback: vec![microblock(9, vec![call("0xfeed", "ST1.c", "m")])],
            parent_microblocks_to_apply: vec![],
        }],
    });
    let spec = named("0xfeed");
    let triggers = evaluate_stacks_chainhooks_on_chain_event(&event, vec![&spec]);
    assert_eq!(triggers.len(), 1);
    assert!(triggers[0].apply.is_empty());
    assert_eq!(places(&triggers[0].rollback), vec![pair("0xfeed", "0xmicro9")]);
}

#[test]
fn hooks_without_a_match_are_left_out_and_the_order_of_the_hooks_is_kept() {
    let event = StacksChainEvent::ChainUpdatedWithBlocks(StacksChainUpdatedWithBlocksData {
        new_blocks: vec![update(block(
            1,
            vec![call("0x1", "ST1.c", "m"), with_events("0x2", vec![print("ST1.logger")])],
        ))],
    });
    let first = named("0x2");
    let second = named("0x3");
    let third = hook(
        "third",
        StacksTransactionFilterPredicate::ContractCall(StacksContractCallBasedPredicate {
            contract_identifier: "ST1.c".to_string(),
            method: "m".to_string(),
        }),
    );
    let triggers =
        evaluate_stacks_chainhooks_on_chain_event(&event, vec![&first, &second, &third]);
    let uuids: Vec<&str> = triggers.iter().map(|t| t.chainhook.uuid.as_str()).collect();
    assert_eq!(uuids, vec!["named", "third"]);
    assert_eq!(triggers[0].chainhook.transaction_predicate, first.transaction_predicate);
    assert!(evaluate_stacks_chainhooks_on_chain_event(&event, vec![]).is_empty());
}

#[test]
fn evaluating_an_event_of_the_contract_chain_twice_gives_the_same_triggers() {
    let event = StacksChainEvent::ChainUpdatedWithReorg(StacksChainUpdatedWithReorgData {
        blocks_to_rollback: vec![update(block(5, vec![with_events("0xold", vec![ft_mint()])]))],
        blocks_to_apply: vec![update(block(6, vec![call("0xfeed", "ST1.c", "m")]))],
    });
    let one = named("0xfeed");
    let two = hook(
        "two",
        StacksTransactionFilterPredicate::FtEvent(StacksFtEventBasedPredicate {
            asset_identifier: String::new(),
            actions: actions(&["mint"]),
        }),
    );
    let first = evaluate_stacks_chainhooks_on_chain_event(&event, vec![&one, &two]);
    let second = evaluate_stacks_chainhooks_on_chain_event(&event, vec![&one, &two]);
    assert_eq!(first.len(), 2);
    assert_eq!(first.len(), second.len());
    for (a, b) in first.iter().zip(second.iter()) {
        assert_eq!(a.chainhook, b.chainhook);
        assert_eq!(a.apply, b.apply);
        assert_eq!(a.rollback, b.rollback);
    }
}

#[test]
fn decoding_is_only_done_where_the_hook_asks_for_it() {
    let mut spec = named("0x1");
    let trigger = |spec: &StacksChainhookSpecification| {
        let chainhook: &StacksChainhookSpecification = spec;
        StacksTriggerChainhook { chainhook, apply: vec![], rollback: vec![] }
            .should_decode_clarity_value()
    };
    assert!(!trigger(&spec));
    spec.decode_clarity_values = Some(false);
    assert!(!trigger(&spec));
    spec.decode_clarity_values = Some(true);
    assert!(trigger(&spec));
}
