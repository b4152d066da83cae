//! Evaluation of hooks of the contract chain.
use vstd::prelude::*;
use crate::chain::{
    BlockIdentifier, StacksBlockData, StacksBlockUpdate, StacksChainEvent, StacksMicroblockData,
    StacksTransactionData, StacksTransactionEvent, StacksTransactionKind,
};
use crate::text::starts_with;
use crate::types::{
    StacksChainhookSpecification, StacksContractDeploymentPredicate,
    StacksTransactionFilterPredicate,
};

verus! {

/// Whether a list of actions names the given action.
pub open spec fn actions_contain(actions: Seq<String>, action: Seq<char>) -> bool {
    exists|i: int| 0 <= i < actions.len() && (#[trigger] actions[i])@ == action
}

/// Whether an event is one of the expected events of a fungible token.
pub open spec fn is_expected_ft_event(
    event: StacksTransactionEvent,
    mint: bool,
    transfer: bool,
    burn: bool,
) -> bool {
    match event {
        StacksTransactionEvent::FTMintEvent(_) => mint,
        StacksTransactionEvent::FTTransferEvent(_) => transfer,
        StacksTransactionEvent::FTBurnEvent(_) => burn,
        _ => false,
    }
}

/// Whether an event is one of the expected events of a non-fungible token.
pub open spec fn is_expected_nft_event(
    event: StacksTransactionEvent,
    mint: bool,
    transfer: bool,
    burn: bool,
) -> bool {
    match event {
        StacksTransactionEvent::NFTMintEvent(_) => mint,
        StacksTransactionEvent::NFTTransferEvent(_) => transfer,
        StacksTransactionEvent::NFTBurnEvent(_) => burn,
        _ => false,
    }
}

/// Whether an event is one of the expected events of the native token.
pub open spec fn is_expected_stx_event(
    event: StacksTransactionEvent,
    mint: bool,
    transfer: bool,
    lock: bool,
) -> bool {
    match event {
        StacksTransactionEvent::STXMintEvent(_) => mint,
        StacksTransactionEvent::STXTransferEvent(_) => transfer,
        StacksTransactionEvent::STXLockEvent(_) => lock,
        _ => false,
    }
}

/// Whether an event is a print event of the given contract.
pub open spec fn is_print_event_of(event: StacksTransactionEvent, contract: Seq<char>) -> bool {
    match event {
        StacksTransactionEvent::SmartContractEvent(actual) => actual.contract_identifier@
            == contract,
        _ => false,
    }
}

/// Whether a transaction matches a predicate of the contract chain.
///
/// A deployment is matched by a prefix of the identifier of the deployed
/// contract, a call by the exact contract and method, a token predicate by an
/// event of one of the named actions, a print predicate by the emitting
/// contract. A predicate on a declared trait matches nothing.
pub open spec fn stacks_predicate_matches(
    predicate: StacksTransactionFilterPredicate,
    tx: StacksTransactionData,
) -> bool {
    let events = tx.metadata.receipt.events@;
    match predicate {
        StacksTransactionFilterPredicate::ContractDeployment(
            StacksContractDeploymentPredicate::Principal(deployer),
        ) => match tx.metadata.kind {
            StacksTransactionKind::ContractDeployment(actual) => deployer@.is_prefix_of(
                actual.contract_identifier@,
            ),
            _ => false,
        },
        StacksTransactionFilterPredicate::ContractDeployment(
            StacksContractDeploymentPredicate::Trait(_),
        ) => false,
        StacksTransactionFilterPredicate::ContractCall(expected) => match tx.metadata.kind {
            StacksTransactionKind::ContractCall(actual) => actual.contract_identifier@
                == expected.contract_identifier@ && actual.method@ == expected.method@,
            _ => false,
        },
        StacksTransactionFilterPredicate::FtEvent(expected) => exists|i: int|
            0 <= i < events.len() && is_expected_ft_event(
                #[trigger] events[i],
                actions_contain(expected.actions@, "mint"@),
                actions_contain(expected.actions@, "transfer"@),
                actions_contain(expected.actions@, "burn"@),
            ),
        StacksTransactionFilterPredicate::NftEvent(expected) => exists|i: int|
            0 <= i < events.len() && is_expected_nft_event(
                #[trigger] events[i],
                actions_contain(expected.actions@, "mint"@),
                actions_contain(expected.actions@, "transfer"@),
                actions_contain(expected.actions@, "burn"@),
            ),
        StacksTransactionFilterPredicate::StxEvent(expected) => exists|i: int|
            0 <= i < events.len() && is_expected_stx_event(
                #[trigger] events[i],
                actions_contain(expected.actions@, "mint"@),
                actions_contain(expected.actions@, "transfer"@),
                actions_contain(expected.actions@, "lock"@),
            ),
        StacksTransactionFilterPredicate::PrintEvent(expected) => exists|i: int|
            0 <= i < events.len() && is_print_event_of(
                #[trigger] events[i],
                expected.contract_identifier@,
            ),
        StacksTransactionFilterPredicate::TransactionIdentifierHash(txid) => txid@
            == tx.transaction_identifier.hash@,
    }
}

/// Whether a predicate of the contract chain is one that is not implemented:
/// a predicate on a declared trait. Such a predicate matches nothing.
pub open spec fn stacks_predicate_is_unimplemented(
    predicate: StacksTransactionFilterPredicate,
) -> bool {
    predicate matches StacksTransactionFilterPredicate::ContractDeployment(
        StacksContractDeploymentPredicate::Trait(_),
    )
}

impl StacksTransactionFilterPredicate {
    /// Whether the predicate is one that is not implemented, so that a caller
    /// can report it.
    pub fn is_unimplemented(&self) -> (unimplemented: bool)
        ensures
            unimplemented == stacks_predicate_is_unimplemented(*self),
    {
        match self {
            StacksTransactionFilterPredicate::ContractDeployment(
                StacksContractDeploymentPredicate::Trait(_),
            ) => true,
            _ => false,
        }
    }
}

impl StacksChainhookSpecification {
    /// Whether a transaction matches the predicate of this hook.
    pub open spec fn matches(&self, tx: StacksTransactionData) -> bool {
        stacks_predicate_matches(self.transaction_predicate, tx)
    }
}

/// Whether a list of actions names the given action.
fn contains_action(actions: &Vec<String>, action: &str) -> (found: bool)
    ensures
        found == actions_contain(actions@, action@),
{
    let wanted = action.to_owned();
    let mut i: usize = 0;
    while i < actions.len()
        invariant
            0 <= i <= actions@.len(),
            wanted@ == action@,
            forall|k: int| 0 <= k < i ==> (#[trigger] actions@[k])@ != action@,
        decreases actions@.len() - i,
    {
        if actions[i] == wanted {
            assert(actions@[i as int]@ == action@);
            return true;
        }
        i += 1;
    }
    false
}

/// Whether some event is one of the expected events of a fungible token.
fn has_expected_ft_event(
    events: &Vec<StacksTransactionEvent>,
    mint: bool,
    transfer: bool,
    burn: bool,
) -> (found: bool)
    ensures
        found == exists|i: int|
            0 <= i < events@.len() && is_expected_ft_event(
                #[trigger] events@[i],
                mint,
                transfer,
                burn,
            ),
{
    let mut i: usize = 0;
    while i < events.len()
        invariant
            0 <= i <= events@.len(),
            forall|k: int|
                0 <= k < i ==> !is_expected_ft_event(#[trigger] events@[k], mint, transfer, burn),
        decreases events@.len() - i,
    {
        let expected = match &events[i] {
            StacksTransactionEvent::FTMintEvent(_) => mint,
            StacksTransactionEvent::FTTransferEvent(_) => transfer,
            StacksTransactionEvent::FTBurnEvent(_) => burn,
            _ => false,
        };
        if expected {
            assert(is_expected_ft_event(events@[i as int], mint, transfer, burn));
            return true;
        }
        i += 1;
    }
    false
}

/// Whether some event is one of the expected events of a non-fungible token.
fn has_expected_nft_event(
    events: &Vec<StacksTransactionEvent>,
    mint: bool,
    transfer: bool,
    burn: bool,
) -> (found: bool)
    ensures
        found == exists|i: int|
            0 <= i < events@.len() && is_expected_nft_event(
                #[trigger] events@[i],
                mint,
                transfer,
                burn,
            ),
{
    let mut i: usize = 0;
    while i < events.len()
        invariant
            0 <= i <= events@.len(),
            forall|k: int|
                0 <= k < i ==> !is_expected_nft_event(#[trigger] events@[k], mint, transfer, burn),
        decreases events@.len() - i,
    {
        let expected = match &events[i] {
            StacksTransactionEvent::NFTMintEvent(_) => mint,
            StacksTransactionEvent::NFTTransferEvent(_) => transfer,
            StacksTransactionEvent::NFTBurnEvent(_) => burn,
            _ => false,
        };
        if expected {
            assert(is_expected_nft_event(events@[i as int], mint, transfer, burn));
            return true;
        }
        i += 1;
    }
    false
}

/// Whether some event is one of the expected events of the native token.
fn has_expected_stx_event(
    events: &Vec<StacksTransactionEvent>,
    mint: bool,
    transfer: bool,
    lock: bool,
) -> (found: bool)
    ensures
        found == exists|i: int|
            0 <= i < events@.len() && is_expected_stx_event(
                #[trigger] events@[i],
                mint,
                transfer,
                lock,
            ),
{
    let mut i: usize = 0;
    while i < events.len()
        invariant
            0 <= i <= events@.len(),
            forall|k: int|
                0 <= k < i ==> !is_expected_stx_event(#[trigger] events@[k], mint, transfer, lock),
        decreases events@.len() - i,
    {
        let expected = match &events[i] {
            StacksTransactionEvent::STXMintEvent(_) => mint,
            StacksTransactionEvent::STXTransferEvent(_) => transfer,
            StacksTransactionEvent::STXLockEvent(_) => lock,
            _ => false,
        };
        if expected {
            assert(is_expected_stx_event(events@[i as int], mint, transfer, lock));
            return true;
        }
        i += 1;
    }
    false
}

/// Whether some event is a print event of the given contract.
fn has_print_event_of(events: &Vec<StacksTransactionEvent>, contract: &String) -> (found: bool)
    ensures
        found == exists|i: int|
            0 <= i < events@.len() && is_print_event_of(#[trigger] events@[i], contract@),
{
    let mut i: usize = 0;
    while i < events.len()
        invariant
            0 <= i <= events@.len(),
            forall|k: int| 0 <= k < i ==> !is_print_event_of(#[trigger] events@[k], contract@),
        decreases events@.len() - i,
    {
        let emitted = match &events[i] {
            StacksTransactionEvent::SmartContractEvent(actual) => actual.contract_identifier
                == *contract,
            _ => false,
        };
        if emitted {
            assert(is_print_event_of(events@[i as int], contract@));
            return true;
        }
        i += 1;
    }
    false
}

/// Evaluates the predicate of a hook of the contract chain on one transaction.
pub fn evaluate_stacks_transaction_predicate_on_transaction<'a>(
    transaction: &'a StacksTransactionData,
    chainhook: &'a StacksChainhookSpecification,
) -> (matched: bool)
    ensures
        matched == chainhook.matches(*transaction),
{
    let events = &transaction.metadata.receipt.events;
    match &chainhook.transaction_predicate {
        StacksTransactionFilterPredicate::ContractDeployment(
            StacksContractDeploymentPredicate::Principal(expected_deployer),
        ) => match &transaction.metadata.kind {
            StacksTransactionKind::ContractDeployment(actual_deployment) => starts_with(
                actual_deployment.contract_identifier.as_str(),
                expected_deployer.as_str(),
            ),
            _ => false,
        },
        StacksTransactionFilterPredicate::ContractDeployment(
            StacksContractDeploymentPredicate::Trait(_expected_trait),
        ) => false,
        StacksTransactionFilterPredicate::ContractCall(expected_contract_call) => {
            match &transaction.metadata.kind {
                StacksTransactionKind::ContractCall(actual_contract_call) => {
                    actual_contract_call.contract_identifier
                        == expected_contract_call.contract_identifier
                        && actual_contract_call.method == expected_contract_call.method
                },
                _ => false,
            }
        },
        StacksTransactionFilterPredicate::FtEvent(expected_event) => {
            let expecting_mint = contains_action(&expected_event.actions, "mint");
            let expecting_transfer = contains_action(&expected_event.actions, "transfer");
            let expecting_burn = contains_action(&expected_event.actions, "burn");
            has_expected_ft_event(events, expecting_mint, expecting_transfer, expecting_burn)
        },
        StacksTransactionFilterPredicate::NftEvent(expected_event) => {
            let expecting_mint = contains_action(&expected_event.actions, "mint");
            let expecting_transfer = contains_action(&expected_event.actions, "transfer");
            let expecting_burn = contains_action(&expected_event.actions, "burn");
            has_expected_nft_event(events, expecting_mint, expecting_transfer, expecting_burn)
        },
        StacksTransactionFilterPredicate::StxEvent(expected_event) => {
            let expecting_mint = contains_action(&expected_event.actions, "mint");
            let expecting_transfer = contains_action(&expected_event.actions, "transfer");
            let expecting_lock = contains_action(&expected_event.actions, "lock");
            has_expected_stx_event(events, expecting_mint, expecting_transfer, expecting_lock)
        },
        StacksTransactionFilterPredicate::PrintEvent(expected_event) => has_print_event_of(
            events,
            &expected_event.contract_identifier,
        ),
        StacksTransactionFilterPredicate::TransactionIdentifierHash(txid) => {
            *txid == transaction.transaction_identifier.hash
        },
    }
}

/// What blocks and microblocks have in common: an identifier and a list of
/// transactions.
pub trait AbstractStacksBlock {
    spec fn identifier(&self) -> BlockIdentifier;

    spec fn transaction_list(&self) -> Seq<StacksTransactionData>;

    fn get_identifier(&self) -> (identifier: &BlockIdentifier)
        ensures
            *identifier == self.identifier(),
    ;

    fn get_transactions(&self) -> (transactions: &Vec<StacksTransactionData>)
        ensures
            transactions@ == self.transaction_list(),
    ;
}

impl AbstractStacksBlock for StacksBlockData {
    open spec fn identifier(&self) -> BlockIdentifier {
        self.block_identifier
    }

    open spec fn transaction_list(&self) -> Seq<StacksTransactionData> {
        self.transactions@
    }

    fn get_identifier(&self) -> (identifier: &BlockIdentifier) {
        &self.block_identifier
    }

    fn get_transactions(&self) -> (transactions: &Vec<StacksTransactionData>) {
        &self.transactions
    }
}

impl AbstractStacksBlock for StacksMicroblockData {
    open spec fn identifier(&self) -> BlockIdentifier {
        self.block_identifier
    }

    open spec fn transaction_list(&self) -> Seq<StacksTransactionData> {
        self.transactions@
    }

    fn get_identifier(&self) -> (identifier: &BlockIdentifier) {
        &self.block_identifier
    }

    fn get_transactions(&self) -> (transactions: &Vec<StacksTransactionData>) {
        &self.transactions
    }
}

/// A transaction that matched, with the identifier of its block or microblock.
pub type StacksMatch = (StacksTransactionData, BlockIdentifier);

/// The matches of a hook among the first `count` of the transactions, in
/// their order, each with the given identifier.
pub open spec fn stacks_transactions_matches(
    hook: StacksChainhookSpecification,
    transactions: Seq<StacksTransactionData>,
    identifier: BlockIdentifier,
    count: int,
) -> Seq<StacksMatch>
    decreases count,
{
    if count <= 0 {
        Seq::empty()
    } else {
        let before = stacks_transactions_matches(hook, transactions, identifier, count - 1);
        let tx = transactions[count - 1];
        if hook.matches(tx) {
            before.push((tx, identifier))
        } else {
            before
        }
    }
}

/// The matches of a hook in one block or microblock.
pub open spec fn stacks_block_matches<B: AbstractStacksBlock>(
    hook: StacksChainhookSpecification,
    block: B,
) -> Seq<StacksMatch> {
    stacks_transactions_matches(
        hook,
        block.transaction_list(),
        block.identifier(),
        block.transaction_list().len() as int,
    )
}

/// The matches of a hook in the first `count` of the blocks, block after
/// block.
pub open spec fn stacks_blocks_matches<B: AbstractStacksBlock>(
    hook: StacksChainhookSpecification,
    blocks: Seq<B>,
    count: int,
) -> Seq<StacksMatch>
    decreases count,
{
    if count <= 0 {
        Seq::empty()
    } else {
        stacks_blocks_matches(hook, blocks, count - 1) + stacks_block_matches(
            hook,
            blocks[count - 1],
        )
    }
}

/// The matches among what the first `count` block updates confirm: for each
/// update the microblocks of the parent that come with it, then the block.
pub open spec fn stacks_updates_apply(
    hook: StacksChainhookSpecification,
    updates: Seq<StacksBlockUpdate>,
    count: int,
) -> Seq<StacksMatch>
    decreases count,
{
    if count <= 0 {
        Seq::empty()
    } else {
        let update = updates[count - 1];
        stacks_updates_apply(hook, updates, count - 1) + stacks_blocks_matches(
            hook,
            update.parent_microblocks_to_apply@,
            update.parent_microblocks_to_apply@.len() as int,
        ) + stacks_block_matches(hook, update.block)
    }
}

/// The matches among the microblocks that the first `count` new blocks
/// retract.
pub open spec fn stacks_updates_retracted_microblocks(
    hook: StacksChainhookSpecification,
    updates: Seq<StacksBlockUpdate>,
    count: int,
) -> Seq<StacksMatch>
    decreases count,
{
    if count <= 0 {
        Seq::empty()
    } else {
        let update = updates[count - 1];
        stacks_updates_retracted_microblocks(hook, updates, count - 1) + stacks_blocks_matches(
            hook,
            update.parent_microblocks_to_rollback@,
            update.parent_microblocks_to_rollback@.len() as int,
        )
    }
}

/// The matches among what the first `count` block updates of a fork that is
/// left retract: for each update the block, then the microblocks of its
/// parent that go with it.
pub open spec fn stacks_updates_rollback(
    hook: StacksChainhookSpecification,
    updates: Seq<StacksBlockUpdate>,
    count: int,
) -> Seq<StacksMatch>
    decreases count,
{
    if count <= 0 {
        Seq::empty()
    } else {
        let update = updates[count - 1];
        stacks_updates_rollback(hook, updates, count - 1) + stacks_block_matches(
            hook,
            update.block,
        ) + stacks_blocks_matches(
            hook,
            update.parent_microblocks_to_rollback@,
            update.parent_microblocks_to_rollback@.len() as int,
        )
    }
}

/// The transactions that an event confirms and that match the hook.
pub open spec fn stacks_apply_matches(
    hook: StacksChainhookSpecification,
    event: StacksChainEvent,
) -> Seq<StacksMatch> {
    match event {
        StacksChainEvent::ChainUpdatedWithBlocks(update) => stacks_updates_apply(
            hook,
            update.new_blocks@,
            update.new_blocks@.len() as int,
        ),
        StacksChainEvent::ChainUpdatedWithReorg(update) => stacks_updates_apply(
            hook,
            update.blocks_to_apply@,
            update.blocks_to_apply@.len() as int,
        ),
        StacksChainEvent::ChainUpdatedWithMicroblocks(update) => stacks_blocks_matches(
            hook,
            update.new_microblocks@,
            update.new_microblocks@.len() as int,
        ),
        StacksChainEvent::ChainUpdatedWithMicroblocksReorg(update) => stacks_blocks_matches(
            hook,
            update.microblocks_to_apply@,
            update.microblocks_to_apply@.len() as int,
        ),
    }
}

/// The transactions that an event retracts and that match the hook.
pub open spec fn stacks_rollback_matches(
    hook: StacksChainhookSpecification,
    event: StacksChainEvent,
) -> Seq<StacksMatch> {
    match event {
        StacksChainEvent::ChainUpdatedWithBlocks(update) => stacks_updates_retracted_microblocks(
            hook,
            update.new_blocks@,
            update.new_blocks@.len() as int,
        ),
        StacksChainEvent::ChainUpdatedWithReorg(update) => stacks_updates_rollback(
            hook,
            update.blocks_to_rollback@,
            update.blocks_to_rollback@.len() as int,
        ),
        StacksChainEvent::ChainUpdatedWithMicroblocks(update) => Seq::empty(),
        StacksChainEvent::ChainUpdatedWithMicroblocksReorg(update) => stacks_blocks_matches(
            hook,
            update.microblocks_to_rollback@,
            update.microblocks_to_rollback@.len() as int,
        ),
    }
}

/// What a trigger of the contract chain holds, as mathematical values.
pub struct StacksTrigger {
    pub chainhook: StacksChainhookSpecification,
    pub apply: Seq<StacksMatch>,
    pub rollback: Seq<StacksMatch>,
}

/// The trigger of one hook for an event.
pub open spec fn stacks_trigger(
    hook: StacksChainhookSpecification,
    event: StacksChainEvent,
) -> StacksTrigger {
    StacksTrigger {
        chainhook: hook,
        apply: stacks_apply_matches(hook, event),
        rollback: stacks_rollback_matches(hook, event),
    }
}

/// Whether a hook is triggered by an event: it has a match in what the event
/// confirms or in what it retracts.
pub open spec fn stacks_hook_is_triggered(
    hook: StacksChainhookSpecification,
    event: StacksChainEvent,
) -> bool {
    stacks_apply_matches(hook, event).len() > 0 || stacks_rollback_matches(hook, event).len() > 0
}

/// The triggers of the first `count` hooks for an event: one for each hook
/// with a match, in the order of the hooks.
pub open spec fn stacks_triggers(
    event: StacksChainEvent,
    hooks: Seq<&StacksChainhookSpecification>,
    count: int,
) -> Seq<StacksTrigger>
    decreases count,
{
    if count <= 0 {
        Seq::empty()
    } else {
        let before = stacks_triggers(event, hooks, count - 1);
        if stacks_hook_is_triggered(*hooks[count - 1], event) {
            before.push(stacks_trigger(*hooks[count - 1], event))
        } else {
            before
        }
    }
}

/// The matches that a list of borrowed pairs holds.
pub open spec fn stacks_matches_of(
    entries: Seq<(&StacksTransactionData, &BlockIdentifier)>,
) -> Seq<StacksMatch> {
    entries.map_values(|entry: (&StacksTransactionData, &BlockIdentifier)| (*entry.0, *entry.1))
}

/// The matches of one hook for one event: the transactions to apply and to
/// roll back, each with the identifier of its block or microblock. It borrows
/// from the hook and from the event.
pub struct StacksTriggerChainhook<'a> {
    pub chainhook: &'a StacksChainhookSpecification,
    pub apply: Vec<(&'a StacksTransactionData, &'a BlockIdentifier)>,
    pub rollback: Vec<(&'a StacksTransactionData, &'a BlockIdentifier)>,
}

impl<'a> View for StacksTriggerChainhook<'a> {
    type V = StacksTrigger;

    open spec fn view(&self) -> StacksTrigger {
        StacksTrigger {
            chainhook: *self.chainhook,
            apply: stacks_matches_of(self.apply@),
            rollback: stacks_matches_of(self.rollback@),
        }
    }
}

impl<'a> StacksTriggerChainhook<'a> {
    /// Whether the payload of this trigger carries decoded values: only where
    /// the hook asks for it.
    pub fn should_decode_clarity_value(&self) -> (decode: bool)
        ensures
            decode == (self.chainhook.decode_clarity_values == Some(true)),
    {
        match self.chainhook.decode_clarity_values {
            Some(decode) => decode,
            None => false,
        }
    }
}

/// What a list of triggers holds.
pub open spec fn stacks_trigger_views(triggers: Seq<StacksTriggerChainhook>) -> Seq<StacksTrigger> {
    triggers.map_values(|trigger: StacksTriggerChainhook| trigger@)
}

/// The blocks that a list of borrowed blocks holds.
pub open spec fn blocks_of<B: AbstractStacksBlock>(blocks: Seq<&B>) -> Seq<B> {
    blocks.map_values(|block: &B| *block)
}

/// The transactions of the given blocks or microblocks that match the hook,
/// each with the identifier of its block.
fn evaluate_stacks_chainhook_on_blocks<'a, B: AbstractStacksBlock>(
    blocks: Vec<&'a B>,
    chainhook: &'a StacksChainhookSpecification,
) -> (occurrences: Vec<(&'a StacksTransactionData, &'a BlockIdentifier)>)
    ensures
        stacks_matches_of(occurrences@) == stacks_blocks_matches(
            *chainhook,
            blocks_of(blocks@),
            blocks@.len() as int,
        ),
{
    let mut occurrences: Vec<(&'a StacksTransactionData, &'a BlockIdentifier)> = Vec::new();
    let mut b: usize = 0;
    assert(stacks_matches_of(occurrences@) =~= Seq::empty());
    while b < blocks.len()
        invariant
            0 <= b <= blocks@.len(),
            stacks_matches_of(occurrences@) == stacks_blocks_matches(
                *chainhook,
                blocks_of(blocks@),
                b as int,
            ),
        decreases blocks@.len() - b,
    {
        let block: &'a B = blocks[b];
        let transactions = block.get_transactions();
        let identifier = block.get_identifier();
        let ghost before = stacks_matches_of(occurrences@);
        let mut t: usize = 0;
        assert(before + stacks_transactions_matches(*chainhook, transactions@, *identifier, 0)
            =~= before);
        while t < transactions.len()
            invariant
                0 <= t <= transactions@.len(),
                stacks_matches_of(occurrences@) == before + stacks_transactions_matches(
                    *chainhook,
                    transactions@,
                    *identifier,
                    t as int,
                ),
            decreases transactions@.len() - t,
        {
            let tx = &transactions[t];
            let ghost old_occurrences = occurrences@;
            let ghost found = stacks_transactions_matches(
                *chainhook,
                transactions@,
                *identifier,
                t as int,
            );
            if evaluate_stacks_transaction_predicate_on_transaction(tx, chainhook) {
                occurrences.push((tx, identifier));
                assert(stacks_matches_of(occurrences@) =~= stacks_matches_of(old_occurrences).push(
                    (*tx, *identifier),
                ));
                assert(before + found.push((*tx, *identifier)) =~= (before + found).push(
                    (*tx, *identifier),
                ));
            }
            t += 1;
        }
        assert(blocks_of(blocks@)[b as int] == *block);
        b += 1;
    }
    occurrences
}

/// Appends the matches of the microblocks to the list.
fn append_microblocks_matches<'a>(
    occurrences: &mut Vec<(&'a StacksTransactionData, &'a BlockIdentifier)>,
    microblocks: &'a Vec<StacksMicroblockData>,
    chainhook: &'a StacksChainhookSpecification,
)
    ensures
        stacks_matches_of(final(occurrences)@) == stacks_matches_of(old(occurrences)@)
            + stacks_blocks_matches(*chainhook, microblocks@, microblocks@.len() as int),
{
    let ghost before = stacks_matches_of(occurrences@);
    let mut m: usize = 0;
    assert(before + stacks_blocks_matches(*chainhook, microblocks@, 0) =~= before);
    while m < microblocks.len()
        invariant
            0 <= m <= microblocks@.len(),
            stacks_matches_of(occurrences@) == before + stacks_blocks_matches(
                *chainhook,
                microblocks@,
                m as int,
            ),
        decreases microblocks@.len() - m,
    {
        let ghost so_far = stacks_blocks_matches(*chainhook, microblocks@, m as int);
        append_block_matches(occurrences, &microblocks[m], chainhook);
        assert(before + so_far + stacks_block_matches(*chainhook, microblocks@[m as int]) =~= before
            + (so_far + stacks_block_matches(*chainhook, microblocks@[m as int])));
        m += 1;
    }
}

/// Appends the matches of one block or microblock to the list.
fn append_block_matches<'a, B: AbstractStacksBlock>(
    occurrences: &mut Vec<(&'a StacksTransactionData, &'a BlockIdentifier)>,
    block: &'a B,
    chainhook: &'a StacksChainhookSpecification,
)
    ensures
        stacks_matches_of(final(occurrences)@) == stacks_matches_of(old(occurrences)@)
            + stacks_block_matches(*chainhook, *block),
{
    let ghost before = occurrences@;
    let blocks = vec![block];
    proof {
        assert(blocks@.len() == 1);
        assert(blocks_of(blocks@)[0] == *block);
        assert(stacks_blocks_matches(*chainhook, blocks_of(blocks@), 0) =~= Seq::empty());
        assert(stacks_blocks_matches(*chainhook, blocks_of(blocks@), 1) =~= stacks_block_matches(
            *chainhook,
            *block,
        ));
    }
    let mut found = evaluate_stacks_chainhook_on_blocks(blocks, chainhook);
    let ghost added = found@;
    occurrences.append(&mut found);
    assert(stacks_matches_of(occurrences@) =~= stacks_matches_of(before) + stacks_matches_of(
        added,
    ));
}

/// The matches among what an event confirms.
fn collect_stacks_apply<'a>(
    chain_event: &'a StacksChainEvent,
    chainhook: &'a StacksChainhookSpecification,
) -> (apply: Vec<(&'a StacksTransactionData, &'a BlockIdentifier)>)
    ensures
        stacks_matches_of(apply@) == stacks_apply_matches(*chainhook, *chain_event),
{
    let mut apply: Vec<(&'a StacksTransactionData, &'a BlockIdentifier)> = Vec::new();
    assert(stacks_matches_of(apply@) =~= Seq::empty());
    match chain_event {
        StacksChainEvent::ChainUpdatedWithBlocks(update) => {
            append_updates_apply(&mut apply, &update.new_blocks, chainhook);
        },
        StacksChainEvent::ChainUpdatedWithReorg(update) => {
            append_updates_apply(&mut apply, &update.blocks_to_apply, chainhook);
        },
        StacksChainEvent::ChainUpdatedWithMicroblocks(update) => {
            append_microblocks_matches(&mut apply, &update.new_microblocks, chainhook);
        },
        StacksChainEvent::ChainUpdatedWithMicroblocksReorg(update) => {
            append_microblocks_matches(&mut apply, &update.microblocks_to_apply, chainhook);
        },
    }
    assert(Seq::<StacksMatch>::empty() + stacks_apply_matches(*chainhook, *chain_event)
        =~= stacks_apply_matches(*chainhook, *chain_event));
    apply
}

/// Appends the matches among what the block updates confirm.
fn append_updates_apply<'a>(
    occurrences: &mut Vec<(&'a StacksTransactionData, &'a BlockIdentifier)>,
    updates: &'a Vec<StacksBlockUpdate>,
    chainhook: &'a StacksChainhookSpecification,
)
    ensures
        stacks_matches_of(final(occurrences)@) == stacks_matches_of(old(occurrences)@)
            + stacks_updates_apply(*chainhook, updates@, updates@.len() as int),
{
    let ghost before = stacks_matches_of(occurrences@);
    let mut u: usize = 0;
    assert(before + stacks_updates_apply(*chainhook, updates@, 0) =~= before);
    while u < updates.len()
        invariant
            0 <= u <= updates@.len(),
            stacks_matches_of(occurrences@) == before + stacks_updates_apply(
                *chainhook,
                updates@,
                u as int,
            ),
        decreases updates@.len() - u,
    {
        let update = &updates[u];
        let ghost so_far = stacks_updates_apply(*chainhook, updates@, u as int);
        let ghost parents = stacks_blocks_matches(
            *chainhook,
            update.parent_microblocks_to_apply@,
            update.parent_microblocks_to_apply@.len() as int,
        );
        let ghost own = stacks_block_matches(*chainhook, update.block);
        append_microblocks_matches(occurrences, &update.parent_microblocks_to_apply, chainhook);
        append_block_matches(occurrences, &update.block, chainhook);
        assert(before + so_far + parents + own =~= before + (so_far + parents + own));
        u += 1;
    }
}

/// Appends the matches among the microblocks that new blocks retract.
fn append_updates_retracted_microblocks<'a>(
    occurrences: &mut Vec<(&'a StacksTransactionData, &'a BlockIdentifier)>,
    updates: &'a Vec<StacksBlockUpdate>,
    chainhook: &'a StacksChainhookSpecification,
)
    ensures
        stacks_matches_of(final(occurrences)@) == stacks_matches_of(old(occurrences)@)
            + stacks_updates_retracted_microblocks(*chainhook, updates@, updates@.len() as int),
{
    let ghost before = stacks_matches_of(occurrences@);
    let mut u: usize = 0;
    assert(before + stacks_updates_retracted_microblocks(*chainhook, updates@, 0) =~= before);
    while u < updates.len()
        invariant
            0 <= u <= updates@.len(),
            stacks_matches_of(occurrences@) == before + stacks_updates_retracted_microblocks(
                *chainhook,
                updates@,
                u as int,
            ),
        decreases updates@.len() - u,
    {
        let update = &updates[u];
        let ghost so_far = stacks_updates_retracted_microblocks(*chainhook, updates@, u as int);
        let ghost parents = stacks_blocks_matches(
            *chainhook,
            update.parent_microblocks_to_rollback@,
            update.parent_microblocks_to_rollback@.len() as int,
        );
        append_microblocks_matches(occurrences, &update.parent_microblocks_to_rollback, chainhook);
        assert(before + so_far + parents =~= before + (so_far + parents));
        u += 1;
    }
}

/// Appends the matches among what the block updates of a fork that is left
/// retract.
fn append_updates_rollback<'a>(
    occurrences: &mut Vec<(&'a StacksTransactionData, &'a BlockIdentifier)>,
    updates: &'a Vec<StacksBlockUpdate>,
    chainhook: &'a StacksChainhookSpecification,
)
    ensures
        stacks_matches_of(final(occurrences)@) == stacks_matches_of(old(occurrences)@)
            + stacks_updates_rollback(*chainhook, updates@, updates@.len() as int),
{
    let ghost before = stacks_matches_of(occurrences@);
    let mut u: usize = 0;
    assert(before + stacks_updates_rollback(*chainhook, updates@, 0) =~= before);
    while u < updates.len()
        invariant
            0 <= u <= updates@.len(),
            stacks_matches_of(occurrences@) == before + stacks_updates_rollback(
                *chainhook,
                updates@,
                u as int,
            ),
        decreases updates@.len() - u,
    {
        let update = &updates[u];
        let ghost so_far = stacks_updates_rollback(*chainhook, updates@, u as int);
        let ghost parents = stacks_blocks_matches(
            *chainhook,
            update.parent_microblocks_to_rollback@,
            update.parent_microblocks_to_rollback@.len() as int,
        );
        let ghost own = stacks_block_matches(*chainhook, update.block);
        append_block_matches(occurrences, &update.block, chainhook);
        append_microblocks_matches(occurrences, &update.parent_microblocks_to_rollback, chainhook);
        assert(before + so_far + own + parents =~= before + (so_far + own + parents));
        u += 1;
    }
}

/// The matches among what an event retracts.
fn collect_stacks_rollback<'a>(
    chain_event: &'a StacksChainEvent,
    chainhook: &'a StacksChainhookSpecification,
) -> (rollback: Vec<(&'a StacksTransactionData, &'a BlockIdentifier)>)
    ensures
        stacks_matches_of(rollback@) == stacks_rollback_matches(*chainhook, *chain_event),
{
    let mut rollback: Vec<(&'a StacksTransactionData, &'a BlockIdentifier)> = Vec::new();
    assert(stacks_matches_of(rollback@) =~= Seq::empty());
    match chain_event {
        StacksChainEvent::ChainUpdatedWithBlocks(update) => {
            append_updates_retracted_microblocks(&mut rollback, &update.new_blocks, chainhook);
        },
        StacksChainEvent::ChainUpdatedWithReorg(update) => {
            append_updates_rollback(&mut rollback, &update.blocks_to_rollback, chainhook);
        },
        StacksChainEvent::ChainUpdatedWithMicroblocks(update) => {},
        StacksChainEvent::ChainUpdatedWithMicroblocksReorg(update) => {
            append_microblocks_matches(&mut rollback, &update.microblocks_to_rollback, chainhook);
        },
    }
    assert(Seq::<StacksMatch>::empty() + stacks_rollback_matches(*chainhook, *chain_event)
        =~= stacks_rollback_matches(*chainhook, *chain_event));
    rollback
}

/// Evaluates the hooks on an event of the contract chain.
///
/// Every transaction of every block and microblock of the event is held
/// against every hook. What is confirmed is scanned update after update: the
/// microblocks of the parent first, then the block. What a fork switch retracts
/// is scanned the other way round: the block first, then the microblocks of
/// its parent. The result has one trigger for each hook with a match, in the
/// order of the hooks.
pub fn evaluate_stacks_chainhooks_on_chain_event<'a>(
    chain_event: &'a StacksChainEvent,
    active_chainhooks: Vec<&'a StacksChainhookSpecification>,
) -> (triggered_chainhooks: Vec<StacksTriggerChainhook<'a>>)
    ensures
        stacks_trigger_views(triggered_chainhooks@) == stacks_triggers(
            *chain_event,
            active_chainhooks@,
            active_chainhooks@.len() as int,
        ),
{
    let mut triggered_chainhooks: Vec<StacksTriggerChainhook<'a>> = Vec::new();
    let mut h: usize = 0;
    assert(stacks_trigger_views(triggered_chainhooks@) =~= Seq::empty());
    while h < active_chainhooks.len()
        invariant
            0 <= h <= active_chainhooks@.len(),
            stacks_trigger_views(triggered_chainhooks@) == stacks_triggers(
                *chain_event,
                active_chainhooks@,
                h as int,
            ),
        decreases active_chainhooks@.len() - h,
    {
        let chainhook: &'a StacksChainhookSpecification = active_chainhooks[h];
        let apply = collect_stacks_apply(chain_event, chainhook);
        let rollback = collect_stacks_rollback(chain_event, chainhook);
        if !apply.is_empty() || !rollback.is_empty() {
            let ghost old_triggers = triggered_chainhooks@;
            let trigger = StacksTriggerChainhook { chainhook, apply, rollback };
            assert(trigger@ == stacks_trigger(*chainhook, *chain_event));
            triggered_chainhooks.push(trigger);
            assert(stacks_trigger_views(triggered_chainhooks@) =~= stacks_trigger_views(
                old_triggers,
            ).push(trigger@));
        }
        h += 1;
    }
    triggered_chainhooks
}

} // verus!
