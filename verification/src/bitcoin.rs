//! Evaluation of hooks of the UTXO chain.
use vstd::prelude::*;
use crate::chain::{
    BitcoinBlockData, BitcoinChainEvent, BitcoinTransactionData, BlockIdentifier,
};
use crate::script::{p2pkh_script_hex, p2pkh_script_hex_of, p2sh_script_hex, p2sh_script_hex_of};
use crate::text::{ends_with, starts_with};
use crate::types::{BitcoinChainhookSpecification, BitcoinPredicateType, MatchingRule};

verus! {

/// Whether some output of the transaction has exactly this script.
pub open spec fn some_output_equals(tx: BitcoinTransactionData, script: Seq<char>) -> bool {
    exists|i: int|
        0 <= i < tx.metadata.outputs@.len() && (#[trigger] tx.metadata.outputs@[i]).script_pubkey@
            == script
}

/// Whether the script of some output of the transaction begins with this text.
pub open spec fn some_output_starts_with(tx: BitcoinTransactionData, prefix: Seq<char>) -> bool {
    exists|i: int|
        0 <= i < tx.metadata.outputs@.len() && prefix.is_prefix_of(
            (#[trigger] tx.metadata.outputs@[i]).script_pubkey@,
        )
}

/// Whether the script of some output of the transaction ends with this text.
pub open spec fn some_output_ends_with(tx: BitcoinTransactionData, suffix: Seq<char>) -> bool {
    exists|i: int|
        0 <= i < tx.metadata.outputs@.len() && suffix.is_suffix_of(
            (#[trigger] tx.metadata.outputs@[i]).script_pubkey@,
        )
}

/// Whether a transaction matches a predicate of the UTXO chain.
///
/// An address is matched by its rebuilt locking script, and only for equality.
/// The witness variants and script templates match nothing.
pub open spec fn bitcoin_predicate_matches(
    kind: BitcoinPredicateType,
    tx: BitcoinTransactionData,
) -> bool {
    match kind {
        BitcoinPredicateType::TransactionIdentifierHash(txid) => tx.transaction_identifier.hash@
            == txid@,
        BitcoinPredicateType::Hex(MatchingRule::Equals(hex)) => some_output_equals(tx, hex@),
        BitcoinPredicateType::Hex(MatchingRule::StartsWith(hex)) => some_output_starts_with(
            tx,
            hex@,
        ),
        BitcoinPredicateType::Hex(MatchingRule::EndsWith(hex)) => some_output_ends_with(tx, hex@),
        BitcoinPredicateType::P2pkh(MatchingRule::Equals(address)) => match p2pkh_script_hex(
            address@,
        ) {
            Some(script) => some_output_equals(tx, script),
            None => false,
        },
        BitcoinPredicateType::P2sh(MatchingRule::Equals(address)) => match p2sh_script_hex(
            address@,
        ) {
            Some(script) => some_output_equals(tx, script),
            None => false,
        },
        _ => false,
    }
}

/// Whether a predicate of the UTXO chain is one that is not implemented: an
/// address that is not matched for equality, a witness variant or a script
/// template. Such a predicate matches nothing.
pub open spec fn bitcoin_predicate_is_unimplemented(kind: BitcoinPredicateType) -> bool {
    match kind {
        BitcoinPredicateType::TransactionIdentifierHash(_) => false,
        BitcoinPredicateType::Hex(_) => false,
        BitcoinPredicateType::P2pkh(MatchingRule::Equals(_)) => false,
        BitcoinPredicateType::P2sh(MatchingRule::Equals(_)) => false,
        _ => true,
    }
}

impl BitcoinPredicateType {
    /// Whether the predicate is one that is not implemented, so that a caller
    /// can report it.
    pub fn is_unimplemented(&self) -> (unimplemented: bool)
        ensures
            unimplemented == bitcoin_predicate_is_unimplemented(*self),
    {
        match self {
            BitcoinPredicateType::TransactionIdentifierHash(_) => false,
            BitcoinPredicateType::Hex(_) => false,
            BitcoinPredicateType::P2pkh(MatchingRule::Equals(_)) => false,
            BitcoinPredicateType::P2sh(MatchingRule::Equals(_)) => false,
            _ => true,
        }
    }
}

/// A transaction that matched, with the identifier of its block.
pub type BitcoinMatch = (BitcoinTransactionData, BlockIdentifier);

/// The matches of a hook among the first `count` transactions of a block, in
/// the order of the block.
pub open spec fn bitcoin_block_matches(
    hook: BitcoinChainhookSpecification,
    block: BitcoinBlockData,
    count: int,
) -> Seq<BitcoinMatch>
    decreases count,
{
    if count <= 0 {
        Seq::empty()
    } else {
        let before = bitcoin_block_matches(hook, block, count - 1);
        let tx = block.transactions@[count - 1];
        if hook.matches(tx) {
            before.push((tx, block.block_identifier))
        } else {
            before
        }
    }
}

/// The matches of a hook in the first `count` blocks, block after block, and
/// in each block in the order of its transactions.
pub open spec fn bitcoin_blocks_matches(
    hook: BitcoinChainhookSpecification,
    blocks: Seq<BitcoinBlockData>,
    count: int,
) -> Seq<BitcoinMatch>
    decreases count,
{
    if count <= 0 {
        Seq::empty()
    } else {
        bitcoin_blocks_matches(hook, blocks, count - 1) + bitcoin_block_matches(
            hook,
            blocks[count - 1],
            blocks[count - 1].transactions@.len() as int,
        )
    }
}

/// The blocks that an event confirms, in their order.
pub open spec fn bitcoin_blocks_to_apply(event: BitcoinChainEvent) -> Seq<BitcoinBlockData> {
    match event {
        BitcoinChainEvent::ChainUpdatedWithBlocks(update) => update.new_blocks@,
        BitcoinChainEvent::ChainUpdatedWithReorg(update) => update.blocks_to_apply@,
    }
}

/// The blocks that an event retracts, in their order. New blocks retract
/// nothing.
pub open spec fn bitcoin_blocks_to_rollback(event: BitcoinChainEvent) -> Seq<BitcoinBlockData> {
    match event {
        BitcoinChainEvent::ChainUpdatedWithBlocks(update) => Seq::empty(),
        BitcoinChainEvent::ChainUpdatedWithReorg(update) => update.blocks_to_rollback@,
    }
}

/// The transactions that an event confirms and that match the hook.
pub open spec fn bitcoin_apply_matches(
    hook: BitcoinChainhookSpecification,
    event: BitcoinChainEvent,
) -> Seq<BitcoinMatch> {
    bitcoin_blocks_matches(
        hook,
        bitcoin_blocks_to_apply(event),
        bitcoin_blocks_to_apply(event).len() as int,
    )
}

/// The transactions that an event retracts and that match the hook.
pub open spec fn bitcoin_rollback_matches(
    hook: BitcoinChainhookSpecification,
    event: BitcoinChainEvent,
) -> Seq<BitcoinMatch> {
    bitcoin_blocks_matches(
        hook,
        bitcoin_blocks_to_rollback(event),
        bitcoin_blocks_to_rollback(event).len() as int,
    )
}

/// What a trigger of the UTXO chain holds, as mathematical values.
pub struct BitcoinTrigger {
    pub chainhook: BitcoinChainhookSpecification,
    pub apply: Seq<BitcoinMatch>,
    pub rollback: Seq<BitcoinMatch>,
}

/// The trigger of one hook for an event.
pub open spec fn bitcoin_trigger(
    hook: BitcoinChainhookSpecification,
    event: BitcoinChainEvent,
) -> BitcoinTrigger {
    BitcoinTrigger {
        chainhook: hook,
        apply: bitcoin_apply_matches(hook, event),
        rollback: bitcoin_rollback_matches(hook, event),
    }
}

/// Whether a hook is triggered by an event: it has a match in what the event
/// confirms or in what it retracts.
pub open spec fn bitcoin_hook_is_triggered(
    hook: BitcoinChainhookSpecification,
    event: BitcoinChainEvent,
) -> bool {
    bitcoin_apply_matches(hook, event).len() > 0 || bitcoin_rollback_matches(hook, event).len() > 0
}

/// The triggers of the first `count` hooks for an event: one for each hook
/// with a match, in the order of the hooks.
pub open spec fn bitcoin_triggers(
    event: BitcoinChainEvent,
    hooks: Seq<&BitcoinChainhookSpecification>,
    count: int,
) -> Seq<BitcoinTrigger>
    decreases count,
{
    if count <= 0 {
        Seq::empty()
    } else {
        let before = bitcoin_triggers(event, hooks, count - 1);
        if bitcoin_hook_is_triggered(*hooks[count - 1], event) {
            before.push(bitcoin_trigger(*hooks[count - 1], event))
        } else {
            before
        }
    }
}

/// The matches that a list of borrowed pairs holds.
pub open spec fn bitcoin_matches_of(
    entries: Seq<(&BitcoinTransactionData, &BlockIdentifier)>,
) -> Seq<BitcoinMatch> {
    entries.map_values(|entry: (&BitcoinTransactionData, &BlockIdentifier)| (*entry.0, *entry.1))
}

/// The matches of one hook for one event: the transactions to apply and to
/// roll back, each with the identifier of its block. It borrows from the hook
/// and from the event.
pub struct BitcoinTriggerChainhook<'a> {
    pub chainhook: &'a BitcoinChainhookSpecification,
    pub apply: Vec<(&'a BitcoinTransactionData, &'a BlockIdentifier)>,
    pub rollback: Vec<(&'a BitcoinTransactionData, &'a BlockIdentifier)>,
}

impl<'a> View for BitcoinTriggerChainhook<'a> {
    type V = BitcoinTrigger;

    open spec fn view(&self) -> BitcoinTrigger {
        BitcoinTrigger {
            chainhook: *self.chainhook,
            apply: bitcoin_matches_of(self.apply@),
            rollback: bitcoin_matches_of(self.rollback@),
        }
    }
}

/// What a list of triggers holds.
pub open spec fn bitcoin_trigger_views(triggers: Seq<BitcoinTriggerChainhook>) -> Seq<
    BitcoinTrigger,
> {
    triggers.map_values(|trigger: BitcoinTriggerChainhook| trigger@)
}

impl BitcoinChainhookSpecification {
    /// Whether a transaction matches the predicate of this hook.
    pub open spec fn matches(&self, tx: BitcoinTransactionData) -> bool {
        bitcoin_predicate_matches(self.predicate.kind, tx)
    }

    /// Evaluates the predicate of this hook on one transaction.
    pub fn evaluate_transaction_predicate(&self, tx: &BitcoinTransactionData) -> (matched: bool)
        ensures
            matched == self.matches(*tx),
    {
        match &self.predicate.kind {
            BitcoinPredicateType::TransactionIdentifierHash(txid) => {
                tx.transaction_identifier.hash == *txid
            },
            BitcoinPredicateType::Hex(MatchingRule::Equals(hex)) => output_equals(tx, hex),
            BitcoinPredicateType::Hex(MatchingRule::StartsWith(hex)) => output_starts_with(
                tx,
                hex,
            ),
            BitcoinPredicateType::Hex(MatchingRule::EndsWith(hex)) => output_ends_with(tx, hex),
            BitcoinPredicateType::P2pkh(MatchingRule::Equals(address)) => {
                match p2pkh_script_hex_of(address.as_str()) {
                    Some(script) => output_equals(tx, &script),
                    None => false,
                }
            },
            BitcoinPredicateType::P2sh(MatchingRule::Equals(address)) => {
                match p2sh_script_hex_of(address.as_str()) {
                    Some(script) => output_equals(tx, &script),
                    None => false,
                }
            },
            _ => false,
        }
    }
}

/// Whether some output of the transaction has exactly this script.
fn output_equals(tx: &BitcoinTransactionData, script: &String) -> (found: bool)
    ensures
        found == some_output_equals(*tx, script@),
{
    let mut i: usize = 0;
    while i < tx.metadata.outputs.len()
        invariant
            0 <= i <= tx.metadata.outputs@.len(),
            forall|k: int|
                0 <= k < i ==> (#[trigger] tx.metadata.outputs@[k]).script_pubkey@ != script@,
        decreases tx.metadata.outputs@.len() - i,
    {
        if tx.metadata.outputs[i].script_pubkey == *script {
            assert(tx.metadata.outputs@[i as int].script_pubkey@ == script@);
            return true;
        }
        i += 1;
    }
    false
}

/// Whether the script of some output of the transaction begins with this text.
fn output_starts_with(tx: &BitcoinTransactionData, prefix: &String) -> (found: bool)
    ensures
        found == some_output_starts_with(*tx, prefix@),
{
    let mut i: usize = 0;
    while i < tx.metadata.outputs.len()
        invariant
            0 <= i <= tx.metadata.outputs@.len(),
            forall|k: int|
                0 <= k < i ==> !prefix@.is_prefix_of(
                    (#[trigger] tx.metadata.outputs@[k]).script_pubkey@,
                ),
        decreases tx.metadata.outputs@.len() - i,
    {
        if starts_with(tx.metadata.outputs[i].script_pubkey.as_str(), prefix.as_str()) {
            assert(prefix@.is_prefix_of(tx.metadata.outputs@[i as int].script_pubkey@));
            return true;
        }
        i += 1;
    }
    false
}

/// Whether the script of some output of the transaction ends with this text.
fn output_ends_with(tx: &BitcoinTransactionData, suffix: &String) -> (found: bool)
    ensures
        found == some_output_ends_with(*tx, suffix@),
{
    let mut i: usize = 0;
    while i < tx.metadata.outputs.len()
        invariant
            0 <= i <= tx.metadata.outputs@.len(),
            forall|k: int|
                0 <= k < i ==> !suffix@.is_suffix_of(
                    (#[trigger] tx.metadata.outputs@[k]).script_pubkey@,
                ),
        decreases tx.metadata.outputs@.len() - i,
    {
        if ends_with(tx.metadata.outputs[i].script_pubkey.as_str(), suffix.as_str()) {
            assert(suffix@.is_suffix_of(tx.metadata.outputs@[i as int].script_pubkey@));
            return true;
        }
        i += 1;
    }
    false
}

/// The transactions of the blocks that match the hook, each with the
/// identifier of its block.
fn collect_bitcoin_matches<'a>(
    hook: &'a BitcoinChainhookSpecification,
    blocks: &'a Vec<BitcoinBlockData>,
) -> (matches: Vec<(&'a BitcoinTransactionData, &'a BlockIdentifier)>)
    ensures
        bitcoin_matches_of(matches@) == bitcoin_blocks_matches(*hook, blocks@, blocks@.len() as int),
{
    let mut matches: Vec<(&'a BitcoinTransactionData, &'a BlockIdentifier)> = Vec::new();
    let mut b: usize = 0;
    assert(bitcoin_matches_of(matches@) =~= Seq::empty());
    while b < blocks.len()
        invariant
            0 <= b <= blocks@.len(),
            bitcoin_matches_of(matches@) == bitcoin_blocks_matches(*hook, blocks@, b as int),
        decreases blocks@.len() - b,
    {
        let block = &blocks[b];
        let ghost before = bitcoin_matches_of(matches@);
        let mut t: usize = 0;
        assert(before + bitcoin_block_matches(*hook, *block, 0) =~= before);
        while t < block.transactions.len()
            invariant
                0 <= t <= block.transactions@.len(),
                bitcoin_matches_of(matches@) == before + bitcoin_block_matches(
                    *hook,
                    *block,
                    t as int,
                ),
            decreases block.transactions@.len() - t,
        {
            let tx = &block.transactions[t];
            let ghost old_matches = matches@;
            if hook.evaluate_transaction_predicate(tx) {
                matches.push((tx, &block.block_identifier));
                assert(bitcoin_matches_of(matches@) =~= bitcoin_matches_of(old_matches).push(
                    (*tx, block.block_identifier),
                ));
                assert(before + bitcoin_block_matches(*hook, *block, t as int).push(
                    (*tx, block.block_identifier),
                ) =~= (before + bitcoin_block_matches(*hook, *block, t as int)).push(
                    (*tx, block.block_identifier),
                ));
            }
            t += 1;
        }
        b += 1;
    }
    matches
}

/// Evaluates the hooks on an event of the UTXO chain.
///
/// Every transaction of every block of the event is held against every hook.
/// The result has one trigger for each hook with a match, in the order of the
/// hooks; its entries stand in the order of the blocks, and within a block in
/// the order of its transactions.
pub fn evaluate_bitcoin_chainhooks_on_chain_event<'a>(
    chain_event: &'a BitcoinChainEvent,
    active_chainhooks: Vec<&'a BitcoinChainhookSpecification>,
) -> (triggered_chainhooks: Vec<BitcoinTriggerChainhook<'a>>)
    ensures
        bitcoin_trigger_views(triggered_chainhooks@) == bitcoin_triggers(
            *chain_event,
            active_chainhooks@,
            active_chainhooks@.len() as int,
        ),
{
    let mut triggered_chainhooks: Vec<BitcoinTriggerChainhook<'a>> = Vec::new();
    let mut h: usize = 0;
    assert(bitcoin_trigger_views(triggered_chainhooks@) =~= Seq::empty());
    while h < active_chainhooks.len()
        invariant
            0 <= h <= active_chainhooks@.len(),
            bitcoin_trigger_views(triggered_chainhooks@) == bitcoin_triggers(
                *chain_event,
                active_chainhooks@,
                h as int,
            ),
        decreases active_chainhooks@.len() - h,
    {
        let chainhook: &'a BitcoinChainhookSpecification = active_chainhooks[h];
        let (apply, rollback) = match chain_event {
            BitcoinChainEvent::ChainUpdatedWithBlocks(event) => {
                let apply = collect_bitcoin_matches(chainhook, &event.new_blocks);
                let rollback: Vec<(&'a BitcoinTransactionData, &'a BlockIdentifier)> = Vec::new();
                assert(bitcoin_matches_of(rollback@) =~= Seq::empty());
                (apply, rollback)
            },
            BitcoinChainEvent::ChainUpdatedWithReorg(event) => {
                let apply = collect_bitcoin_matches(chainhook, &event.blocks_to_apply);
                let rollback = collect_bitcoin_matches(chainhook, &event.blocks_to_rollback);
                (apply, rollback)
            },
        };
        if !apply.is_empty() || !rollback.is_empty() {
            let ghost old_triggers = triggered_chainhooks@;
            let trigger = BitcoinTriggerChainhook { chainhook, apply, rollback };
            assert(trigger@ == bitcoin_trigger(*chainhook, *chain_event));
            triggered_chainhooks.push(trigger);
            assert(bitcoin_trigger_views(triggered_chainhooks@) =~= bitcoin_trigger_views(
                old_triggers,
            ).push(trigger@));
        }
        h += 1;
    }
    triggered_chainhooks
}

} // verus!
