//! What holds of the evaluation of hooks, whatever the event and the hooks.
use vstd::prelude::*;
use crate::bitcoin::{
    bitcoin_apply_matches, bitcoin_block_matches, bitcoin_blocks_matches, bitcoin_blocks_to_apply,
    bitcoin_blocks_to_rollback, bitcoin_rollback_matches, bitcoin_trigger_views, bitcoin_triggers,
    some_output_equals, BitcoinTriggerChainhook,
};
use crate::chain::{
    BitcoinBlockData, BitcoinChainEvent, BitcoinTransactionData, BlockIdentifier,
    StacksBlockUpdate, StacksChainEvent, StacksTransactionData,
};
use crate::bitcoin::{
    bitcoin_hook_is_triggered, bitcoin_predicate_is_unimplemented, bitcoin_trigger, BitcoinTrigger,
};
use crate::clarity::{
    clarity_decoding, clarity_doc, decoded_value_doc, prefixed_hex_bytes, Clarity,
};
use crate::dispatch::{
    is_bitcoin_occurrence, is_stacks_occurrence, BitcoinChainhookOccurrence,
    StacksChainhookOccurrence,
};
use crate::payload::TransactionProofs;
use crate::stacks::{
    stacks_hook_is_triggered, stacks_predicate_is_unimplemented, stacks_trigger, StacksTrigger,
};
use crate::validation::{bitcoin_hook_fault, stacks_hook_fault};
use crate::hex::{hex_text, is_hex_text};
use crate::json::Json;
use crate::script::{p2pkh_script_hex, p2sh_script_hex};
use crate::stacks::{
    stacks_apply_matches, stacks_block_matches, stacks_blocks_matches, stacks_rollback_matches,
    stacks_transactions_matches, stacks_trigger_views, stacks_triggers, stacks_updates_apply,
    stacks_updates_retracted_microblocks, stacks_updates_rollback, AbstractStacksBlock,
    StacksMatch, StacksTriggerChainhook,
};
use crate::types::{
    BitcoinChainhookSpecification, BitcoinPredicateType, MatchingRule,
    StacksChainhookSpecification, StacksTransactionFilterPredicate,
};

verus! {

/// A place in a list of blocks: the index of a block, and the index of a
/// transaction in that block.
pub type Position = (int, int);

/// Whether a place comes before another one: in an earlier block, or earlier
/// in the same block.
pub open spec fn comes_before(first: Position, second: Position) -> bool {
    first.0 < second.0 || (first.0 == second.0 && first.1 < second.1)
}

/// The places of the matches of a hook among the first `count` transactions of
/// the block of the given index.
pub open spec fn bitcoin_block_match_positions(
    hook: BitcoinChainhookSpecification,
    block: BitcoinBlockData,
    index: int,
    count: int,
) -> Seq<Position>
    decreases count,
{
    if count <= 0 {
        Seq::empty()
    } else {
        let before = bitcoin_block_match_positions(hook, block, index, count - 1);
        if hook.matches(block.transactions@[count - 1]) {
            before.push((index, count - 1))
        } else {
            before
        }
    }
}

/// The places of the matches of a hook in the first `count` blocks.
pub open spec fn bitcoin_match_positions(
    hook: BitcoinChainhookSpecification,
    blocks: Seq<BitcoinBlockData>,
    count: int,
) -> Seq<Position>
    decreases count,
{
    if count <= 0 {
        Seq::empty()
    } else {
        bitcoin_match_positions(hook, blocks, count - 1) + bitcoin_block_match_positions(
            hook,
            blocks[count - 1],
            count - 1,
            blocks[count - 1].transactions@.len() as int,
        )
    }
}

/// Whether the matches stand at the places, one for one, and the places go
/// strictly forward through the blocks.
pub open spec fn bitcoin_matches_stand_in_order(
    matches: Seq<(BitcoinTransactionData, BlockIdentifier)>,
    places: Seq<Position>,
    blocks: Seq<BitcoinBlockData>,
) -> bool {
    &&& places.len() == matches.len()
    &&& forall|k: int|
        0 <= k < places.len() ==> {
            let place = #[trigger] places[k];
            &&& 0 <= place.0 < blocks.len()
            &&& 0 <= place.1 < blocks[place.0].transactions@.len()
            &&& matches[k] == (
                blocks[place.0].transactions@[place.1],
                blocks[place.0].block_identifier,
            )
        }
    &&& forall|j: int, k: int|
        0 <= j < k < places.len() ==> comes_before(#[trigger] places[j], #[trigger] places[k])
}

proof fn lemma_bitcoin_block_order(
    hook: BitcoinChainhookSpecification,
    block: BitcoinBlockData,
    index: int,
    count: int,
)
    requires
        0 <= count <= block.transactions@.len(),
    ensures
        bitcoin_block_match_positions(hook, block, index, count).len() == bitcoin_block_matches(
            hook,
            block,
            count,
        ).len(),
        forall|k: int|
            0 <= k < bitcoin_block_match_positions(hook, block, index, count).len() ==> {
                let place = #[trigger] bitcoin_block_match_positions(hook, block, index, count)[k];
                &&& place.0 == index
                &&& 0 <= place.1 < count
                &&& bitcoin_block_matches(hook, block, count)[k] == (
                    block.transactions@[place.1],
                    block.block_identifier,
                )
            },
        forall|j: int, k: int|
            0 <= j < k < bitcoin_block_match_positions(hook, block, index, count).len()
                ==> comes_before(
                #[trigger] bitcoin_block_match_positions(hook, block, index, count)[j],
                #[trigger] bitcoin_block_match_positions(hook, block, index, count)[k],
            ),
    decreases count,
{
    if count > 0 {
        lemma_bitcoin_block_order(hook, block, index, count - 1);
    }
}

proof fn lemma_bitcoin_order(
    hook: BitcoinChainhookSpecification,
    blocks: Seq<BitcoinBlockData>,
    count: int,
)
    requires
        0 <= count <= blocks.len(),
    ensures
        bitcoin_match_positions(hook, blocks, count).len() == bitcoin_blocks_matches(
            hook,
            blocks,
            count,
        ).len(),
        forall|k: int|
            0 <= k < bitcoin_match_positions(hook, blocks, count).len() ==> {
                let place = #[trigger] bitcoin_match_positions(hook, blocks, count)[k];
                &&& 0 <= place.0 < count
                &&& 0 <= place.1 < blocks[place.0].transactions@.len()
                &&& bitcoin_blocks_matches(hook, blocks, count)[k] == (
                    blocks[place.0].transactions@[place.1],
                    blocks[place.0].block_identifier,
                )
            },
        forall|j: int, k: int|
            0 <= j < k < bitcoin_match_positions(hook, blocks, count).len() ==> comes_before(
                #[trigger] bitcoin_match_positions(hook, blocks, count)[j],
                #[trigger] bitcoin_match_positions(hook, blocks, count)[k],
            ),
    decreases count,
{
    if count > 0 {
        let block = blocks[count - 1];
        lemma_bitcoin_order(hook, blocks, count - 1);
        lemma_bitcoin_block_order(hook, block, count - 1, block.transactions@.len() as int);
    }
}

/// The matches of a hook in a list of blocks stand in the order of their
/// source: block after block, and within a block transaction after
/// transaction, none twice.
pub proof fn bitcoin_matches_keep_source_order(
    hook: BitcoinChainhookSpecification,
    blocks: Seq<BitcoinBlockData>,
)
    ensures
        bitcoin_matches_stand_in_order(
            bitcoin_blocks_matches(hook, blocks, blocks.len() as int),
            bitcoin_match_positions(hook, blocks, blocks.len() as int),
            blocks,
        ),
{
    lemma_bitcoin_order(hook, blocks, blocks.len() as int);
}

/// The entries of a trigger of the UTXO chain stand in the order of their
/// source: those to apply in the order of the blocks that the event confirms,
/// those to roll back in the order of the blocks that it retracts.
pub proof fn bitcoin_trigger_keeps_source_order(
    hook: BitcoinChainhookSpecification,
    event: BitcoinChainEvent,
)
    ensures
        bitcoin_matches_stand_in_order(
            bitcoin_apply_matches(hook, event),
            bitcoin_match_positions(
                hook,
                bitcoin_blocks_to_apply(event),
                bitcoin_blocks_to_apply(event).len() as int,
            ),
            bitcoin_blocks_to_apply(event),
        ),
        bitcoin_matches_stand_in_order(
            bitcoin_rollback_matches(hook, event),
            bitcoin_match_positions(
                hook,
                bitcoin_blocks_to_rollback(event),
                bitcoin_blocks_to_rollback(event).len() as int,
            ),
            bitcoin_blocks_to_rollback(event),
        ),
{
    bitcoin_matches_keep_source_order(hook, bitcoin_blocks_to_apply(event));
    bitcoin_matches_keep_source_order(hook, bitcoin_blocks_to_rollback(event));
}

proof fn lemma_bitcoin_block_includes(
    hook: BitcoinChainhookSpecification,
    block: BitcoinBlockData,
    count: int,
    t: int,
)
    requires
        0 <= t < count <= block.transactions@.len(),
        hook.matches(block.transactions@[t]),
    ensures
        bitcoin_block_matches(hook, block, count).contains(
            (block.transactions@[t], block.block_identifier),
        ),
    decreases count,
{
    let entry = (block.transactions@[t], block.block_identifier);
    if t == count - 1 {
        let found = bitcoin_block_matches(hook, block, count);
        assert(found[found.len() - 1] == entry);
    } else {
        lemma_bitcoin_block_includes(hook, block, count - 1, t);
        let before = bitcoin_block_matches(hook, block, count - 1);
        let k = choose|k: int| 0 <= k < before.len() && before[k] == entry;
        assert(bitcoin_block_matches(hook, block, count)[k] == entry);
    }
}

proof fn lemma_bitcoin_includes(
    hook: BitcoinChainhookSpecification,
    blocks: Seq<BitcoinBlockData>,
    count: int,
    b: int,
    t: int,
)
    requires
        0 <= b < count <= blocks.len(),
        0 <= t < blocks[b].transactions@.len(),
        hook.matches(blocks[b].transactions@[t]),
    ensures
        bitcoin_blocks_matches(hook, blocks, count).contains(
            (blocks[b].transactions@[t], blocks[b].block_identifier),
        ),
    decreases count,
{
    let entry = (blocks[b].transactions@[t], blocks[b].block_identifier);
    let before = bitcoin_blocks_matches(hook, blocks, count - 1);
    let last = bitcoin_block_matches(
        hook,
        blocks[count - 1],
        blocks[count - 1].transactions@.len() as int,
    );
    if b == count - 1 {
        lemma_bitcoin_block_includes(hook, blocks[b], blocks[b].transactions@.len() as int, t);
        let k = choose|k: int| 0 <= k < last.len() && last[k] == entry;
        assert((before + last)[before.len() + k] == entry);
    } else {
        lemma_bitcoin_includes(hook, blocks, count - 1, b, t);
        let k = choose|k: int| 0 <= k < before.len() && before[k] == entry;
        assert((before + last)[k] == entry);
    }
}

/// A transaction that matches a hook, in whatever block of the list, is among
/// the matches of the hook, with the identifier of its block.
pub proof fn bitcoin_matching_transaction_is_included(
    hook: BitcoinChainhookSpecification,
    blocks: Seq<BitcoinBlockData>,
    b: int,
    t: int,
)
    requires
        0 <= b < blocks.len(),
        0 <= t < blocks[b].transactions@.len(),
        hook.matches(blocks[b].transactions@[t]),
    ensures
        bitcoin_blocks_matches(hook, blocks, blocks.len() as int).contains(
            (blocks[b].transactions@[t], blocks[b].block_identifier),
        ),
{
    lemma_bitcoin_includes(hook, blocks, blocks.len() as int, b, t);
}

/// A transaction whose identifier is the one that a hook names is included:
/// among the entries to apply where the event confirms its block.
pub proof fn bitcoin_named_transaction_is_applied(
    hook: BitcoinChainhookSpecification,
    event: BitcoinChainEvent,
    b: int,
    t: int,
)
    requires
        0 <= b < bitcoin_blocks_to_apply(event).len(),
        0 <= t < bitcoin_blocks_to_apply(event)[b].transactions@.len(),
        hook.predicate.kind matches BitcoinPredicateType::TransactionIdentifierHash(txid)
            && bitcoin_blocks_to_apply(event)[b].transactions@[t].transaction_identifier.hash@
            == txid@,
    ensures
        bitcoin_apply_matches(hook, event).contains(
            (
                bitcoin_blocks_to_apply(event)[b].transactions@[t],
                bitcoin_blocks_to_apply(event)[b].block_identifier,
            ),
        ),
{
    bitcoin_matching_transaction_is_included(hook, bitcoin_blocks_to_apply(event), b, t);
}

/// A transaction whose identifier is the one that a hook names is included:
/// among the entries to roll back where the event retracts its block.
pub proof fn bitcoin_named_transaction_is_rolled_back(
    hook: BitcoinChainhookSpecification,
    event: BitcoinChainEvent,
    b: int,
    t: int,
)
    requires
        0 <= b < bitcoin_blocks_to_rollback(event).len(),
        0 <= t < bitcoin_blocks_to_rollback(event)[b].transactions@.len(),
        hook.predicate.kind matches BitcoinPredicateType::TransactionIdentifierHash(txid)
            && bitcoin_blocks_to_rollback(event)[b].transactions@[t].transaction_identifier.hash@
            == txid@,
    ensures
        bitcoin_rollback_matches(hook, event).contains(
            (
                bitcoin_blocks_to_rollback(event)[b].transactions@[t],
                bitcoin_blocks_to_rollback(event)[b].block_identifier,
            ),
        ),
{
    bitcoin_matching_transaction_is_included(hook, bitcoin_blocks_to_rollback(event), b, t);
}

/// Two evaluations of the same hooks on the same event of the UTXO chain give
/// the same triggers, in the same order.
pub proof fn bitcoin_evaluation_is_deterministic(
    event: BitcoinChainEvent,
    hooks: Seq<&BitcoinChainhookSpecification>,
    first: Seq<BitcoinTriggerChainhook>,
    second: Seq<BitcoinTriggerChainhook>,
)
    requires
        bitcoin_trigger_views(first) == bitcoin_triggers(event, hooks, hooks.len() as int),
        bitcoin_trigger_views(second) == bitcoin_triggers(event, hooks, hooks.len() as int),
    ensures
        bitcoin_trigger_views(first) == bitcoin_trigger_views(second),
{
}

/// A hook on a P2PKH address that carries a hash matches every transaction
/// with an output whose script is the canonical script of the address.
pub proof fn p2pkh_hook_matches_canonical_script(
    hook: BitcoinChainhookSpecification,
    address: String,
    tx: BitcoinTransactionData,
    output: int,
)
    requires
        hook.predicate.kind == BitcoinPredicateType::P2pkh(MatchingRule::Equals(address)),
        0 <= output < tx.metadata.outputs@.len(),
        p2pkh_script_hex(address@) == Some(tx.metadata.outputs@[output].script_pubkey@),
    ensures
        hook.matches(tx),
{
    assert(some_output_equals(tx, tx.metadata.outputs@[output].script_pubkey@));
}

/// A hook on a P2SH address that carries a hash matches every transaction
/// with an output whose script is the canonical script of the address.
pub proof fn p2sh_hook_matches_canonical_script(
    hook: BitcoinChainhookSpecification,
    address: String,
    tx: BitcoinTransactionData,
    output: int,
)
    requires
        hook.predicate.kind == BitcoinPredicateType::P2sh(MatchingRule::Equals(address)),
        0 <= output < tx.metadata.outputs@.len(),
        p2sh_script_hex(address@) == Some(tx.metadata.outputs@[output].script_pubkey@),
    ensures
        hook.matches(tx),
{
    assert(some_output_equals(tx, tx.metadata.outputs@[output].script_pubkey@));
}

/// A hook on an address that carries no hash matches no transaction.
pub proof fn malformed_address_matches_nothing(
    hook: BitcoinChainhookSpecification,
    address: String,
    tx: BitcoinTransactionData,
)
    requires
        hook.predicate.kind == BitcoinPredicateType::P2pkh(MatchingRule::Equals(address))
            || hook.predicate.kind == BitcoinPredicateType::P2sh(MatchingRule::Equals(address)),
        p2pkh_script_hex(address@) is None,
    ensures
        !hook.matches(tx),
{
}

/// The leaves of a contract value are rendered as scalars: a number as that
/// number, a boolean as that boolean, a buffer as its hexadecimal text behind
/// `0x`, a principal as its text.
pub proof fn leaves_are_rendered_as_scalars(n: int, b: bool, bytes: Seq<u8>, text: Seq<char>)
    ensures
        clarity_doc(Clarity::Int(n)) == Some(Json::Number(n)),
        clarity_doc(Clarity::UInt(n)) == Some(Json::Number(n)),
        clarity_doc(Clarity::Bool(b)) == Some(Json::Bool(b)),
        clarity_doc(Clarity::Buffer(bytes)) == Some(Json::String("0x"@ + hex_text(bytes))),
        clarity_doc(Clarity::Principal(text)) == Some(Json::String(text)),
        clarity_doc(Clarity::OptionalNone) == Some(Json::Null),
{
}

/// A text that does not begin with `0x`, that has something else than pairs
/// of hexadecimal digits behind it, or that encodes no value, is handed back
/// unchanged by the value decoder.
pub proof fn undecodable_text_is_handed_back(text: Seq<char>)
    requires
        !"0x"@.is_prefix_of(text) || !is_hex_text(text.skip("0x"@.len() as int)) || (
        prefixed_hex_bytes(text) matches Some(bytes) && clarity_decoding(bytes) is None),
    ensures
        decoded_value_doc(text) == Json::String(text),
{
}

/// A block or microblock as the evaluation scans it: its identifier and its
/// transactions.
pub type StacksUnit = (BlockIdentifier, Seq<StacksTransactionData>);

/// A block or microblock as the evaluation scans it.
pub open spec fn stacks_unit_of<B: AbstractStacksBlock>(block: B) -> StacksUnit {
    (block.identifier(), block.transaction_list())
}

/// A list of blocks or microblocks as the evaluation scans them.
pub open spec fn stacks_units_of<B: AbstractStacksBlock>(blocks: Seq<B>) -> Seq<StacksUnit> {
    blocks.map_values(|block: B| stacks_unit_of(block))
}

/// What the first `count` block updates confirm, flattened: for each update
/// the microblocks of the parent that come with it, then the block.
pub open spec fn stacks_updates_units_to_apply(updates: Seq<StacksBlockUpdate>, count: int) -> Seq<
    StacksUnit,
>
    decreases count,
{
    if count <= 0 {
        Seq::empty()
    } else {
        stacks_updates_units_to_apply(updates, count - 1) + stacks_units_of(
            updates[count - 1].parent_microblocks_to_apply@,
        ) + seq![stacks_unit_of(updates[count - 1].block)]
    }
}

/// The microblocks that the first `count` new blocks retract, flattened.
pub open spec fn stacks_updates_retracted_units(updates: Seq<StacksBlockUpdate>, count: int) -> Seq<
    StacksUnit,
>
    decreases count,
{
    if count <= 0 {
        Seq::empty()
    } else {
        stacks_updates_retracted_units(updates, count - 1) + stacks_units_of(
            updates[count - 1].parent_microblocks_to_rollback@,
        )
    }
}

/// What the first `count` block updates of a fork that is left retract,
/// flattened: for each update the block, then the microblocks of its parent
/// that go with it.
pub open spec fn stacks_updates_units_to_rollback(
    updates: Seq<StacksBlockUpdate>,
    count: int,
) -> Seq<StacksUnit>
    decreases count,
{
    if count <= 0 {
        Seq::empty()
    } else {
        stacks_updates_units_to_rollback(updates, count - 1) + seq![
            stacks_unit_of(updates[count - 1].block),
        ] + stacks_units_of(updates[count - 1].parent_microblocks_to_rollback@)
    }
}

/// The blocks and microblocks that an event confirms, in the order in which
/// they are scanned.
pub open spec fn stacks_units_to_apply(event: StacksChainEvent) -> Seq<StacksUnit> {
    match event {
        StacksChainEvent::ChainUpdatedWithBlocks(update) => stacks_updates_units_to_apply(
            update.new_blocks@,
            update.new_blocks@.len() as int,
        ),
        StacksChainEvent::ChainUpdatedWithReorg(update) => stacks_updates_units_to_apply(
            update.blocks_to_apply@,
            update.blocks_to_apply@.len() as int,
        ),
        StacksChainEvent::ChainUpdatedWithMicroblocks(update) => stacks_units_of(
            update.new_microblocks@,
        ),
        StacksChainEvent::ChainUpdatedWithMicroblocksReorg(update) => stacks_units_of(
            update.microblocks_to_apply@,
        ),
    }
}

/// The blocks and microblocks that an event retracts, in the order in which
/// they are scanned.
pub open spec fn stacks_units_to_rollback(event: StacksChainEvent) -> Seq<StacksUnit> {
    match event {
        StacksChainEvent::ChainUpdatedWithBlocks(update) => stacks_updates_retracted_units(
            update.new_blocks@,
            update.new_blocks@.len() as int,
        ),
        StacksChainEvent::ChainUpdatedWithReorg(update) => stacks_updates_units_to_rollback(
            update.blocks_to_rollback@,
            update.blocks_to_rollback@.len() as int,
        ),
        StacksChainEvent::ChainUpdatedWithMicroblocks(update) => Seq::empty(),
        StacksChainEvent::ChainUpdatedWithMicroblocksReorg(update) => stacks_units_of(
            update.microblocks_to_rollback@,
        ),
    }
}

/// The matches of a hook in the first `count` of the scanned blocks and
/// microblocks, one after the other.
pub open spec fn stacks_units_matches(
    hook: StacksChainhookSpecification,
    units: Seq<StacksUnit>,
    count: int,
) -> Seq<StacksMatch>
    decreases count,
{
    if count <= 0 {
        Seq::empty()
    } else {
        stacks_units_matches(hook, units, count - 1) + stacks_transactions_matches(
            hook,
            units[count - 1].1,
            units[count - 1].0,
            units[count - 1].1.len() as int,
        )
    }
}

proof fn lemma_units_matches_of_prefix(
    hook: StacksChainhookSpecification,
    first: Seq<StacksUnit>,
    second: Seq<StacksUnit>,
    count: int,
)
    requires
        0 <= count <= first.len(),
    ensures
        stacks_units_matches(hook, first + second, count) == stacks_units_matches(
            hook,
            first,
            count,
        ),
    decreases count,
{
    if count > 0 {
        lemma_units_matches_of_prefix(hook, first, second, count - 1);
        assert((first + second)[count - 1] == first[count - 1]);
    }
}

proof fn lemma_units_matches_of_concatenation(
    hook: StacksChainhookSpecification,
    first: Seq<StacksUnit>,
    second: Seq<StacksUnit>,
    count: int,
)
    requires
        0 <= count <= second.len(),
    ensures
        stacks_units_matches(hook, first + second, first.len() + count) == stacks_units_matches(
            hook,
            first,
            first.len() as int,
        ) + stacks_units_matches(hook, second, count),
    decreases count,
{
    if count == 0 {
        lemma_units_matches_of_prefix(hook, first, second, first.len() as int);
        assert(stacks_units_matches(hook, first, first.len() as int) + Seq::<StacksMatch>::empty()
            =~= stacks_units_matches(hook, first, first.len() as int));
    } else {
        lemma_units_matches_of_concatenation(hook, first, second, count - 1);
        assert((first + second)[first.len() + count - 1] == second[count - 1]);
        let head = stacks_units_matches(hook, first, first.len() as int);
        let middle = stacks_units_matches(hook, second, count - 1);
        let last = stacks_transactions_matches(
            hook,
            second[count - 1].1,
            second[count - 1].0,
            second[count - 1].1.len() as int,
        );
        assert(head + middle + last =~= head + (middle + last));
    }
}

proof fn lemma_blocks_matches_are_units_matches<B: AbstractStacksBlock>(
    hook: StacksChainhookSpecification,
    blocks: Seq<B>,
    count: int,
)
    requires
        0 <= count <= blocks.len(),
    ensures
        stacks_blocks_matches(hook, blocks, count) == stacks_units_matches(
            hook,
            stacks_units_of(blocks),
            count,
        ),
    decreases count,
{
    if count > 0 {
        lemma_blocks_matches_are_units_matches(hook, blocks, count - 1);
        assert(stacks_units_of(blocks)[count - 1] == stacks_unit_of(blocks[count - 1]));
    }
}

proof fn lemma_one_unit_matches(hook: StacksChainhookSpecification, unit: StacksUnit)
    ensures
        stacks_units_matches(hook, seq![unit], 1) == stacks_transactions_matches(
            hook,
            unit.1,
            unit.0,
            unit.1.len() as int,
        ),
{
    assert(stacks_units_matches(hook, seq![unit], 0) =~= Seq::empty());
    assert(Seq::<StacksMatch>::empty() + stacks_transactions_matches(
        hook,
        unit.1,
        unit.0,
        unit.1.len() as int,
    ) =~= stacks_transactions_matches(hook, unit.1, unit.0, unit.1.len() as int));
}

proof fn lemma_updates_apply_are_units_matches(
    hook: StacksChainhookSpecification,
    updates: Seq<StacksBlockUpdate>,
    count: int,
)
    requires
        0 <= count <= updates.len(),
    ensures
        stacks_updates_apply(hook, updates, count) == stacks_units_matches(
            hook,
            stacks_updates_units_to_apply(updates, count),
            stacks_updates_units_to_apply(updates, count).len() as int,
        ),
    decreases count,
{
    if count > 0 {
        let update = updates[count - 1];
        let before = stacks_updates_units_to_apply(updates, count - 1);
        let parents = stacks_units_of(update.parent_microblocks_to_apply@);
        let own = seq![stacks_unit_of(update.block)];
        lemma_updates_apply_are_units_matches(hook, updates, count - 1);
        lemma_blocks_matches_are_units_matches(
            hook,
            update.parent_microblocks_to_apply@,
            update.parent_microblocks_to_apply@.len() as int,
        );
        lemma_one_unit_matches(hook, stacks_unit_of(update.block));
        lemma_units_matches_of_concatenation(hook, before, parents, parents.len() as int);
        lemma_units_matches_of_concatenation(hook, before + parents, own, 1);
    }
}

proof fn lemma_updates_retracted_are_units_matches(
    hook: StacksChainhookSpecification,
    updates: Seq<StacksBlockUpdate>,
    count: int,
)
    requires
        0 <= count <= updates.len(),
    ensures
        stacks_updates_retracted_microblocks(hook, updates, count) == stacks_units_matches(
            hook,
            stacks_updates_retracted_units(updates, count),
            stacks_updates_retracted_units(updates, count).len() as int,
        ),
    decreases count,
{
    if count > 0 {
        let update = updates[count - 1];
        let before = stacks_updates_retracted_units(updates, count - 1);
        let parents = stacks_units_of(update.parent_microblocks_to_rollback@);
        lemma_updates_retracted_are_units_matches(hook, updates, count - 1);
        lemma_blocks_matches_are_units_matches(
            hook,
            update.parent_microblocks_to_rollback@,
            update.parent_microblocks_to_rollback@.len() as int,
        );
        lemma_units_matches_of_concatenation(hook, before, parents, parents.len() as int);
    }
}

proof fn lemma_updates_rollback_are_units_matches(
    hook: StacksChainhookSpecification,
    updates: Seq<StacksBlockUpdate>,
    count: int,
)
    requires
        0 <= count <= updates.len(),
    ensures
        stacks_updates_rollback(hook, updates, count) == stacks_units_matches(
            hook,
            stacks_updates_units_to_rollback(updates, count),
            stacks_updates_units_to_rollback(updates, count).len() as int,
        ),
    decreases count,
{
    if count > 0 {
        let update = updates[count - 1];
        let before = stacks_updates_units_to_rollback(updates, count - 1);
        let parents = stacks_units_of(update.parent_microblocks_to_rollback@);
        let own = seq![stacks_unit_of(update.block)];
        lemma_updates_rollback_are_units_matches(hook, updates, count - 1);
        lemma_blocks_matches_are_units_matches(
            hook,
            update.parent_microblocks_to_rollback@,
            update.parent_microblocks_to_rollback@.len() as int,
        );
        lemma_one_unit_matches(hook, stacks_unit_of(update.block));
        lemma_units_matches_of_concatenation(hook, before, own, 1);
        lemma_units_matches_of_concatenation(hook, before + own, parents, parents.len() as int);
    }
}

/// The entries of a trigger of the contract chain are the matches in what
/// the event confirms and in what it retracts, flattened into the blocks and
/// microblocks in the order in which they are scanned.
pub proof fn stacks_matches_are_those_of_the_scanned_units(
    hook: StacksChainhookSpecification,
    event: StacksChainEvent,
)
    ensures
        stacks_apply_matches(hook, event) == stacks_units_matches(
            hook,
            stacks_units_to_apply(event),
            stacks_units_to_apply(event).len() as int,
        ),
        stacks_rollback_matches(hook, event) == stacks_units_matches(
            hook,
            stacks_units_to_rollback(event),
            stacks_units_to_rollback(event).len() as int,
        ),
{
    match event {
        StacksChainEvent::ChainUpdatedWithBlocks(update) => {
            lemma_updates_apply_are_units_matches(
                hook,
                update.new_blocks@,
                update.new_blocks@.len() as int,
            );
            lemma_updates_retracted_are_units_matches(
                hook,
                update.new_blocks@,
                update.new_blocks@.len() as int,
            );
        },
        StacksChainEvent::ChainUpdatedWithReorg(update) => {
            lemma_updates_apply_are_units_matches(
                hook,
                update.blocks_to_apply@,
                update.blocks_to_apply@.len() as int,
            );
            lemma_updates_rollback_are_units_matches(
                hook,
                update.blocks_to_rollback@,
                update.blocks_to_rollback@.len() as int,
            );
        },
        StacksChainEvent::ChainUpdatedWithMicroblocks(update) => {
            lemma_blocks_matches_are_units_matches(
                hook,
                update.new_microblocks@,
                update.new_microblocks@.len() as int,
            );
        },
        StacksChainEvent::ChainUpdatedWithMicroblocksReorg(update) => {
            lemma_blocks_matches_are_units_matches(
                hook,
                update.microblocks_to_apply@,
                update.microblocks_to_apply@.len() as int,
            );
            lemma_blocks_matches_are_units_matches(
                hook,
                update.microblocks_to_rollback@,
                update.microblocks_to_rollback@.len() as int,
            );
        },
    }
}

/// The places of the matches of a hook among the first `count` transactions of
/// the scanned block of the given index.
pub open spec fn stacks_unit_match_positions(
    hook: StacksChainhookSpecification,
    unit: StacksUnit,
    index: int,
    count: int,
) -> Seq<Position>
    decreases count,
{
    if count <= 0 {
        Seq::empty()
    } else {
        let before = stacks_unit_match_positions(hook, unit, index, count - 1);
        if hook.matches(unit.1[count - 1]) {
            before.push((index, count - 1))
        } else {
            before
        }
    }
}

/// The places of the matches of a hook in the first `count` scanned blocks
/// and microblocks.
pub open spec fn stacks_match_positions(
    hook: StacksChainhookSpecification,
    units: Seq<StacksUnit>,
    count: int,
) -> Seq<Position>
    decreases count,
{
    if count <= 0 {
        Seq::empty()
    } else {
        stacks_match_positions(hook, units, count - 1) + stacks_unit_match_positions(
            hook,
            units[count - 1],
            count - 1,
            units[count - 1].1.len() as int,
        )
    }
}

/// Whether the matches stand at the places, one for one, and the places go
/// strictly forward through the scanned blocks and microblocks.
pub open spec fn stacks_matches_stand_in_order(
    matches: Seq<StacksMatch>,
    places: Seq<Position>,
    units: Seq<StacksUnit>,
) -> bool {
    &&& places.len() == matches.len()
    &&& forall|k: int|
        0 <= k < places.len() ==> {
            let place = #[trigger] places[k];
            &&& 0 <= place.0 < units.len()
            &&& 0 <= place.1 < units[place.0].1.len()
            &&& matches[k] == (units[place.0].1[place.1], units[place.0].0)
        }
    &&& forall|j: int, k: int|
        0 <= j < k < places.len() ==> comes_before(#[trigger] places[j], #[trigger] places[k])
}

proof fn lemma_stacks_unit_order(
    hook: StacksChainhookSpecification,
    unit: StacksUnit,
    index: int,
    count: int,
)
    requires
        0 <= count <= unit.1.len(),
    ensures
        stacks_unit_match_positions(hook, unit, index, count).len() == stacks_transactions_matches(
            hook,
            unit.1,
            unit.0,
            count,
        ).len(),
        forall|k: int|
            0 <= k < stacks_unit_match_positions(hook, unit, index, count).len() ==> {
                let place = #[trigger] stacks_unit_match_positions(hook, unit, index, count)[k];
                &&& place.0 == index
                &&& 0 <= place.1 < count
                &&& stacks_transactions_matches(hook, unit.1, unit.0, count)[k] == (
                    unit.1[place.1],
                    unit.0,
                )
            },
        forall|j: int, k: int|
            0 <= j < k < stacks_unit_match_positions(hook, unit, index, count).len()
                ==> comes_before(
                #[trigger] stacks_unit_match_positions(hook, unit, index, count)[j],
                #[trigger] stacks_unit_match_positions(hook, unit, index, count)[k],
            ),
    decreases count,
{
    if count > 0 {
        lemma_stacks_unit_order(hook, unit, index, count - 1);
    }
}

proof fn lemma_stacks_order(
    hook: StacksChainhookSpecification,
    units: Seq<StacksUnit>,
    count: int,
)
    requires
        0 <= count <= units.len(),
    ensures
        stacks_match_positions(hook, units, count).len() == stacks_units_matches(
            hook,
            units,
            count,
        ).len(),
        forall|k: int|
            0 <= k < stacks_match_positions(hook, units, count).len() ==> {
                let place = #[trigger] stacks_match_positions(hook, units, count)[k];
                &&& 0 <= place.0 < count
                &&& 0 <= place.1 < units[place.0].1.len()
                &&& stacks_units_matches(hook, units, count)[k] == (
                    units[place.0].1[place.1],
                    units[place.0].0,
                )
            },
        forall|j: int, k: int|
            0 <= j < k < stacks_match_positions(hook, units, count).len() ==> comes_before(
                #[trigger] stacks_match_positions(hook, units, count)[j],
                #[trigger] stacks_match_positions(hook, units, count)[k],
            ),
    decreases count,
{
    if count > 0 {
        let unit = units[count - 1];
        lemma_stacks_order(hook, units, count - 1);
        lemma_stacks_unit_order(hook, unit, count - 1, unit.1.len() as int);
    }
}

/// The entries of a trigger of the contract chain stand in the order of
/// their source: block after block and microblock after microblock as they
/// are scanned, and within each transaction after transaction, none twice.
pub proof fn stacks_trigger_keeps_source_order(
    hook: StacksChainhookSpecification,
    event: StacksChainEvent,
)
    ensures
        stacks_matches_stand_in_order(
            stacks_apply_matches(hook, event),
            stacks_match_positions(
                hook,
                stacks_units_to_apply(event),
                stacks_units_to_apply(event).len() as int,
            ),
            stacks_units_to_apply(event),
        ),
        stacks_matches_stand_in_order(
            stacks_rollback_matches(hook, event),
            stacks_match_positions(
                hook,
                stacks_units_to_rollback(event),
                stacks_units_to_rollback(event).len() as int,
            ),
            stacks_units_to_rollback(event),
        ),
{
    stacks_matches_are_those_of_the_scanned_units(hook, event);
    lemma_stacks_order(
        hook,
        stacks_units_to_apply(event),
        stacks_units_to_apply(event).len() as int,
    );
    lemma_stacks_order(
        hook,
        stacks_units_to_rollback(event),
        stacks_units_to_rollback(event).len() as int,
    );
}

proof fn lemma_stacks_unit_includes(
    hook: StacksChainhookSpecification,
    unit: StacksUnit,
    count: int,
    t: int,
)
    requires
        0 <= t < count <= unit.1.len(),
        hook.matches(unit.1[t]),
    ensures
        stacks_transactions_matches(hook, unit.1, unit.0, count).contains((unit.1[t], unit.0)),
    decreases count,
{
    let entry = (unit.1[t], unit.0);
    if t == count - 1 {
        let found = stacks_transactions_matches(hook, unit.1, unit.0, count);
        assert(found[found.len() - 1] == entry);
    } else {
        lemma_stacks_unit_includes(hook, unit, count - 1, t);
        let before = stacks_transactions_matches(hook, unit.1, unit.0, count - 1);
        let k = choose|k: int| 0 <= k < before.len() && before[k] == entry;
        assert(stacks_transactions_matches(hook, unit.1, unit.0, count)[k] == entry);
    }
}

proof fn lemma_stacks_includes(
    hook: StacksChainhookSpecification,
    units: Seq<StacksUnit>,
    count: int,
    u: int,
    t: int,
)
    requires
        0 <= u < count <= units.len(),
        0 <= t < units[u].1.len(),
        hook.matches(units[u].1[t]),
    ensures
        stacks_units_matches(hook, units, count).contains((units[u].1[t], units[u].0)),
    decreases count,
{
    let entry = (units[u].1[t], units[u].0);
    let before = stacks_units_matches(hook, units, count - 1);
    let last = stacks_transactions_matches(
        hook,
        units[count - 1].1,
        units[count - 1].0,
        units[count - 1].1.len() as int,
    );
    if u == count - 1 {
        lemma_stacks_unit_includes(hook, units[u], units[u].1.len() as int, t);
        let k = choose|k: int| 0 <= k < last.len() && last[k] == entry;
        assert((before + last)[before.len() + k] == entry);
    } else {
        lemma_stacks_includes(hook, units, count - 1, u, t);
        let k = choose|k: int| 0 <= k < before.len() && before[k] == entry;
        assert((before + last)[k] == entry);
    }
}

/// A transaction that matches a hook, in whatever block or microblock that the
/// event confirms, is among the entries to apply, with the identifier of its
/// block or microblock.
pub proof fn stacks_matching_transaction_is_applied(
    hook: StacksChainhookSpecification,
    event: StacksChainEvent,
    u: int,
    t: int,
)
    requires
        0 <= u < stacks_units_to_apply(event).len(),
        0 <= t < stacks_units_to_apply(event)[u].1.len(),
        hook.matches(stacks_units_to_apply(event)[u].1[t]),
    ensures
        stacks_apply_matches(hook, event).contains(
            (stacks_units_to_apply(event)[u].1[t], stacks_units_to_apply(event)[u].0),
        ),
{
    stacks_matches_are_those_of_the_scanned_units(hook, event);
    lemma_stacks_includes(
        hook,
        stacks_units_to_apply(event),
        stacks_units_to_apply(event).len() as int,
        u,
        t,
    );
}

/// A transaction that matches a hook, in whatever block or microblock that the
/// event retracts, is among the entries to roll back, with the identifier of
/// its block or microblock.
pub proof fn stacks_matching_transaction_is_rolled_back(
    hook: StacksChainhookSpecification,
    event: StacksChainEvent,
    u: int,
    t: int,
)
    requires
        0 <= u < stacks_units_to_rollback(event).len(),
        0 <= t < stacks_units_to_rollback(event)[u].1.len(),
        hook.matches(stacks_units_to_rollback(event)[u].1[t]),
    ensures
        stacks_rollback_matches(hook, event).contains(
            (stacks_units_to_rollback(event)[u].1[t], stacks_units_to_rollback(event)[u].0),
        ),
{
    stacks_matches_are_those_of_the_scanned_units(hook, event);
    lemma_stacks_includes(
        hook,
        stacks_units_to_rollback(event),
        stacks_units_to_rollback(event).len() as int,
        u,
        t,
    );
}

/// A transaction whose identifier is the one that a hook of the contract
/// chain names matches the hook.
pub proof fn stacks_named_transaction_matches(
    hook: StacksChainhookSpecification,
    tx: StacksTransactionData,
)
    requires
        hook.transaction_predicate matches StacksTransactionFilterPredicate::TransactionIdentifierHash(
            txid,
        ) && tx.transaction_identifier.hash@ == txid@,
    ensures
        hook.matches(tx),
{
}

/// Two evaluations of the same hooks on the same event of the contract chain
/// give the same triggers, in the same order.
pub proof fn stacks_evaluation_is_deterministic(
    event: StacksChainEvent,
    hooks: Seq<&StacksChainhookSpecification>,
    first: Seq<StacksTriggerChainhook>,
    second: Seq<StacksTriggerChainhook>,
)
    requires
        stacks_trigger_views(first) == stacks_triggers(event, hooks, hooks.len() as int),
        stacks_trigger_views(second) == stacks_triggers(event, hooks, hooks.len() as int),
    ensures
        stacks_trigger_views(first) == stacks_trigger_views(second),
{
}

/// The matches of a hook of the UTXO chain that passed validation are always
/// turned into an occurrence.
pub proof fn validated_bitcoin_hook_is_dispatched(
    trigger: BitcoinTrigger,
    proofs: TransactionProofs,
    occurrence: Option<BitcoinChainhookOccurrence>,
)
    requires
        bitcoin_hook_fault(trigger.chainhook) is None,
        is_bitcoin_occurrence(occurrence, trigger, proofs),
    ensures
        occurrence is Some,
{
}

/// The matches of a hook of the contract chain that passed validation are
/// always turned into an occurrence.
pub proof fn validated_stacks_hook_is_dispatched(
    trigger: StacksTrigger,
    proofs: TransactionProofs,
    occurrence: Option<StacksChainhookOccurrence>,
)
    requires
        stacks_hook_fault(trigger.chainhook) is None,
        is_stacks_occurrence(occurrence, trigger, proofs),
    ensures
        occurrence is Some,
{
}

/// The places in the list of hooks of the hooks that an event triggers, among
/// the first `count` hooks.
pub open spec fn bitcoin_triggered_places(
    event: BitcoinChainEvent,
    hooks: Seq<&BitcoinChainhookSpecification>,
    count: int,
) -> Seq<int>
    decreases count,
{
    if count <= 0 {
        Seq::empty()
    } else {
        let before = bitcoin_triggered_places(event, hooks, count - 1);
        if bitcoin_hook_is_triggered(*hooks[count - 1], event) {
            before.push(count - 1)
        } else {
            before
        }
    }
}

/// Whether the triggers are those of the hooks at the places, one for one;
/// the places go strictly forward through the hooks; and the place of every
/// hook that the event triggers is among them.
pub open spec fn bitcoin_triggers_stand_at(
    triggers: Seq<BitcoinTrigger>,
    places: Seq<int>,
    event: BitcoinChainEvent,
    hooks: Seq<&BitcoinChainhookSpecification>,
    count: int,
) -> bool {
    &&& places.len() == triggers.len()
    &&& forall|k: int|
        0 <= k < places.len() ==> {
            let place = #[trigger] places[k];
            &&& 0 <= place < count
            &&& bitcoin_hook_is_triggered(*hooks[place], event)
            &&& triggers[k] == bitcoin_trigger(*hooks[place], event)
        }
    &&& forall|j: int, k: int|
        0 <= j < k < places.len() ==> (#[trigger] places[j]) < (#[trigger] places[k])
    &&& forall|h: int|
        0 <= h < count && bitcoin_hook_is_triggered(*(#[trigger] hooks[h]), event)
            ==> places.contains(h)
}

proof fn lemma_bitcoin_triggers_stand_at(
    event: BitcoinChainEvent,
    hooks: Seq<&BitcoinChainhookSpecification>,
    count: int,
)
    requires
        0 <= count <= hooks.len(),
    ensures
        bitcoin_triggers_stand_at(
            bitcoin_triggers(event, hooks, count),
            bitcoin_triggered_places(event, hooks, count),
            event,
            hooks,
            count,
        ),
    decreases count,
{
    if count > 0 {
        lemma_bitcoin_triggers_stand_at(event, hooks, count - 1);
        let before = bitcoin_triggered_places(event, hooks, count - 1);
        let places = bitcoin_triggered_places(event, hooks, count);
        assert forall|h: int|
            0 <= h < count && bitcoin_hook_is_triggered(*(#[trigger] hooks[h]), event) implies places.contains(
            h,
        ) by {
            if h == count - 1 {
                assert(places[places.len() - 1] == h);
            } else {
                assert(before.contains(h));
                let k = choose|k: int| 0 <= k < before.len() && before[k] == h;
                assert(places[k] == h);
            }
        }
    }
}

/// The triggers of an evaluation of the UTXO chain follow the hooks: each
/// is the trigger of a hook of the list that the event triggers, they stand in
/// the order of the hooks, and no hook that the event triggers is left out.
pub proof fn bitcoin_triggers_follow_the_hooks(
    event: BitcoinChainEvent,
    hooks: Seq<&BitcoinChainhookSpecification>,
)
    ensures
        bitcoin_triggers_stand_at(
            bitcoin_triggers(event, hooks, hooks.len() as int),
            bitcoin_triggered_places(event, hooks, hooks.len() as int),
            event,
            hooks,
            hooks.len() as int,
        ),
{
    lemma_bitcoin_triggers_stand_at(event, hooks, hooks.len() as int);
}

/// The places in the list of hooks of the hooks that an event triggers, among
/// the first `count` hooks.
pub open spec fn stacks_triggered_places(
    event: StacksChainEvent,
    hooks: Seq<&StacksChainhookSpecification>,
    count: int,
) -> Seq<int>
    decreases count,
{
    if count <= 0 {
        Seq::empty()
    } else {
        let before = stacks_triggered_places(event, hooks, count - 1);
        if stacks_hook_is_triggered(*hooks[count - 1], event) {
            before.push(count - 1)
        } else {
            before
        }
    }
}

/// Whether the triggers are those of the hooks at the places, one for one;
/// the places go strictly forward through the hooks; and the place of every
/// hook that the event triggers is among them.
pub open spec fn stacks_triggers_stand_at(
    triggers: Seq<StacksTrigger>,
    places: Seq<int>,
    event: StacksChainEvent,
    hooks: Seq<&StacksChainhookSpecification>,
    count: int,
) -> bool {
    &&& places.len() == triggers.len()
    &&& forall|k: int|
        0 <= k < places.len() ==> {
            let place = #[trigger] places[k];
            &&& 0 <= place < count
            &&& stacks_hook_is_triggered(*hooks[place], event)
            &&& triggers[k] == stacks_trigger(*hooks[place], event)
        }
    &&& forall|j: int, k: int|
        0 <= j < k < places.len() ==> (#[trigger] places[j]) < (#[trigger] places[k])
    &&& forall|h: int|
        0 <= h < count && stacks_hook_is_triggered(*(#[trigger] hooks[h]), event)
            ==> places.contains(h)
}

proof fn lemma_stacks_triggers_stand_at(
    event: StacksChainEvent,
    hooks: Seq<&StacksChainhookSpecification>,
    count: int,
)
    requires
        0 <= count <= hooks.len(),
    ensures
        stacks_triggers_stand_at(
            stacks_triggers(event, hooks, count),
            stacks_triggered_places(event, hooks, count),
            event,
            hooks,
            count,
        ),
    decreases count,
{
    if count > 0 {
        lemma_stacks_triggers_stand_at(event, hooks, count - 1);
        let before = stacks_triggered_places(event, hooks, count - 1);
        let places = stacks_triggered_places(event, hooks, count);
        assert forall|h: int|
            0 <= h < count && stacks_hook_is_triggered(*(#[trigger] hooks[h]), event) implies places.contains(
            h,
        ) by {
            if h == count - 1 {
                assert(places[places.len() - 1] == h);
            } else {
                assert(before.contains(h));
                let k = choose|k: int| 0 <= k < before.len() && before[k] == h;
                assert(places[k] == h);
            }
        }
    }
}

/// The triggers of an evaluation of the contract chain follow the hooks: each
/// is the trigger of a hook of the list that the event triggers, they stand in
/// the order of the hooks, and no hook that the event triggers is left out.
pub proof fn stacks_triggers_follow_the_hooks(
    event: StacksChainEvent,
    hooks: Seq<&StacksChainhookSpecification>,
)
    ensures
        stacks_triggers_stand_at(
            stacks_triggers(event, hooks, hooks.len() as int),
            stacks_triggered_places(event, hooks, hooks.len() as int),
            event,
            hooks,
            hooks.len() as int,
        ),
{
    lemma_stacks_triggers_stand_at(event, hooks, hooks.len() as int);
}

/// A predicate of the UTXO chain that is not implemented matches no
/// transaction.
pub proof fn unimplemented_bitcoin_predicate_matches_nothing(
    hook: BitcoinChainhookSpecification,
    tx: BitcoinTransactionData,
)
    requires
        bitcoin_predicate_is_unimplemented(hook.predicate.kind),
    ensures
        !hook.matches(tx),
{
}

/// A predicate of the contract chain that is not implemented matches no
/// transaction.
pub proof fn unimplemented_stacks_predicate_matches_nothing(
    hook: StacksChainhookSpecification,
    tx: StacksTransactionData,
)
    requires
        stacks_predicate_is_unimplemented(hook.transaction_predicate),
    ensures
        !hook.matches(tx),
{
}

} // verus!
