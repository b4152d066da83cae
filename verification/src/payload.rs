//! The payload builder: from the matches of a hook to the JSON document that
//! is delivered.
use vstd::prelude::*;
use crate::bitcoin::{bitcoin_matches_of, BitcoinMatch, BitcoinTrigger, BitcoinTriggerChainhook};
use crate::chain::{
    BitcoinTransactionData, BlockIdentifier, StacksTransactionData, TransactionIdentifier,
};
use crate::json::{
    json_array, json_map_insert, json_map_new, json_model, json_models, json_null, json_object,
    json_string, json_u64, no_fields, optional_string_doc, Json,
};
use crate::render::{
    bitcoin_transaction_doc, block_identifier_doc, encode_transaction_including_with_clarity_decoding,
    stacks_transaction_doc,
};
use crate::stacks::{stacks_matches_of, StacksMatch, StacksTrigger, StacksTriggerChainhook};
use crate::summary::{bitcoin_predicate_doc, stacks_predicate_doc};

verus! {

/// The number of confirmations that a payload reports for every transaction.
pub const CONFIRMATIONS: u8 = 1;

/// The proof that a list of proofs holds for the transaction of the given
/// hash: that of the last entry for it.
pub open spec fn proof_among(
    entries: Seq<(TransactionIdentifier, String)>,
    hash: Seq<char>,
) -> Option<String>
    decreases entries.len(),
{
    if entries.len() == 0 {
        None
    } else if entries.last().0.hash@ == hash {
        Some(entries.last().1)
    } else {
        proof_among(entries.drop_last(), hash)
    }
}

/// Inclusion proofs by transaction, as a collaborator supplies them. An entry
/// that is added later replaces an earlier one for the same transaction.
///
/// The proofs are held in a list and looked up from its end: vstd has no key
/// model for maps keyed by text, so nothing could be proved of a hash map
/// here.
#[derive(Debug)]
pub struct TransactionProofs {
    pub entries: Vec<(TransactionIdentifier, String)>,
}

impl TransactionProofs {
    /// The proof that is held for a transaction.
    pub open spec fn proof_of(&self, transaction: TransactionIdentifier) -> Option<String> {
        proof_among(self.entries@, transaction.hash@)
    }

    /// No proofs.
    pub fn new() -> (proofs: TransactionProofs)
        ensures
            proofs.entries@.len() == 0,
            forall|transaction: TransactionIdentifier| proofs.proof_of(transaction) is None,
    {
        TransactionProofs { entries: Vec::new() }
    }

    /// Holds the proof for the transaction from now on.
    pub fn insert(&mut self, transaction: TransactionIdentifier, proof: String)
        ensures
            final(self).entries@ == old(self).entries@.push((transaction, proof)),
            final(self).proof_of(transaction) == Some(proof),
            forall|other: TransactionIdentifier|
                other.hash@ != transaction.hash@ ==> final(self).proof_of(other) == old(
                    self,
                ).proof_of(other),
    {
        let ghost before = self.entries@;
        self.entries.push((transaction, proof));
        assert(self.entries@.drop_last() =~= before);
    }

    /// The proof that is held for a transaction, if any.
    pub fn get(&self, transaction: &TransactionIdentifier) -> (proof: Option<&String>)
        ensures
            proof is Some <==> self.proof_of(*transaction) is Some,
            proof matches Some(found) ==> self.proof_of(*transaction) == Some(*found),
    {
        let mut i: usize = self.entries.len();
        assert(self.entries@.take(i as int) =~= self.entries@);
        while i > 0
            invariant
                0 <= i <= self.entries@.len(),
                self.proof_of(*transaction) == proof_among(
                    self.entries@.take(i as int),
                    transaction.hash@,
                ),
            decreases i,
        {
            i -= 1;
            assert(self.entries@.take(i + 1).drop_last() =~= self.entries@.take(i as int));
            assert(self.entries@.take(i + 1).last() == self.entries@[i as int]);
            if self.entries[i].0.hash == transaction.hash {
                return Some(&self.entries[i].1);
            }
        }
        None
    }
}

/// The proof that a borrowed proof is.
pub open spec fn proof_value(held: Option<&String>) -> Option<String> {
    match held {
        Some(text) => Some(*text),
        None => None,
    }
}

/// The document of a proof that may be absent.
fn proof_to_json(held: Option<&String>) -> (value: serde_json::Value)
    ensures
        json_model(value) == optional_string_doc(proof_value(held)),
{
    match held {
        Some(text) => json_string(text.as_str()),
        None => json_null(),
    }
}

/// The document of a transaction to apply: the transaction, the identifier of
/// its block, the number of confirmations, and the proof where one is held.
pub open spec fn apply_entry_doc(
    transaction: Json,
    block_identifier: BlockIdentifier,
    proof: Option<String>,
) -> Json {
    Json::Object(
        no_fields().insert("transaction"@, transaction).insert(
            "block_identifier"@,
            block_identifier_doc(block_identifier),
        ).insert("confirmations"@, Json::Number(CONFIRMATIONS as int)).insert(
            "proof"@,
            optional_string_doc(proof),
        ),
    )
}

/// The document of a transaction to roll back: the transaction, the
/// identifier of its block and the number of confirmations.
pub open spec fn rollback_entry_doc(transaction: Json, block_identifier: BlockIdentifier) -> Json {
    Json::Object(
        no_fields().insert("transaction"@, transaction).insert(
            "block_identifier"@,
            block_identifier_doc(block_identifier),
        ).insert("confirmations"@, Json::Number(CONFIRMATIONS as int)),
    )
}

/// The document of a transaction to apply.
fn apply_entry_to_json(
    transaction: serde_json::Value,
    block_identifier: &BlockIdentifier,
    proof: Option<&String>,
) -> (value: serde_json::Value)
    ensures
        json_model(value) == apply_entry_doc(
            json_model(transaction),
            *block_identifier,
            proof_value(proof),
        ),
{
    let mut map = json_map_new();
    json_map_insert(&mut map, "transaction", transaction);
    json_map_insert(&mut map, "block_identifier", block_identifier.to_json());
    json_map_insert(&mut map, "confirmations", json_u64(CONFIRMATIONS as u64));
    json_map_insert(&mut map, "proof", proof_to_json(proof));
    json_object(map)
}

/// The document of a transaction to roll back.
fn rollback_entry_to_json(transaction: serde_json::Value, block_identifier: &BlockIdentifier) -> (value:
    serde_json::Value)
    ensures
        json_model(value) == rollback_entry_doc(json_model(transaction), *block_identifier),
{
    let mut map = json_map_new();
    json_map_insert(&mut map, "transaction", transaction);
    json_map_insert(&mut map, "block_identifier", block_identifier.to_json());
    json_map_insert(&mut map, "confirmations", json_u64(CONFIRMATIONS as u64));
    json_object(map)
}

/// The documents of the transactions of the UTXO chain to apply, in order.
pub open spec fn bitcoin_apply_docs(entries: Seq<BitcoinMatch>, proofs: TransactionProofs) -> Seq<
    Json,
> {
    entries.map_values(
        |entry: BitcoinMatch|
            apply_entry_doc(
                bitcoin_transaction_doc(entry.0),
                entry.1,
                proofs.proof_of(entry.0.transaction_identifier),
            ),
    )
}

/// The documents of the transactions of the UTXO chain to roll back, in
/// order.
pub open spec fn bitcoin_rollback_docs(entries: Seq<BitcoinMatch>) -> Seq<Json> {
    entries.map_values(
        |entry: BitcoinMatch| rollback_entry_doc(bitcoin_transaction_doc(entry.0), entry.1),
    )
}

/// The payload of a trigger of the UTXO chain: the transactions to apply, the
/// transactions to roll back, and the identifier and predicate of the hook.
pub open spec fn bitcoin_payload_doc(trigger: BitcoinTrigger, proofs: TransactionProofs) -> Json {
    Json::Object(
        no_fields().insert("apply"@, Json::Array(bitcoin_apply_docs(trigger.apply, proofs))).insert(
            "rollback"@,
            Json::Array(bitcoin_rollback_docs(trigger.rollback)),
        ).insert(
            "chainhook"@,
            Json::Object(
                no_fields().insert("uuid"@, Json::String(trigger.chainhook.uuid@)).insert(
                    "predicate"@,
                    bitcoin_predicate_doc(trigger.chainhook.predicate),
                ),
            ),
        ),
    )
}

/// The array of the documents of the transactions to apply.
fn bitcoin_apply_to_json(
    entries: &Vec<(&BitcoinTransactionData, &BlockIdentifier)>,
    proofs: &TransactionProofs,
) -> (value: serde_json::Value)
    ensures
        json_model(value) == Json::Array(bitcoin_apply_docs(bitcoin_matches_of(entries@), *proofs)),
{
    let ghost all = bitcoin_matches_of(entries@);
    let mut docs: Vec<serde_json::Value> = Vec::new();
    let mut i: usize = 0;
    assert(json_models(docs@) =~= bitcoin_apply_docs(all.take(0), *proofs));
    while i < entries.len()
        invariant
            0 <= i <= entries@.len(),
            all == bitcoin_matches_of(entries@),
            json_models(docs@) == bitcoin_apply_docs(all.take(i as int), *proofs),
        decreases entries@.len() - i,
    {
        let (transaction, block_identifier) = entries[i];
        let doc = apply_entry_to_json(
            transaction.to_json(),
            block_identifier,
            proofs.get(&transaction.transaction_identifier),
        );
        let ghost before = docs@;
        docs.push(doc);
        assert(all[i as int] == (*transaction, *block_identifier));
        assert(json_models(docs@) =~= json_models(before).push(json_model(doc)));
        assert(bitcoin_apply_docs(all.take(i + 1), *proofs) =~= bitcoin_apply_docs(
            all.take(i as int),
            *proofs,
        ).push(json_model(doc)));
        i += 1;
    }
    assert(all.take(entries@.len() as int) =~= all);
    json_array(docs)
}

/// The array of the documents of the transactions to roll back.
fn bitcoin_rollback_to_json(entries: &Vec<(&BitcoinTransactionData, &BlockIdentifier)>) -> (value:
    serde_json::Value)
    ensures
        json_model(value) == Json::Array(bitcoin_rollback_docs(bitcoin_matches_of(entries@))),
{
    let ghost all = bitcoin_matches_of(entries@);
    let mut docs: Vec<serde_json::Value> = Vec::new();
    let mut i: usize = 0;
    assert(json_models(docs@) =~= bitcoin_rollback_docs(all.take(0)));
    while i < entries.len()
        invariant
            0 <= i <= entries@.len(),
            all == bitcoin_matches_of(entries@),
            json_models(docs@) == bitcoin_rollback_docs(all.take(i as int)),
        decreases entries@.len() - i,
    {
        let (transaction, block_identifier) = entries[i];
        let doc = rollback_entry_to_json(transaction.to_json(), block_identifier);
        let ghost before = docs@;
        docs.push(doc);
        assert(all[i as int] == (*transaction, *block_identifier));
        assert(json_models(docs@) =~= json_models(before).push(json_model(doc)));
        assert(bitcoin_rollback_docs(all.take(i + 1)) =~= bitcoin_rollback_docs(
            all.take(i as int),
        ).push(json_model(doc)));
        i += 1;
    }
    assert(all.take(entries@.len() as int) =~= all);
    json_array(docs)
}

/// Builds the payload of a trigger of the UTXO chain.
///
/// The trigger is used up. A transaction without a proof has a null proof.
pub fn serialize_bitcoin_payload_to_json<'a>(
    trigger: BitcoinTriggerChainhook<'a>,
    proofs: &TransactionProofs,
) -> (payload: serde_json::Value)
    ensures
        json_model(payload) == bitcoin_payload_doc(trigger@, *proofs),
{
    let mut chainhook = json_map_new();
    json_map_insert(&mut chainhook, "uuid", json_string(trigger.chainhook.uuid.as_str()));
    json_map_insert(&mut chainhook, "predicate", trigger.chainhook.predicate.to_json());
    let mut map = json_map_new();
    json_map_insert(&mut map, "apply", bitcoin_apply_to_json(&trigger.apply, proofs));
    json_map_insert(&mut map, "rollback", bitcoin_rollback_to_json(&trigger.rollback));
    json_map_insert(&mut map, "chainhook", json_object(chainhook));
    json_object(map)
}

/// The documents of the transactions of the contract chain to apply, in
/// order: decoded where the hook asks for it.
pub open spec fn stacks_apply_docs(
    entries: Seq<StacksMatch>,
    decode: bool,
    proofs: TransactionProofs,
) -> Seq<Json> {
    entries.map_values(
        |entry: StacksMatch|
            apply_entry_doc(
                stacks_transaction_doc(entry.0, decode),
                entry.1,
                proofs.proof_of(entry.0.transaction_identifier),
            ),
    )
}

/// The documents of the transactions of the contract chain to roll back, in
/// order: decoded where the hook asks for it.
pub open spec fn stacks_rollback_docs(entries: Seq<StacksMatch>, decode: bool) -> Seq<Json> {
    entries.map_values(
        |entry: StacksMatch| rollback_entry_doc(stacks_transaction_doc(entry.0, decode), entry.1),
    )
}

/// The payload of a trigger of the contract chain: the transactions to apply,
/// the transactions to roll back, and the identifier and predicate of the
/// hook. The predicate stands under two keys.
pub open spec fn stacks_payload_doc(trigger: StacksTrigger, proofs: TransactionProofs) -> Json {
    let decode = trigger.chainhook.decode_clarity_values == Some(true);
    Json::Object(
        no_fields().insert(
            "apply"@,
            Json::Array(stacks_apply_docs(trigger.apply, decode, proofs)),
        ).insert("rollback"@, Json::Array(stacks_rollback_docs(trigger.rollback, decode))).insert(
            "chainhook"@,
            Json::Object(
                no_fields().insert("uuid"@, Json::String(trigger.chainhook.uuid@)).insert(
                    "transaction_predicate"@,
                    stacks_predicate_doc(trigger.chainhook.transaction_predicate),
                ).insert(
                    "block_predicate"@,
                    stacks_predicate_doc(trigger.chainhook.transaction_predicate),
                ),
            ),
        ),
    )
}

/// The array of the documents of the transactions to apply.
fn stacks_apply_to_json(
    entries: &Vec<(&StacksTransactionData, &BlockIdentifier)>,
    decode: bool,
    proofs: &TransactionProofs,
) -> (value: serde_json::Value)
    ensures
        json_model(value) == Json::Array(
            stacks_apply_docs(stacks_matches_of(entries@), decode, *proofs),
        ),
{
    let ghost all = stacks_matches_of(entries@);
    let mut docs: Vec<serde_json::Value> = Vec::new();
    let mut i: usize = 0;
    assert(json_models(docs@) =~= stacks_apply_docs(all.take(0), decode, *proofs));
    while i < entries.len()
        invariant
            0 <= i <= entries@.len(),
            all == stacks_matches_of(entries@),
            json_models(docs@) == stacks_apply_docs(all.take(i as int), decode, *proofs),
        decreases entries@.len() - i,
    {
        let (transaction, block_identifier) = entries[i];
        let doc = apply_entry_to_json(
            stacks_transaction_to_json(transaction, decode),
            block_identifier,
            proofs.get(&transaction.transaction_identifier),
        );
        let ghost before = docs@;
        docs.push(doc);
        assert(all[i as int] == (*transaction, *block_identifier));
        assert(json_models(docs@) =~= json_models(before).push(json_model(doc)));
        assert(stacks_apply_docs(all.take(i + 1), decode, *proofs) =~= stacks_apply_docs(
            all.take(i as int),
            decode,
            *proofs,
        ).push(json_model(doc)));
        i += 1;
    }
    assert(all.take(entries@.len() as int) =~= all);
    json_array(docs)
}

/// The document of a transaction of the contract chain: decoded or as
/// reported.
fn stacks_transaction_to_json(transaction: &StacksTransactionData, decode: bool) -> (value:
    serde_json::Value)
    ensures
        json_model(value) == stacks_transaction_doc(*transaction, decode),
{
    if decode {
        encode_transaction_including_with_clarity_decoding(transaction)
    } else {
        transaction.to_json()
    }
}

/// The array of the documents of the transactions to roll back.
fn stacks_rollback_to_json(
    entries: &Vec<(&StacksTransactionData, &BlockIdentifier)>,
    decode: bool,
) -> (value: serde_json::Value)
    ensures
        json_model(value) == Json::Array(stacks_rollback_docs(stacks_matches_of(entries@), decode)),
{
    let ghost all = stacks_matches_of(entries@);
    let mut docs: Vec<serde_json::Value> = Vec::new();
    let mut i: usize = 0;
    assert(json_models(docs@) =~= stacks_rollback_docs(all.take(0), decode));
    while i < entries.len()
        invariant
            0 <= i <= entries@.len(),
            all == stacks_matches_of(entries@),
            json_models(docs@) == stacks_rollback_docs(all.take(i as int), decode),
        decreases entries@.len() - i,
    {
        let (transaction, block_identifier) = entries[i];
        let doc = rollback_entry_to_json(
            stacks_transaction_to_json(transaction, decode),
            block_identifier,
        );
        let ghost before = docs@;
        docs.push(doc);
        assert(all[i as int] == (*transaction, *block_identifier));
        assert(json_models(docs@) =~= json_models(before).push(json_model(doc)));
        assert(stacks_rollback_docs(all.take(i + 1), decode) =~= stacks_rollback_docs(
            all.take(i as int),
            decode,
        ).push(json_model(doc)));
        i += 1;
    }
    assert(all.take(entries@.len() as int) =~= all);
    json_array(docs)
}

/// Builds the payload of a trigger of the contract chain.
///
/// The trigger is used up. Where the hook asks for decoded values, every
/// transaction, to apply or to roll back, carries its result and the encoded
/// values of its events decoded; otherwise they are carried as reported. A
/// transaction to apply without a proof has a null proof.
pub fn serialize_stacks_payload_to_json<'a>(
    trigger: StacksTriggerChainhook<'a>,
    proofs: &TransactionProofs,
) -> (payload: serde_json::Value)
    ensures
        json_model(payload) == stacks_payload_doc(trigger@, *proofs),
{
    let decode_clarity_values = trigger.should_decode_clarity_value();
    let mut chainhook = json_map_new();
    json_map_insert(&mut chainhook, "uuid", json_string(trigger.chainhook.uuid.as_str()));
    json_map_insert(
        &mut chainhook,
        "transaction_predicate",
        trigger.chainhook.transaction_predicate.to_json(),
    );
    json_map_insert(
        &mut chainhook,
        "block_predicate",
        trigger.chainhook.transaction_predicate.to_json(),
    );
    let mut map = json_map_new();
    json_map_insert(
        &mut map,
        "apply",
        stacks_apply_to_json(&trigger.apply, decode_clarity_values, proofs),
    );
    json_map_insert(
        &mut map,
        "rollback",
        stacks_rollback_to_json(&trigger.rollback, decode_clarity_values),
    );
    json_map_insert(&mut map, "chainhook", json_object(chainhook));
    json_object(map)
}

} // verus!
