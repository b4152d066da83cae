//! The action dispatcher: from the matches of a hook to the descriptor of what
//! its action asks for. Nothing is sent or written here: a descriptor is handed
//! to whoever carries it out.
use vstd::prelude::*;
use vstd::string::StrSliceExecFns;
use vstd::utf8::encode_utf8;
use crate::bitcoin::{bitcoin_matches_of, BitcoinMatch, BitcoinTrigger, BitcoinTriggerChainhook};
use crate::chain::{BitcoinTransactionData, BlockIdentifier, StacksTransactionData};
use crate::json::{json_text, json_to_vec};
use crate::payload::{
    bitcoin_payload_doc, proof_value, serialize_bitcoin_payload_to_json,
    serialize_stacks_payload_to_json, stacks_payload_doc, TransactionProofs, CONFIRMATIONS,
};
use crate::stacks::{stacks_matches_of, StacksMatch, StacksTrigger, StacksTriggerChainhook};
use crate::types::{HookAction, HttpHook};

verus! {

/// An HTTP request that was built and not sent.
#[derive(Clone, Debug, PartialEq)]
pub struct HttpRequest {
    pub method: String,
    pub url: String,
    pub headers: Vec<(String, String)>,
    pub body: Vec<u8>,
}

#[derive(Clone, Debug)]
pub struct BitcoinApplyTransactionPayload {
    pub transaction: BitcoinTransactionData,
    pub block_identifier: BlockIdentifier,
    pub confirmations: u8,
    pub proof: Option<Vec<u8>>,
}

#[derive(Clone, Debug)]
pub struct BitcoinRollbackTransactionPayload {
    pub transaction: BitcoinTransactionData,
    pub block_identifier: BlockIdentifier,
    pub confirmations: u8,
}

#[derive(Clone, Debug)]
pub struct BitcoinChainhookPayload {
    pub uuid: String,
}

/// The matches of a hook of the UTXO chain as data of their own, which
/// borrows nothing.
#[derive(Clone, Debug)]
pub struct BitcoinChainhookOccurrencePayload {
    pub apply: Vec<BitcoinApplyTransactionPayload>,
    pub rollback: Vec<BitcoinRollbackTransactionPayload>,
    pub chainhook: BitcoinChainhookPayload,
}

/// What the action of a hook of the UTXO chain asks for.
#[derive(Debug)]
pub enum BitcoinChainhookOccurrence {
    Http(HttpRequest),
    File(String, Vec<u8>),
    Data(BitcoinChainhookOccurrencePayload),
}

#[derive(Clone, Debug)]
pub struct StacksApplyTransactionPayload {
    pub transaction: StacksTransactionData,
    pub block_identifier: BlockIdentifier,
    pub confirmations: u8,
    pub proof: Option<Vec<u8>>,
}

#[derive(Clone, Debug)]
pub struct StacksRollbackTransactionPayload {
    pub transaction: StacksTransactionData,
    pub block_identifier: BlockIdentifier,
    pub confirmations: u8,
}

#[derive(Clone, Debug)]
pub struct StacksChainhookPayload {
    pub uuid: String,
}

/// The matches of a hook of the contract chain as data of their own, which
/// borrows nothing.
#[derive(Clone, Debug)]
pub struct StacksChainhookOccurrencePayload {
    pub apply: Vec<StacksApplyTransactionPayload>,
    pub rollback: Vec<StacksRollbackTransactionPayload>,
    pub chainhook: StacksChainhookPayload,
}

/// What the action of a hook of the contract chain asks for.
#[derive(Debug)]
pub enum StacksChainhookOccurrence {
    Http(HttpRequest),
    File(String, Vec<u8>),
    Data(StacksChainhookOccurrencePayload),
}

/// Whether a character may stand in an HTTP method: a letter, a digit, or one
/// of a few signs.
pub open spec fn is_http_method_char(c: char) -> bool {
    ||| ('A' <= c && c <= 'Z')
    ||| ('a' <= c && c <= 'z')
    ||| ('0' <= c && c <= '9')
    ||| c == '!'
    ||| c == '*'
    ||| c == '+'
    ||| c == '-'
    ||| c == '.'
    ||| c == '^'
    ||| c == '_'
    ||| c == '`'
    ||| c == '|'
    ||| c == '~'
}

/// Whether a text is accepted as an HTTP method: it is not empty and made of
/// method characters only.
pub open spec fn http_method_accepted(method: Seq<char>) -> bool {
    &&& method.len() > 0
    &&& forall|i: int| 0 <= i < method.len() ==> is_http_method_char(#[trigger] method[i])
}

/// `reqwest::Method::from_bytes` on the bytes of the text: whether the text is
/// accepted as an HTTP method. The parser accepts the standard methods and
/// every other text that is not empty and whose bytes all stand in its table
/// of method characters.
#[verifier::external_body]
pub(crate) fn is_http_method(method: &str) -> (accepted: bool)
    ensures
        accepted == http_method_accepted(method@),
{
    reqwest::Method::from_bytes(method.as_bytes()).is_ok()
}

/// The names and values that a list of headers holds.
pub open spec fn header_views(headers: Seq<(String, String)>) -> Seq<(Seq<char>, Seq<char>)> {
    headers.map_values(|header: (String, String)| (header.0@, header.1@))
}

/// The headers of the request of a hook: the content type and, where the hook
/// authorizes itself, its authorization.
pub open spec fn request_headers(http: HttpHook, authorize: bool) -> Seq<(Seq<char>, Seq<char>)> {
    if authorize {
        seq![
            ("Content-Type"@, "application/json"@),
            ("Authorization"@, http.authorization_header@),
        ]
    } else {
        seq![("Content-Type"@, "application/json"@)]
    }
}

/// Whether a request is the one that a hook asks for, with the given body:
/// the method and URL of the hook, its headers, and the body.
pub open spec fn is_request_of(
    request: HttpRequest,
    http: HttpHook,
    authorize: bool,
    body: Seq<u8>,
) -> bool {
    &&& request.method@ == http.method@
    &&& request.url@ == http.url@
    &&& header_views(request.headers@) == request_headers(http, authorize)
    &&& request.body@ == body
}

/// Builds the request that a hook asks for, with the given body. A hook whose
/// method was not accepted as an HTTP method gets no request.
pub fn build_http_request(
    http: &HttpHook,
    method_accepted: bool,
    authorize: bool,
    body: Vec<u8>,
) -> (request: Option<HttpRequest>)
    ensures
        request is Some <==> method_accepted,
        request matches Some(built) ==> is_request_of(built, *http, authorize, body@),
{
    if !method_accepted {
        return None;
    }
    let mut headers: Vec<(String, String)> = Vec::new();
    headers.push(("Content-Type".to_owned(), "application/json".to_owned()));
    if authorize {
        headers.push(("Authorization".to_owned(), http.authorization_header.clone()));
    }
    assert(header_views(headers@) =~= request_headers(*http, authorize));
    Some(HttpRequest { method: http.method.clone(), url: http.url.clone(), headers, body })
}

/// The bytes of a proof as a payload carries them: the UTF-8 encoding of its
/// text.
pub open spec fn proof_bytes(held: Option<String>) -> Option<Seq<u8>> {
    match held {
        Some(text) => Some(encode_utf8(text@)),
        None => None,
    }
}

/// The bytes that a payload carries as a proof.
pub open spec fn carried_proof(carried: Option<Vec<u8>>) -> Option<Seq<u8>> {
    match carried {
        Some(bytes) => Some(bytes@),
        None => None,
    }
}

/// The bytes of a proof that may be absent.
fn proof_to_bytes(held: Option<&String>) -> (bytes: Option<Vec<u8>>)
    ensures
        carried_proof(bytes) == proof_bytes(proof_value(held)),
{
    match held {
        Some(text) => Some(text.as_str().as_bytes_vec()),
        None => None,
    }
}

/// Whether a record is the copy of a match of the UTXO chain to apply.
pub open spec fn is_bitcoin_apply_payload(
    payload: BitcoinApplyTransactionPayload,
    entry: BitcoinMatch,
    proofs: TransactionProofs,
) -> bool {
    &&& payload.transaction.same_as(entry.0)
    &&& payload.block_identifier == entry.1
    &&& payload.confirmations == CONFIRMATIONS
    &&& carried_proof(payload.proof) == proof_bytes(
        proofs.proof_of(entry.0.transaction_identifier),
    )
}

/// Whether a record is the copy of a match of the UTXO chain to roll back.
pub open spec fn is_bitcoin_rollback_payload(
    payload: BitcoinRollbackTransactionPayload,
    entry: BitcoinMatch,
) -> bool {
    &&& payload.transaction.same_as(entry.0)
    &&& payload.block_identifier == entry.1
    &&& payload.confirmations == CONFIRMATIONS
}

/// Whether a record is the copy of a trigger of the UTXO chain: entry by
/// entry in the same order, with the identifier of the hook.
pub open spec fn is_bitcoin_occurrence_payload(
    payload: BitcoinChainhookOccurrencePayload,
    trigger: BitcoinTrigger,
    proofs: TransactionProofs,
) -> bool {
    &&& payload.apply@.len() == trigger.apply.len()
    &&& forall|i: int|
        0 <= i < trigger.apply.len() ==> is_bitcoin_apply_payload(
            #[trigger] payload.apply@[i],
            trigger.apply[i],
            proofs,
        )
    &&& payload.rollback@.len() == trigger.rollback.len()
    &&& forall|i: int|
        0 <= i < trigger.rollback.len() ==> is_bitcoin_rollback_payload(
            #[trigger] payload.rollback@[i],
            trigger.rollback[i],
        )
    &&& payload.chainhook.uuid@ == trigger.chainhook.uuid@
}

/// Whether an occurrence is what the action of the hook of a trigger of the
/// UTXO chain asks for.
///
/// An HTTP action asks for a request with the method and URL of the hook, the
/// content type, the authorization of the hook, and the payload as body; with
/// a method that is no HTTP method it asks for nothing. A file action asks
/// for the path of the hook and the payload as bytes. The third action asks
/// for the matches as data.
pub open spec fn is_bitcoin_occurrence(
    occurrence: Option<BitcoinChainhookOccurrence>,
    trigger: BitcoinTrigger,
    proofs: TransactionProofs,
) -> bool {
    let body = json_text(bitcoin_payload_doc(trigger, proofs));
    match trigger.chainhook.action {
        HookAction::Http(http) => if http_method_accepted(http.method@) {
            occurrence matches Some(BitcoinChainhookOccurrence::Http(request)) && is_request_of(
                request,
                http,
                true,
                body,
            )
        } else {
            occurrence is None
        },
        HookAction::File(disk) => occurrence matches Some(
            BitcoinChainhookOccurrence::File(path, bytes),
        ) && path@ == disk.path@ && bytes@ == body,
        HookAction::Noop => occurrence matches Some(BitcoinChainhookOccurrence::Data(payload))
            && is_bitcoin_occurrence_payload(payload, trigger, proofs),
    }
}

/// The copies of the matches of the UTXO chain to apply.
fn bitcoin_apply_payloads(
    entries: &Vec<(&BitcoinTransactionData, &BlockIdentifier)>,
    proofs: &TransactionProofs,
) -> (payloads: Vec<BitcoinApplyTransactionPayload>)
    ensures
        payloads@.len() == entries@.len(),
        forall|i: int|
            0 <= i < entries@.len() ==> is_bitcoin_apply_payload(
                #[trigger] payloads@[i],
                bitcoin_matches_of(entries@)[i],
                *proofs,
            ),
{
    let mut payloads: Vec<BitcoinApplyTransactionPayload> = Vec::new();
    let mut i: usize = 0;
    while i < entries.len()
        invariant
            0 <= i <= entries@.len(),
            payloads@.len() == i,
            forall|k: int|
                0 <= k < i ==> is_bitcoin_apply_payload(
                    #[trigger] payloads@[k],
                    bitcoin_matches_of(entries@)[k],
                    *proofs,
                ),
        decreases entries@.len() - i,
    {
        let (transaction, block_identifier) = entries[i];
        payloads.push(
            BitcoinApplyTransactionPayload {
                transaction: transaction.clone(),
                block_identifier: block_identifier.clone(),
                confirmations: CONFIRMATIONS,
                proof: proof_to_bytes(proofs.get(&transaction.transaction_identifier)),
            },
        );
        i += 1;
    }
    payloads
}

/// The copies of the matches of the UTXO chain to roll back.
fn bitcoin_rollback_payloads(entries: &Vec<(&BitcoinTransactionData, &BlockIdentifier)>) -> (payloads:
    Vec<BitcoinRollbackTransactionPayload>)
    ensures
        payloads@.len() == entries@.len(),
        forall|i: int|
            0 <= i < entries@.len() ==> is_bitcoin_rollback_payload(
                #[trigger] payloads@[i],
                bitcoin_matches_of(entries@)[i],
            ),
{
    let mut payloads: Vec<BitcoinRollbackTransactionPayload> = Vec::new();
    let mut i: usize = 0;
    while i < entries.len()
        invariant
            0 <= i <= entries@.len(),
            payloads@.len() == i,
            forall|k: int|
                0 <= k < i ==> is_bitcoin_rollback_payload(
                    #[trigger] payloads@[k],
                    bitcoin_matches_of(entries@)[k],
                ),
        decreases entries@.len() - i,
    {
        let (transaction, block_identifier) = entries[i];
        payloads.push(
            BitcoinRollbackTransactionPayload {
                transaction: transaction.clone(),
                block_identifier: block_identifier.clone(),
                confirmations: CONFIRMATIONS,
            },
        );
        i += 1;
    }
    payloads
}

/// Turns the matches of a hook of the UTXO chain into what the action of the
/// hook asks for.
///
/// The trigger is used up. No request is sent and no file is written.
pub fn handle_bitcoin_hook_action<'a>(
    trigger: BitcoinTriggerChainhook<'a>,
    proofs: &TransactionProofs,
) -> (occurrence: Option<BitcoinChainhookOccurrence>)
    ensures
        is_bitcoin_occurrence(occurrence, trigger@, *proofs),
{
    let chainhook = trigger.chainhook;
    match &chainhook.action {
        HookAction::Http(http) => {
            let accepted = is_http_method(http.method.as_str());
            let payload = serialize_bitcoin_payload_to_json(trigger, proofs);
            let body = json_to_vec(&payload);
            match build_http_request(http, accepted, true, body) {
                Some(request) => Some(BitcoinChainhookOccurrence::Http(request)),
                None => None,
            }
        },
        HookAction::File(disk) => {
            let payload = serialize_bitcoin_payload_to_json(trigger, proofs);
            let bytes = json_to_vec(&payload);
            Some(BitcoinChainhookOccurrence::File(disk.path.clone(), bytes))
        },
        HookAction::Noop => {
            let apply = bitcoin_apply_payloads(&trigger.apply, proofs);
            let rollback = bitcoin_rollback_payloads(&trigger.rollback);
            Some(
                BitcoinChainhookOccurrence::Data(
                    BitcoinChainhookOccurrencePayload {
                        apply,
                        rollback,
                        chainhook: BitcoinChainhookPayload { uuid: chainhook.uuid.clone() },
                    },
                ),
            )
        },
    }
}

/// Whether a record is the copy of a match of the contract chain to apply.
pub open spec fn is_stacks_apply_payload(
    payload: StacksApplyTransactionPayload,
    entry: StacksMatch,
    proofs: TransactionProofs,
) -> bool {
    &&& payload.transaction.same_as(entry.0)
    &&& payload.block_identifier == entry.1
    &&& payload.confirmations == CONFIRMATIONS
    &&& carried_proof(payload.proof) == proof_bytes(
        proofs.proof_of(entry.0.transaction_identifier),
    )
}

/// Whether a record is the copy of a match of the contract chain to roll
/// back.
pub open spec fn is_stacks_rollback_payload(
    payload: StacksRollbackTransactionPayload,
    entry: StacksMatch,
) -> bool {
    &&& payload.transaction.same_as(entry.0)
    &&& payload.block_identifier == entry.1
    &&& payload.confirmations == CONFIRMATIONS
}

/// Whether a record is the copy of a trigger of the contract chain: entry by
/// entry in the same order, with the identifier of the hook.
pub open spec fn is_stacks_occurrence_payload(
    payload: StacksChainhookOccurrencePayload,
    trigger: StacksTrigger,
    proofs: TransactionProofs,
) -> bool {
    &&& payload.apply@.len() == trigger.apply.len()
    &&& forall|i: int|
        0 <= i < trigger.apply.len() ==> is_stacks_apply_payload(
            #[trigger] payload.apply@[i],
            trigger.apply[i],
            proofs,
        )
    &&& payload.rollback@.len() == trigger.rollback.len()
    &&& forall|i: int|
        0 <= i < trigger.rollback.len() ==> is_stacks_rollback_payload(
            #[trigger] payload.rollback@[i],
            trigger.rollback[i],
        )
    &&& payload.chainhook.uuid@ == trigger.chainhook.uuid@
}

/// Whether an occurrence is what the action of the hook of a trigger of the
/// contract chain asks for.
///
/// An HTTP action asks for a request with the method and URL of the hook, the
/// content type, and the payload as body; with a method that is no HTTP
/// method it asks for nothing. A file action asks for the path of the hook and
/// the payload as bytes. The third action asks for the matches as data.
pub open spec fn is_stacks_occurrence(
    occurrence: Option<StacksChainhookOccurrence>,
    trigger: StacksTrigger,
    proofs: TransactionProofs,
) -> bool {
    let body = json_text(stacks_payload_doc(trigger, proofs));
    match trigger.chainhook.action {
        HookAction::Http(http) => if http_method_accepted(http.method@) {
            occurrence matches Some(StacksChainhookOccurrence::Http(request)) && is_request_of(
                request,
                http,
                false,
                body,
            )
        } else {
            occurrence is None
        },
        HookAction::File(disk) => occurrence matches Some(
            StacksChainhookOccurrence::File(path, bytes),
        ) && path@ == disk.path@ && bytes@ == body,
        HookAction::Noop => occurrence matches Some(StacksChainhookOccurrence::Data(payload))
            && is_stacks_occurrence_payload(payload, trigger, proofs),
    }
}

/// The copies of the matches of the contract chain to apply.
fn stacks_apply_payloads(
    entries: &Vec<(&StacksTransactionData, &BlockIdentifier)>,
    proofs: &TransactionProofs,
) -> (payloads: Vec<StacksApplyTransactionPayload>)
    ensures
        payloads@.len() == entries@.len(),
        forall|i: int|
            0 <= i < entries@.len() ==> is_stacks_apply_payload(
                #[trigger] payloads@[i],
                stacks_matches_of(entries@)[i],
                *proofs,
            ),
{
    let mut payloads: Vec<StacksApplyTransactionPayload> = Vec::new();
    let mut i: usize = 0;
    while i < entries.len()
        invariant
            0 <= i <= entries@.len(),
            payloads@.len() == i,
            forall|k: int|
                0 <= k < i ==> is_stacks_apply_payload(
                    #[trigger] payloads@[k],
                    stacks_matches_of(entries@)[k],
                    *proofs,
                ),
        decreases entries@.len() - i,
    {
        let (transaction, block_identifier) = entries[i];
        payloads.push(
            StacksApplyTransactionPayload {
                transaction: transaction.clone(),
                block_identifier: block_identifier.clone(),
                confirmations: CONFIRMATIONS,
                proof: proof_to_bytes(proofs.get(&transaction.transaction_identifier)),
            },
        );
        i += 1;
    }
    payloads
}

/// The copies of the matches of the contract chain to roll back.
fn stacks_rollback_payloads(entries: &Vec<(&StacksTransactionData, &BlockIdentifier)>) -> (payloads:
    Vec<StacksRollbackTransactionPayload>)
    ensures
        payloads@.len() == entries@.len(),
        forall|i: int|
            0 <= i < entries@.len() ==> is_stacks_rollback_payload(
                #[trigger] payloads@[i],
                stacks_matches_of(entries@)[i],
            ),
{
    let mut payloads: Vec<StacksRollbackTransactionPayload> = Vec::new();
    let mut i: usize = 0;
    while i < entries.len()
        invariant
            0 <= i <= entries@.len(),
            payloads@.len() == i,
            forall|k: int|
                0 <= k < i ==> is_stacks_rollback_payload(
                    #[trigger] payloads@[k],
                    stacks_matches_of(entries@)[k],
                ),
        decreases entries@.len() - i,
    {
        let (transaction, block_identifier) = entries[i];
        payloads.push(
            StacksRollbackTransactionPayload {
                transaction: transaction.clone(),
                block_identifier: block_identifier.clone(),
                confirmations: CONFIRMATIONS,
            },
        );
        i += 1;
    }
    payloads
}

/// Turns the matches of a hook of the contract chain into what the action of
/// the hook asks for.
///
/// The trigger is used up. No request is sent and no file is written.
pub fn handle_stacks_hook_action<'a>(
    trigger: StacksTriggerChainhook<'a>,
    proofs: &TransactionProofs,
) -> (occurrence: Option<StacksChainhookOccurrence>)
    ensures
        is_stacks_occurrence(occurrence, trigger@, *proofs),
{
    let chainhook = trigger.chainhook;
    match &chainhook.action {
        HookAction::Http(http) => {
            let accepted = is_http_method(http.method.as_str());
            let payload = serialize_stacks_payload_to_json(trigger, proofs);
            let body = json_to_vec(&payload);
            match build_http_request(http, accepted, false, body) {
                Some(request) => Some(StacksChainhookOccurrence::Http(request)),
                None => None,
            }
        },
        HookAction::File(disk) => {
            let payload = serialize_stacks_payload_to_json(trigger, proofs);
            let bytes = json_to_vec(&payload);
            Some(StacksChainhookOccurrence::File(disk.path.clone(), bytes))
        },
        HookAction::Noop => {
            let apply = stacks_apply_payloads(&trigger.apply, proofs);
            let rollback = stacks_rollback_payloads(&trigger.rollback);
            Some(
                StacksChainhookOccurrence::Data(
                    StacksChainhookOccurrencePayload {
                        apply,
                        rollback,
                        chainhook: StacksChainhookPayload { uuid: chainhook.uuid.clone() },
                    },
                ),
            )
        },
    }
}

} // verus!
