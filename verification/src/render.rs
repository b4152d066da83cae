//! The JSON documents of chain data.
//!
//! Every kind of chain data has one document, which a payload carries as it
//! is. A transaction of the contract chain has a second one, in which the
//! encoded values of its result and of its events are decoded.
use vstd::prelude::*;
use crate::chain::{
    BitcoinTransactionData, BlockIdentifier, StacksTransactionData, StacksTransactionEvent,
    StacksTransactionKind, TransactionIdentifier, TxOut,
};
use crate::clarity::{decoded_value_doc, serialized_decoded_clarity_value};
use crate::json::{
    json_array, json_bool, json_fields, json_map_insert, json_map_new, json_model, json_models,
    json_object, json_optional_string, json_string, json_strings, json_u64, no_fields,
    optional_string_doc, present_json_model, present_string_doc, string_docs, with_present, Json,
};

verus! {

/// One field of an object of texts: its key, its text, and whether the text is
/// an encoded value that is decoded.
pub type FieldRow = (Seq<char>, Seq<char>, bool);

/// The document of one field: the decoded value, or the text as a string.
pub open spec fn field_row_doc(row: FieldRow) -> Json {
    if row.2 {
        decoded_value_doc(row.1)
    } else {
        Json::String(row.1)
    }
}

/// The entries of the object of the fields: each key with the document of its
/// field.
pub open spec fn field_rows_object(rows: Seq<FieldRow>) -> Map<Seq<char>, Json>
    decreases rows.len(),
{
    if rows.len() == 0 {
        no_fields()
    } else {
        field_rows_object(rows.drop_last()).insert(rows.last().0, field_row_doc(rows.last()))
    }
}

/// The fields that a list of borrowed fields holds.
pub open spec fn field_rows_of(rows: Seq<(&str, &String, bool)>) -> Seq<FieldRow> {
    rows.map_values(|row: (&str, &String, bool)| (row.0@, row.1@, row.2))
}

/// The object of the given fields.
fn fields_to_json(rows: &Vec<(&str, &String, bool)>) -> (value: serde_json::Value)
    ensures
        json_model(value) == Json::Object(field_rows_object(field_rows_of(rows@))),
{
    let ghost all = field_rows_of(rows@);
    let mut map = json_map_new();
    let mut i: usize = 0;
    assert(all.take(0) =~= Seq::empty());
    while i < rows.len()
        invariant
            0 <= i <= rows@.len(),
            all == field_rows_of(rows@),
            json_fields(map) == field_rows_object(all.take(i as int)),
        decreases rows@.len() - i,
    {
        let row = &rows[i];
        proof {
            assert(all.take(i + 1).drop_last() =~= all.take(i as int));
            assert(all.take(i + 1).last() == (row.0@, row.1@, row.2));
        }
        let doc = if row.2 {
            serialized_decoded_clarity_value(row.1.as_str())
        } else {
            json_string(row.1.as_str())
        };
        json_map_insert(&mut map, row.0, doc);
        i += 1;
    }
    assert(all.take(rows@.len() as int) =~= all);
    json_object(map)
}

/// The document of what is tagged with a name: the name under `type` and the
/// data under `data`.
pub open spec fn tagged_doc(name: Seq<char>, data: Json) -> Json {
    Json::Object(no_fields().insert("type"@, Json::String(name)).insert("data"@, data))
}

/// The document of a bare tag: the name under `type`.
pub open spec fn tag_doc(name: Seq<char>) -> Json {
    Json::Object(no_fields().insert("type"@, Json::String(name)))
}

/// The document of what is tagged with a name.
fn tagged_to_json(name: &str, data: serde_json::Value) -> (value: serde_json::Value)
    ensures
        json_model(value) == tagged_doc(name@, json_model(data)),
{
    let mut map = json_map_new();
    json_map_insert(&mut map, "type", json_string(name));
    json_map_insert(&mut map, "data", data);
    json_object(map)
}

/// The document of a bare tag.
fn tag_to_json(name: &str) -> (value: serde_json::Value)
    ensures
        json_model(value) == tag_doc(name@),
{
    let mut map = json_map_new();
    json_map_insert(&mut map, "type", json_string(name));
    json_object(map)
}

/// The document of a transaction identifier.
pub open spec fn transaction_identifier_doc(identifier: TransactionIdentifier) -> Json {
    Json::Object(no_fields().insert("hash"@, Json::String(identifier.hash@)))
}

/// The document of a block identifier.
pub open spec fn block_identifier_doc(identifier: BlockIdentifier) -> Json {
    Json::Object(
        no_fields().insert("index"@, Json::Number(identifier.index as int)).insert(
            "hash"@,
            Json::String(identifier.hash@),
        ),
    )
}

/// The document of an output.
pub open spec fn tx_out_doc(output: TxOut) -> Json {
    Json::Object(
        no_fields().insert("value"@, Json::Number(output.value as int)).insert(
            "script_pubkey"@,
            Json::String(output.script_pubkey@),
        ),
    )
}

/// The documents of a list of outputs, in order.
pub open spec fn tx_out_docs(outputs: Seq<TxOut>) -> Seq<Json> {
    outputs.map_values(|output: TxOut| tx_out_doc(output))
}

/// The document of a transaction of the UTXO chain.
pub open spec fn bitcoin_transaction_doc(tx: BitcoinTransactionData) -> Json {
    Json::Object(
        no_fields().insert(
            "transaction_identifier"@,
            transaction_identifier_doc(tx.transaction_identifier),
        ).insert("operations"@, json_model(tx.operations)).insert(
            "metadata"@,
            Json::Object(
                no_fields().insert("inputs"@, json_model(tx.metadata.inputs)).insert(
                    "outputs"@,
                    Json::Array(tx_out_docs(tx.metadata.outputs@)),
                ).insert("stacks_operations"@, json_model(tx.metadata.stacks_operations)).insert(
                    "ordinal_operations"@,
                    json_model(tx.metadata.ordinal_operations),
                ).insert("proof"@, optional_string_doc(tx.metadata.proof)).insert(
                    "fee"@,
                    Json::Number(tx.metadata.fee as int),
                ),
            ),
        ),
    )
}

impl TransactionIdentifier {
    /// Renders the identifier as its document.
    pub fn to_json(&self) -> (value: serde_json::Value)
        ensures
            json_model(value) == transaction_identifier_doc(*self),
    {
        let mut map = json_map_new();
        json_map_insert(&mut map, "hash", json_string(self.hash.as_str()));
        json_object(map)
    }
}

impl BlockIdentifier {
    /// Renders the identifier as its document.
    pub fn to_json(&self) -> (value: serde_json::Value)
        ensures
            json_model(value) == block_identifier_doc(*self),
    {
        let mut map = json_map_new();
        json_map_insert(&mut map, "index", json_u64(self.index));
        json_map_insert(&mut map, "hash", json_string(self.hash.as_str()));
        json_object(map)
    }
}

impl TxOut {
    /// Renders the output as its document.
    pub fn to_json(&self) -> (value: serde_json::Value)
        ensures
            json_model(value) == tx_out_doc(*self),
    {
        let mut map = json_map_new();
        json_map_insert(&mut map, "value", json_u64(self.value));
        json_map_insert(&mut map, "script_pubkey", json_string(self.script_pubkey.as_str()));
        json_object(map)
    }
}

impl BitcoinTransactionData {
    /// Renders the transaction as its document.
    pub fn to_json(&self) -> (value: serde_json::Value)
        ensures
            json_model(value) == bitcoin_transaction_doc(*self),
    {
        let mut outputs: Vec<serde_json::Value> = Vec::new();
        let mut i: usize = 0;
        while i < self.metadata.outputs.len()
            invariant
                0 <= i <= self.metadata.outputs@.len(),
                json_models(outputs@) == tx_out_docs(self.metadata.outputs@.take(i as int)),
            decreases self.metadata.outputs@.len() - i,
        {
            let output = self.metadata.outputs[i].to_json();
            let ghost before = outputs@;
            outputs.push(output);
            assert(json_models(outputs@) =~= json_models(before).push(json_model(output)));
            assert(tx_out_docs(self.metadata.outputs@.take(i + 1)) =~= tx_out_docs(
                self.metadata.outputs@.take(i as int),
            ).push(tx_out_doc(self.metadata.outputs@[i as int])));
            i += 1;
        }
        assert(self.metadata.outputs@.take(self.metadata.outputs@.len() as int)
            =~= self.metadata.outputs@);
        let mut metadata = json_map_new();
        json_map_insert(&mut metadata, "inputs", self.metadata.inputs.clone());
        json_map_insert(&mut metadata, "outputs", json_array(outputs));
        json_map_insert(&mut metadata, "stacks_operations", self.metadata.stacks_operations.clone());
        json_map_insert(
            &mut metadata,
            "ordinal_operations",
            self.metadata.ordinal_operations.clone(),
        );
        json_map_insert(&mut metadata, "proof", json_optional_string(&self.metadata.proof));
        json_map_insert(&mut metadata, "fee", json_u64(self.metadata.fee));
        let mut map = json_map_new();
        json_map_insert(&mut map, "transaction_identifier", self.transaction_identifier.to_json());
        json_map_insert(&mut map, "operations", self.operations.clone());
        json_map_insert(&mut map, "metadata", json_object(metadata));
        json_object(map)
    }
}

/// The name of an event, as its document carries it.
pub open spec fn event_name(event: StacksTransactionEvent) -> Seq<char> {
    match event {
        StacksTransactionEvent::STXTransferEvent(_) => "STXTransferEvent"@,
        StacksTransactionEvent::STXMintEvent(_) => "STXMintEvent"@,
        StacksTransactionEvent::STXLockEvent(_) => "STXLockEvent"@,
        StacksTransactionEvent::STXBurnEvent(_) => "STXBurnEvent"@,
        StacksTransactionEvent::NFTTransferEvent(_) => "NFTTransferEvent"@,
        StacksTransactionEvent::NFTMintEvent(_) => "NFTMintEvent"@,
        StacksTransactionEvent::NFTBurnEvent(_) => "NFTBurnEvent"@,
        StacksTransactionEvent::FTTransferEvent(_) => "FTTransferEvent"@,
        StacksTransactionEvent::FTMintEvent(_) => "FTMintEvent"@,
        StacksTransactionEvent::FTBurnEvent(_) => "FTBurnEvent"@,
        StacksTransactionEvent::DataVarSetEvent(_) => "DataVarSetEvent"@,
        StacksTransactionEvent::DataMapInsertEvent(_) => "DataMapInsertEvent"@,
        StacksTransactionEvent::DataMapUpdateEvent(_) => "DataMapUpdateEvent"@,
        StacksTransactionEvent::DataMapDeleteEvent(_) => "DataMapDeleteEvent"@,
        StacksTransactionEvent::SmartContractEvent(_) => "SmartContractEvent"@,
    }
}

/// The fields of the data of an event as the event source reports them:
/// encoded values are carried as their hexadecimal text.
pub open spec fn event_fields(event: StacksTransactionEvent) -> Seq<FieldRow> {
    match event {
        StacksTransactionEvent::STXTransferEvent(data) => seq![
            ("sender"@, data.sender@, false),
            ("recipient"@, data.recipient@, false),
            ("amount"@, data.amount@, false),
        ],
        StacksTransactionEvent::STXMintEvent(data) => seq![
            ("recipient"@, data.recipient@, false),
            ("amount"@, data.amount@, false),
        ],
        StacksTransactionEvent::STXLockEvent(data) => seq![
            ("locked_amount"@, data.locked_amount@, false),
            ("unlock_height"@, data.unlock_height@, false),
            ("locked_address"@, data.locked_address@, false),
        ],
        StacksTransactionEvent::STXBurnEvent(data) => seq![
            ("sender"@, data.sender@, false),
            ("amount"@, data.amount@, false),
        ],
        StacksTransactionEvent::NFTTransferEvent(data) => seq![
            ("asset_identifier"@, data.asset_class_identifier@, false),
            ("raw_value"@, data.hex_asset_identifier@, false),
            ("sender"@, data.sender@, false),
            ("recipient"@, data.recipient@, false),
        ],
        StacksTransactionEvent::NFTMintEvent(data) => seq![
            ("asset_identifier"@, data.asset_class_identifier@, false),
            ("raw_value"@, data.hex_asset_identifier@, false),
            ("recipient"@, data.recipient@, false),
        ],
        StacksTransactionEvent::NFTBurnEvent(data) => seq![
            ("asset_identifier"@, data.asset_class_identifier@, false),
            ("raw_value"@, data.hex_asset_identifier@, false),
            ("sender"@, data.sender@, false),
        ],
        StacksTransactionEvent::FTTransferEvent(data) => seq![
            ("asset_identifier"@, data.asset_class_identifier@, false),
            ("sender"@, data.sender@, false),
            ("recipient"@, data.recipient@, false),
            ("amount"@, data.amount@, false),
        ],
        StacksTransactionEvent::FTMintEvent(data) => seq![
            ("asset_identifier"@, data.asset_class_identifier@, false),
            ("recipient"@, data.recipient@, false),
            ("amount"@, data.amount@, false),
        ],
        StacksTransactionEvent::FTBurnEvent(data) => seq![
            ("asset_identifier"@, data.asset_class_identifier@, false),
            ("sender"@, data.sender@, false),
            ("amount"@, data.amount@, false),
        ],
        StacksTransactionEvent::DataVarSetEvent(data) => seq![
            ("contract_identifier"@, data.contract_identifier@, false),
            ("var"@, data.var@, false),
            ("raw_new_value"@, data.hex_new_value@, false),
        ],
        StacksTransactionEvent::DataMapInsertEvent(data) => seq![
            ("contract_identifier"@, data.contract_identifier@, false),
            ("map"@, data.map@, false),
            ("raw_inserted_key"@, data.hex_inserted_key@, false),
            ("raw_inserted_value"@, data.hex_inserted_value@, false),
        ],
        StacksTransactionEvent::DataMapUpdateEvent(data) => seq![
            ("contract_identifier"@, data.contract_identifier@, false),
            ("map"@, data.map@, false),
            ("raw_key"@, data.hex_key@, false),
            ("raw_new_value"@, data.hex_new_value@, false),
        ],
        StacksTransactionEvent::DataMapDeleteEvent(data) => seq![
            ("contract_identifier"@, data.contract_identifier@, false),
            ("map"@, data.map@, false),
            ("raw_deleted_key"@, data.hex_deleted_key@, false),
        ],
        StacksTransactionEvent::SmartContractEvent(data) => seq![
            ("contract_identifier"@, data.contract_identifier@, false),
            ("topic"@, data.topic@, false),
            ("raw_value"@, data.hex_value@, false),
        ],
    }
}

/// The fields of the data of an event with its encoded values decoded. The
/// events of the native token and of fungible tokens carry no encoded value:
/// their fields are those that the event source reports.
pub open spec fn event_decoded_fields(event: StacksTransactionEvent) -> Seq<FieldRow> {
    match event {
        StacksTransactionEvent::NFTTransferEvent(data) => seq![
            ("asset_class_identifier"@, data.asset_class_identifier@, false),
            ("asset_identifier"@, data.hex_asset_identifier@, true),
            ("sender"@, data.sender@, false),
            ("recipient"@, data.recipient@, false),
        ],
        StacksTransactionEvent::NFTMintEvent(data) => seq![
            ("asset_class_identifier"@, data.asset_class_identifier@, false),
            ("asset_identifier"@, data.hex_asset_identifier@, true),
            ("recipient"@, data.recipient@, false),
        ],
        StacksTransactionEvent::NFTBurnEvent(data) => seq![
            ("asset_class_identifier"@, data.asset_class_identifier@, false),
            ("asset_identifier"@, data.hex_asset_identifier@, true),
            ("sender"@, data.sender@, false),
        ],
        StacksTransactionEvent::DataVarSetEvent(data) => seq![
            ("contract_identifier"@, data.contract_identifier@, false),
            ("var"@, data.var@, false),
            ("new_value"@, data.hex_new_value@, true),
        ],
        StacksTransactionEvent::DataMapInsertEvent(data) => seq![
            ("contract_identifier"@, data.contract_identifier@, false),
            ("map"@, data.map@, false),
            ("inserted_key"@, data.hex_inserted_key@, true),
            ("inserted_value"@, data.hex_inserted_value@, true),
        ],
        StacksTransactionEvent::DataMapUpdateEvent(data) => seq![
            ("contract_identifier"@, data.contract_identifier@, false),
            ("map"@, data.map@, false),
            ("key"@, data.hex_key@, true),
            ("new_value"@, data.hex_new_value@, true),
        ],
        StacksTransactionEvent::DataMapDeleteEvent(data) => seq![
            ("contract_identifier"@, data.contract_identifier@, false),
            ("map"@, data.map@, false),
            ("deleted_key"@, data.hex_deleted_key@, true),
        ],
        StacksTransactionEvent::SmartContractEvent(data) => seq![
            ("contract_identifier"@, data.contract_identifier@, false),
            ("topic"@, data.topic@, false),
            ("value"@, data.hex_value@, true),
        ],
        _ => event_fields(event),
    }
}

/// The texts of the fields that are encoded values, in the order of the
/// fields.
pub open spec fn encoded_field_texts(rows: Seq<FieldRow>) -> Seq<Seq<char>>
    decreases rows.len(),
{
    if rows.len() == 0 {
        Seq::empty()
    } else if rows.last().2 {
        encoded_field_texts(rows.drop_last()).push(rows.last().1)
    } else {
        encoded_field_texts(rows.drop_last())
    }
}

/// The texts that a list of borrowed texts holds.
pub open spec fn texts_of(texts: Seq<&String>) -> Seq<Seq<char>> {
    texts.map_values(|text: &String| text@)
}

/// The document of an event as the event source reports it.
pub open spec fn event_doc(event: StacksTransactionEvent) -> Json {
    tagged_doc(event_name(event), Json::Object(field_rows_object(event_fields(event))))
}

/// The document of an event with its encoded values decoded.
pub open spec fn decoded_event_doc(event: StacksTransactionEvent) -> Json {
    tagged_doc(event_name(event), Json::Object(field_rows_object(event_decoded_fields(event))))
}

impl StacksTransactionEvent {
    /// The name of the event.
    pub fn name(&self) -> (name: &'static str)
        ensures
            name@ == event_name(*self),
    {
        match self {
            StacksTransactionEvent::STXTransferEvent(_) => "STXTransferEvent",
            StacksTransactionEvent::STXMintEvent(_) => "STXMintEvent",
            StacksTransactionEvent::STXLockEvent(_) => "STXLockEvent",
            StacksTransactionEvent::STXBurnEvent(_) => "STXBurnEvent",
            StacksTransactionEvent::NFTTransferEvent(_) => "NFTTransferEvent",
            StacksTransactionEvent::NFTMintEvent(_) => "NFTMintEvent",
            StacksTransactionEvent::NFTBurnEvent(_) => "NFTBurnEvent",
            StacksTransactionEvent::FTTransferEvent(_) => "FTTransferEvent",
            StacksTransactionEvent::FTMintEvent(_) => "FTMintEvent",
            StacksTransactionEvent::FTBurnEvent(_) => "FTBurnEvent",
            StacksTransactionEvent::DataVarSetEvent(_) => "DataVarSetEvent",
            StacksTransactionEvent::DataMapInsertEvent(_) => "DataMapInsertEvent",
            StacksTransactionEvent::DataMapUpdateEvent(_) => "DataMapUpdateEvent",
            StacksTransactionEvent::DataMapDeleteEvent(_) => "DataMapDeleteEvent",
            StacksTransactionEvent::SmartContractEvent(_) => "SmartContractEvent",
        }
    }

    /// The fields of the data of the event as the event source reports them.
    fn fields<'a>(&'a self) -> (rows: Vec<(&'static str, &'a String, bool)>)
        ensures
            field_rows_of(rows@) == event_fields(*self),
    {
        let rows = match self {
            StacksTransactionEvent::STXTransferEvent(data) => vec![
                ("sender", &data.sender, false),
                ("recipient", &data.recipient, false),
                ("amount", &data.amount, false),
            ],
            StacksTransactionEvent::STXMintEvent(data) => vec![
                ("recipient", &data.recipient, false),
                ("amount", &data.amount, false),
            ],
            StacksTransactionEvent::STXLockEvent(data) => vec![
                ("locked_amount", &data.locked_amount, false),
                ("unlock_height", &data.unlock_height, false),
                ("locked_address", &data.locked_address, false),
            ],
            StacksTransactionEvent::STXBurnEvent(data) => vec![
                ("sender", &data.sender, false),
                ("amount", &data.amount, false),
            ],
            StacksTransactionEvent::NFTTransferEvent(data) => vec![
                ("asset_identifier", &data.asset_class_identifier, false),
                ("raw_value", &data.hex_asset_identifier, false),
                ("sender", &data.sender, false),
                ("recipient", &data.recipient, false),
            ],
            StacksTransactionEvent::NFTMintEvent(data) => vec![
                ("asset_identifier", &data.asset_class_identifier, false),
                ("raw_value", &data.hex_asset_identifier, false),
                ("recipient", &data.recipient, false),
            ],
            StacksTransactionEvent::NFTBurnEvent(data) => vec![
                ("asset_identifier", &data.asset_class_identifier, false),
                ("raw_value", &data.hex_asset_identifier, false),
                ("sender", &data.sender, false),
            ],
            StacksTransactionEvent::FTTransferEvent(data) => vec![
                ("asset_identifier", &data.asset_class_identifier, false),
                ("sender", &data.sender, false),
                ("recipient", &data.recipient, false),
                ("amount", &data.amount, false),
            ],
            StacksTransactionEvent::FTMintEvent(data) => vec![
                ("asset_identifier", &data.asset_class_identifier, false),
                ("recipient", &data.recipient, false),
                ("amount", &data.amount, false),
            ],
            StacksTransactionEvent::FTBurnEvent(data) => vec![
                ("asset_identifier", &data.asset_class_identifier, false),
                ("sender", &data.sender, false),
                ("amount", &data.amount, false),
            ],
            StacksTransactionEvent::DataVarSetEvent(data) => vec![
                ("contract_identifier", &data.contract_identifier, false),
                ("var", &data.var, false),
                ("raw_new_value", &data.hex_new_value, false),
            ],
            StacksTransactionEvent::DataMapInsertEvent(data) => vec![
                ("contract_identifier", &data.contract_identifier, false),
                ("map", &data.map, false),
                ("raw_inserted_key", &data.hex_inserted_key, false),
                ("raw_inserted_value", &data.hex_inserted_value, false),
            ],
            StacksTransactionEvent::DataMapUpdateEvent(data) => vec![
                ("contract_identifier", &data.contract_identifier, false),
                ("map", &data.map, false),
                ("raw_key", &data.hex_key, false),
                ("raw_new_value", &data.hex_new_value, false),
            ],
            StacksTransactionEvent::DataMapDeleteEvent(data) => vec![
                ("contract_identifier", &data.contract_identifier, false),
                ("map", &data.map, false),
                ("raw_deleted_key", &data.hex_deleted_key, false),
            ],
            StacksTransactionEvent::SmartContractEvent(data) => vec![
                ("contract_identifier", &data.contract_identifier, false),
                ("topic", &data.topic, false),
                ("raw_value", &data.hex_value, false),
            ],
        };
        assert(field_rows_of(rows@) =~= event_fields(*self));
        rows
    }

    /// The fields of the data of the event with its encoded values decoded.
    fn decoded_fields<'a>(&'a self) -> (rows: Vec<(&'static str, &'a String, bool)>)
        ensures
            field_rows_of(rows@) == event_decoded_fields(*self),
    {
        let rows = match self {
            StacksTransactionEvent::NFTTransferEvent(data) => vec![
                ("asset_class_identifier", &data.asset_class_identifier, false),
                ("asset_identifier", &data.hex_asset_identifier, true),
                ("sender", &data.sender, false),
                ("recipient", &data.recipient, false),
            ],
            StacksTransactionEvent::NFTMintEvent(data) => vec![
                ("asset_class_identifier", &data.asset_class_identifier, false),
                ("asset_identifier", &data.hex_asset_identifier, true),
                ("recipient", &data.recipient, false),
            ],
            StacksTransactionEvent::NFTBurnEvent(data) => vec![
                ("asset_class_identifier", &data.asset_class_identifier, false),
                ("asset_identifier", &data.hex_asset_identifier, true),
                ("sender", &data.sender, false),
            ],
            StacksTransactionEvent::DataVarSetEvent(data) => vec![
                ("contract_identifier", &data.contract_identifier, false),
                ("var", &data.var, false),
                ("new_value", &data.hex_new_value, true),
            ],
            StacksTransactionEvent::DataMapInsertEvent(data) => vec![
                ("contract_identifier", &data.contract_identifier, false),
                ("map", &data.map, false),
                ("inserted_key", &data.hex_inserted_key, true),
                ("inserted_value", &data.hex_inserted_value, true),
            ],
            StacksTransactionEvent::DataMapUpdateEvent(data) => vec![
                ("contract_identifier", &data.contract_identifier, false),
                ("map", &data.map, false),
                ("key", &data.hex_key, true),
                ("new_value", &data.hex_new_value, true),
            ],
            StacksTransactionEvent::DataMapDeleteEvent(data) => vec![
                ("contract_identifier", &data.contract_identifier, false),
                ("map", &data.map, false),
                ("deleted_key", &data.hex_deleted_key, true),
            ],
            StacksTransactionEvent::SmartContractEvent(data) => vec![
                ("contract_identifier", &data.contract_identifier, false),
                ("topic", &data.topic, false),
                ("value", &data.hex_value, true),
            ],
            _ => self.fields(),
        };
        assert(field_rows_of(rows@) =~= event_decoded_fields(*self));
        rows
    }

    /// The encoded values that the event carries, as their hexadecimal texts:
    /// what is decoded where a hook asks for it.
    pub fn encoded_values<'a>(&'a self) -> (values: Vec<&'a String>)
        ensures
            texts_of(values@) == encoded_field_texts(event_decoded_fields(*self)),
    {
        let rows = self.decoded_fields();
        let ghost all = field_rows_of(rows@);
        let mut values: Vec<&'a String> = Vec::new();
        let mut i: usize = 0;
        assert(all.take(0) =~= Seq::empty());
        assert(texts_of(values@) =~= Seq::empty());
        while i < rows.len()
            invariant
                0 <= i <= rows@.len(),
                all == field_rows_of(rows@),
                texts_of(values@) == encoded_field_texts(all.take(i as int)),
            decreases rows@.len() - i,
        {
            let row = rows[i];
            proof {
                assert(all.take(i + 1).drop_last() =~= all.take(i as int));
                assert(all.take(i + 1).last() == (row.0@, row.1@, row.2));
            }
            if row.2 {
                let ghost before = values@;
                values.push(row.1);
                assert(texts_of(values@) =~= texts_of(before).push(row.1@));
            }
            i += 1;
        }
        assert(all.take(rows@.len() as int) =~= all);
        values
    }

    /// Renders the event as the document that the event source reports.
    pub fn to_json(&self) -> (value: serde_json::Value)
        ensures
            json_model(value) == event_doc(*self),
    {
        let rows = self.fields();
        tagged_to_json(self.name(), fields_to_json(&rows))
    }
}

/// Renders an event as a JSON document in which its encoded values are
/// decoded: the identifier of a non-fungible asset, the values and keys of
/// data variables and maps, the value of a print event.
pub fn serialized_event_with_decoded_clarity_value(event: &StacksTransactionEvent) -> (value:
    serde_json::Value)
    ensures
        json_model(value) == decoded_event_doc(*event),
{
    let rows = event.decoded_fields();
    tagged_to_json(event.name(), fields_to_json(&rows))
}

/// The document of what a transaction of the contract chain does.
pub open spec fn transaction_kind_doc(kind: StacksTransactionKind) -> Json {
    match kind {
        StacksTransactionKind::ContractCall(call) => tagged_doc(
            "ContractCall"@,
            Json::Object(
                no_fields().insert(
                    "contract_identifier"@,
                    Json::String(call.contract_identifier@),
                ).insert("method"@, Json::String(call.method@)).insert(
                    "args"@,
                    Json::Array(string_docs(call.args@)),
                ),
            ),
        ),
        StacksTransactionKind::ContractDeployment(deployment) => tagged_doc(
            "ContractDeployment"@,
            Json::Object(
                no_fields().insert(
                    "contract_identifier"@,
                    Json::String(deployment.contract_identifier@),
                ).insert("code"@, Json::String(deployment.code@)),
            ),
        ),
        StacksTransactionKind::NativeTokenTransfer => tag_doc("NativeTokenTransfer"@),
        StacksTransactionKind::Coinbase => tag_doc("Coinbase"@),
        StacksTransactionKind::BitcoinOp(operation) => tagged_doc(
            "BitcoinOp"@,
            json_model(operation),
        ),
        StacksTransactionKind::Unsupported => tag_doc("Unsupported"@),
    }
}

/// The documents of a list of events, in order: decoded or as reported.
pub open spec fn event_docs(events: Seq<StacksTransactionEvent>, decode: bool) -> Seq<Json> {
    events.map_values(
        |event: StacksTransactionEvent|
            if decode {
                decoded_event_doc(event)
            } else {
                event_doc(event)
            },
    )
}

/// The document of the result of a transaction: decoded, or as its text.
pub open spec fn transaction_result_doc(result: Seq<char>, decode: bool) -> Json {
    if decode {
        decoded_value_doc(result)
    } else {
        Json::String(result)
    }
}

/// The entries of the metadata of a transaction of the contract chain. A
/// sponsor and an execution cost have an entry only where the transaction has
/// them.
pub open spec fn stacks_metadata_fields(tx: StacksTransactionData, decode: bool) -> Map<
    Seq<char>,
    Json,
> {
    let receipt = tx.metadata.receipt;
    let required = no_fields().insert("success"@, Json::Bool(tx.metadata.success)).insert(
        "raw_tx"@,
        Json::String(tx.metadata.raw_tx@),
    ).insert("result"@, transaction_result_doc(tx.metadata.result@, decode)).insert(
        "sender"@,
        Json::String(tx.metadata.sender@),
    ).insert("nonce"@, Json::Number(tx.metadata.nonce as int)).insert(
        "fee"@,
        Json::Number(tx.metadata.fee as int),
    ).insert("kind"@, transaction_kind_doc(tx.metadata.kind)).insert(
        "receipt"@,
        Json::Object(
            no_fields().insert(
                "mutated_contracts_radius"@,
                Json::Array(string_docs(receipt.mutated_contracts_radius@)),
            ).insert(
                "mutated_assets_radius"@,
                Json::Array(string_docs(receipt.mutated_assets_radius@)),
            ).insert(
                "contract_calls_stack"@,
                Json::Array(string_docs(receipt.contract_calls_stack@)),
            ).insert("events"@, Json::Array(event_docs(receipt.events@, decode))),
        ),
    ).insert("description"@, Json::String(tx.metadata.description@)).insert(
        "position"@,
        json_model(tx.metadata.position),
    ).insert("proof"@, optional_string_doc(tx.metadata.proof));
    with_present(
        with_present(required, "sponsor"@, present_string_doc(tx.metadata.sponsor)),
        "execution_cost"@,
        present_json_model(tx.metadata.execution_cost),
    )
}

/// The document of a transaction of the contract chain. With `decode`, the
/// result of the transaction and the encoded values of its events are
/// decoded; everything else is the same in both documents.
pub open spec fn stacks_transaction_doc(tx: StacksTransactionData, decode: bool) -> Json {
    Json::Object(
        no_fields().insert(
            "transaction_identifier"@,
            transaction_identifier_doc(tx.transaction_identifier),
        ).insert("operations"@, json_model(tx.operations)).insert(
            "metadata"@,
            Json::Object(stacks_metadata_fields(tx, decode)),
        ),
    )
}

impl StacksTransactionKind {
    /// Renders the kind as its document.
    pub fn to_json(&self) -> (value: serde_json::Value)
        ensures
            json_model(value) == transaction_kind_doc(*self),
    {
        match self {
            StacksTransactionKind::ContractCall(call) => {
                let mut data = json_map_new();
                json_map_insert(
                    &mut data,
                    "contract_identifier",
                    json_string(call.contract_identifier.as_str()),
                );
                json_map_insert(&mut data, "method", json_string(call.method.as_str()));
                json_map_insert(&mut data, "args", json_strings(&call.args));
                tagged_to_json("ContractCall", json_object(data))
            },
            StacksTransactionKind::ContractDeployment(deployment) => {
                let mut data = json_map_new();
                json_map_insert(
                    &mut data,
                    "contract_identifier",
                    json_string(deployment.contract_identifier.as_str()),
                );
                json_map_insert(&mut data, "code", json_string(deployment.code.as_str()));
                tagged_to_json("ContractDeployment", json_object(data))
            },
            StacksTransactionKind::NativeTokenTransfer => tag_to_json("NativeTokenTransfer"),
            StacksTransactionKind::Coinbase => tag_to_json("Coinbase"),
            StacksTransactionKind::BitcoinOp(operation) => tagged_to_json(
                "BitcoinOp",
                operation.clone(),
            ),
            StacksTransactionKind::Unsupported => tag_to_json("Unsupported"),
        }
    }
}

/// The array of the documents of the events: decoded or as reported.
fn events_to_json(events: &Vec<StacksTransactionEvent>, decode: bool) -> (value: serde_json::Value)
    ensures
        json_model(value) == Json::Array(event_docs(events@, decode)),
{
    let mut docs: Vec<serde_json::Value> = Vec::new();
    let mut i: usize = 0;
    assert(json_models(docs@) =~= event_docs(events@.take(0), decode));
    while i < events.len()
        invariant
            0 <= i <= events@.len(),
            json_models(docs@) == event_docs(events@.take(i as int), decode),
        decreases events@.len() - i,
    {
        let doc = if decode {
            serialized_event_with_decoded_clarity_value(&events[i])
        } else {
            events[i].to_json()
        };
        let ghost before = docs@;
        docs.push(doc);
        assert(json_models(docs@) =~= json_models(before).push(json_model(doc)));
        assert(event_docs(events@.take(i + 1), decode) =~= event_docs(
            events@.take(i as int),
            decode,
        ).push(json_model(doc)));
        i += 1;
    }
    assert(events@.take(events@.len() as int) =~= events@);
    json_array(docs)
}

/// The document of a transaction of the contract chain: decoded or as
/// reported.
fn stacks_transaction_to_json(transaction: &StacksTransactionData, decode: bool) -> (value:
    serde_json::Value)
    ensures
        json_model(value) == stacks_transaction_doc(*transaction, decode),
{
    let metadata = &transaction.metadata;
    let mut receipt = json_map_new();
    json_map_insert(
        &mut receipt,
        "mutated_contracts_radius",
        json_strings(&metadata.receipt.mutated_contracts_radius),
    );
    json_map_insert(
        &mut receipt,
        "mutated_assets_radius",
        json_strings(&metadata.receipt.mutated_assets_radius),
    );
    json_map_insert(
        &mut receipt,
        "contract_calls_stack",
        json_strings(&metadata.receipt.contract_calls_stack),
    );
    json_map_insert(&mut receipt, "events", events_to_json(&metadata.receipt.events, decode));
    let result = if decode {
        serialized_decoded_clarity_value(metadata.result.as_str())
    } else {
        json_string(metadata.result.as_str())
    };
    let mut fields = json_map_new();
    json_map_insert(&mut fields, "success", json_bool(metadata.success));
    json_map_insert(&mut fields, "raw_tx", json_string(metadata.raw_tx.as_str()));
    json_map_insert(&mut fields, "result", result);
    json_map_insert(&mut fields, "sender", json_string(metadata.sender.as_str()));
    json_map_insert(&mut fields, "nonce", json_u64(metadata.nonce));
    json_map_insert(&mut fields, "fee", json_u64(metadata.fee));
    json_map_insert(&mut fields, "kind", metadata.kind.to_json());
    json_map_insert(&mut fields, "receipt", json_object(receipt));
    json_map_insert(&mut fields, "description", json_string(metadata.description.as_str()));
    json_map_insert(&mut fields, "position", metadata.position.clone());
    json_map_insert(&mut fields, "proof", json_optional_string(&metadata.proof));
    match &metadata.sponsor {
        Some(sponsor) => {
            json_map_insert(&mut fields, "sponsor", json_string(sponsor.as_str()));
        },
        None => {},
    }
    match &metadata.execution_cost {
        Some(cost) => {
            json_map_insert(&mut fields, "execution_cost", cost.clone());
        },
        None => {},
    }
    let mut map = json_map_new();
    json_map_insert(
        &mut map,
        "transaction_identifier",
        transaction.transaction_identifier.to_json(),
    );
    json_map_insert(&mut map, "operations", transaction.operations.clone());
    json_map_insert(&mut map, "metadata", json_object(fields));
    json_object(map)
}

impl StacksTransactionData {
    /// Renders the transaction as the document that the event source reports.
    pub fn to_json(&self) -> (value: serde_json::Value)
        ensures
            json_model(value) == stacks_transaction_doc(*self, false),
    {
        stacks_transaction_to_json(self, false)
    }
}

/// Renders a transaction of the contract chain as a document in which its
/// result and the encoded values of its events are decoded.
pub fn encode_transaction_including_with_clarity_decoding(
    transaction: &StacksTransactionData,
) -> (value: serde_json::Value)
    ensures
        json_model(value) == stacks_transaction_doc(*transaction, true),
{
    stacks_transaction_to_json(transaction, true)
}

} // verus!
