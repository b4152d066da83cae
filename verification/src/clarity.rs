//! The value decoder: from the hexadecimal text of an encoded contract value
//! to the JSON document that renders it.
//!
//! Values are decoded by the `clarity` code that `clarity_repl` carries. Verus
//! cannot look inside such a value, so contracts speak of [`Clarity`], the value
//! as a mathematical tree, and of [`clarity_model`], the tree that a decoded
//! value holds.
use vstd::prelude::*;
use vstd::string::StringExecFns;
use vstd::utf8::{decode_utf8, valid_utf8};
use clarity_repl::clarity::codec::StacksMessageCodec;
use clarity_repl::clarity::vm::types::{CharType, SequenceData, Value};
use crate::hex::{hex_bytes, hex_decoding, hex_text, is_hex_text, to_hex};
use crate::json::{
    json_array, json_bool, json_fields, json_map_insert, json_map_new, json_model, json_models,
    json_object, json_null, json_signed, json_string, json_unsigned, no_fields, Json,
};
use crate::text::{push_char, string_from_utf8, strip_prefix};

verus! {

/// A contract value as a mathematical tree.
///
/// A principal is held as its canonical text, and so is a contract that is
/// held as a callable. A string of the extended character set is held
/// character by character, each as its bytes. The fields of a tuple stand in
/// the order of their names.
pub enum Clarity {
    Int(int),
    UInt(int),
    Bool(bool),
    Principal(Seq<char>),
    CallableContract(Seq<char>),
    Buffer(Seq<u8>),
    StringAscii(Seq<u8>),
    StringUtf8(Seq<Seq<u8>>),
    OptionalNone,
    OptionalSome(Box<Clarity>),
    Response(bool, Box<Clarity>),
    Tuple(Seq<(Seq<char>, Clarity)>),
    List(Seq<Clarity>),
}

/// The `Value` of the contract language, as a type that is not looked into.
#[verifier::external_type_specification]
#[verifier::external_body]
pub struct ExClarityValue(Value);

/// The `SequenceData` of the contract language, as a type that is not looked
/// into.
#[verifier::external_type_specification]
#[verifier::external_body]
pub struct ExClaritySequence(SequenceData);

/// The tree that a contract value holds.
pub uninterp spec fn clarity_model(value: Value) -> Clarity;

/// The tree that a sequence value holds: a buffer, a string or a list.
pub uninterp spec fn sequence_model(sequence: SequenceData) -> Clarity;

/// The tree that the consensus encoding in the bytes stands for, or nothing
/// where the bytes are no such encoding.
pub uninterp spec fn clarity_decoding(bytes: Seq<u8>) -> Option<Clarity>;

/// The top of a contract value: its kind, its own data, and what it contains.
pub enum ClarityNode<'a> {
    Int(i128),
    UInt(u128),
    Bool(bool),
    Principal(String),
    CallableContract(String),
    Sequence(&'a SequenceData),
    Optional(Option<&'a Value>),
    Response(bool, &'a Value),
    Tuple(Vec<(String, &'a Value)>),
}

/// The top of a sequence value.
pub enum SequenceNode<'a> {
    Buffer(&'a Vec<u8>),
    StringAscii(&'a Vec<u8>),
    StringUtf8(&'a Vec<Vec<u8>>),
    List(&'a Vec<Value>),
}

/// The trees that a sequence of values holds, in order.
pub open spec fn clarity_models(values: Seq<Value>) -> Seq<Clarity> {
    values.map_values(|value: Value| clarity_model(value))
}

/// The fields of a tuple as names and trees.
pub open spec fn clarity_field_models(fields: Seq<(String, &Value)>) -> Seq<(Seq<char>, Clarity)> {
    fields.map_values(|field: (String, &Value)| (field.0@, clarity_model(*field.1)))
}

/// The characters of a string as their bytes.
pub open spec fn utf8_char_bytes(chars: Seq<Vec<u8>>) -> Seq<Seq<u8>> {
    chars.map_values(|c: Vec<u8>| c@)
}

impl<'a> ClarityNode<'a> {
    /// The tree of the value that this is the top of.
    pub open spec fn model(self) -> Clarity {
        match self {
            ClarityNode::Int(n) => Clarity::Int(n as int),
            ClarityNode::UInt(n) => Clarity::UInt(n as int),
            ClarityNode::Bool(b) => Clarity::Bool(b),
            ClarityNode::Principal(text) => Clarity::Principal(text@),
            ClarityNode::CallableContract(text) => Clarity::CallableContract(text@),
            ClarityNode::Sequence(sequence) => sequence_model(*sequence),
            ClarityNode::Optional(None) => Clarity::OptionalNone,
            ClarityNode::Optional(Some(inner)) => Clarity::OptionalSome(
                Box::new(clarity_model(*inner)),
            ),
            ClarityNode::Response(committed, inner) => Clarity::Response(
                committed,
                Box::new(clarity_model(*inner)),
            ),
            ClarityNode::Tuple(fields) => Clarity::Tuple(clarity_field_models(fields@)),
        }
    }
}

impl<'a> SequenceNode<'a> {
    /// The tree of the sequence that this is the top of.
    pub open spec fn model(self) -> Clarity {
        match self {
            SequenceNode::Buffer(bytes) => Clarity::Buffer(bytes@),
            SequenceNode::StringAscii(bytes) => Clarity::StringAscii(bytes@),
            SequenceNode::StringUtf8(chars) => Clarity::StringUtf8(utf8_char_bytes(chars@)),
            SequenceNode::List(items) => Clarity::List(clarity_models(items@)),
        }
    }
}

/// `StacksMessageCodec::consensus_deserialize` for `Value`, reading from the
/// bytes: the value that the bytes encode, or nothing where they encode none.
#[verifier::external_body]
fn clarity_deserialize(bytes: &[u8]) -> (value: Option<Value>)
    ensures
        value is Some <==> clarity_decoding(bytes@) is Some,
        value matches Some(decoded) ==> clarity_decoding(bytes@) == Some(clarity_model(decoded)),
{
    let mut cursor = std::io::Cursor::new(bytes);
    Value::consensus_deserialize(&mut cursor).ok()
}

/// The variants of `Value`, told apart: each with its own data. A principal
/// comes as the text that its `Display` writes, and so does a contract that is
/// held as a callable; the fields of a tuple come in the order of its map.
#[verifier::external_body]
fn clarity_node<'a>(value: &'a Value) -> (node: ClarityNode<'a>)
    ensures
        node.model() == clarity_model(*value),
{
    match value {
        Value::Int(n) => ClarityNode::Int(*n),
        Value::UInt(n) => ClarityNode::UInt(*n),
        Value::Bool(b) => ClarityNode::Bool(*b),
        Value::Principal(p) => ClarityNode::Principal(p.to_string()),
        Value::CallableContract(c) => ClarityNode::CallableContract(c.to_string()),
        Value::Sequence(s) => ClarityNode::Sequence(s),
        Value::Optional(o) => ClarityNode::Optional(o.data.as_deref()),
        Value::Response(r) => ClarityNode::Response(r.committed, &r.data),
        Value::Tuple(t) => ClarityNode::Tuple(
            t.data_map.iter().map(|(name, field)| (name.to_string(), field)).collect(),
        ),
    }
}

/// The variants of `SequenceData`, told apart: each with its own data.
#[verifier::external_body]
fn sequence_node<'a>(sequence: &'a SequenceData) -> (node: SequenceNode<'a>)
    ensures
        node.model() == sequence_model(*sequence),
{
    match sequence {
        SequenceData::Buffer(buffer) => SequenceNode::Buffer(&buffer.data),
        SequenceData::String(CharType::ASCII(string)) => SequenceNode::StringAscii(&string.data),
        SequenceData::String(CharType::UTF8(string)) => SequenceNode::StringUtf8(&string.data),
        SequenceData::List(list) => SequenceNode::List(&list.data),
    }
}

/// The text of one character of a string of the extended character set: what
/// its bytes encode where they are several, the character of its byte where
/// it is one. Several bytes that are not valid UTF-8, and no byte at all, have
/// no text.
pub open spec fn utf8_char_text(c: Seq<u8>) -> Option<Seq<char>> {
    if c.len() > 1 {
        if valid_utf8(c) {
            Some(decode_utf8(c))
        } else {
            None
        }
    } else if c.len() == 1 {
        Some(seq![c[0] as char])
    } else {
        None
    }
}

/// The text of a string of the extended character set: the texts of its
/// characters, one after the other.
pub open spec fn utf8_string_text(chars: Seq<Seq<u8>>) -> Option<Seq<char>>
    decreases chars.len(),
{
    if chars.len() == 0 {
        Some(Seq::empty())
    } else {
        match (utf8_string_text(chars.drop_last()), utf8_char_text(chars.last())) {
            (Some(text), Some(c)) => Some(text + c),
            _ => None,
        }
    }
}

/// The document of a response: whether it was committed, and its value.
pub open spec fn response_doc(committed: bool, value: Json) -> Json {
    Json::Object(no_fields().insert("success"@, Json::Bool(committed)).insert("value"@, value))
}

/// The documents of the items of a list, where each has one.
pub open spec fn clarity_list_docs(items: Seq<Clarity>) -> Option<Seq<Json>>
    decreases items, 0int,
{
    if items.len() == 0 {
        Some(Seq::empty())
    } else {
        match (clarity_list_docs(items.drop_last()), clarity_doc(items.last())) {
            (Some(docs), Some(doc)) => Some(docs.push(doc)),
            _ => None,
        }
    }
}

/// The entries of the object of a tuple, where each field has a document.
pub open spec fn clarity_tuple_docs(fields: Seq<(Seq<char>, Clarity)>) -> Option<
    Map<Seq<char>, Json>,
>
    decreases fields, 0int,
{
    if fields.len() == 0 {
        Some(no_fields())
    } else {
        match (clarity_tuple_docs(fields.drop_last()), clarity_doc(fields.last().1)) {
            (Some(docs), Some(doc)) => Some(docs.insert(fields.last().0, doc)),
            _ => None,
        }
    }
}

/// The document that renders a contract value.
///
/// Numbers and booleans are scalars; a principal is its text, and so is a
/// contract that is held as a callable; a buffer is its hexadecimal text
/// behind `0x`; a string is its text; an absent optional is
/// null and a present one is its content; a response is an object of its
/// outcome and its value; a tuple is an object keyed by the names of its
/// fields; a list is an array. A value with a string whose bytes are no text
/// has no document.
pub open spec fn clarity_doc(value: Clarity) -> Option<Json>
    decreases value, 1int,
{
    match value {
        Clarity::Int(n) => Some(Json::Number(n)),
        Clarity::UInt(n) => Some(Json::Number(n)),
        Clarity::Bool(b) => Some(Json::Bool(b)),
        Clarity::Principal(text) => Some(Json::String(text)),
        Clarity::CallableContract(text) => Some(Json::String(text)),
        Clarity::Buffer(bytes) => Some(Json::String("0x"@ + hex_text(bytes))),
        Clarity::StringAscii(bytes) => if valid_utf8(bytes) {
            Some(Json::String(decode_utf8(bytes)))
        } else {
            None
        },
        Clarity::StringUtf8(chars) => match utf8_string_text(chars) {
            Some(text) => Some(Json::String(text)),
            None => None,
        },
        Clarity::OptionalNone => Some(Json::Null),
        Clarity::OptionalSome(inner) => clarity_doc(*inner),
        Clarity::Response(committed, inner) => match clarity_doc(*inner) {
            Some(doc) => Some(response_doc(committed, doc)),
            None => None,
        },
        Clarity::Tuple(fields) => match clarity_tuple_docs(fields) {
            Some(docs) => Some(Json::Object(docs)),
            None => None,
        },
        Clarity::List(items) => match clarity_list_docs(items) {
            Some(docs) => Some(Json::Array(docs)),
            None => None,
        },
    }
}

/// A list whose items all have documents keeps that on each of its prefixes.
proof fn lemma_list_docs_prefix(items: Seq<Clarity>, count: int)
    requires
        0 <= count <= items.len(),
        clarity_list_docs(items) is Some,
    ensures
        clarity_list_docs(items.take(count)) is Some,
    decreases items.len(),
{
    if count == items.len() {
        assert(items.take(count) =~= items);
    } else {
        assert(items.drop_last().take(count) =~= items.take(count));
        lemma_list_docs_prefix(items.drop_last(), count);
    }
}

/// A tuple whose fields all have documents keeps that on each of its
/// prefixes.
proof fn lemma_tuple_docs_prefix(fields: Seq<(Seq<char>, Clarity)>, count: int)
    requires
        0 <= count <= fields.len(),
        clarity_tuple_docs(fields) is Some,
    ensures
        clarity_tuple_docs(fields.take(count)) is Some,
    decreases fields.len(),
{
    if count == fields.len() {
        assert(fields.take(count) =~= fields);
    } else {
        assert(fields.drop_last().take(count) =~= fields.take(count));
        lemma_tuple_docs_prefix(fields.drop_last(), count);
    }
}

/// A string whose characters all have texts keeps that on each of its
/// prefixes.
proof fn lemma_utf8_text_prefix(chars: Seq<Seq<u8>>, count: int)
    requires
        0 <= count <= chars.len(),
        utf8_string_text(chars) is Some,
    ensures
        utf8_string_text(chars.take(count)) is Some,
    decreases chars.len(),
{
    if count == chars.len() {
        assert(chars.take(count) =~= chars);
    } else {
        assert(chars.drop_last().take(count) =~= chars.take(count));
        lemma_utf8_text_prefix(chars.drop_last(), count);
    }
}

/// The text of a string of the extended character set.
fn utf8_string(chars: &Vec<Vec<u8>>) -> (text: Option<String>)
    ensures
        text is Some <==> utf8_string_text(utf8_char_bytes(chars@)) is Some,
        text matches Some(t) ==> utf8_string_text(utf8_char_bytes(chars@)) == Some(t@),
{
    let mut result = String::new();
    let mut i: usize = 0;
    let ghost all = utf8_char_bytes(chars@);
    assert(all.take(0) =~= Seq::empty());
    while i < chars.len()
        invariant
            0 <= i <= chars@.len(),
            all == utf8_char_bytes(chars@),
            utf8_string_text(all.take(i as int)) == Some(result@),
        decreases chars@.len() - i,
    {
        let c = &chars[i];
        proof {
            assert(all.take(i + 1).drop_last() =~= all.take(i as int));
            assert(all.take(i + 1).last() == c@);
        }
        if c.len() > 1 {
            match string_from_utf8(c.as_slice()) {
                Some(decoded) => {
                    result.append(decoded.as_str());
                },
                None => {
                    proof {
                        if utf8_string_text(all) is Some {
                            lemma_utf8_text_prefix(all, i + 1);
                        }
                    }
                    return None;
                },
            }
        } else if c.len() == 1 {
            let ghost before = result@;
            push_char(&mut result, c[0] as char);
            assert(before.push(c@[0] as char) =~= before + seq![c@[0] as char]);
        } else {
            proof {
                if utf8_string_text(all) is Some {
                    lemma_utf8_text_prefix(all, i + 1);
                }
            }
            return None;
        }
        i += 1;
    }
    assert(all.take(chars@.len() as int) =~= all);
    Some(result)
}

/// Renders a contract value as a JSON document.
///
/// The result is the document of the value; a value with a string whose bytes
/// are no text has none.
pub fn serialize_to_json(value: &Value) -> (doc: Option<serde_json::Value>)
    ensures
        doc is Some <==> clarity_doc(clarity_model(*value)) is Some,
        doc matches Some(rendered) ==> clarity_doc(clarity_model(*value)) == Some(
            json_model(rendered),
        ),
    decreases clarity_model(*value),
{
    match clarity_node(value) {
        ClarityNode::Int(n) => Some(json_signed(n)),
        ClarityNode::UInt(n) => Some(json_unsigned(n)),
        ClarityNode::Bool(b) => Some(json_bool(b)),
        ClarityNode::Principal(text) => Some(json_string(text.as_str())),
        ClarityNode::CallableContract(text) => Some(json_string(text.as_str())),
        ClarityNode::Sequence(sequence) => match sequence_node(sequence) {
            SequenceNode::Buffer(bytes) => {
                let mut text = "0x".to_owned();
                let digits = to_hex(bytes.as_slice());
                text.append(digits.as_str());
                Some(json_string(text.as_str()))
            },
            SequenceNode::StringAscii(bytes) => match string_from_utf8(bytes.as_slice()) {
                Some(text) => Some(json_string(text.as_str())),
                None => None,
            },
            SequenceNode::StringUtf8(chars) => match utf8_string(chars) {
                Some(text) => Some(json_string(text.as_str())),
                None => None,
            },
            SequenceNode::List(items) => {
                let ghost models = clarity_models(items@);
                let mut docs: Vec<serde_json::Value> = Vec::new();
                let mut i: usize = 0;
                assert(models.take(0) =~= Seq::empty());
                assert(json_models(docs@) =~= Seq::empty());
                while i < items.len()
                    invariant
                        0 <= i <= items@.len(),
                        models == clarity_models(items@),
                        clarity_model(*value) == Clarity::List(models),
                        clarity_list_docs(models.take(i as int)) == Some(json_models(docs@)),
                    decreases items@.len() - i,
                {
                    proof {
                        assert(models[i as int] == clarity_model(items@[i as int]));
                        assert(decreases_to!(clarity_model(*value) => models));
                        assert(decreases_to!(models => models[i as int]));
                        assert(models.take(i + 1).drop_last() =~= models.take(i as int));
                        assert(models.take(i + 1).last() == models[i as int]);
                    }
                    match serialize_to_json(&items[i]) {
                        Some(doc) => {
                            let ghost before = docs@;
                            docs.push(doc);
                            assert(json_models(docs@) =~= json_models(before).push(
                                json_model(doc),
                            ));
                        },
                        None => {
                            proof {
                                if clarity_list_docs(models) is Some {
                                    lemma_list_docs_prefix(models, i + 1);
                                }
                            }
                            return None;
                        },
                    }
                    i += 1;
                }
                assert(models.take(items@.len() as int) =~= models);
                Some(json_array(docs))
            },
        },
        ClarityNode::Optional(None) => Some(json_null()),
        ClarityNode::Optional(Some(inner)) => serialize_to_json(inner),
        ClarityNode::Response(committed, inner) => match serialize_to_json(inner) {
            Some(doc) => {
                let mut map = json_map_new();
                json_map_insert(&mut map, "success", json_bool(committed));
                json_map_insert(&mut map, "value", doc);
                Some(json_object(map))
            },
            None => None,
        },
        ClarityNode::Tuple(fields) => {
            let ghost models = clarity_field_models(fields@);
            let mut map = json_map_new();
            let mut i: usize = 0;
            assert(models.take(0) =~= Seq::empty());
            while i < fields.len()
                invariant
                    0 <= i <= fields@.len(),
                    models == clarity_field_models(fields@),
                    clarity_model(*value) == Clarity::Tuple(models),
                    clarity_tuple_docs(models.take(i as int)) == Some(json_fields(map)),
                decreases fields@.len() - i,
            {
                proof {
                    assert(models[i as int] == (
                        fields@[i as int].0@,
                        clarity_model(*fields@[i as int].1),
                    ));
                    assert(decreases_to!(clarity_model(*value) => models));
                    assert(decreases_to!(models => models[i as int]));
                    assert(decreases_to!(models[i as int] => models[i as int].1));
                    assert(models.take(i + 1).drop_last() =~= models.take(i as int));
                    assert(models.take(i + 1).last() == models[i as int]);
                }
                match serialize_to_json(fields[i].1) {
                    Some(doc) => {
                        json_map_insert(&mut map, fields[i].0.as_str(), doc);
                    },
                    None => {
                        proof {
                            if clarity_tuple_docs(models) is Some {
                                lemma_tuple_docs_prefix(models, i + 1);
                            }
                        }
                        return None;
                    },
                }
                i += 1;
            }
            assert(models.take(fields@.len() as int) =~= models);
            Some(json_object(map))
        },
    }
}

/// The bytes that a hexadecimal text behind `0x` stands for; a text without
/// the prefix, or with something else than pairs of hexadecimal digits behind
/// it, stands for none.
pub open spec fn prefixed_hex_bytes(text: Seq<char>) -> Option<Seq<u8>> {
    let digits = text.skip("0x"@.len() as int);
    if "0x"@.is_prefix_of(text) && is_hex_text(digits) {
        Some(hex_decoding(digits))
    } else {
        None
    }
}

/// The document of the value that a hexadecimal text encodes. A text that
/// stands for no bytes, whose bytes encode no value, or whose value has no
/// document, has none.
pub open spec fn decodable_value_doc(text: Seq<char>) -> Option<Json> {
    match prefixed_hex_bytes(text) {
        Some(bytes) => match clarity_decoding(bytes) {
            Some(value) => clarity_doc(value),
            None => None,
        },
        None => None,
    }
}

/// The document of an encoded value that is given as hexadecimal text: the
/// document of the value that the text encodes, and the text itself where it
/// encodes no value with a document.
pub open spec fn decoded_value_doc(text: Seq<char>) -> Json {
    match decodable_value_doc(text) {
        Some(doc) => doc,
        None => Json::String(text),
    }
}

/// Decodes a contract value from its hexadecimal text and renders it as a JSON
/// document. A text that cannot be decoded gives nothing: the caller may
/// report it.
pub fn decode_clarity_value(hex_value: &str) -> (doc: Option<serde_json::Value>)
    ensures
        doc is Some <==> decodable_value_doc(hex_value@) is Some,
        doc matches Some(rendered) ==> decodable_value_doc(hex_value@) == Some(
            json_model(rendered),
        ),
{
    let digits = match strip_prefix(hex_value, "0x") {
        Some(digits) => digits,
        None => {
            return None;
        },
    };
    let value_bytes = match hex_bytes(digits) {
        Some(bytes) => bytes,
        None => {
            return None;
        },
    };
    match clarity_deserialize(value_bytes.as_slice()) {
        Some(value) => serialize_to_json(&value),
        None => None,
    }
}

/// Decodes a contract value from its hexadecimal text and renders it as a JSON
/// document. A text that cannot be decoded is handed back as a string.
pub fn serialized_decoded_clarity_value(hex_value: &str) -> (doc: serde_json::Value)
    ensures
        json_model(doc) == decoded_value_doc(hex_value@),
{
    match decode_clarity_value(hex_value) {
        Some(doc) => doc,
        None => json_string(hex_value),
    }
}

} // verus!
