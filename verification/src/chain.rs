//! Chain data: identifiers, transactions, blocks and the events that report
//! how a chain moved.
//!
//! A transaction holds as plain values what predicates and payloads read. What
//! is only handed on to a payload is held as the JSON document that stands for
//! it; what the event source leaves out where it is absent is optional. A
//! copy of chain data holds the same data: texts and numbers are equal,
//! lists have equal items, documents are the same.
use vstd::prelude::*;
use crate::json::{json_model, present_json_model};

verus! {

#[derive(Debug, PartialEq)]
pub struct TransactionIdentifier {
    pub hash: String,
}

impl Clone for TransactionIdentifier {
    fn clone(&self) -> (copy: Self)
        ensures
            copy == *self,
    {
        TransactionIdentifier {
            hash: self.hash.clone(),
        }
    }
}

/// The identity of a block or microblock: its index in the chain and its hash.
#[derive(Debug, PartialEq)]
pub struct BlockIdentifier {
    pub index: u64,
    pub hash: String,
}

impl Clone for BlockIdentifier {
    fn clone(&self) -> (copy: Self)
        ensures
            copy == *self,
    {
        BlockIdentifier {
            index: self.index,
            hash: self.hash.clone(),
        }
    }
}

/// An output of a transaction of the UTXO chain. The script is hexadecimal
/// text.
#[derive(Debug, PartialEq)]
pub struct TxOut {
    pub value: u64,
    pub script_pubkey: String,
}

impl Clone for TxOut {
    fn clone(&self) -> (copy: Self)
        ensures
            copy == *self,
    {
        TxOut {
            value: self.value,
            script_pubkey: self.script_pubkey.clone(),
        }
    }
}

#[derive(Debug, PartialEq)]
pub struct BitcoinTransactionMetadata {
    pub inputs: serde_json::Value,
    pub outputs: Vec<TxOut>,
    pub stacks_operations: serde_json::Value,
    pub ordinal_operations: serde_json::Value,
    pub proof: Option<String>,
    pub fee: u64,
}

impl BitcoinTransactionMetadata {
    /// Whether the two hold the same data.
    pub open spec fn same_as(&self, other: Self) -> bool {
        &&& json_model(self.inputs) == json_model(other.inputs)
        &&& self.outputs@ == other.outputs@
        &&& json_model(self.stacks_operations) == json_model(other.stacks_operations)
        &&& json_model(self.ordinal_operations) == json_model(other.ordinal_operations)
        &&& self.proof == other.proof
        &&& self.fee == other.fee
    }
}

impl Clone for BitcoinTransactionMetadata {
    fn clone(&self) -> (copy: Self)
        ensures
            copy.same_as(*self),
    {
        let proof = match &self.proof {
            Some(proof) => Some(proof.clone()),
            None => None,
        };
        let outputs = self.outputs.clone();
        assert(outputs@ =~= self.outputs@);
        BitcoinTransactionMetadata {
            inputs: self.inputs.clone(),
            outputs,
            stacks_operations: self.stacks_operations.clone(),
            ordinal_operations: self.ordinal_operations.clone(),
            proof,
            fee: self.fee,
        }
    }
}

#[derive(Debug, PartialEq)]
pub struct BitcoinTransactionData {
    pub transaction_identifier: TransactionIdentifier,
    pub operations: serde_json::Value,
    pub metadata: BitcoinTransactionMetadata,
}

impl BitcoinTransactionData {
    /// Whether the two hold the same data.
    pub open spec fn same_as(&self, other: Self) -> bool {
        &&& self.transaction_identifier == other.transaction_identifier
        &&& json_model(self.operations) == json_model(other.operations)
        &&& self.metadata.same_as(other.metadata)
    }
}

impl Clone for BitcoinTransactionData {
    fn clone(&self) -> (copy: Self)
        ensures
            copy.same_as(*self),
    {
        BitcoinTransactionData {
            transaction_identifier: self.transaction_identifier.clone(),
            operations: self.operations.clone(),
            metadata: self.metadata.clone(),
        }
    }
}

#[derive(Clone, Debug, PartialEq)]
pub struct BitcoinBlockData {
    pub block_identifier: BlockIdentifier,
    pub transactions: Vec<BitcoinTransactionData>,
}

#[derive(Clone, Debug, PartialEq)]
pub struct BitcoinChainUpdatedWithBlocksData {
    pub new_blocks: Vec<BitcoinBlockData>,
}

#[derive(Clone, Debug, PartialEq)]
pub struct BitcoinChainUpdatedWithReorgData {
    pub blocks_to_rollback: Vec<BitcoinBlockData>,
    pub blocks_to_apply: Vec<BitcoinBlockData>,
}

/// How the UTXO chain moved.
#[derive(Clone, Debug, PartialEq)]
pub enum BitcoinChainEvent {
    ChainUpdatedWithBlocks(BitcoinChainUpdatedWithBlocksData),
    ChainUpdatedWithReorg(BitcoinChainUpdatedWithReorgData),
}

#[derive(Debug, PartialEq)]
pub struct STXTransferEventData {
    pub sender: String,
    pub recipient: String,
    pub amount: String,
}

impl Clone for STXTransferEventData {
    fn clone(&self) -> (copy: Self)
        ensures
            copy == *self,
    {
        STXTransferEventData {
            sender: self.sender.clone(),
            recipient: self.recipient.clone(),
            amount: self.amount.clone(),
        }
    }
}

#[derive(Debug, PartialEq)]
pub struct STXMintEventData {
    pub recipient: String,
    pub amount: String,
}

impl Clone for STXMintEventData {
    fn clone(&self) -> (copy: Self)
        ensures
            copy == *self,
    {
        STXMintEventData {
            recipient: self.recipient.clone(),
            amount: self.amount.clone(),
        }
    }
}

#[derive(Debug, PartialEq)]
pub struct STXLockEventData {
    pub locked_amount: String,
    pub unlock_height: String,
    pub locked_address: String,
}

impl Clone for STXLockEventData {
    fn clone(&self) -> (copy: Self)
        ensures
            copy == *self,
    {
        STXLockEventData {
            locked_amount: self.locked_amount.clone(),
            unlock_height: self.unlock_height.clone(),
            locked_address: self.locked_address.clone(),
        }
    }
}

#[derive(Debug, PartialEq)]
pub struct STXBurnEventData {
    pub sender: String,
    pub amount: String,
}

impl Clone for STXBurnEventData {
    fn clone(&self) -> (copy: Self)
        ensures
            copy == *self,
    {
        STXBurnEventData {
            sender: self.sender.clone(),
            amount: self.amount.clone(),
        }
    }
}

#[derive(Debug, PartialEq)]
pub struct NFTTransferEventData {
    pub asset_class_identifier: String,
    pub hex_asset_identifier: String,
    pub sender: String,
    pub recipient: String,
}

impl Clone for NFTTransferEventData {
    fn clone(&self) -> (copy: Self)
        ensures
            copy == *self,
    {
        NFTTransferEventData {
            asset_class_identifier: self.asset_class_identifier.clone(),
            hex_asset_identifier: self.hex_asset_identifier.clone(),
            sender: self.sender.clone(),
            recipient: self.recipient.clone(),
        }
    }
}

#[derive(Debug, PartialEq)]
pub struct NFTMintEventData {
    pub asset_class_identifier: String,
    pub hex_asset_identifier: String,
    pub recipient: String,
}

impl Clone for NFTMintEventData {
    fn clone(&self) -> (copy: Self)
        ensures
            copy == *self,
    {
        NFTMintEventData {
            asset_class_identifier: self.asset_class_identifier.clone(),
            hex_asset_identifier: self.hex_asset_identifier.clone(),
            recipient: self.recipient.clone(),
        }
    }
}

#[derive(Debug, PartialEq)]
pub struct NFTBurnEventData {
    pub asset_class_identifier: String,
    pub hex_asset_identifier: String,
    pub sender: String,
}

impl Clone for NFTBurnEventData {
    fn clone(&self) -> (copy: Self)
        ensures
            copy == *self,
    {
        NFTBurnEventData {
            asset_class_identifier: self.asset_class_identifier.clone(),
            hex_asset_identifier: self.hex_asset_identifier.clone(),
            sender: self.sender.clone(),
        }
    }
}

#[derive(Debug, PartialEq)]
pub struct FTTransferEventData {
    pub asset_class_identifier: String,
    pub sender: String,
    pub recipient: String,
    pub amount: String,
}

impl Clone for FTTransferEventData {
    fn clone(&self) -> (copy: Self)
        ensures
            copy == *self,
    {
        FTTransferEventData {
            asset_class_identifier: self.asset_class_identifier.clone(),
            sender: self.sender.clone(),
            recipient: self.recipient.clone(),
            amount: self.amount.clone(),
        }
    }
}

#[derive(Debug, PartialEq)]
pub struct FTMintEventData {
    pub asset_class_identifier: String,
    pub recipient: String,
    pub amount: String,
}

impl Clone for FTMintEventData {
    fn clone(&self) -> (copy: Self)
        ensures
            copy == *self,
    {
        FTMintEventData {
            asset_class_identifier: self.asset_class_identifier.clone(),
            recipient: self.recipient.clone(),
            amount: self.amount.clone(),
        }
    }
}

#[derive(Debug, PartialEq)]
pub struct FTBurnEventData {
    pub asset_class_identifier: String,
    pub sender: String,
    pub amount: String,
}

impl Clone for FTBurnEventData {
    fn clone(&self) -> (copy: Self)
        ensures
            copy == *self,
    {
        FTBurnEventData {
            asset_class_identifier: self.asset_class_identifier.clone(),
            sender: self.sender.clone(),
            amount: self.amount.clone(),
        }
    }
}

#[derive(Debug, PartialEq)]
pub struct DataVarSetEventData {
    pub contract_identifier: String,
    pub var: String,
    pub hex_new_value: String,
}

impl Clone for DataVarSetEventData {
    fn clone(&self) -> (copy: Self)
        ensures
            copy == *self,
    {
        DataVarSetEventData {
            contract_identifier: self.contract_identifier.clone(),
            var: self.var.clone(),
            hex_new_value: self.hex_new_value.clone(),
        }
    }
}

#[derive(Debug, PartialEq)]
pub struct DataMapInsertEventData {
    pub contract_identifier: String,
    pub map: String,
    pub hex_inserted_key: String,
    pub hex_inserted_value: String,
}

impl Clone for DataMapInsertEventData {
    fn clone(&self) -> (copy: Self)
        ensures
            copy == *self,
    {
        DataMapInsertEventData {
            contract_identifier: self.contract_identifier.clone(),
            map: self.map.clone(),
            hex_inserted_key: self.hex_inserted_key.clone(),
            hex_inserted_value: self.hex_inserted_value.clone(),
        }
    }
}

#[derive(Debug, PartialEq)]
pub struct DataMapUpdateEventData {
    pub contract_identifier: String,
    pub map: String,
    pub hex_key: String,
    pub hex_new_value: String,
}

impl Clone for DataMapUpdateEventData {
    fn clone(&self) -> (copy: Self)
        ensures
            copy == *self,
    {
        DataMapUpdateEventData {
            contract_identifier: self.contract_identifier.clone(),
            map: self.map.clone(),
            hex_key: self.hex_key.clone(),
            hex_new_value: self.hex_new_value.clone(),
        }
    }
}

#[derive(Debug, PartialEq)]
pub struct DataMapDeleteEventData {
    pub contract_identifier: String,
    pub map: String,
    pub hex_deleted_key: String,
}

impl Clone for DataMapDeleteEventData {
    fn clone(&self) -> (copy: Self)
        ensures
            copy == *self,
    {
        DataMapDeleteEventData {
            contract_identifier: self.contract_identifier.clone(),
            map: self.map.clone(),
            hex_deleted_key: self.hex_deleted_key.clone(),
        }
    }
}

#[derive(Debug, PartialEq)]
pub struct SmartContractEventData {
    pub contract_identifier: String,
    pub topic: String,
    pub hex_value: String,
}

impl Clone for SmartContractEventData {
    fn clone(&self) -> (copy: Self)
        ensures
            copy == *self,
    {
        SmartContractEventData {
            contract_identifier: self.contract_identifier.clone(),
            topic: self.topic.clone(),
            hex_value: self.hex_value.clone(),
        }
    }
}

/// An event that a transaction of the contract chain emitted.
#[derive(Debug, PartialEq)]
pub enum StacksTransactionEvent {
    STXTransferEvent(STXTransferEventData),
    STXMintEvent(STXMintEventData),
    STXLockEvent(STXLockEventData),
    STXBurnEvent(STXBurnEventData),
    NFTTransferEvent(NFTTransferEventData),
    NFTMintEvent(NFTMintEventData),
    NFTBurnEvent(NFTBurnEventData),
    FTTransferEvent(FTTransferEventData),
    FTMintEvent(FTMintEventData),
    FTBurnEvent(FTBurnEventData),
    DataVarSetEvent(DataVarSetEventData),
    DataMapInsertEvent(DataMapInsertEventData),
    DataMapUpdateEvent(DataMapUpdateEventData),
    DataMapDeleteEvent(DataMapDeleteEventData),
    SmartContractEvent(SmartContractEventData),
}

impl Clone for StacksTransactionEvent {
    fn clone(&self) -> (copy: Self)
        ensures
            copy == *self,
    {
        match self {
            StacksTransactionEvent::STXTransferEvent(data) => StacksTransactionEvent::STXTransferEvent(
                data.clone(),
            ),
            StacksTransactionEvent::STXMintEvent(data) => StacksTransactionEvent::STXMintEvent(
                data.clone(),
            ),
            StacksTransactionEvent::STXLockEvent(data) => StacksTransactionEvent::STXLockEvent(
                data.clone(),
            ),
            StacksTransactionEvent::STXBurnEvent(data) => StacksTransactionEvent::STXBurnEvent(
                data.clone(),
            ),
            StacksTransactionEvent::NFTTransferEvent(data) => StacksTransactionEvent::NFTTransferEvent(
                data.clone(),
            ),
            StacksTransactionEvent::NFTMintEvent(data) => StacksTransactionEvent::NFTMintEvent(
                data.clone(),
            ),
            StacksTransactionEvent::NFTBurnEvent(data) => StacksTransactionEvent::NFTBurnEvent(
                data.clone(),
            ),
            StacksTransactionEvent::FTTransferEvent(data) => StacksTransactionEvent::FTTransferEvent(
                data.clone(),
            ),
            StacksTransactionEvent::FTMintEvent(data) => StacksTransactionEvent::FTMintEvent(
                data.clone(),
            ),
            StacksTransactionEvent::FTBurnEvent(data) => StacksTransactionEvent::FTBurnEvent(
                data.clone(),
            ),
            StacksTransactionEvent::DataVarSetEvent(data) => StacksTransactionEvent::DataVarSetEvent(
                data.clone(),
            ),
            StacksTransactionEvent::DataMapInsertEvent(data) => StacksTransactionEvent::DataMapInsertEvent(
                data.clone(),
            ),
            StacksTransactionEvent::DataMapUpdateEvent(data) => StacksTransactionEvent::DataMapUpdateEvent(
                data.clone(),
            ),
            StacksTransactionEvent::DataMapDeleteEvent(data) => StacksTransactionEvent::DataMapDeleteEvent(
                data.clone(),
            ),
            StacksTransactionEvent::SmartContractEvent(data) => StacksTransactionEvent::SmartContractEvent(
                data.clone(),
            ),
        }
    }
}

#[derive(Debug, PartialEq)]
pub struct StacksContractCallData {
    pub contract_identifier: String,
    pub method: String,
    pub args: Vec<String>,
}

impl StacksContractCallData {
    /// Whether the two hold the same data.
    pub open spec fn same_as(&self, other: Self) -> bool {
        &&& self.contract_identifier == other.contract_identifier
        &&& self.method == other.method
        &&& self.args@ == other.args@
    }
}

impl Clone for StacksContractCallData {
    fn clone(&self) -> (copy: Self)
        ensures
            copy.same_as(*self),
    {
        let args = self.args.clone();
        assert(args@ =~= self.args@);
        StacksContractCallData {
            contract_identifier: self.contract_identifier.clone(),
            method: self.method.clone(),
            args,
        }
    }
}

#[derive(Debug, PartialEq)]
pub struct StacksContractDeploymentData {
    pub contract_identifier: String,
    pub code: String,
}

impl Clone for StacksContractDeploymentData {
    fn clone(&self) -> (copy: Self)
        ensures
            copy == *self,
    {
        StacksContractDeploymentData {
            contract_identifier: self.contract_identifier.clone(),
            code: self.code.clone(),
        }
    }
}

/// What a transaction of the contract chain does. An operation of the UTXO
/// chain is held as its document.
#[derive(Debug, PartialEq)]
pub enum StacksTransactionKind {
    ContractCall(StacksContractCallData),
    ContractDeployment(StacksContractDeploymentData),
    NativeTokenTransfer,
    Coinbase,
    BitcoinOp(serde_json::Value),
    Unsupported,
}

impl StacksTransactionKind {
    /// Whether the two hold the same data.
    pub open spec fn same_as(&self, other: Self) -> bool {
        match (*self, other) {
            (
                StacksTransactionKind::ContractCall(call),
                StacksTransactionKind::ContractCall(other_call),
            ) => call.same_as(other_call),
            (
                StacksTransactionKind::ContractDeployment(deployment),
                StacksTransactionKind::ContractDeployment(other_deployment),
            ) => deployment == other_deployment,
            (
                StacksTransactionKind::NativeTokenTransfer,
                StacksTransactionKind::NativeTokenTransfer,
            ) => true,
            (StacksTransactionKind::Coinbase, StacksTransactionKind::Coinbase) => true,
            (
                StacksTransactionKind::BitcoinOp(operation),
                StacksTransactionKind::BitcoinOp(other_operation),
            ) => json_model(operation) == json_model(other_operation),
            (StacksTransactionKind::Unsupported, StacksTransactionKind::Unsupported) => true,
            _ => false,
        }
    }
}

impl Clone for StacksTransactionKind {
    fn clone(&self) -> (copy: Self)
        ensures
            copy.same_as(*self),
    {
        match self {
            StacksTransactionKind::ContractCall(call) => StacksTransactionKind::ContractCall(
                call.clone(),
            ),
            StacksTransactionKind::ContractDeployment(deployment) => {
                StacksTransactionKind::ContractDeployment(deployment.clone())
            },
            StacksTransactionKind::NativeTokenTransfer => StacksTransactionKind::NativeTokenTransfer,
            StacksTransactionKind::Coinbase => StacksTransactionKind::Coinbase,
            StacksTransactionKind::BitcoinOp(operation) => StacksTransactionKind::BitcoinOp(
                operation.clone(),
            ),
            StacksTransactionKind::Unsupported => StacksTransactionKind::Unsupported,
        }
    }
}

#[derive(Debug, PartialEq)]
pub struct StacksTransactionReceipt {
    pub mutated_contracts_radius: Vec<String>,
    pub mutated_assets_radius: Vec<String>,
    pub contract_calls_stack: Vec<String>,
    pub events: Vec<StacksTransactionEvent>,
}

impl StacksTransactionReceipt {
    /// Whether the two hold the same data.
    pub open spec fn same_as(&self, other: Self) -> bool {
        &&& self.mutated_contracts_radius@ == other.mutated_contracts_radius@
        &&& self.mutated_assets_radius@ == other.mutated_assets_radius@
        &&& self.contract_calls_stack@ == other.contract_calls_stack@
        &&& self.events@ == other.events@
    }
}

impl Clone for StacksTransactionReceipt {
    fn clone(&self) -> (copy: Self)
        ensures
            copy.same_as(*self),
    {
        let mutated_contracts_radius = self.mutated_contracts_radius.clone();
        let mutated_assets_radius = self.mutated_assets_radius.clone();
        let contract_calls_stack = self.contract_calls_stack.clone();
        let events = self.events.clone();
        assert(mutated_contracts_radius@ =~= self.mutated_contracts_radius@);
        assert(mutated_assets_radius@ =~= self.mutated_assets_radius@);
        assert(contract_calls_stack@ =~= self.contract_calls_stack@);
        assert(events@ =~= self.events@);
        StacksTransactionReceipt {
            mutated_contracts_radius,
            mutated_assets_radius,
            contract_calls_stack,
            events,
        }
    }
}

#[derive(Debug, PartialEq)]
pub struct StacksTransactionMetadata {
    pub success: bool,
    pub raw_tx: String,
    pub result: String,
    pub sender: String,
    pub nonce: u64,
    pub fee: u64,
    pub kind: StacksTransactionKind,
    pub receipt: StacksTransactionReceipt,
    pub description: String,
    pub sponsor: Option<String>,
    pub execution_cost: Option<serde_json::Value>,
    pub position: serde_json::Value,
    pub proof: Option<String>,
}

impl StacksTransactionMetadata {
    /// Whether the two hold the same data.
    pub open spec fn same_as(&self, other: Self) -> bool {
        &&& self.success == other.success
        &&& self.raw_tx == other.raw_tx
        &&& self.result == other.result
        &&& self.sender == other.sender
        &&& self.nonce == other.nonce
        &&& self.fee == other.fee
        &&& self.kind.same_as(other.kind)
        &&& self.receipt.same_as(other.receipt)
        &&& self.description == other.description
        &&& self.sponsor == other.sponsor
        &&& present_json_model(self.execution_cost) == present_json_model(other.execution_cost)
        &&& json_model(self.position) == json_model(other.position)
        &&& self.proof == other.proof
    }
}

impl Clone for StacksTransactionMetadata {
    fn clone(&self) -> (copy: Self)
        ensures
            copy.same_as(*self),
    {
        let sponsor = match &self.sponsor {
            Some(sponsor) => Some(sponsor.clone()),
            None => None,
        };
        let proof = match &self.proof {
            Some(proof) => Some(proof.clone()),
            None => None,
        };
        let execution_cost = match &self.execution_cost {
            Some(cost) => Some(cost.clone()),
            None => None,
        };
        StacksTransactionMetadata {
            success: self.success,
            raw_tx: self.raw_tx.clone(),
            result: self.result.clone(),
            sender: self.sender.clone(),
            nonce: self.nonce,
            fee: self.fee,
            kind: self.kind.clone(),
            receipt: self.receipt.clone(),
            description: self.description.clone(),
            sponsor,
            execution_cost,
            position: self.position.clone(),
            proof,
        }
    }
}

#[derive(Debug, PartialEq)]
pub struct StacksTransactionData {
    pub transaction_identifier: TransactionIdentifier,
    pub operations: serde_json::Value,
    pub metadata: StacksTransactionMetadata,
}

impl StacksTransactionData {
    /// Whether the two hold the same data.
    pub open spec fn same_as(&self, other: Self) -> bool {
        &&& self.transaction_identifier == other.transaction_identifier
        &&& json_model(self.operations) == json_model(other.operations)
        &&& self.metadata.same_as(other.metadata)
    }
}

impl Clone for StacksTransactionData {
    fn clone(&self) -> (copy: Self)
        ensures
            copy.same_as(*self),
    {
        StacksTransactionData {
            transaction_identifier: self.transaction_identifier.clone(),
            operations: self.operations.clone(),
            metadata: self.metadata.clone(),
        }
    }
}

#[derive(Clone, Debug, PartialEq)]
pub struct StacksBlockData {
    pub block_identifier: BlockIdentifier,
    pub transactions: Vec<StacksTransactionData>,
}

#[derive(Clone, Debug, PartialEq)]
pub struct StacksMicroblockData {
    pub block_identifier: BlockIdentifier,
    pub transactions: Vec<StacksTransactionData>,
}

/// A block of the contract chain, with the microblocks of its parent that
/// come and go with it.
#[derive(Clone, Debug, PartialEq)]
pub struct StacksBlockUpdate {
    pub block: StacksBlockData,
    pub parent_microblocks_to_rollback: Vec<StacksMicroblockData>,
    pub parent_microblocks_to_apply: Vec<StacksMicroblockData>,
}

#[derive(Clone, Debug, PartialEq)]
pub struct StacksChainUpdatedWithBlocksData {
    pub new_blocks: Vec<StacksBlockUpdate>,
}

#[derive(Clone, Debug, PartialEq)]
pub struct StacksChainUpdatedWithReorgData {
    pub blocks_to_rollback: Vec<StacksBlockUpdate>,
    pub blocks_to_apply: Vec<StacksBlockUpdate>,
}

#[derive(Clone, Debug, PartialEq)]
pub struct StacksChainUpdatedWithMicroblocksData {
    pub new_microblocks: Vec<StacksMicroblockData>,
}

#[derive(Clone, Debug, PartialEq)]
pub struct StacksChainUpdatedWithMicroblocksReorgData {
    pub microblocks_to_rollback: Vec<StacksMicroblockData>,
    pub microblocks_to_apply: Vec<StacksMicroblockData>,
}

/// How the contract chain moved.
#[derive(Clone, Debug, PartialEq)]
pub enum StacksChainEvent {
    ChainUpdatedWithBlocks(StacksChainUpdatedWithBlocksData),
    ChainUpdatedWithReorg(StacksChainUpdatedWithReorgData),
    ChainUpdatedWithMicroblocks(StacksChainUpdatedWithMicroblocksData),
    ChainUpdatedWithMicroblocksReorg(StacksChainUpdatedWithMicroblocksReorgData),
}

} // verus!
