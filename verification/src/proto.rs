//! The documents of the schema: what a configuration file holds once its
//! text has been parsed. Every field of a document may be absent, and a
//! field of bytes may have any length.

use vstd::prelude::*;

verus! {

/// The view of a field of bytes.
pub open spec fn bytes_view(field: Option<Vec<u8>>) -> Option<Seq<u8>> {
    match field {
        Some(bytes) => Some(bytes@),
        None => None,
    }
}

/// The addresses of the contracts of a shared bridge.
#[derive(Debug, PartialEq, Default)]
pub struct SharedBridge {
    pub bridgehub_proxy_addr: Option<Vec<u8>>,
    pub state_transition_proxy_addr: Option<Vec<u8>>,
    pub transparent_proxy_admin_addr: Option<Vec<u8>>,
}

pub struct SharedBridgeView {
    pub bridgehub_proxy_addr: Option<Seq<u8>>,
    pub state_transition_proxy_addr: Option<Seq<u8>>,
    pub transparent_proxy_admin_addr: Option<Seq<u8>>,
}

impl View for SharedBridge {
    type V = SharedBridgeView;

    open spec fn view(&self) -> SharedBridgeView {
        SharedBridgeView {
            bridgehub_proxy_addr: bytes_view(self.bridgehub_proxy_addr),
            state_transition_proxy_addr: bytes_view(self.state_transition_proxy_addr),
            transparent_proxy_admin_addr: bytes_view(self.transparent_proxy_admin_addr),
        }
    }
}

/// The part of a genesis document that concerns the prover.
#[derive(Debug, PartialEq, Default)]
pub struct Prover {
    pub recursion_scheduler_level_vk_hash: Option<Vec<u8>>,
    pub recursion_node_level_vk_hash: Option<Vec<u8>>,
    pub recursion_leaf_level_vk_hash: Option<Vec<u8>>,
    pub recursion_circuits_set_vks_hash: Option<Vec<u8>>,
    pub dummy_verifier: Option<bool>,
}

pub struct ProverView {
    pub recursion_scheduler_level_vk_hash: Option<Seq<u8>>,
    pub recursion_node_level_vk_hash: Option<Seq<u8>>,
    pub recursion_leaf_level_vk_hash: Option<Seq<u8>>,
    pub recursion_circuits_set_vks_hash: Option<Seq<u8>>,
    pub dummy_verifier: Option<bool>,
}

impl View for Prover {
    type V = ProverView;

    open spec fn view(&self) -> ProverView {
        ProverView {
            recursion_scheduler_level_vk_hash: bytes_view(self.recursion_scheduler_level_vk_hash),
            recursion_node_level_vk_hash: bytes_view(self.recursion_node_level_vk_hash),
            recursion_leaf_level_vk_hash: bytes_view(self.recursion_leaf_level_vk_hash),
            recursion_circuits_set_vks_hash: bytes_view(self.recursion_circuits_set_vks_hash),
            dummy_verifier: self.dummy_verifier,
        }
    }
}

/// A genesis document.
#[derive(Debug, PartialEq, Default)]
pub struct Genesis {
    pub genesis_root: Option<Vec<u8>>,
    pub genesis_rollup_leaf_index: Option<u64>,
    pub genesis_batch_commitment: Option<Vec<u8>>,
    pub genesis_protocol_version: Option<u32>,
    pub default_aa_hash: Option<Vec<u8>>,
    pub bootloader_hash: Option<Vec<u8>>,
    pub l1_chain_id: Option<u64>,
    pub l2_chain_id: Option<u64>,
    pub fee_account: Option<Vec<u8>>,
    pub prover: Option<Prover>,
    pub shared_bridge: Option<SharedBridge>,
}

pub struct GenesisView {
    pub genesis_root: Option<Seq<u8>>,
    pub genesis_rollup_leaf_index: Option<u64>,
    pub genesis_batch_commitment: Option<Seq<u8>>,
    pub genesis_protocol_version: Option<u32>,
    pub default_aa_hash: Option<Seq<u8>>,
    pub bootloader_hash: Option<Seq<u8>>,
    pub l1_chain_id: Option<u64>,
    pub l2_chain_id: Option<u64>,
    pub fee_account: Option<Seq<u8>>,
    pub prover: Option<ProverView>,
    pub shared_bridge: Option<SharedBridgeView>,
}

impl View for Genesis {
    type V = GenesisView;

    open spec fn view(&self) -> GenesisView {
        GenesisView {
            genesis_root: bytes_view(self.genesis_root),
            genesis_rollup_leaf_index: self.genesis_rollup_leaf_index,
            genesis_batch_commitment: bytes_view(self.genesis_batch_commitment),
            genesis_protocol_version: self.genesis_protocol_version,
            default_aa_hash: bytes_view(self.default_aa_hash),
            bootloader_hash: bytes_view(self.bootloader_hash),
            l1_chain_id: self.l1_chain_id,
            l2_chain_id: self.l2_chain_id,
            fee_account: bytes_view(self.fee_account),
            prover: match self.prover {
                Some(prover) => Some(prover@),
                None => None,
            },
            shared_bridge: match self.shared_bridge {
                Some(bridge) => Some(bridge@),
                None => None,
            },
        }
    }
}

/// A document of secrets, over the documents `P` of the consensus section.
#[derive(Debug, PartialEq)]
pub struct Secrets<P> {
    pub consensus: Option<P>,
}

impl<P: View> View for Secrets<P> {
    type V = Option<P::V>;

    /// A document of secrets is its one section.
    open spec fn view(&self) -> Option<P::V> {
        match self.consensus {
            Some(doc) => Some(doc@),
            None => None,
        }
    }
}

} // verus!
