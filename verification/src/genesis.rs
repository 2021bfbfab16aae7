//! The genesis configuration and its documents.

use vstd::prelude::*;
use crate::error::{DecodeError, Label};
use crate::primitives::{Address, H160, H256, L1ChainId, L2ChainId, L2_CHAIN_ID_MAX};
use crate::proto;
use crate::proto_fmt::{
    parse_h160, parse_h256, required_field, view_of, with_label, ProtoRepr,
};

verus! {

/// The addresses of the contracts of a shared bridge.
#[derive(Clone, Copy, Debug, PartialEq)]
pub struct SharedBridge {
    pub bridgehub_proxy_addr: Address,
    pub state_transition_proxy_addr: Address,
    pub transparent_proxy_admin_addr: Address,
}

pub struct SharedBridgeView {
    pub bridgehub_proxy_addr: Seq<u8>,
    pub state_transition_proxy_addr: Seq<u8>,
    pub transparent_proxy_admin_addr: Seq<u8>,
}

impl View for SharedBridge {
    type V = SharedBridgeView;

    open spec fn view(&self) -> SharedBridgeView {
        SharedBridgeView {
            bridgehub_proxy_addr: self.bridgehub_proxy_addr@,
            state_transition_proxy_addr: self.state_transition_proxy_addr@,
            transparent_proxy_admin_addr: self.transparent_proxy_admin_addr@,
        }
    }
}

/// The state from which a chain starts.
#[derive(Clone, Copy, Debug, PartialEq)]
pub struct GenesisConfig {
    pub protocol_version: u16,
    pub genesis_root_hash: H256,
    pub rollup_last_leaf_index: u64,
    pub genesis_commitment: H256,
    pub bootloader_hash: H256,
    pub default_aa_hash: H256,
    pub fee_account: Address,
    pub l1_chain_id: L1ChainId,
    pub l2_chain_id: L2ChainId,
    pub recursion_node_level_vk_hash: H256,
    pub recursion_leaf_level_vk_hash: H256,
    pub recursion_circuits_set_vks_hash: H256,
    pub recursion_scheduler_level_vk_hash: H256,
    pub shared_bridge: Option<SharedBridge>,
    pub dummy_prover: bool,
}

pub struct GenesisConfigView {
    pub protocol_version: u16,
    pub genesis_root_hash: Seq<u8>,
    pub rollup_last_leaf_index: u64,
    pub genesis_commitment: Seq<u8>,
    pub bootloader_hash: Seq<u8>,
    pub default_aa_hash: Seq<u8>,
    pub fee_account: Seq<u8>,
    pub l1_chain_id: u64,
    pub l2_chain_id: u64,
    pub recursion_node_level_vk_hash: Seq<u8>,
    pub recursion_leaf_level_vk_hash: Seq<u8>,
    pub recursion_circuits_set_vks_hash: Seq<u8>,
    pub recursion_scheduler_level_vk_hash: Seq<u8>,
    pub shared_bridge: Option<SharedBridgeView>,
    pub dummy_prover: bool,
}

impl View for GenesisConfig {
    type V = GenesisConfigView;

    open spec fn view(&self) -> GenesisConfigView {
        GenesisConfigView {
            protocol_version: self.protocol_version,
            genesis_root_hash: self.genesis_root_hash@,
            rollup_last_leaf_index: self.rollup_last_leaf_index,
            genesis_commitment: self.genesis_commitment@,
            bootloader_hash: self.bootloader_hash@,
            default_aa_hash: self.default_aa_hash@,
            fee_account: self.fee_account@,
            l1_chain_id: self.l1_chain_id.0,
            l2_chain_id: self.l2_chain_id.as_u64(),
            recursion_node_level_vk_hash: self.recursion_node_level_vk_hash@,
            recursion_leaf_level_vk_hash: self.recursion_leaf_level_vk_hash@,
            recursion_circuits_set_vks_hash: self.recursion_circuits_set_vks_hash@,
            recursion_scheduler_level_vk_hash: self.recursion_scheduler_level_vk_hash@,
            shared_bridge: match self.shared_bridge {
                Some(bridge) => Some(bridge@),
                None => None,
            },
            dummy_prover: self.dummy_prover,
        }
    }
}

impl SharedBridgeView {
    /// Whether this is the view of some value: every address has 20 bytes.
    pub open spec fn well_formed(self) -> bool {
        &&& self.bridgehub_proxy_addr.len() == 20
        &&& self.state_transition_proxy_addr.len() == 20
        &&& self.transparent_proxy_admin_addr.len() == 20
    }
}

impl GenesisConfigView {
    /// Whether this is the view of some value: every hash has 32 bytes, every
    /// address 20, and the identifier of the chain is in range.
    pub open spec fn well_formed(self) -> bool {
        &&& self.genesis_root_hash.len() == 32
        &&& self.genesis_commitment.len() == 32
        &&& self.bootloader_hash.len() == 32
        &&& self.default_aa_hash.len() == 32
        &&& self.fee_account.len() == 20
        &&& self.l2_chain_id <= L2_CHAIN_ID_MAX
        &&& self.recursion_node_level_vk_hash.len() == 32
        &&& self.recursion_leaf_level_vk_hash.len() == 32
        &&& self.recursion_circuits_set_vks_hash.len() == 32
        &&& self.recursion_scheduler_level_vk_hash.len() == 32
        &&& self.shared_bridge matches Some(bridge) ==> bridge.well_formed()
    }
}

/// The outcome of a chain of checks: the failure of the first check that
/// failed, if one did.
pub struct Checked(pub Option<DecodeError>);

impl Checked {
    /// The outcome with one more check made after the others.
    pub open spec fn and(self, next: Option<DecodeError>) -> Checked {
        if self.0 is Some {
            self
        } else {
            Checked(next)
        }
    }
}

/// A failure as seen from outside the field `label`.
pub open spec fn inside(label: Label, failure: Option<DecodeError>) -> Option<DecodeError> {
    match failure {
        Some(e) => Some(DecodeError::Context(label, Box::new(e))),
        None => None,
    }
}

/// The check that a field is present.
pub open spec fn present<T>(field: Option<T>) -> Option<DecodeError> {
    if field is None {
        Some(DecodeError::MissingField)
    } else {
        None
    }
}

/// The check that a field of bytes is present and holds `len` of them.
pub open spec fn present_sized(field: Option<Seq<u8>>, len: nat) -> Option<DecodeError> {
    match field {
        None => Some(DecodeError::MissingField),
        Some(bytes) => if bytes.len() == len {
            None
        } else {
            Some(DecodeError::InvalidSize)
        },
    }
}

/// The check that the identifier of a chain of the second layer is present
/// and in range.
pub open spec fn present_in_range(field: Option<u64>) -> Option<DecodeError> {
    match field {
        None => Some(DecodeError::MissingField),
        Some(number) => if number <= L2_CHAIN_ID_MAX {
            None
        } else {
            Some(DecodeError::ChainIdTooLarge)
        },
    }
}

/// The checks on the addresses of a shared bridge, where the document has
/// one.
pub open spec fn bridge_failure(bridge: Option<proto::SharedBridgeView>) -> Option<DecodeError> {
    match bridge {
        None => None,
        Some(bridge) => Checked(
            inside(Label::BridgehubProxyAddr, present_sized(bridge.bridgehub_proxy_addr, 20)),
        ).and(
            inside(
                Label::StateTransitionProxyAddr,
                present_sized(bridge.state_transition_proxy_addr, 20),
            ),
        ).and(
            inside(
                Label::TransparentProxyAdminAddr,
                present_sized(bridge.transparent_proxy_admin_addr, 20),
            ),
        ).0,
    }
}

/// The failure with which a genesis document is refused, if it is refused.
///
/// The checks are made in the order in which they stand here, and the first
/// one that fails decides. A failure is reported under the name of the field
/// of the configuration that could not be filled, and one that concerns the
/// prover under `prover` besides.
pub open spec fn genesis_failure(doc: proto::GenesisView) -> Option<DecodeError> {
    let prover = doc.prover.unwrap();
    Checked(inside(Label::Prover, present(doc.prover)))
        .and(bridge_failure(doc.shared_bridge))
        .and(inside(Label::ProtocolVersion, present(doc.genesis_protocol_version)))
        .and(inside(Label::GenesisRootHash, present_sized(doc.genesis_root, 32)))
        .and(inside(Label::RollupLastLeafIndex, present(doc.genesis_rollup_leaf_index)))
        .and(inside(Label::GenesisCommitment, present_sized(doc.genesis_batch_commitment, 32)))
        .and(inside(Label::BootloaderHash, present_sized(doc.bootloader_hash, 32)))
        .and(inside(Label::DefaultAaHash, present_sized(doc.default_aa_hash, 32)))
        .and(inside(Label::L1ChainId, present(doc.l1_chain_id)))
        .and(inside(Label::L2ChainId, present_in_range(doc.l2_chain_id)))
        .and(
            inside(
                Label::Prover,
                inside(
                    Label::RecursionNodeLevelVkHash,
                    present_sized(prover.recursion_node_level_vk_hash, 32),
                ),
            ),
        )
        .and(
            inside(
                Label::Prover,
                inside(
                    Label::RecursionLeafLevelVkHash,
                    present_sized(prover.recursion_leaf_level_vk_hash, 32),
                ),
            ),
        )
        .and(
            inside(
                Label::Prover,
                inside(
                    Label::RecursionCircuitsSetVksHash,
                    present_sized(prover.recursion_circuits_set_vks_hash, 32),
                ),
            ),
        )
        .and(
            inside(
                Label::Prover,
                inside(
                    Label::RecursionSchedulerLevelVkHash,
                    present_sized(prover.recursion_scheduler_level_vk_hash, 32),
                ),
            ),
        )
        .and(inside(Label::FeeAccount, present_sized(doc.fee_account, 20)))
        .and(inside(Label::Prover, inside(Label::DummyProver, present(prover.dummy_verifier))))
        .0
}

/// The shared bridge that a document describes.
pub open spec fn bridge_value(bridge: Option<proto::SharedBridgeView>) -> Option<SharedBridgeView> {
    match bridge {
        None => None,
        Some(bridge) => Some(
            SharedBridgeView {
                bridgehub_proxy_addr: bridge.bridgehub_proxy_addr.unwrap(),
                state_transition_proxy_addr: bridge.state_transition_proxy_addr.unwrap(),
                transparent_proxy_admin_addr: bridge.transparent_proxy_admin_addr.unwrap(),
            },
        ),
    }
}

/// The configuration that a genesis document describes, where the document
/// passes every check. Of the version of the protocol the lower 16 bits are
/// kept.
pub open spec fn genesis_value(doc: proto::GenesisView) -> GenesisConfigView {
    let prover = doc.prover.unwrap();
    GenesisConfigView {
        protocol_version: doc.genesis_protocol_version.unwrap() as u16,
        genesis_root_hash: doc.genesis_root.unwrap(),
        rollup_last_leaf_index: doc.genesis_rollup_leaf_index.unwrap(),
        genesis_commitment: doc.genesis_batch_commitment.unwrap(),
        bootloader_hash: doc.bootloader_hash.unwrap(),
        default_aa_hash: doc.default_aa_hash.unwrap(),
        fee_account: doc.fee_account.unwrap(),
        l1_chain_id: doc.l1_chain_id.unwrap(),
        l2_chain_id: doc.l2_chain_id.unwrap(),
        recursion_node_level_vk_hash: prover.recursion_node_level_vk_hash.unwrap(),
        recursion_leaf_level_vk_hash: prover.recursion_leaf_level_vk_hash.unwrap(),
        recursion_circuits_set_vks_hash: prover.recursion_circuits_set_vks_hash.unwrap(),
        recursion_scheduler_level_vk_hash: prover.recursion_scheduler_level_vk_hash.unwrap(),
        shared_bridge: bridge_value(doc.shared_bridge),
        dummy_prover: prover.dummy_verifier.unwrap(),
    }
}

/// The document that is built from a shared bridge.
pub open spec fn bridge_document(bridge: Option<SharedBridgeView>) -> Option<
    proto::SharedBridgeView,
> {
    match bridge {
        None => None,
        Some(bridge) => Some(
            proto::SharedBridgeView {
                bridgehub_proxy_addr: Some(bridge.bridgehub_proxy_addr),
                state_transition_proxy_addr: Some(bridge.state_transition_proxy_addr),
                transparent_proxy_admin_addr: Some(bridge.transparent_proxy_admin_addr),
            },
        ),
    }
}

/// The document that is built from a genesis configuration.
///
/// Every field of the document is set. The root hash of the genesis is
/// written four times: into its own field and into the fields of the batch
/// commitment, of the bootloader hash and of the default account hash. The
/// three values that the configuration holds for these are not written.
pub open spec fn genesis_document(config: GenesisConfigView) -> proto::GenesisView {
    proto::GenesisView {
        genesis_root: Some(config.genesis_root_hash),
        genesis_rollup_leaf_index: Some(config.rollup_last_leaf_index),
        genesis_batch_commitment: Some(config.genesis_root_hash),
        genesis_protocol_version: Some(config.protocol_version as u32),
        default_aa_hash: Some(config.genesis_root_hash),
        bootloader_hash: Some(config.genesis_root_hash),
        l1_chain_id: Some(config.l1_chain_id),
        l2_chain_id: Some(config.l2_chain_id),
        fee_account: Some(config.fee_account),
        prover: Some(
            proto::ProverView {
                recursion_scheduler_level_vk_hash: Some(config.recursion_scheduler_level_vk_hash),
                recursion_node_level_vk_hash: Some(config.recursion_node_level_vk_hash),
                recursion_leaf_level_vk_hash: Some(config.recursion_leaf_level_vk_hash),
                recursion_circuits_set_vks_hash: Some(config.recursion_circuits_set_vks_hash),
                dummy_verifier: Some(config.dummy_prover),
            },
        ),
        shared_bridge: bridge_document(config.shared_bridge),
    }
}

/// What reading makes of a field that must hold a hash of 32 bytes.
pub open spec fn hash_outcome(field: Option<Seq<u8>>) -> Result<Seq<u8>, DecodeError> {
    match present_sized(field, 32) {
        Some(e) => Err(e),
        None => Ok(field.unwrap()),
    }
}

/// What reading makes of a field that must hold an address of 20 bytes.
pub open spec fn address_outcome(field: Option<Seq<u8>>) -> Result<Seq<u8>, DecodeError> {
    match present_sized(field, 20) {
        Some(e) => Err(e),
        None => Ok(field.unwrap()),
    }
}

/// Reads a field that must hold a hash of 32 bytes.
pub fn read_h256(field: &Option<Vec<u8>>) -> (res: Result<H256, DecodeError>)
    ensures
        view_of(res) == hash_outcome(proto::bytes_view(*field)),
{
    let bytes = required_field(field)?;
    parse_h256(bytes.as_slice())
}

/// Reads a field that must hold an address of 20 bytes.
pub fn read_h160(field: &Option<Vec<u8>>) -> (res: Result<H160, DecodeError>)
    ensures
        view_of(res) == address_outcome(proto::bytes_view(*field)),
{
    let bytes = required_field(field)?;
    parse_h160(bytes.as_slice())
}

/// Reads a field that must hold the identifier of a chain of the second
/// layer.
pub fn read_l2_chain_id(field: &Option<u64>) -> (res: Result<L2ChainId, DecodeError>)
    ensures
        match res {
            Ok(id) => present_in_range(*field) is None && Some(id.as_u64()) == *field,
            Err(e) => present_in_range(*field) == Some(e),
        },
{
    let number = required_field(field)?;
    match L2ChainId::new(*number) {
        Some(id) => Ok(id),
        None => Err(DecodeError::ChainIdTooLarge),
    }
}

impl ProtoRepr for proto::Genesis {
    type Type = GenesisConfig;

    open spec fn decoded(doc: proto::GenesisView) -> Result<GenesisConfigView, DecodeError> {
        match genesis_failure(doc) {
            Some(e) => Err(e),
            None => Ok(genesis_value(doc)),
        }
    }

    open spec fn encoded(value: GenesisConfigView) -> proto::GenesisView {
        genesis_document(value)
    }

    fn read(&self) -> (res: Result<GenesisConfig, DecodeError>) {
        let prover = with_label(required_field(&self.prover), Label::Prover)?;
        let shared_bridge = match &self.shared_bridge {
            Some(bridge) => {
                let bridgehub_proxy_addr = with_label(
                    read_h160(&bridge.bridgehub_proxy_addr),
                    Label::BridgehubProxyAddr,
                )?;
                let state_transition_proxy_addr = with_label(
                    read_h160(&bridge.state_transition_proxy_addr),
                    Label::StateTransitionProxyAddr,
                )?;
                let transparent_proxy_admin_addr = with_label(
                    read_h160(&bridge.transparent_proxy_admin_addr),
                    Label::TransparentProxyAdminAddr,
                )?;
                Some(
                    SharedBridge {
                        bridgehub_proxy_addr,
                        state_transition_proxy_addr,
                        transparent_proxy_admin_addr,
                    },
                )
            },
            None => None,
        };
        let version = *with_label(
            required_field(&self.genesis_protocol_version),
            Label::ProtocolVersion,
        )?;
        let protocol_version = #[verifier::truncate]
        (version as u16);
        let genesis_root_hash = with_label(read_h256(&self.genesis_root), Label::GenesisRootHash)?;
        let rollup_last_leaf_index = *with_label(
            required_field(&self.genesis_rollup_leaf_index),
            Label::RollupLastLeafIndex,
        )?;
        let genesis_commitment = with_label(
            read_h256(&self.genesis_batch_commitment),
            Label::GenesisCommitment,
        )?;
        let bootloader_hash = with_label(read_h256(&self.bootloader_hash), Label::BootloaderHash)?;
        let default_aa_hash = with_label(read_h256(&self.default_aa_hash), Label::DefaultAaHash)?;
        let l1_chain_id = L1ChainId(
            *with_label(required_field(&self.l1_chain_id), Label::L1ChainId)?,
        );
        let l2_chain_id = with_label(read_l2_chain_id(&self.l2_chain_id), Label::L2ChainId)?;
        let recursion_node_level_vk_hash = with_label(
            with_label(
                read_h256(&prover.recursion_node_level_vk_hash),
                Label::RecursionNodeLevelVkHash,
            ),
            Label::Prover,
        )?;
        let recursion_leaf_level_vk_hash = with_label(
            with_label(
                read_h256(&prover.recursion_leaf_level_vk_hash),
                Label::RecursionLeafLevelVkHash,
            ),
            Label::Prover,
        )?;
        let recursion_circuits_set_vks_hash = with_label(
            with_label(
                read_h256(&prover.recursion_circuits_set_vks_hash),
                Label::RecursionCircuitsSetVksHash,
            ),
            Label::Prover,
        )?;
        let recursion_scheduler_level_vk_hash = with_label(
            with_label(
                read_h256(&prover.recursion_scheduler_level_vk_hash),
                Label::RecursionSchedulerLevelVkHash,
            ),
            Label::Prover,
        )?;
        let fee_account = with_label(read_h160(&self.fee_account), Label::FeeAccount)?;
        let dummy_prover = *with_label(
            with_label(required_field(&prover.dummy_verifier), Label::DummyProver),
            Label::Prover,
        )?;
        Ok(
            GenesisConfig {
                protocol_version,
                genesis_root_hash,
                rollup_last_leaf_index,
                genesis_commitment,
                bootloader_hash,
                default_aa_hash,
                fee_account,
                l1_chain_id,
                l2_chain_id,
                recursion_node_level_vk_hash,
                recursion_leaf_level_vk_hash,
                recursion_circuits_set_vks_hash,
                recursion_scheduler_level_vk_hash,
                shared_bridge,
                dummy_prover,
            },
        )
    }

    fn build(this: &GenesisConfig) -> (res: proto::Genesis) {
        let shared_bridge = match &this.shared_bridge {
            Some(bridge) => Some(
                proto::SharedBridge {
                    bridgehub_proxy_addr: Some(bridge.bridgehub_proxy_addr.to_vec()),
                    state_transition_proxy_addr: Some(
                        bridge.state_transition_proxy_addr.to_vec(),
                    ),
                    transparent_proxy_admin_addr: Some(
                        bridge.transparent_proxy_admin_addr.to_vec(),
                    ),
                },
            ),
            None => None,
        };
        proto::Genesis {
            genesis_root: Some(this.genesis_root_hash.to_vec()),
            genesis_rollup_leaf_index: Some(this.rollup_last_leaf_index),
            genesis_batch_commitment: Some(this.genesis_root_hash.to_vec()),
            genesis_protocol_version: Some(this.protocol_version as u32),
            default_aa_hash: Some(this.genesis_root_hash.to_vec()),
            bootloader_hash: Some(this.genesis_root_hash.to_vec()),
            l1_chain_id: Some(this.l1_chain_id.0),
            l2_chain_id: Some(this.l2_chain_id.as_u64()),
            fee_account: Some(this.fee_account.to_vec()),
            prover: Some(
                proto::Prover {
                    recursion_scheduler_level_vk_hash: Some(
                        this.recursion_scheduler_level_vk_hash.to_vec(),
                    ),
                    recursion_node_level_vk_hash: Some(
                        this.recursion_node_level_vk_hash.to_vec(),
                    ),
                    recursion_leaf_level_vk_hash: Some(
                        this.recursion_leaf_level_vk_hash.to_vec(),
                    ),
                    recursion_circuits_set_vks_hash: Some(
                        this.recursion_circuits_set_vks_hash.to_vec(),
                    ),
                    dummy_verifier: Some(this.dummy_prover),
                },
            ),
            shared_bridge,
        }
    }
}

/// What is read back from the document that was built from a configuration:
/// the configuration with the root hash of the genesis in the place of the
/// batch commitment, of the bootloader hash and of the default account hash.
pub open spec fn read_back(config: GenesisConfigView) -> GenesisConfigView {
    GenesisConfigView {
        genesis_commitment: config.genesis_root_hash,
        bootloader_hash: config.genesis_root_hash,
        default_aa_hash: config.genesis_root_hash,
        ..config
    }
}

/// A genesis document that is read describes a well-formed configuration.
pub proof fn lemma_genesis_read_well_formed(doc: proto::GenesisView)
    ensures
        proto::Genesis::decoded(doc) matches Ok(config) ==> config.well_formed(),
{
}

/// The document built from a configuration is always read, and what is read
/// is the configuration but for the three hashes in whose place the root
/// hash is written.
pub proof fn lemma_genesis_build_then_read(config: GenesisConfigView)
    requires
        config.well_formed(),
    ensures
        proto::Genesis::decoded(proto::Genesis::encoded(config)) == Ok::<
            GenesisConfigView,
            DecodeError,
        >(read_back(config)),
{
    let version = config.protocol_version;
    assert((version as u32) as u16 == version) by (bit_vector);
    let doc = genesis_document(config);
    assert(genesis_failure(doc) is None);
    assert(genesis_value(doc) == read_back(config));
}

/// A configuration comes back unchanged from its document exactly when its
/// batch commitment, its bootloader hash and its default account hash are
/// all the root hash of the genesis.
pub proof fn lemma_genesis_round_trip_exact(config: GenesisConfigView)
    requires
        config.well_formed(),
    ensures
        proto::Genesis::decoded(proto::Genesis::encoded(config)) == Ok::<
            GenesisConfigView,
            DecodeError,
        >(config) <==> {
            &&& config.genesis_commitment == config.genesis_root_hash
            &&& config.bootloader_hash == config.genesis_root_hash
            &&& config.default_aa_hash == config.genesis_root_hash
        },
{
    lemma_genesis_build_then_read(config);
}

} // verus!
