//! The errors of the crate.

use vstd::prelude::*;

verus! {

/// The name under which a failure inside a document is reported: the name of
/// the field that could not be read.
#[derive(Clone, Copy, Debug, PartialEq, Eq)]
pub enum Label {
    Consensus,
    Prover,
    BridgehubProxyAddr,
    StateTransitionProxyAddr,
    TransparentProxyAdminAddr,
    ProtocolVersion,
    GenesisRootHash,
    RollupLastLeafIndex,
    GenesisCommitment,
    BootloaderHash,
    DefaultAaHash,
    L1ChainId,
    L2ChainId,
    RecursionNodeLevelVkHash,
    RecursionLeafLevelVkHash,
    RecursionCircuitsSetVksHash,
    RecursionSchedulerLevelVkHash,
    FeeAccount,
    DummyProver,
}

impl Label {
    /// The text of a label.
    pub open spec fn text(self) -> Seq<char> {
        match self {
            Label::Consensus => "consensus"@,
            Label::Prover => "prover"@,
            Label::BridgehubProxyAddr => "bridgehub_proxy_addr"@,
            Label::StateTransitionProxyAddr => "state_transition_proxy_addr"@,
            Label::TransparentProxyAdminAddr => "transparent_proxy_admin_addr"@,
            Label::ProtocolVersion => "protocol_version"@,
            Label::GenesisRootHash => "genesis_root_hash"@,
            Label::RollupLastLeafIndex => "rollup_last_leaf_index"@,
            Label::GenesisCommitment => "genesis_commitment"@,
            Label::BootloaderHash => "bootloader_hash"@,
            Label::DefaultAaHash => "default_aa_hash"@,
            Label::L1ChainId => "l1_chain_id"@,
            Label::L2ChainId => "l2_chain_id"@,
            Label::RecursionNodeLevelVkHash => "recursion_node_level_vk_hash"@,
            Label::RecursionLeafLevelVkHash => "recursion_leaf_level_vk_hash"@,
            Label::RecursionCircuitsSetVksHash => "recursion_circuits_set_vks_hash"@,
            Label::RecursionSchedulerLevelVkHash => "recursion_scheduler_level_vk_hash"@,
            Label::FeeAccount => "fee_account"@,
            Label::DummyProver => "dummy_prover"@,
        }
    }

    /// The label as it is shown to a user.
    pub fn name(&self) -> (res: &'static str)
        ensures
            res@ == self.text(),
    {
        match self {
            Label::Consensus => "consensus",
            Label::Prover => "prover",
            Label::BridgehubProxyAddr => "bridgehub_proxy_addr",
            Label::StateTransitionProxyAddr => "state_transition_proxy_addr",
            Label::TransparentProxyAdminAddr => "transparent_proxy_admin_addr",
            Label::ProtocolVersion => "protocol_version",
            Label::GenesisRootHash => "genesis_root_hash",
            Label::RollupLastLeafIndex => "rollup_last_leaf_index",
            Label::GenesisCommitment => "genesis_commitment",
            Label::BootloaderHash => "bootloader_hash",
            Label::DefaultAaHash => "default_aa_hash",
            Label::L1ChainId => "l1_chain_id",
            Label::L2ChainId => "l2_chain_id",
            Label::RecursionNodeLevelVkHash => "recursion_node_level_vk_hash",
            Label::RecursionLeafLevelVkHash => "recursion_leaf_level_vk_hash",
            Label::RecursionCircuitsSetVksHash => "recursion_circuits_set_vks_hash",
            Label::RecursionSchedulerLevelVkHash => "recursion_scheduler_level_vk_hash",
            Label::FeeAccount => "fee_account",
            Label::DummyProver => "dummy_prover",
        }
    }
}

/// Where in its text a document stopped making sense.
#[derive(Clone, Copy, Debug, PartialEq, Eq)]
pub struct Location {
    pub line: usize,
    pub column: usize,
}

/// Why a document could not be turned into a value.
///
/// A failure is one cause wrapped in the labels of the fields on the way to
/// it, outermost first, so that it reads as a path through the document.
#[derive(Debug, PartialEq, Eq)]
pub enum DecodeError {
    /// The text is not a document of the schema.
    Syntax(Option<Location>),
    /// A field that must be present is absent.
    MissingField,
    /// A field of bytes has the wrong length.
    InvalidSize,
    /// A chain id is above the largest one allowed.
    ChainIdTooLarge,
    /// A failure inside the field of this label.
    Context(Label, Box<DecodeError>),
}

impl DecodeError {
    /// The labels around the cause, outermost first.
    pub open spec fn path(self) -> Seq<Label>
        decreases self,
    {
        match self {
            DecodeError::Context(label, inner) => seq![label] + inner.path(),
            _ => Seq::empty(),
        }
    }

    /// The cause itself, with every label taken off.
    pub open spec fn cause(self) -> DecodeError
        decreases self,
    {
        match self {
            DecodeError::Context(_, inner) => inner.cause(),
            _ => self,
        }
    }

    /// This failure as seen from outside the field `label`.
    pub fn context(self, label: Label) -> (res: DecodeError)
        ensures
            res == DecodeError::Context(label, Box::new(self)),
            res.path() == seq![label] + self.path(),
            res.cause() == self.cause(),
    {
        DecodeError::Context(label, Box::new(self))
    }

    /// The labels around the cause, outermost first.
    pub fn labels(&self) -> (res: Vec<Label>)
        ensures
            res@ == self.path(),
    {
        let mut out: Vec<Label> = Vec::new();
        let mut at = self;
        loop
            invariant
                out@ + at.path() == self.path(),
            ensures
                out@ == self.path(),
            decreases at,
        {
            match at {
                DecodeError::Context(label, inner) => {
                    assert(out@.push(*label) + inner.path() =~= out@ + at.path());
                    out.push(*label);
                    at = &**inner;
                },
                _ => {
                    assert(out@ + at.path() =~= out@);
                    break ;
                },
            }
        }
        out
    }

    /// The outermost label, if the failure has one.
    pub fn outermost(&self) -> (res: Option<Label>)
        ensures
            res == if self.path().len() == 0 {
                None
            } else {
                Some(self.path()[0])
            },
    {
        match self {
            DecodeError::Context(label, _) => Some(*label),
            _ => None,
        }
    }
}

/// Why a wallet could not be made from a private key.
#[derive(Clone, Copy, Debug, PartialEq, Eq)]
pub enum WalletError {
    /// The private key is not a valid scalar of the curve.
    InvalidPrivateKey,
    /// The private key belongs to another address than the expected one.
    AddressMismatch,
}

impl WalletError {
    /// A sentence for the user.
    pub fn message(&self) -> (res: &'static str)
        ensures
            res@ == match *self {
                WalletError::InvalidPrivateKey => "Invalid private key"@,
                WalletError::AddressMismatch =>
                    "Malformed wallet, address doesn't correspond private_key"@,
            },
    {
        match self {
            WalletError::InvalidPrivateKey => "Invalid private key",
            WalletError::AddressMismatch =>
                "Malformed wallet, address doesn't correspond private_key",
        }
    }
}

/// A credential that the configuration of a node may hold.
#[derive(Clone, Copy, Debug, PartialEq, Eq, Structural)]
pub enum Credential {
    /// The private key of the operator of the sender.
    Operator,
    /// The private key of the operator of the transactions that carry blobs.
    BlobOperator,
    /// The address of the fee account of the state keeper.
    FeeAccount,
}

/// Why the credentials of a node could not be assembled.
#[derive(Clone, Copy, Debug, PartialEq, Eq, Structural)]
pub enum ConfigError {
    /// A component is configured without a credential that it cannot do
    /// without.
    MissingRequiredField(Credential),
}

} // verus!
