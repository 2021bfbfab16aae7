//! The store of the configuration sections of a node, and what is assembled
//! from it: the credentials, the general configuration and the secrets.

use vstd::prelude::*;
use crate::crypto::{derived_address, valid_secret_key};
use crate::error::{ConfigError, Credential, DecodeError, Label, Location};
use crate::primitives::{Address, H256};
use crate::proto;
use crate::proto_fmt::{
    labelled, optional_decoded, read_optional, view_of, with_label, ProtoFmt, ProtoRepr,
};
use crate::wallets::{EthSender, StateKeeper, Wallet, Wallets};

verus! {

/// The types of the sections that a deployment configures.
///
/// The store reads nothing from a value of one of these types: it keeps the
/// value and hands out clones of it.
pub trait Sections {
    type PostgresConfig: Clone;

    type HealthCheckConfig: Clone;

    type MerkleTreeApiConfig: Clone;

    type Web3JsonRpcConfig: Clone;

    type CircuitBreakerConfig: Clone;

    type MempoolConfig: Clone;

    type NetworkConfig: Clone;

    type ContractVerifierConfig: Clone;

    type OperationsManagerConfig: Clone;

    /// The settings of the state keeper besides its fee account.
    type StateKeeperSettings: Clone;

    type HouseKeeperConfig: Clone;

    type FriProofCompressorConfig: Clone;

    type FriProverConfig: Clone;

    type FriProverGroupConfig: Clone;

    type FriProverGatewayConfig: Clone;

    type FriWitnessVectorGeneratorConfig: Clone;

    type FriWitnessGeneratorConfig: Clone;

    type PrometheusConfig: Clone;

    type ProofDataHandlerConfig: Clone;

    type WitnessGeneratorConfig: Clone;

    type ApiConfig: Clone;

    type DBConfig: Clone;

    /// The settings of the sender besides its private keys.
    type EthSettings: Clone;

    type ETHWatchConfig: Clone;

    type GasAdjusterConfig: Clone;

    type ObjectStoreConfig: Clone;
}

/// The private keys with which the sender signs.
#[derive(Clone, Copy, Debug, PartialEq)]
pub struct SenderConfig {
    /// The private key of the operator.
    pub private_key: Option<H256>,
    /// The private key of the operator of the transactions that carry blobs.
    pub private_key_blobs: Option<H256>,
}

/// The section of the component that sends transactions to the base layer.
#[derive(Debug, PartialEq)]
pub struct ETHConfig<T> {
    pub sender: SenderConfig,
    /// Everything else that the section holds.
    pub settings: T,
}

/// The section of the component that produces blocks.
#[derive(Debug, PartialEq)]
pub struct StateKeeperConfig<T> {
    /// The address that receives the fees.
    pub fee_account_addr: Option<Address>,
    /// Everything else that the section holds.
    pub settings: T,
}

impl<T: Clone> Clone for ETHConfig<T> {
    fn clone(&self) -> (res: Self)
        ensures
            res.sender == self.sender,
            cloned(self.settings, res.settings),
    {
        ETHConfig { sender: self.sender, settings: self.settings.clone() }
    }
}

impl<T: Clone> Clone for StateKeeperConfig<T> {
    fn clone(&self) -> (res: Self)
        ensures
            res.fee_account_addr == self.fee_account_addr,
            cloned(self.settings, res.settings),
    {
        StateKeeperConfig {
            fee_account_addr: self.fee_account_addr,
            settings: self.settings.clone(),
        }
    }
}

/// A store that holds the sections of the configuration of a node on their
/// way from where they are loaded to the components that use them. Every
/// section may be absent: not every combination of components needs them
/// all.
#[derive(Debug, PartialEq)]
pub struct TempConfigStore<S: Sections> {
    pub postgres_config: Option<S::PostgresConfig>,
    pub health_check_config: Option<S::HealthCheckConfig>,
    pub merkle_tree_api_config: Option<S::MerkleTreeApiConfig>,
    pub web3_json_rpc_config: Option<S::Web3JsonRpcConfig>,
    pub circuit_breaker_config: Option<S::CircuitBreakerConfig>,
    pub mempool_config: Option<S::MempoolConfig>,
    pub network_config: Option<S::NetworkConfig>,
    pub contract_verifier: Option<S::ContractVerifierConfig>,
    pub operations_manager_config: Option<S::OperationsManagerConfig>,
    pub state_keeper_config: Option<StateKeeperConfig<S::StateKeeperSettings>>,
    pub house_keeper_config: Option<S::HouseKeeperConfig>,
    pub fri_proof_compressor_config: Option<S::FriProofCompressorConfig>,
    pub fri_prover_config: Option<S::FriProverConfig>,
    pub fri_prover_group_config: Option<S::FriProverGroupConfig>,
    pub fri_prover_gateway_config: Option<S::FriProverGatewayConfig>,
    pub fri_witness_vector_generator: Option<S::FriWitnessVectorGeneratorConfig>,
    pub fri_witness_generator_config: Option<S::FriWitnessGeneratorConfig>,
    pub prometheus_config: Option<S::PrometheusConfig>,
    pub proof_data_handler_config: Option<S::ProofDataHandlerConfig>,
    pub witness_generator_config: Option<S::WitnessGeneratorConfig>,
    pub api_config: Option<S::ApiConfig>,
    pub db_config: Option<S::DBConfig>,
    pub eth_sender_config: Option<ETHConfig<S::EthSettings>>,
    pub eth_watch_config: Option<S::ETHWatchConfig>,
    pub gas_adjuster_config: Option<S::GasAdjusterConfig>,
    pub object_store_config: Option<S::ObjectStoreConfig>,
}

/// The configuration of a node but for its credentials.
#[derive(Debug, PartialEq)]
pub struct GeneralConfig<S: Sections> {
    pub postgres_config: Option<S::PostgresConfig>,
    pub api_config: Option<S::ApiConfig>,
    pub contract_verifier: Option<S::ContractVerifierConfig>,
    pub circuit_breaker_config: Option<S::CircuitBreakerConfig>,
    pub mempool_config: Option<S::MempoolConfig>,
    pub operations_manager_config: Option<S::OperationsManagerConfig>,
    pub state_keeper_config: Option<StateKeeperConfig<S::StateKeeperSettings>>,
    pub house_keeper_config: Option<S::HouseKeeperConfig>,
    pub proof_compressor_config: Option<S::FriProofCompressorConfig>,
    pub prover_config: Option<S::FriProverConfig>,
    pub prover_gateway: Option<S::FriProverGatewayConfig>,
    pub witness_vector_generator: Option<S::FriWitnessVectorGeneratorConfig>,
    pub prover_group_config: Option<S::FriProverGroupConfig>,
    pub witness_generator: Option<S::FriWitnessGeneratorConfig>,
    pub prometheus_config: Option<S::PrometheusConfig>,
    pub proof_data_handler_config: Option<S::ProofDataHandlerConfig>,
    pub db_config: Option<S::DBConfig>,
    pub eth: Option<ETHConfig<S::EthSettings>>,
}

/// Whether `to` is a copy of the section `from`: absent where `from` is
/// absent, and else a clone of what `from` holds.
pub open spec fn copied<T: Clone>(from: Option<T>, to: Option<T>) -> bool {
    match (from, to) {
        (Some(a), Some(b)) => cloned(a, b),
        (None, None) => true,
        _ => false,
    }
}

/// Whether `to` is a copy of the section `from` of the sender: absent where
/// `from` is absent, and else the same private keys with a clone of the
/// other settings.
pub open spec fn eth_copied<T: Clone>(from: Option<ETHConfig<T>>, to: Option<ETHConfig<T>>) -> bool {
    match (from, to) {
        (Some(a), Some(b)) => a.sender == b.sender && cloned(a.settings, b.settings),
        (None, None) => true,
        _ => false,
    }
}

/// Whether `to` is a copy of the section `from` of the state keeper: absent
/// where `from` is absent, and else the same fee account with a clone of the
/// other settings.
pub open spec fn state_keeper_copied<T: Clone>(
    from: Option<StateKeeperConfig<T>>,
    to: Option<StateKeeperConfig<T>>,
) -> bool {
    match (from, to) {
        (Some(a), Some(b)) => a.fee_account_addr == b.fee_account_addr && cloned(
            a.settings,
            b.settings,
        ),
        (None, None) => true,
        _ => false,
    }
}

/// Whether `wallet` is what a configured private key resolves to: the
/// signing wallet of the key where a key is configured and valid, and
/// nothing else.
pub open spec fn resolved(key: Option<H256>, wallet: Option<Wallet>) -> bool {
    match wallet {
        Some(wallet) => key matches Some(key) && wallet.signs_with(key),
        None => key matches Some(key) ==> derived_address(key@) is None,
    }
}

/// Whether `group` holds the credentials of the sender that `section`
/// configures.
///
/// The group is there exactly when the section is there with a valid private
/// key of the operator. The key for the blobs is resolved on its own: where
/// it is absent or not valid, only the blob operator is left out.
pub open spec fn eth_sender_resolved<T>(
    section: Option<ETHConfig<T>>,
    group: Option<EthSender>,
) -> bool {
    match group {
        Some(group) => {
            &&& section matches Some(section)
            &&& section.sender.private_key matches Some(key)
            &&& group.operator.signs_with(key)
            &&& resolved(section.sender.private_key_blobs, group.blob_operator)
        },
        None => section matches Some(section) ==> resolved(section.sender.private_key, None),
    }
}

/// Whether `group` holds the credentials of the state keeper that `section`
/// configures: a watch-only wallet of the fee account.
pub open spec fn state_keeper_resolved<T>(
    section: Option<StateKeeperConfig<T>>,
    group: Option<StateKeeper>,
) -> bool {
    match group {
        Some(group) => {
            &&& section matches Some(section)
            &&& section.fee_account_addr == Some(group.fee_account.address())
            &&& group.fee_account.private_key() is None
        },
        None => section is None,
    }
}

/// What becomes of the assembly of the credentials where a component is
/// configured and one of its credentials cannot be had.
#[derive(Clone, Copy, Debug, PartialEq, Eq, Structural)]
pub enum Policy {
    /// The credential is left out, and the assembly goes on.
    DegradeToAbsent,
    /// The assembly fails.
    FailAggregation,
}

/// The policy of each credential.
///
/// The sender is a feature that a node can do without: a private key of its
/// that cannot be had is left out. A state keeper cannot do without its fee
/// account.
pub open spec fn policy_of(credential: Credential) -> Policy {
    match credential {
        Credential::Operator => Policy::DegradeToAbsent,
        Credential::BlobOperator => Policy::DegradeToAbsent,
        Credential::FeeAccount => Policy::FailAggregation,
    }
}

/// The policy of a credential.
pub fn policy(credential: Credential) -> (res: Policy)
    ensures
        res == policy_of(credential),
{
    match credential {
        Credential::Operator => Policy::DegradeToAbsent,
        Credential::BlobOperator => Policy::DegradeToAbsent,
        Credential::FeeAccount => Policy::FailAggregation,
    }
}

/// What the policy of a credential makes of the credential that was found,
/// or of none.
pub open spec fn settled<T>(credential: Credential, found: Option<T>) -> Result<
    Option<T>,
    ConfigError,
> {
    match found {
        Some(value) => Ok(Some(value)),
        None => match policy_of(credential) {
            Policy::DegradeToAbsent => Ok(None),
            Policy::FailAggregation => Err(ConfigError::MissingRequiredField(credential)),
        },
    }
}

/// Applies the policy of a credential to what was found of it.
pub fn settle<T>(credential: Credential, found: Option<T>) -> (res: Result<Option<T>, ConfigError>)
    ensures
        res == settled(credential, found),
{
    match found {
        Some(value) => Ok(Some(value)),
        None => match policy(credential) {
            Policy::DegradeToAbsent => Ok(None),
            Policy::FailAggregation => Err(ConfigError::MissingRequiredField(credential)),
        },
    }
}

/// The signing wallet of a configured private key; none where no key is
/// configured, or the key is not valid.
pub fn signer(key: Option<H256>) -> (wallet: Option<Wallet>)
    ensures
        resolved(key, wallet),
{
    match key {
        None => None,
        Some(key) => match Wallet::from_private_key(key, None) {
            Ok(wallet) => Some(wallet),
            Err(_) => None,
        },
    }
}

impl<S: Sections> TempConfigStore<S> {
    /// Whether every section of `out` is present exactly when the store
    /// holds the section that it is made from.
    pub open spec fn presence_kept(&self, out: GeneralConfig<S>) -> bool {
        &&& out.postgres_config is Some <==> self.postgres_config is Some
        &&& out.api_config is Some <==> self.api_config is Some
        &&& out.contract_verifier is Some <==> self.contract_verifier is Some
        &&& out.circuit_breaker_config is Some <==> self.circuit_breaker_config is Some
        &&& out.mempool_config is Some <==> self.mempool_config is Some
        &&& out.operations_manager_config is Some <==> self.operations_manager_config is Some
        &&& out.state_keeper_config is Some <==> self.state_keeper_config is Some
        &&& out.house_keeper_config is Some <==> self.house_keeper_config is Some
        &&& out.proof_compressor_config is Some <==> self.fri_proof_compressor_config is Some
        &&& out.prover_config is Some <==> self.fri_prover_config is Some
        &&& out.prover_gateway is Some <==> self.fri_prover_gateway_config is Some
        &&& out.witness_vector_generator is Some <==> self.fri_witness_vector_generator is Some
        &&& out.prover_group_config is Some <==> self.fri_prover_group_config is Some
        &&& out.witness_generator is Some <==> self.fri_witness_generator_config is Some
        &&& out.prometheus_config is Some <==> self.prometheus_config is Some
        &&& out.proof_data_handler_config is Some <==> self.proof_data_handler_config is Some
        &&& out.db_config is Some <==> self.db_config is Some
        &&& out.eth is Some <==> self.eth_sender_config is Some
    }

    /// Whether the sender is configured with a valid private key of the
    /// operator.
    pub open spec fn operator_key_valid(&self) -> bool {
        &&& self.eth_sender_config matches Some(section)
        &&& section.sender.private_key matches Some(key)
        &&& valid_secret_key(key@)
    }

    /// Whether the state keeper is configured without its fee account.
    pub open spec fn fee_account_missing(&self) -> bool {
        self.state_keeper_config matches Some(section) && section.fee_account_addr is None
    }

    /// The general configuration: a copy of each section that belongs to it.
    ///
    /// A section of the result is present exactly when the store holds it.
    /// The sections of the health check, of the Merkle tree API, of the Web3
    /// API, of the network, of the witness generator, of the watcher, of the
    /// gas adjuster and of the object store belong to no general
    /// configuration.
    pub fn general(&self) -> (out: GeneralConfig<S>)
        ensures
            copied(self.postgres_config, out.postgres_config),
            copied(self.api_config, out.api_config),
            copied(self.contract_verifier, out.contract_verifier),
            copied(self.circuit_breaker_config, out.circuit_breaker_config),
            copied(self.mempool_config, out.mempool_config),
            copied(self.operations_manager_config, out.operations_manager_config),
            state_keeper_copied(self.state_keeper_config, out.state_keeper_config),
            copied(self.house_keeper_config, out.house_keeper_config),
            copied(self.fri_proof_compressor_config, out.proof_compressor_config),
            copied(self.fri_prover_config, out.prover_config),
            copied(self.fri_prover_gateway_config, out.prover_gateway),
            copied(self.fri_witness_vector_generator, out.witness_vector_generator),
            copied(self.fri_prover_group_config, out.prover_group_config),
            copied(self.fri_witness_generator_config, out.witness_generator),
            copied(self.prometheus_config, out.prometheus_config),
            copied(self.proof_data_handler_config, out.proof_data_handler_config),
            copied(self.db_config, out.db_config),
            eth_copied(self.eth_sender_config, out.eth),
            self.presence_kept(out),
    {
        GeneralConfig {
            postgres_config: self.postgres_config.clone(),
            api_config: self.api_config.clone(),
            contract_verifier: self.contract_verifier.clone(),
            circuit_breaker_config: self.circuit_breaker_config.clone(),
            mempool_config: self.mempool_config.clone(),
            operations_manager_config: self.operations_manager_config.clone(),
            state_keeper_config: self.state_keeper_config.clone(),
            house_keeper_config: self.house_keeper_config.clone(),
            proof_compressor_config: self.fri_proof_compressor_config.clone(),
            prover_config: self.fri_prover_config.clone(),
            prover_gateway: self.fri_prover_gateway_config.clone(),
            witness_vector_generator: self.fri_witness_vector_generator.clone(),
            prover_group_config: self.fri_prover_group_config.clone(),
            witness_generator: self.fri_witness_generator_config.clone(),
            prometheus_config: self.prometheus_config.clone(),
            proof_data_handler_config: self.proof_data_handler_config.clone(),
            db_config: self.db_config.clone(),
            eth: self.eth_sender_config.clone(),
        }
    }

    /// The credentials of the node.
    ///
    /// The two groups are resolved independently, each credential by its
    /// policy. A sender whose operator has no valid private key is left out,
    /// and the call goes on. A state keeper without a fee account fails the
    /// call.
    pub fn wallets(&self) -> (res: Result<Wallets, ConfigError>)
        ensures
            res is Err <==> self.fee_account_missing(),
            res matches Err(e) ==> e == ConfigError::MissingRequiredField(Credential::FeeAccount),
            res matches Ok(wallets) ==> {
                &&& eth_sender_resolved(self.eth_sender_config, wallets.eth_sender)
                &&& state_keeper_resolved(self.state_keeper_config, wallets.state_keeper)
            },
            self.eth_sender_config is None && self.state_keeper_config is None ==> {
                &&& res matches Ok(wallets)
                &&& wallets.eth_sender is None
                &&& wallets.state_keeper is None
            },
            !self.operator_key_valid() ==> (res matches Ok(wallets) ==> wallets.eth_sender is None),
            self.operator_key_valid() ==> (res matches Ok(wallets) ==> wallets.eth_sender is Some),
    {
        let eth_sender = match &self.eth_sender_config {
            None => None,
            Some(section) => {
                let operator = settle(Credential::Operator, signer(section.sender.private_key))?;
                let blob_operator = settle(
                    Credential::BlobOperator,
                    signer(section.sender.private_key_blobs),
                )?;
                match operator {
                    Some(operator) => Some(EthSender { operator, blob_operator }),
                    None => None,
                }
            },
        };
        let state_keeper = match &self.state_keeper_config {
            None => None,
            Some(section) => match settle(Credential::FeeAccount, section.fee_account_addr)? {
                Some(address) => Some(StateKeeper { fee_account: Wallet::from_address(address) }),
                None => None,
            },
        };
        Ok(Wallets { eth_sender, state_keeper })
    }
}

/// The secrets of a node, over the type `C` of the secrets of the consensus.
#[derive(Debug, PartialEq)]
pub struct Secrets<C> {
    pub consensus: Option<C>,
}

impl<C: View> View for Secrets<C> {
    type V = Option<C::V>;

    /// The secrets are their one section.
    open spec fn view(&self) -> Option<C::V> {
        match self.consensus {
            Some(value) => Some(value@),
            None => None,
        }
    }
}

impl<C: ProtoFmt> ProtoFmt for Secrets<C> {
    type Proto = proto::Secrets<C::Proto>;

    /// An absent section is read as no secrets. A section that is present is
    /// read as its own type reads it, and a failure to do so is reported
    /// under `consensus`.
    open spec fn decoded(doc: Option<<C::Proto as View>::V>) -> Result<Option<C::V>, DecodeError> {
        labelled(optional_decoded::<C>(doc), Label::Consensus)
    }

    /// The section is built exactly where the secrets are there.
    open spec fn encoded(value: Option<C::V>) -> Option<<C::Proto as View>::V> {
        match value {
            Some(section) => Some(C::encoded(section)),
            None => None,
        }
    }

    fn read(r: &proto::Secrets<C::Proto>) -> (res: Result<Self, DecodeError>) {
        let consensus = with_label(read_optional::<C>(&r.consensus), Label::Consensus)?;
        Ok(Secrets { consensus })
    }

    fn build(&self) -> (res: proto::Secrets<C::Proto>) {
        proto::Secrets {
            consensus: match &self.consensus {
                Some(section) => Some(section.build()),
                None => None,
            },
        }
    }
}

/// Reading a document of secrets and building the result gives the document
/// back, where the section of the consensus is absent or is one that its own
/// type reads and builds back.
pub proof fn lemma_secrets_round_trip<C: ProtoFmt>(doc: Option<<C::Proto as View>::V>)
    requires
        doc matches Some(section) ==> (C::decoded(section) matches Ok(value) && C::encoded(value)
            == section),
    ensures
        Secrets::<C>::decoded(doc) matches Ok(value) && Secrets::<C>::encoded(value) == doc,
{
}

/// Building the document of secrets and reading it gives the secrets back,
/// where they are absent or are such that their own type builds and reads
/// them back.
pub proof fn lemma_secrets_build_then_read<C: ProtoFmt>(value: Option<C::V>)
    requires
        value matches Some(section) ==> C::decoded(C::encoded(section)) == Ok::<
            C::V,
            DecodeError,
        >(section),
    ensures
        Secrets::<C>::decoded(Secrets::<C>::encoded(value)) == Ok::<Option<C::V>, DecodeError>(
            value,
        ),
{
}

/// Decodes a document into a value of the type `T`.
///
/// `parsed` is what the parser of the schema made of the text: the document,
/// or the place at which the text stopped making sense. Whatever fails, the
/// parsing or the reading, comes back as the one error of the call.
pub fn decode_yaml<T: ProtoFmt>(parsed: Result<T::Proto, Option<Location>>) -> (res: Result<
    T,
    DecodeError,
>)
    ensures
        view_of(res) == match parsed {
            Ok(doc) => T::decoded(doc@),
            Err(at) => Err(DecodeError::Syntax(at)),
        },
{
    match parsed {
        Ok(doc) => T::read(&doc),
        Err(at) => Err(DecodeError::Syntax(at)),
    }
}

/// Decodes a document of the type `T` into the value that it describes.
///
/// `parsed` is what the parser of the schema made of the text: the document,
/// or the place at which the text stopped making sense. Whatever fails, the
/// parsing or the reading, comes back as the one error of the call.
pub fn decode_yaml_repr<T: ProtoRepr>(parsed: Result<T, Option<Location>>) -> (res: Result<
    T::Type,
    DecodeError,
>)
    ensures
        view_of(res) == match parsed {
            Ok(doc) => T::decoded(doc@),
            Err(at) => Err(DecodeError::Syntax(at)),
        },
{
    match parsed {
        Ok(doc) => doc.read(),
        Err(at) => Err(DecodeError::Syntax(at)),
    }
}

} // verus!
