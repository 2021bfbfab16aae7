use node_config::error::{ConfigError, Credential, DecodeError, Label, Location};
use node_config::primitives::{H160, H256};
use node_config::proto;
use node_config::proto_fmt::ProtoFmt;
use node_config::temp_config_store::{
    decode_yaml, policy, settle, signer, ETHConfig, Policy, Secrets, Sections, SenderConfig,
    StateKeeperConfig,
    TempConfigStore,
};

#[derive(Debug, PartialEq)]
struct Demo;

impl Sections for Demo {
    type PostgresConfig = String;
    type HealthCheckConfig = u16;
    type MerkleTreeApiConfig = u16;
    type Web3JsonRpcConfig = Vec<u16>;
    type CircuitBreakerConfig = (u8, u8);
    type MempoolConfig = u64;
    type NetworkConfig = String;
    type ContractVerifierConfig = u32;
    type OperationsManagerConfig = u64;
    type StateKeeperSettings = Vec<u32>;
    type HouseKeeperConfig = u8;
    type FriProofCompressorConfig = u8;
    type FriProverConfig = String;
    type FriProverGroupConfig = Vec<Vec<u8>>;
    type FriProverGatewayConfig = u16;
    type FriWitnessVectorGeneratorConfig = u32;
    type FriWitnessGeneratorConfig = i64;
    type PrometheusConfig = u16;
    type ProofDataHandlerConfig = u16;
    type WitnessGeneratorConfig = bool;
    type ApiConfig = Option<u16>;
    type DBConfig = String;
    type EthSettings = String;
    type ETHWatchConfig = u64;
    type GasAdjusterConfig = u64;
    type ObjectStoreConfig = String;
}

fn empty_store() -> TempConfigStore<Demo> {
    TempConfigStore {
        postgres_config: None,
        health_check_config: None,
        merkle_tree_api_config: None,
        web3_json_rpc_config: None,
        circuit_breaker_config: None,
        mempool_config: None,
        network_config: None,
        contract_verifier: None,
        operations_manager_config: None,
        state_keeper_config: None,
        house_keeper_config: None,
        fri_proof_compressor_config: None,
        fri_prover_config: None,
        fri_prover_group_config: None,
        fri_prover_gateway_config: None,
        fri_witness_vector_generator: None,
        fri_witness_generator_config: None,
        prometheus_config: None,
        proof_data_handler_config: None,
        witness_generator_config: None,
        api_config: None,
        db_config: None,
        eth_sender_config: None,
        eth_watch_config: None,
        gas_adjuster_config: None,
        object_store_config: None,
    }
}

fn full_store() -> TempConfigStore<Demo> {
    TempConfigStore {
        postgres_config: Some("postgres".to_string()),
        health_check_config: Some(3071),
        merkle_tree_api_config: Some(3072),
        web3_json_rpc_config: Some(vec![3050, 3051]),
        circuit_breaker_config: Some((1, 2)),
        mempool_config: Some(10_000_000),
        network_config: Some("localhost".to_string()),
        contract_verifier: Some(3070),
        operations_manager_config: Some(100),
        state_keeper_config: Some(StateKeeperConfig {
            fee_account_addr: Some(H160([0xde; 20])),
            settings: vec![250, 2500],
        }),
        house_keeper_config: Some(1),
        fri_proof_compressor_config: Some(2),
        fri_prover_config: Some("prover".to_string()),
        fri_prover_group_config: Some(vec![vec![1, 2], vec![3]]),
        fri_prover_gateway_config: Some(3320),
        fri_witness_vector_generator: Some(4),
        fri_witness_generator_config: Some(-5),
        prometheus_config: Some(3312),
        proof_data_handler_config: Some(3320),
        witness_generator_config: Some(true),
        api_config: Some(Some(3050)),
        db_config: Some("db".to_string()),
        eth_sender_config: Some(ETHConfig {
            sender: SenderConfig { private_key: Some(key(1)), private_key_blobs: Some(key(2)) },
            settings: "sender".to_string(),
        }),
        eth_watch_config: Some(6),
        gas_adjuster_config: Some(7),
        object_store_config: Some("store".to_string()),
    }
}

fn key(last: u8) -> H256 {
    let mut bytes = [0u8; 32];
    bytes[31] = last;
    H256(bytes)
}

const ADDRESS_ONE: [u8; 20] = [
    0x7e, 0x5f, 0x45, 0x52, 0x09, 0x1a, 0x69, 0x12, 0x5d, 0x5d, 0xfc, 0xb7, 0xb8, 0xc2, 0x65,
    0x90, 0x29, 0x39, 0x5b, 0xdf,
];

const ADDRESS_TWO: [u8; 20] = [
    0x2b, 0x5a, 0xd5, 0xc4, 0x79, 0x5c, 0x02, 0x65, 0x14, 0xf8, 0x31, 0x7c, 0x7a, 0x21, 0x5e,
    0x21, 0x8d, 0xcc, 0xd6, 0xcf,
];

fn sender(operator: Option<H256>, blobs: Option<H256>) -> Option<ETHConfig<String>> {
    Some(ETHConfig {
        sender: SenderConfig { private_key: operator, private_key_blobs: blobs },
        settings: String::new(),
    })
}

#[test]
fn wallets_of_a_store_without_credentials() {
    let wallets = empty_store().wallets().unwrap();
    assert!(wallets.eth_sender.is_none());
    assert!(wallets.state_keeper.is_none());
}

#[test]
fn wallets_ignore_the_other_sections() {
    let mut store = full_store();
    store.eth_sender_config = None;
    store.state_keeper_config = None;
    let wallets = store.wallets().unwrap();
    assert!(wallets.eth_sender.is_none());
    assert!(wallets.state_keeper.is_none());
}

#[test]
fn wallets_of_both_operators() {
    let wallets = full_store().wallets().unwrap();
    let eth_sender = wallets.eth_sender.unwrap();
    assert_eq!(eth_sender.operator.address(), H160(ADDRESS_ONE));
    assert_eq!(eth_sender.operator.private_key(), Some(key(1)));
    let blob_operator = eth_sender.blob_operator.unwrap();
    assert_eq!(blob_operator.address(), H160(ADDRESS_TWO));
    assert_eq!(blob_operator.private_key(), Some(key(2)));
    let state_keeper = wallets.state_keeper.unwrap();
    assert_eq!(state_keeper.fee_account.address(), H160([0xde; 20]));
    assert_eq!(state_keeper.fee_account.private_key(), None);
}

#[test]
fn wallets_without_a_blob_operator() {
    let mut store = empty_store();
    store.eth_sender_config = sender(Some(key(1)), None);
    let eth_sender = store.wallets().unwrap().eth_sender.unwrap();
    assert_eq!(eth_sender.operator.address(), H160(ADDRESS_ONE));
    assert!(eth_sender.blob_operator.is_none());
}

#[test]
fn wallets_with_an_invalid_blob_key() {
    let mut store = empty_store();
    store.eth_sender_config = sender(Some(key(2)), Some(key(0)));
    let eth_sender = store.wallets().unwrap().eth_sender.unwrap();
    assert_eq!(eth_sender.operator.address(), H160(ADDRESS_TWO));
    assert_eq!(eth_sender.operator.private_key(), Some(key(2)));
    assert!(eth_sender.blob_operator.is_none());
}

#[test]
fn wallets_with_an_invalid_operator_key() {
    let mut store = empty_store();
    store.eth_sender_config = sender(Some(key(0)), Some(key(2)));
    let wallets = store.wallets().unwrap();
    assert!(wallets.eth_sender.is_none());
    assert!(wallets.state_keeper.is_none());
    store.eth_sender_config = sender(Some(H256([0xff; 32])), None);
    assert!(store.wallets().unwrap().eth_sender.is_none());
}

#[test]
fn wallets_without_an_operator_key() {
    let mut store = empty_store();
    store.eth_sender_config = sender(None, Some(key(2)));
    assert!(store.wallets().unwrap().eth_sender.is_none());
    store.eth_sender_config = sender(None, None);
    assert!(store.wallets().unwrap().eth_sender.is_none());
}

#[test]
fn wallets_fail_without_a_fee_account() {
    let mut store = empty_store();
    store.state_keeper_config = Some(StateKeeperConfig { fee_account_addr: None, settings: vec![] });
    assert_eq!(store.wallets().err(), Some(ConfigError::MissingRequiredField(Credential::FeeAccount)));
    let mut store = full_store();
    store.state_keeper_config.as_mut().unwrap().fee_account_addr = None;
    assert_eq!(store.wallets().err(), Some(ConfigError::MissingRequiredField(Credential::FeeAccount)));
    store.eth_sender_config = sender(Some(key(0)), None);
    assert_eq!(store.wallets().err(), Some(ConfigError::MissingRequiredField(Credential::FeeAccount)));
}

#[test]
fn wallets_of_a_state_keeper_alone() {
    let mut store = empty_store();
    store.state_keeper_config =
        Some(StateKeeperConfig { fee_account_addr: Some(H160(ADDRESS_ONE)), settings: vec![1] });
    let wallets = store.wallets().unwrap();
    assert!(wallets.eth_sender.is_none());
    let fee_account = wallets.state_keeper.unwrap().fee_account;
    assert_eq!(fee_account.address(), H160(ADDRESS_ONE));
    assert_eq!(fee_account.private_key(), None);
}

#[test]
fn wallets_leave_the_store_as_it_is() {
    let store = full_store();
    let first = store.wallets().unwrap();
    let second = store.wallets().unwrap();
    assert_eq!(store, full_store());
    assert_eq!(
        first.eth_sender.unwrap().operator.address(),
        second.eth_sender.unwrap().operator.address()
    );
}

#[test]
fn signer_resolves_a_key() {
    assert!(signer(None).is_none());
    assert!(signer(Some(key(0))).is_none());
    let wallet = signer(Some(key(1))).unwrap();
    assert_eq!(wallet.address(), H160(ADDRESS_ONE));
    assert_eq!(wallet.private_key(), Some(key(1)));
}

#[test]
fn general_of_an_empty_store() {
    let general = empty_store().general();
    assert_eq!(general.postgres_config, None);
    assert_eq!(general.api_config, None);
    assert_eq!(general.contract_verifier, None);
    assert_eq!(general.circuit_breaker_config, None);
    assert_eq!(general.mempool_config, None);
    assert_eq!(general.operations_manager_config, None);
    assert_eq!(general.state_keeper_config, None);
    assert_eq!(general.house_keeper_config, None);
    assert_eq!(general.proof_compressor_config, None);
    assert_eq!(general.prover_config, None);
    assert_eq!(general.prover_gateway, None);
    assert_eq!(general.witness_vector_generator, None);
    assert_eq!(general.prover_group_config, None);
    assert_eq!(general.witness_generator, None);
    assert_eq!(general.prometheus_config, None);
    assert_eq!(general.proof_data_handler_config, None);
    assert_eq!(general.db_config, None);
    assert_eq!(general.eth, None);
}

#[test]
fn general_of_a_full_store() {
    let store = full_store();
    let general = store.general();
    assert_eq!(general.postgres_config, Some("postgres".to_string()));
    assert_eq!(general.api_config, Some(Some(3050)));
    assert_eq!(general.contract_verifier, Some(3070));
    assert_eq!(general.circuit_breaker_config, Some((1, 2)));
    assert_eq!(general.mempool_config, Some(10_000_000));
    assert_eq!(general.operations_manager_config, Some(100));
    assert_eq!(
        general.state_keeper_config,
        Some(StateKeeperConfig {
            fee_account_addr: Some(H160([0xde; 20])),
            settings: vec![250, 2500]
        })
    );
    assert_eq!(general.house_keeper_config, Some(1));
    assert_eq!(general.proof_compressor_config, Some(2));
    assert_eq!(general.prover_config, Some("prover".to_string()));
    assert_eq!(general.prover_gateway, Some(3320));
    assert_eq!(general.witness_vector_generator, Some(4));
    assert_eq!(general.prover_group_config, Some(vec![vec![1, 2], vec![3]]));
    assert_eq!(general.witness_generator, Some(-5));
    assert_eq!(general.prometheus_config, Some(3312));
    assert_eq!(general.proof_data_handler_config, Some(3320));
    assert_eq!(general.db_config, Some("db".to_string()));
    assert_eq!(
        general.eth,
        Some(ETHConfig {
            sender: SenderConfig { private_key: Some(key(1)), private_key_blobs: Some(key(2)) },
            settings: "sender".to_string(),
        })
    );
    assert_eq!(store, full_store());
}

#[test]
fn general_keeps_sections_apart() {
    let mut store = empty_store();
    store.fri_prover_gateway_config = Some(1);
    store.prometheus_config = Some(2);
    store.health_check_config = Some(3);
    store.merkle_tree_api_config = Some(4);
    store.witness_generator_config = Some(true);
    store.eth_watch_config = Some(5);
    store.gas_adjuster_config = Some(6);
    store.object_store_config = Some("7".to_string());
    store.network_config = Some("8".to_string());
    store.web3_json_rpc_config = Some(vec![9]);
    let general = store.general();
    assert_eq!(general.prover_gateway, Some(1));
    assert_eq!(general.prometheus_config, Some(2));
    assert_eq!(general.proof_data_handler_config, None);
    assert_eq!(general.witness_generator, None);
    assert_eq!(general.witness_vector_generator, None);
    assert_eq!(general.contract_verifier, None);
    assert_eq!(general.mempool_config, None);
    assert_eq!(general.operations_manager_config, None);
    assert_eq!(general.postgres_config, None);
    assert_eq!(general.db_config, None);
    assert_eq!(general.eth, None);
}

#[test]
fn secrets_read_without_a_consensus_section() {
    let doc: proto::Secrets<Vec<u8>> = proto::Secrets { consensus: None };
    assert_eq!(Secrets::<H256>::read(&doc), Ok(Secrets { consensus: None }));
}

#[test]
fn secrets_read_with_a_consensus_section() {
    let doc = proto::Secrets { consensus: Some(vec![9u8; 32]) };
    assert_eq!(Secrets::<H256>::read(&doc), Ok(Secrets { consensus: Some(H256([9u8; 32])) }));
}

#[test]
fn secrets_read_reports_the_section() {
    let doc = proto::Secrets { consensus: Some(vec![9u8; 31]) };
    let err = Secrets::<H256>::read(&doc).unwrap_err();
    assert_eq!(err, DecodeError::Context(Label::Consensus, Box::new(DecodeError::InvalidSize)));
    assert_eq!(err.outermost(), Some(Label::Consensus));
}

#[test]
fn secrets_read_reports_a_path() {
    let doc = proto::Secrets { consensus: Some(proto::Secrets { consensus: Some(vec![1u8]) }) };
    assert_eq!(
        Secrets::<Secrets<H160>>::read(&doc),
        Err(DecodeError::Context(
            Label::Consensus,
            Box::new(DecodeError::Context(Label::Consensus, Box::new(DecodeError::InvalidSize)))
        ))
    );
}

#[test]
fn secrets_build_is_the_inverse_of_read() {
    let absent: proto::Secrets<Vec<u8>> = proto::Secrets { consensus: None };
    assert_eq!(Secrets::<H256>::read(&absent).unwrap().build(), absent);
    let mut bytes = vec![0u8; 32];
    for (i, byte) in bytes.iter_mut().enumerate() {
        *byte = 3 * i as u8;
    }
    let present = proto::Secrets { consensus: Some(bytes) };
    assert_eq!(Secrets::<H256>::read(&present).unwrap().build(), present);
    let secrets = Secrets { consensus: Some(H160([4u8; 20])) };
    assert_eq!(secrets.build(), proto::Secrets { consensus: Some(vec![4u8; 20]) });
    assert_eq!(Secrets::<H160>::read(&secrets.build()), Ok(secrets));
}

#[test]
fn decode_yaml_reads_what_was_parsed() {
    let doc = proto::Secrets { consensus: Some(vec![9u8; 32]) };
    assert_eq!(
        decode_yaml::<Secrets<H256>>(Ok(doc)),
        Ok(Secrets { consensus: Some(H256([9u8; 32])) })
    );
    let doc = proto::Secrets { consensus: Some(vec![]) };
    assert_eq!(
        decode_yaml::<Secrets<H256>>(Ok(doc)),
        Err(DecodeError::Context(Label::Consensus, Box::new(DecodeError::InvalidSize)))
    );
}

#[test]
fn decode_yaml_reports_a_text_that_does_not_parse() {
    let at = Location { line: 1, column: 1 };
    assert_eq!(decode_yaml::<Secrets<H256>>(Err(Some(at))), Err(DecodeError::Syntax(Some(at))));
    assert_eq!(decode_yaml::<H160>(Err(None)), Err(DecodeError::Syntax(None)));
}

#[test]
fn policy_of_each_credential() {
    assert_eq!(policy(Credential::Operator), Policy::DegradeToAbsent);
    assert_eq!(policy(Credential::BlobOperator), Policy::DegradeToAbsent);
    assert_eq!(policy(Credential::FeeAccount), Policy::FailAggregation);
}

#[test]
fn settle_applies_the_policy() {
    assert_eq!(settle(Credential::Operator, Some(1u8)), Ok(Some(1u8)));
    assert_eq!(settle(Credential::BlobOperator, Some(2u8)), Ok(Some(2u8)));
    assert_eq!(settle(Credential::FeeAccount, Some(3u8)), Ok(Some(3u8)));
    assert_eq!(settle::<u8>(Credential::Operator, None), Ok(None));
    assert_eq!(settle::<u8>(Credential::BlobOperator, None), Ok(None));
    assert_eq!(
        settle::<u8>(Credential::FeeAccount, None),
        Err(ConfigError::MissingRequiredField(Credential::FeeAccount))
    );
}
