use kiln::account::KilnAccountClient;
use kiln::cardano::KilnCardanoClient;
use kiln::error::{Error, ErrorKind};
use kiln::ethereum::{EthereumFilterState, EthereumNetworkStakesRequest, EthereumStakesRequest, Scope};
use kiln::ids::{join_uuids, Uuid};
use kiln::organisation::KilnOrganisationClient;
use kiln::request::{Accept, Method};
use kiln::timestamp::UtcDateTime;
use kiln::types::{RewardRequest, ResponseFormat};
use kiln::Kiln;

fn handle() -> Kiln {
    Kiln::builder()
        .api_token("abc")
        .base_url("https://api.example/v1")
        .seal()
        .build()
        .unwrap()
}

fn uuid(text: &str) -> Uuid {
    Uuid::from_bytes(uuid::Uuid::parse_str(text).unwrap().into_bytes())
}

#[test]
fn builder_keeps_token_and_url() {
    let k = handle();
    assert_eq!(k.api_token(), "abc");
    assert_eq!(k.base_url(), "https://api.example/v1");
}

#[test]
fn builder_order_does_not_matter() {
    let k = Kiln::builder()
        .base_url("https://api.example/v1")
        .api_token("first")
        .api_token("abc")
        .seal()
        .build()
        .unwrap();
    assert_eq!(k.api_token(), "abc");
    assert_eq!(k.base_url(), "https://api.example/v1");
}

#[test]
fn accounts_get_by_uuid_url_and_header() {
    let k = handle();
    let client: KilnAccountClient = k.accounts();
    let r = client.get_by_uuid(uuid("9e1a6784-9657-4757-b463-8454a34c92b4"));
    assert_eq!(
        r.url,
        "https://api.example/v1/accounts/9e1a6784-9657-4757-b463-8454a34c92b4"
    );
    assert_eq!(r.authorization, "Bearer abc");
    assert_eq!(r.method, Method::Get);
    assert_eq!(r.accept, Accept::Json);
    assert!(r.body.is_none());
}

#[test]
fn cardano_get_stakes_query_order() {
    let k = handle();
    let client: KilnCardanoClient = k.cardano();
    let r = client.get_stakes(
        vec!["w1".to_string(), "w2".to_string()],
        vec![],
        vec!["p1".to_string()],
        vec![],
        None,
        None,
    );
    assert_eq!(
        r.url,
        "https://api.example/v1/ada/stakes?wallets=w1,w2&vaults=&pool_ids=p1&accounts=&page_size=1&current_page=1"
    );
}

#[test]
fn cardano_get_stakes_all_lists_empty() {
    let client = handle().cardano();
    let r = client.get_stakes(vec![], vec![], vec![], vec![], Some(3), Some(20));
    assert_eq!(
        r.url,
        "https://api.example/v1/ada/stakes?wallets=&vaults=&pool_ids=&accounts=&page_size=20&current_page=3"
    );
}

#[test]
fn reports_ask_for_octet_stream() {
    let k = handle();
    let r = k.cosmos().get_reports(&kiln::types::ReportsRequest {
        delegators: vec!["d1".to_string()],
        validators: vec![],
        accounts: vec![],
    });
    assert_eq!(r.accept, Accept::OctetStream);
    assert_eq!(r.accept.header_value(), "application/octet-stream");
    assert_eq!(
        r.url,
        "https://api.example/v1/atom/reports?validators=&delegators=d1&accounts="
    );
    let a = k.accounts().get_reports(uuid("9e1a6784-9657-4757-b463-8454a34c92b4"));
    assert_eq!(a.accept, Accept::OctetStream);
    assert_eq!(
        a.url,
        "https://api.example/v1/accounts/9e1a6784-9657-4757-b463-8454a34c92b4/reports"
    );
}

#[test]
fn json_calls_ask_for_json() {
    let r = handle().solana().get_network_stats();
    assert_eq!(r.accept.header_value(), "application/json; charset=utf-8");
    assert_eq!(r.url, "https://api.example/v1/sol/network-stats");
}

#[test]
fn uuid_list_is_comma_joined_in_order() {
    let ids = vec![
        uuid("9E1A6784-9657-4757-B463-8454A34C92B4"),
        uuid("00000000-0000-0000-0000-0000000000ff"),
    ];
    assert_eq!(
        join_uuids(&ids),
        "9e1a6784-9657-4757-b463-8454a34c92b4,00000000-0000-0000-0000-0000000000ff"
    );
    assert_eq!(join_uuids(&vec![]), "");
}

#[test]
fn uuid_text_is_lowercase_hyphenated() {
    let u = Uuid::from_bytes([
        0xab, 0xcd, 0xef, 0x01, 0x23, 0x45, 0x67, 0x89, 0x0a, 0xbc, 0xde, 0xf0, 0x12, 0x34, 0x56,
        0x78,
    ]);
    assert_eq!(u.to_text(), "abcdef01-2345-6789-0abc-def012345678");
}

#[test]
fn chain_prefixes() {
    let k = handle();
    assert_eq!(k.ethereum().get_tx_decoding(&kiln::ethereum::TxDecodingRequest { tx_serialized: "ff".to_string() }).url,
        "https://api.example/v1/eth/transaction/decode?tx_serialized=ff");
    assert_eq!(k.polkadot().get_network_stats().url, "https://api.example/v1/dot/network-stats");
    assert_eq!(k.eigenlayer().avs_rewards("w").url, "https://api.example/v1/eth/eigenlayer/avs-rewards?wallet=w");
    assert_eq!(k.ethereum_onchain().get_onchain_v2_stakes(vec!["a".to_string(), "b".to_string()]).url,
        "https://api.example/v1/eth/onchain/v2/stakes?&wallets=a,b");
    assert_eq!(k.deployments().get().url, "https://api.example/v1/deployments");
    assert_eq!(k.defi().stakes(vec![], vec!["v".to_string()]).url, "https://api.example/v1/defi/stakes?wallets=&vaults=v");
    let org = KilnOrganisationClient::new(&k);
    assert_eq!(org.reports(uuid("9e1a6784-9657-4757-b463-8454a34c92b4")).url,
        "https://api.example/v1/organisations/9e1a6784-9657-4757-b463-8454a34c92b4/reports");
}

#[test]
fn post_carries_body() {
    let r = handle().cardano().post_stake_tx("{\"wallet\":\"w\"}".to_string());
    assert_eq!(r.method, Method::Post);
    assert_eq!(r.url, "https://api.example/v1/ada/transaction/stake");
    assert_eq!(r.body.as_deref(), Some("{\"wallet\":\"w\"}"));
    let p = handle().accounts().put(uuid("9e1a6784-9657-4757-b463-8454a34c92b4"), "{}".to_string());
    assert_eq!(p.method, Method::Put);
    let d = handle().accounts().delete(uuid("9e1a6784-9657-4757-b463-8454a34c92b4"));
    assert_eq!(d.method, Method::Delete);
    assert!(d.body.is_none());
}

#[test]
fn account_portofolio_refresh() {
    let r = handle().accounts().portofolio(uuid("9e1a6784-9657-4757-b463-8454a34c92b4"), true);
    assert_eq!(
        r.url,
        "https://api.example/v1/accounts/9e1a6784-9657-4757-b463-8454a34c92b4/portofolio?refresh=true"
    );
}

#[test]
fn utc_text_of_timestamp() {
    let d = UtcDateTime::from_timestamp(1431648000, 0).unwrap();
    assert_eq!(d.text(), "2015-05-15 00:00:00 UTC");
    assert_eq!(d.seconds(), 1431648000);
    assert!(UtcDateTime::from_timestamp(i64::MAX, 0).is_none());
}

#[test]
fn rewards_daily_and_epoch() {
    let start = UtcDateTime::from_timestamp(1431648000, 0).unwrap();
    let end = UtcDateTime::from_timestamp(1431734400, 0).unwrap();
    let daily = RewardRequest::Daily {
        stakes_addresses: vec!["s".to_string()],
        wallets: vec![],
        pool_ids: vec!["p".to_string()],
        accounts: vec![],
        format: ResponseFormat::Daily,
        start_date: start.clone(),
        end_date: end.clone(),
        include_usd: false,
    };
    assert_eq!(
        handle().cardano().get_rewards(daily).url,
        "https://api.example/v1/ada/rewards?stake_addresses=s&pool_ids=p&wallets=&accounts=&format=Daily&start_date=2015-05-15 00:00:00 UTC&end_date=2015-05-16 00:00:00 UTC&include_usd=false"
    );
    let epoch = RewardRequest::Epoch {
        stakes_addresses: vec![],
        wallets: vec!["w".to_string()],
        pool_ids: vec![],
        accounts: vec![],
        format: ResponseFormat::Epoch,
        start_date: start,
        end_date: end,
        start_epoch: 10,
        end_epoch: 205,
    };
    assert_eq!(
        handle().tezos().get_rewards(epoch).url,
        "https://api.example/v1/xtz/rewards?stake_addresses=&pool_ids=&wallets=w&accounts=&format=Epoch&start_date=2015-05-15 00:00:00 UTC&end_date=2015-05-16 00:00:00 UTC&start_epoch=10&end_epoch=205"
    );
}

#[test]
fn ethereum_network_stakes() {
    let req = EthereumStakesRequest::Network(EthereumNetworkStakesRequest {
        validators: vec!["0xa".to_string()],
        wallets: vec![],
        proxies: vec![],
        withdrawal_credentials: vec![],
        validator_indexes: vec![7, 1024],
        include_eigenlayer: true,
        accounts: vec![],
        current_page: 2,
        page_size: 50,
        filtered_states: vec![EthereumFilterState::ActiveOngoing, EthereumFilterState::ExitedSlashed],
    });
    assert_eq!(
        handle().ethereum().get_stakes(req).url,
        "https://api.example/v1/eth/stakes?validators=0xa&wallets=&proxies=&withdrawal_credentials=&validator_indexes=7,1024&include_eigenlayer=true&accounts=&current_page=2&page_size=50&filtered_states=active_ongoing,exited_slashed"
    );
    assert_eq!(Scope::Network.as_str(), "Network");
}

#[test]
fn error_kinds() {
    let e = Error::new(ErrorKind::Deserialization, "missing field `data`".to_string());
    assert_eq!(e.kind, ErrorKind::Deserialization);
    assert_ne!(e.kind, ErrorKind::Transport);
    assert_ne!(ErrorKind::IncompleteBuilder, ErrorKind::Transport);
}

#[test]
fn kusama_rewards_in_eras() {
    let req = kiln::kusama::KusamaRewardRequest {
        addresses: vec!["a1".to_string(), "a2".to_string()],
        pool_ids: vec![],
        accounts: vec![uuid("9e1a6784-9657-4757-b463-8454a34c92b4")],
        format: kiln::kusama::KusamaResponseFormat::Era,
        start_date: UtcDateTime::from_timestamp(0, 0).unwrap(),
        end_date: UtcDateTime::from_timestamp(86400, 0).unwrap(),
    };
    assert_eq!(
        handle().kusama().get_rewards(&req).url,
        "https://api.example/v1/ksm/rewards?addresses=a1,a2&accounts=9e1a6784-9657-4757-b463-8454a34c92b4&pool_ids=&format=Era&start_date=1970-01-01 00:00:00 UTC&end_date=1970-01-02 00:00:00 UTC"
    );
}

#[test]
fn tezos_tx_status_with_block() {
    let req = kiln::tezos::TezosTxStatusRequest { tx_hash: "oo1".to_string(), block: 5012 };
    let r = handle().tezos().get_tx_status(&req);
    assert_eq!(r.url, "https://api.example/v1/xtz/transaction/status?tx_hash=oo1&block=5012");
    assert_eq!(r.method, Method::Get);
}

#[test]
fn polygon_reports_download() {
    let req = kiln::polygon::PolygonReportsRequest {
        validator_indexes: vec!["7".to_string()],
        wallets: vec![],
        accounts: vec![],
    };
    let r = handle().polygon().get_reports(&req);
    assert_eq!(r.accept, Accept::OctetStream);
    assert_eq!(r.url, "https://api.example/v1/pol/reports?validator_indexes=7&wallets=&accounts=");
}

#[test]
fn solana_daily_rewards() {
    let req = kiln::solana::SolanaRewardRequest::Daily {
        stakes_accounts: vec!["s".to_string()],
        validators: vec!["v".to_string()],
        wallets: vec![],
        accounts: vec![],
        format: ResponseFormat::Daily,
        start_date: UtcDateTime::from_timestamp(0, 0).unwrap(),
        end_date: UtcDateTime::from_timestamp(0, 0).unwrap(),
        include_usd: true,
    };
    assert_eq!(
        handle().solana().get_rewards(req).url,
        "https://api.example/v1/sol/rewards?stake_accounts=s&validators=v&wallets=&accounts=&format=Daily&start_date=1970-01-01 00:00:00 UTC&end_date=1970-01-01 00:00:00 UTC&include_usd=true"
    );
}

#[test]
fn ethereum_scoped_stakes() {
    let req = EthereumStakesRequest::Scoped(kiln::ethereum::EthereumScopedStakesRequest {
        validators: vec![],
        scope: Scope::Kiln,
        wallets: vec!["0xw".to_string()],
        proxies: vec![],
        withdrawal_credentials: vec![],
        validator_indexes: vec![],
        include_eigenlayer: false,
        accounts: vec![],
        current_page: 1,
        page_size: 1,
    });
    assert_eq!(
        handle().ethereum().get_stakes(req).url,
        "https://api.example/v1/eth/stakes?validators=&scope=Kiln&wallets=0xw&proxies=&withdrawal_credentials=&validator_indexes=&include_eigenlayer=false&accounts=&current_page=1&page_size=1"
    );
}

#[test]
fn derived_clients_share_one_handle() {
    let k = handle();
    let a = k.noble().get_tx_status("h");
    let b = k.zetachain();
    let c = k.celestia();
    assert_eq!(a.url, "https://api.example/v1/noble/transaction/status?tx_hash=h");
    assert_eq!(a.authorization, "Bearer abc");
    let _ = (b, c, k.kava(), k.osmosis(), k.fetch_ai(), k.organisations());
    assert_eq!(k.near().get_network_stats().url, "https://api.example/v1/near/network-stats");
    assert_eq!(k.multiversx().get_network_stats().url, "https://api.example/v1/egld/network-stats");
    assert_eq!(k.injective().get_network_stats().url, "https://api.example/v1/inj/network-stats");
    assert_eq!(k.dydx().get_network_stats().url, "https://api.example/v1/dydx/network-stats");
}
