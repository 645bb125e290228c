//! A typed client for a staking and DeFi data REST API.
//!
//! A [`Kiln`] handle holds a base URL and a bearer token; each chain or domain
//! client derived from it describes every remote operation as a [`request::Request`].

pub mod envelope;
pub mod error;
pub mod ids;
pub mod request;
pub mod text;
pub mod timestamp;
pub mod types;
pub mod account;
pub mod cardano;
pub mod celestia;
pub mod cosmos;
pub mod defi;
pub mod deployments;
pub mod dydx;
pub mod eigenlayer;
pub mod ethereum;
pub mod ethereum_onchain;
pub mod fetch_ai;
pub mod injective;
pub mod kava;
pub mod kusama;
pub mod multiversx;
pub mod near;
pub mod noble;
pub mod organisation;
pub mod osmosis;
pub mod polkadot;
pub mod portofolio;
pub mod polygon;
pub mod solana;
pub mod tezos;
pub mod zetachain;

use vstd::prelude::*;
use crate::account::KilnAccountClient;
use crate::cardano::KilnCardanoClient;
use crate::celestia::KilnCelestiaClient;
use crate::cosmos::KilnCosmosClient;
use crate::defi::KilnDefiClient;
use crate::deployments::KilnDeploymentsClient;
use crate::dydx::KilnDydxClient;
use crate::eigenlayer::KilnEigenlayerClient;
use crate::ethereum::KilnEthereumClient;
use crate::ethereum_onchain::KilnEthereumOnchainClient;
use crate::fetch_ai::KilnFetchaiClient;
use crate::injective::KilnInjectiveClient;
use crate::kava::KilnKavaClient;
use crate::kusama::KilnKusamaClient;
use crate::multiversx::KilnMultiversxClient;
use crate::near::KilnNearClient;
use crate::noble::KilnNobleClient;
use crate::organisation::KilnOrganisationClient;
use crate::osmosis::KilnOsmosisClient;
use crate::polkadot::KilnPolkadotClient;
use crate::polygon::KilnPolygonClient;
use crate::solana::KilnSolanaClient;
use crate::tezos::KilnTezosClient;
use crate::zetachain::KilnZetachainClient;
use crate::error::Error;
use crate::request::chain_endpoint;

verus! {

/// The base URL given to a builder.
pub struct BaseUrl(String);

/// The state of a builder with no token yet.
pub struct NoToken;

/// The state of a builder with no base URL yet.
pub struct NoUrl;

/// The state of a builder that may still change.
pub struct NotSealed;

/// The state of a builder that is finished.
pub struct Sealed;

/// The API token given to a builder.
pub struct Token(String);

impl View for BaseUrl {
    type V = Seq<char>;

    closed spec fn view(&self) -> Seq<char> {
        self.0@
    }
}

impl View for Token {
    type V = Seq<char>;

    closed spec fn view(&self) -> Seq<char> {
        self.0@
    }
}

/// What a session handle holds.
pub struct KilnView {
    pub api_token: Seq<char>,
    pub base_url: Seq<char>,
}

/// A session handle: the base URL of the API and the bearer token, fixed once
/// built.
#[derive(Clone, Debug)]
pub struct Kiln {
    api_token: String,
    base_url: String,
}

impl View for Kiln {
    type V = KilnView;

    closed spec fn view(&self) -> KilnView {
        KilnView { api_token: self.api_token@, base_url: self.base_url@ }
    }
}

impl Kiln {
    /// A builder with neither token nor URL, not sealed.
    pub fn builder() -> (r: KilnBuilder<NoUrl, NoToken, NotSealed>) {
        KilnBuilder::new()
    }

    pub fn api_token(&self) -> (r: &str)
        ensures
            r@ == self@.api_token,
    {
        self.api_token.as_str()
    }

    pub fn base_url(&self) -> (r: &str)
        ensures
            r@ == self@.base_url,
    {
        self.base_url.as_str()
    }

    /// The client under `/accounts`.
    pub fn accounts(&self) -> (r: KilnAccountClient)
        ensures
            r@ == chain_endpoint(self@, "accounts"@),
    {
        KilnAccountClient::new(self)
    }

    /// The client under `/ada`.
    pub fn cardano(&self) -> (r: KilnCardanoClient)
        ensures
            r@ == chain_endpoint(self@, "ada"@),
    {
        KilnCardanoClient::new(self)
    }

    /// The client under `/tia`.
    pub fn celestia(&self) -> (r: KilnCelestiaClient)
        ensures
            r@ == chain_endpoint(self@, "tia"@),
    {
        KilnCelestiaClient::new(self)
    }

    /// The client under `/atom`.
    pub fn cosmos(&self) -> (r: KilnCosmosClient)
        ensures
            r@ == chain_endpoint(self@, "atom"@),
    {
        KilnCosmosClient::new(self)
    }

    /// The client under `/defi`.
    pub fn defi(&self) -> (r: KilnDefiClient)
        ensures
            r@ == chain_endpoint(self@, "defi"@),
    {
        KilnDefiClient::new(self)
    }

    /// The client under `/deployments`.
    pub fn deployments(&self) -> (r: KilnDeploymentsClient)
        ensures
            r@ == chain_endpoint(self@, "deployments"@),
    {
        KilnDeploymentsClient::new(self)
    }

    /// The client under `/dydx`.
    pub fn dydx(&self) -> (r: KilnDydxClient)
        ensures
            r@ == chain_endpoint(self@, "dydx"@),
    {
        KilnDydxClient::new(self)
    }

    /// The client under `/eth/eigenlayer`.
    pub fn eigenlayer(&self) -> (r: KilnEigenlayerClient)
        ensures
            r@ == chain_endpoint(self@, "eth/eigenlayer"@),
    {
        KilnEigenlayerClient::new(self)
    }

    /// The client under `/eth`.
    pub fn ethereum(&self) -> (r: KilnEthereumClient)
        ensures
            r@ == chain_endpoint(self@, "eth"@),
    {
        KilnEthereumClient::new(self)
    }

    /// The client under `/eth/onchain`.
    pub fn ethereum_onchain(&self) -> (r: KilnEthereumOnchainClient)
        ensures
            r@ == chain_endpoint(self@, "eth/onchain"@),
    {
        KilnEthereumOnchainClient::new(self)
    }

    /// The client under `/fet`.
    pub fn fetch_ai(&self) -> (r: KilnFetchaiClient)
        ensures
            r@ == chain_endpoint(self@, "fet"@),
    {
        KilnFetchaiClient::new(self)
    }

    /// The client under `/inj`.
    pub fn injective(&self) -> (r: KilnInjectiveClient)
        ensures
            r@ == chain_endpoint(self@, "inj"@),
    {
        KilnInjectiveClient::new(self)
    }

    /// The client under `/kava`.
    pub fn kava(&self) -> (r: KilnKavaClient)
        ensures
            r@ == chain_endpoint(self@, "kava"@),
    {
        KilnKavaClient::new(self)
    }

    /// The client under `/ksm`.
    pub fn kusama(&self) -> (r: KilnKusamaClient)
        ensures
            r@ == chain_endpoint(self@, "ksm"@),
    {
        KilnKusamaClient::new(self)
    }

    /// The client under `/egld`.
    pub fn multiversx(&self) -> (r: KilnMultiversxClient)
        ensures
            r@ == chain_endpoint(self@, "egld"@),
    {
        KilnMultiversxClient::new(self)
    }

    /// The client under `/near`.
    pub fn near(&self) -> (r: KilnNearClient)
        ensures
            r@ == chain_endpoint(self@, "near"@),
    {
        KilnNearClient::new(self)
    }

    /// The client under `/noble`.
    pub fn noble(&self) -> (r: KilnNobleClient)
        ensures
            r@ == chain_endpoint(self@, "noble"@),
    {
        KilnNobleClient::new(self)
    }

    /// The client under `/organisations`.
    pub fn organisations(&self) -> (r: KilnOrganisationClient)
        ensures
            r@ == chain_endpoint(self@, "organisations"@),
    {
        KilnOrganisationClient::new(self)
    }

    /// The client under `/osmo`.
    pub fn osmosis(&self) -> (r: KilnOsmosisClient)
        ensures
            r@ == chain_endpoint(self@, "osmo"@),
    {
        KilnOsmosisClient::new(self)
    }

    /// The client under `/dot`.
    pub fn polkadot(&self) -> (r: KilnPolkadotClient)
        ensures
            r@ == chain_endpoint(self@, "dot"@),
    {
        KilnPolkadotClient::new(self)
    }

    /// The client under `/pol`.
    pub fn polygon(&self) -> (r: KilnPolygonClient)
        ensures
            r@ == chain_endpoint(self@, "pol"@),
    {
        KilnPolygonClient::new(self)
    }

    /// The client under `/sol`.
    pub fn solana(&self) -> (r: KilnSolanaClient)
        ensures
            r@ == chain_endpoint(self@, "sol"@),
    {
        KilnSolanaClient::new(self)
    }

    /// The client under `/xtz`.
    pub fn tezos(&self) -> (r: KilnTezosClient)
        ensures
            r@ == chain_endpoint(self@, "xtz"@),
    {
        KilnTezosClient::new(self)
    }

    /// The client under `/zeta`.
    pub fn zetachain(&self) -> (r: KilnZetachainClient)
        ensures
            r@ == chain_endpoint(self@, "zeta"@),
    {
        KilnZetachainClient::new(self)
    }
}

/// A staged builder of a [`Kiln`] handle. The type parameters record whether
/// a base URL and a token were given and whether the builder was sealed;
/// `build` exists only once all three hold.
pub struct KilnBuilder<BU, T, Seal> {
    base_url: BU,
    api_token: T,
    seal: Seal,
}

impl<BU, T, Seal> KilnBuilder<BU, T, Seal> {
    /// The URL part of the state.
    pub closed spec fn url_part(&self) -> BU {
        self.base_url
    }

    /// The token part of the state.
    pub closed spec fn token_part(&self) -> T {
        self.api_token
    }
}

impl KilnBuilder<NoUrl, NoToken, NotSealed> {
    pub fn new() -> (r: Self) {
        KilnBuilder { base_url: NoUrl, api_token: NoToken, seal: NotSealed }
    }
}

impl KilnBuilder<BaseUrl, Token, Sealed> {
    /// The handle with the given URL and token.
    pub fn build(self) -> (r: Result<Kiln, Error>)
        ensures
            r matches Ok(k) && k@ == (KilnView { api_token: self.token_part()@, base_url: self.url_part()@ }),
    {
        Ok(Kiln { api_token: self.api_token.0, base_url: self.base_url.0 })
    }
}

impl<BU, T> KilnBuilder<BU, T, NotSealed> {
    /// Sets the token; a token set before is replaced.
    pub fn api_token(self, api_token: &str) -> (r: KilnBuilder<BU, Token, NotSealed>)
        ensures
            r.token_part()@ == api_token@,
            r.url_part() == self.url_part(),
    {
        KilnBuilder {
            api_token: Token(String::from_str(api_token)),
            base_url: self.base_url,
            seal: NotSealed,
        }
    }

    /// Sets the base URL, which must not end with a slash; one set before is
    /// replaced.
    pub fn base_url(self, base_url: &str) -> (r: KilnBuilder<BaseUrl, T, NotSealed>)
        ensures
            r.url_part()@ == base_url@,
            r.token_part() == self.token_part(),
    {
        KilnBuilder {
            base_url: BaseUrl(String::from_str(base_url)),
            api_token: self.api_token,
            seal: NotSealed,
        }
    }

    /// Finishes the builder: after this only `build` remains.
    pub fn seal(self) -> (r: KilnBuilder<BU, T, Sealed>)
        ensures
            r.url_part() == self.url_part(),
            r.token_part() == self.token_part(),
    {
        KilnBuilder { base_url: self.base_url, api_token: self.api_token, seal: Sealed }
    }
}

} // verus!
