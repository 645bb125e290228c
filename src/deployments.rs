//! The client of the deployments routes, under `/deployments`, and the records they exchange.
use vstd::prelude::*;
use crate::Kiln;
use crate::ids::Uuid;
use crate::request::{chain_endpoint, get_json, Endpoint, EndpointView, Request};
use crate::text::same_text;
use crate::types::{Chain, ChainID, StakeStatus};

verus! {

#[derive(Clone, Copy, Debug, PartialEq, Eq, Structural)]
pub enum DeploymentProductType {
    Defi,
    Dedicated,
    Pooling,
}

#[derive(Debug)]
pub struct Deployment {
    pub id: Uuid,
    pub product_type: DeploymentProductType,
    pub name: String,
    pub display_name: String,
    pub description: String,
    pub chain: Chain,
    pub chain_id: ChainID,
    pub address: String,
    pub status: StakeStatus,
    pub asset_icon: Option<String>,
    pub protocol_icon: Option<String>,
    pub product_fee: String,
}

/// The client of the operations under `/deployments`.
#[derive(Debug)]
pub struct KilnDeploymentsClient {
    endpoint: Endpoint,
}

impl View for KilnDeploymentsClient {
    type V = EndpointView;

    closed spec fn view(&self) -> EndpointView {
        self.endpoint@
    }
}

impl KilnDeploymentsClient {
    pub fn new(kiln: &Kiln) -> (r: KilnDeploymentsClient)
        ensures
            r@ == chain_endpoint(kiln@, "deployments"@),
    {
        KilnDeploymentsClient { endpoint: Endpoint::for_chain(kiln, "deployments") }
    }

    /// Reads the listing at the base URL.
    pub fn get(&self) -> (r: Request)
        ensures
            r@ == get_json(self@, self@.base_url),
    {
        let url = String::from_str(self.endpoint.base_url());
        self.endpoint.get_json(url)
    }
}

impl DeploymentProductType {
    /// The name of this value in a query.
    pub open spec fn wire_name(self) -> Seq<char> {
        match self {
            DeploymentProductType::Defi => "Defi"@,
            DeploymentProductType::Dedicated => "Dedicated"@,
            DeploymentProductType::Pooling => "Pooling"@,
        }
    }

    pub fn as_str(&self) -> (r: &'static str)
        ensures
            r@ == self.wire_name(),
    {
        match self {
            DeploymentProductType::Defi => "Defi",
            DeploymentProductType::Dedicated => "Dedicated",
            DeploymentProductType::Pooling => "Pooling",
        }
    }

    /// The value that the text `s` names, if any; each value may have several names.
    pub open spec fn parse_spec(s: Seq<char>) -> Option<DeploymentProductType> {
        if s == "Defi"@ {
            Some(DeploymentProductType::Defi)
        } else if s == "Dedicated"@ {
            Some(DeploymentProductType::Dedicated)
        } else if s == "Pooling"@ {
            Some(DeploymentProductType::Pooling)
        } else {
            None
        }
    }

    pub fn from_wire(s: &str) -> (r: Option<DeploymentProductType>)
        ensures
            r == DeploymentProductType::parse_spec(s@),
    {
        if same_text(s, "Defi") {
            Some(DeploymentProductType::Defi)
        } else if same_text(s, "Dedicated") {
            Some(DeploymentProductType::Dedicated)
        } else if same_text(s, "Pooling") {
            Some(DeploymentProductType::Pooling)
        } else {
            None
        }
    }
}

} // verus!
