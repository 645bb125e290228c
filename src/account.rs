//! The client of the accounts routes, under `/accounts`, and the records they exchange.
use vstd::prelude::*;
use crate::Kiln;
use crate::ids::Uuid;
use crate::request::{call, chain_endpoint, get_bytes, get_json, query_url, resource_url, send_json, Accept, Endpoint, EndpointView, Method, Request};
use crate::text::{bool_text, param_views, QueryParam};
use crate::timestamp::UtcDateTime;

verus! {

#[derive(Debug)]
pub struct Account {
    pub created_at: UtcDateTime,
    pub id: Uuid,
    pub name: String,
    pub description: Option<String>,
}

/// The client of the operations under `/accounts`.
#[derive(Debug)]
pub struct KilnAccountClient {
    endpoint: Endpoint,
}

impl View for KilnAccountClient {
    type V = EndpointView;

    closed spec fn view(&self) -> EndpointView {
        self.endpoint@
    }
}

impl KilnAccountClient {
    pub fn new(kiln: &Kiln) -> (r: KilnAccountClient)
        ensures
            r@ == chain_endpoint(kiln@, "accounts"@),
    {
        KilnAccountClient { endpoint: Endpoint::for_chain(kiln, "accounts") }
    }

    /// The account `id`.
    pub fn get_by_uuid(&self, id: Uuid) -> (r: Request)
        ensures
            r@ == get_json(self@, resource_url(self@.base_url, id.text())),
    {
        let id_param = id.to_text();
        let url = self.endpoint.url(id_param.as_str());
        self.endpoint.get_json(url)
    }

    /// Replaces the name and description of the account `id` with those of the
    /// JSON `body`.
    pub fn put(&self, id: Uuid, body: String) -> (r: Request)
        ensures
            r@ == send_json(self@, Method::Put, resource_url(self@.base_url, id.text()), body@),
    {
        let id_param = id.to_text();
        let url = self.endpoint.url(id_param.as_str());
        self.endpoint.send_json(Method::Put, url, body)
    }

    /// Deletes the account `id`.
    pub fn delete(&self, id: Uuid) -> (r: Request)
        ensures
            r@ == call(self@, Method::Delete, Accept::Json, resource_url(self@.base_url, id.text()), None),
    {
        let id_param = id.to_text();
        let url = self.endpoint.url(id_param.as_str());
        self.endpoint.call_json(Method::Delete, url)
    }

    /// The holdings of the account `id`, recomputed first where `refresh` holds.
    pub fn portofolio(&self, id: Uuid, refresh: bool) -> (r: Request)
        ensures
            r@ == get_json(
                self@,
                query_url(self@.base_url, id.text() + "/portofolio"@, seq![("refresh"@, bool_text(refresh))]),
            ),
    {
        let mut resource = id.to_text();
        resource.append("/portofolio");
        let params = vec![QueryParam::new("refresh", crate::text::bool_to_text(refresh))];
        let url = self.endpoint.url_with_query(resource.as_str(), &params);
        proof {
            assert(param_views(params@) =~= seq![("refresh"@, bool_text(refresh))]);
        }
        self.endpoint.get_json(url)
    }

    /// The report of the account `id`, as raw bytes.
    pub fn get_reports(&self, id: Uuid) -> (r: Request)
        ensures
            r@ == get_bytes(self@, resource_url(self@.base_url, id.text() + "/reports"@)),
    {
        let mut resource = id.to_text();
        resource.append("/reports");
        let url = self.endpoint.url(resource.as_str());
        self.endpoint.get_bytes(url)
    }

    /// Sends the JSON `body` to the base URL.
    pub fn get_all(&self) -> (r: Request)
        ensures
            r@ == get_json(self@, self@.base_url),
    {
        let url = String::from_str(self.endpoint.base_url());
        self.endpoint.get_json(url)
    }

    /// Sends the JSON `body` to the base URL.
    pub fn post(&self, body: String) -> (r: Request)
        ensures
            r@ == send_json(self@, Method::Post, self@.base_url, body@),
    {
        let url = String::from_str(self.endpoint.base_url());
        self.endpoint.send_json(Method::Post, url, body)
    }
}

} // verus!
