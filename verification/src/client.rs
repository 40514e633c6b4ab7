//! The client-side orchestration that needs no transport: holding the API
//! key, building the request URL for a validated tracking number, and
//! mapping HTTP status codes to domain errors. The transport itself — the
//! one suspension point of a fetch — is a collaborator outside this crate;
//! it hands back a status code and a body, and the functions here and in
//! `raw` decide everything about them.

use vstd::prelude::*;
use vstd::string::StringExecFns;

use crate::error::{ClientError, ClientResult};
use crate::validator::TrackingNumber;

verus! {

/// The fixed endpoint; the validated tracking number is appended to it.
pub open spec fn base_url() -> Seq<char> {
    "https://api-eu.dhl.com/track/shipments?trackingNumber="@
}

/// A handle on the tracking API: nothing but the caller-supplied, opaque
/// API key, held immutably. Each fetch built on it is an independent,
/// single-attempt operation.
pub struct Client {
    api_key: String,
}

impl View for Client {
    type V = Seq<char>;

    closed spec fn view(&self) -> Seq<char> {
        self.api_key@
    }
}

impl Client {
    /// A client for the given API key.
    pub fn new(api_key: &str) -> (c: Client)
        ensures
            c@ == api_key@,
    {
        Client { api_key: String::from_str(api_key) }
    }

    /// The key this client was built with, as it must be sent in the
    /// `DHL-API-KEY` request header.
    pub fn api_key(&self) -> (k: &str)
        ensures
            k@ == self@,
    {
        self.api_key.as_str()
    }
}

/// The exact URL to `GET` for a validated tracking number: the fixed
/// endpoint with the number appended as the `trackingNumber` query value.
pub fn request_url(number: &TrackingNumber) -> (url: String)
    ensures
        url@ == base_url() + number@,
{
    let mut url = String::from_str("https://api-eu.dhl.com/track/shipments?trackingNumber=");
    url.append(number.as_str());
    url
}

/// Maps the transport's HTTP status to the domain: 200 is the one status
/// under which the body may be parsed; 401, 404 and everything else are the
/// three terminal status errors.
pub fn classify_status(status: u16) -> (res: ClientResult<()>)
    ensures
        res is Ok <==> status == 200,
        status == 401 ==> (res matches Err(e) && e == ClientError::Unauthorized),
        status == 404 ==> (res matches Err(e) && e == ClientError::ParcelNotFound),
        (status != 200 && status != 401 && status != 404) ==> (res matches Err(e)
            && e == ClientError::ServerError),
{
    if status == 200 {
        Ok(())
    } else if status == 401 {
        Err(ClientError::Unauthorized)
    } else if status == 404 {
        Err(ClientError::ParcelNotFound)
    } else {
        Err(ClientError::ServerError)
    }
}

} // verus!
