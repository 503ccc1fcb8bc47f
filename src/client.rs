//! The handle through which a caller reaches the service: an HTTP client and
//! the base URL of the service.
use vstd::prelude::*;

use crate::response::InnexgoHoursError;
use reqwest::{Client, ClientBuilder};

verus! {

#[verifier::external_type_specification]
#[verifier::external_body]
pub struct ExClient(Client);

#[verifier::external_type_specification]
#[verifier::external_body]
pub struct ExClientBuilder(ClientBuilder);

#[verifier::external_type_specification]
#[verifier::external_body]
pub struct ExReqwestError(reqwest::Error);

/// Relies on `reqwest::Client::builder`, which hands out a builder with the
/// default configuration.
pub assume_specification[ Client::builder ]() -> ClientBuilder;

/// Relies on `reqwest::ClientBuilder::build`, which reports as an error, and
/// does not panic on, a TLS backend or resolver that cannot be set up.
pub assume_specification[ ClientBuilder::build ](b: ClientBuilder) -> Result<
    Client,
    reqwest::Error,
>;

/// Relies on `reqwest::Client`'s `Clone`, which shares the connection pool;
/// the copy is only carried, so nothing is claimed of it.
pub assume_specification[ <Client as Clone>::clone ](c: &Client) -> Client;

/// A reusable connection to the service at one base URL.
#[derive(Clone)]
pub struct InnexgoHoursService {
    client: Client,
    innexgo_hours_service_url: String,
}

impl InnexgoHoursService {
    /// The base URL that requests go to.
    pub closed spec fn url(&self) -> Seq<char> {
        self.innexgo_hours_service_url@
    }

    /// A handle on the service at `innexgo_hours_service_url`, with an HTTP
    /// client in the default configuration. Where that client cannot be set
    /// up, the failure is a transport one: `Network`.
    pub fn new(innexgo_hours_service_url: &str) -> (r: Result<InnexgoHoursService, InnexgoHoursError>)
        ensures
            r matches Ok(s) ==> s.url() == innexgo_hours_service_url@,
            r matches Err(e) ==> e == InnexgoHoursError::Network,
    {
        match Client::builder().build() {
            Ok(client) => Ok(InnexgoHoursService::with_client(client, innexgo_hours_service_url)),
            Err(_) => Err(InnexgoHoursError::Network),
        }
    }

    /// A handle on the service at `innexgo_hours_service_url` that sends its
    /// requests through `client`.
    pub fn with_client(client: Client, innexgo_hours_service_url: &str) -> (r: InnexgoHoursService)
        ensures
            r.url() == innexgo_hours_service_url@,
    {
        InnexgoHoursService {
            innexgo_hours_service_url: String::from_str(innexgo_hours_service_url),
            client,
        }
    }

    /// The base URL that requests go to.
    pub fn service_url(&self) -> (r: &str)
        ensures
            r@ == self.url(),
    {
        self.innexgo_hours_service_url.as_str()
    }
}

} // verus!
