//! The agent side: the engines that run next to the hardware.

pub mod arp;
pub mod decklink_watcher;
pub mod hub_connection;
pub mod hyperdeck;
pub mod net;
pub mod network_scanner;
pub mod parameters;
pub mod shell;
pub mod sweep;

use vstd::prelude::*;

verus! {

/// The path of the hub's endpoint for agents, relative to the hub's URL.
pub const AGENT_ENDPOINT: &'static str = "agent";

/// How an agent is set up.
#[derive(Debug, PartialEq, Eq)]
pub struct Config {
    /// The name under which the agent reports to the hub.
    pub id: String,
    /// The URL of the hub.
    pub hub_url: String,
}

/// Where an agent connects to, and as whom.
#[derive(Debug, PartialEq, Eq)]
pub struct Connect {
    /// The URL of the hub's endpoint for agents.
    pub endpoint: String,
    pub agent_id: String,
}

/// Why an agent could not be started.
#[derive(Clone, Copy, Debug, PartialEq, Eq)]
pub enum StartError {
    /// The hub's URL is no URL.
    InvalidHubUrl,
    /// The hub's URL is one from which the endpoint for agents cannot be
    /// reached.
    InvalidEndpoint,
}

/// The error type of the `url` crate.
#[verifier::external_type_specification]
#[verifier::external_body]
pub struct ExParseError(url::ParseError);

/// Whether the `url` crate's `Url::parse` takes `text` for a URL.
pub uninterp spec fn url_parses(text: Seq<char>) -> bool;

/// The text of the URL that the `url` crate's `Url::join` resolves
/// `reference` to against the URL that `base` parses to; `None` where it
/// gives an error.
pub uninterp spec fn joined_url(base: Seq<char>, reference: Seq<char>) -> Option<Seq<char>>;

/// `url::Url::parse` on `base`, and on the URL that it gives
/// `url::Url::join` with `reference`. The outer result is that of the
/// parse, the inner one that of the join: the text of the URL that
/// `reference` resolves to, or the error of the call that failed.
#[verifier::external_body]
fn join_url(base: &str, reference: &str) -> (joined: Result<
    Result<String, url::ParseError>,
    url::ParseError,
>)
    ensures
        match joined {
            Ok(Ok(text)) => url_parses(base@) && joined_url(base@, reference@) == Some(text@),
            Ok(Err(_)) => url_parses(base@) && joined_url(base@, reference@) is None,
            Err(_) => !url_parses(base@),
        },
{
    url::Url::parse(base).map(|url| url.join(reference).map(String::from))
}

/// Says where the agent `id` connects to, given what resolving the hub's
/// endpoint came to: the outer result says whether the hub's URL was one,
/// the inner one whether the endpoint could be reached from it.
pub fn connection_plan(
    id: String,
    endpoint: Result<Result<String, url::ParseError>, url::ParseError>,
) -> (plan: Result<Connect, StartError>)
    ensures
        match endpoint {
            Ok(Ok(url)) => plan matches Ok(connect) && connect.endpoint@ == url@
                && connect.agent_id@ == id@,
            Ok(Err(_)) => plan == Err::<Connect, StartError>(StartError::InvalidEndpoint),
            Err(_) => plan == Err::<Connect, StartError>(StartError::InvalidHubUrl),
        },
{
    match endpoint {
        Ok(Ok(url)) => Ok(Connect { endpoint: url, agent_id: id }),
        Ok(Err(_)) => Err(StartError::InvalidEndpoint),
        Err(_) => Err(StartError::InvalidHubUrl),
    }
}

/// Plans the start of an agent: the endpoint to connect to is the hub's
/// URL with [`AGENT_ENDPOINT`] resolved against it.
pub fn start(config: Config) -> (plan: Result<Connect, StartError>)
    ensures
        if !url_parses(config.hub_url@) {
            plan == Err::<Connect, StartError>(StartError::InvalidHubUrl)
        } else {
            match joined_url(config.hub_url@, AGENT_ENDPOINT@) {
                Some(url) => plan matches Ok(connect) && connect.endpoint@ == url
                    && connect.agent_id@ == config.id@,
                None => plan == Err::<Connect, StartError>(StartError::InvalidEndpoint),
            }
        },
{
    let endpoint = join_url(config.hub_url.as_str(), AGENT_ENDPOINT);
    connection_plan(config.id, endpoint)
}

} // verus!
