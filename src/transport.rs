//! What an HTTP transport needs from the library: the credentials to send and
//! the client identifier.
use vstd::prelude::*;
use vstd::string::StringExecFns;

use crate::arguments::APIArguments;
use crate::connection::APIConnection;
use crate::connection::APIConnectionFactory;
use crate::connection::Exchange;
use crate::connection::HttpMethod;
use crate::connection::SentRequest;
use crate::error::Error;
use crate::error::ErrorKind;
use crate::response::APIResponse;
use crate::settings::Settings;
use crate::text::str_eq;

verus! {

/// The display name of the operating system that Rust calls `os`
/// (`std::env::consts::OS`), or `Unknown`.
pub open spec fn platform_display_name(os: Seq<char>) -> Seq<char> {
    if os == "linux"@ {
        "Linux"@
    } else if os == "windows"@ {
        "Windows"@
    } else if os == "macos"@ {
        "macOS"@
    } else if os == "ios"@ {
        "iOS"@
    } else if os == "android"@ {
        "Android"@
    } else if os == "freebsd"@ {
        "FreeBSD"@
    } else if os == "netbsd"@ {
        "NetBSD"@
    } else if os == "openbsd"@ {
        "OpenBSD"@
    } else {
        "Unknown"@
    }
}

/// Returns the name of the platform that Rust calls `os` (e.g. `Linux` for
/// `linux`); `Unknown` when it is not recognized.
pub fn current_platform_name(os: &str) -> (r: &'static str)
    ensures
        r@ == platform_display_name(os@),
{
    if str_eq(os, "linux") {
        "Linux"
    } else if str_eq(os, "windows") {
        "Windows"
    } else if str_eq(os, "macos") {
        "macOS"
    } else if str_eq(os, "ios") {
        "iOS"
    } else if str_eq(os, "android") {
        "Android"
    } else if str_eq(os, "freebsd") {
        "FreeBSD"
    } else if str_eq(os, "netbsd") {
        "NetBSD"
    } else if str_eq(os, "openbsd") {
        "OpenBSD"
    } else {
        "Unknown"
    }
}

/// Returns the client identifier sent with every request: the library's
/// name, then the platform.
pub fn user_agent(platform: &str) -> (r: String)
    ensures
        r@ == "retdec-rust/"@ + platform@,
{
    let mut agent = "retdec-rust/".to_owned();
    agent.append(platform);
    agent
}

/// Returns the user name of the HTTP Basic authentication: the API key (the
/// password stays empty); fails when no API key is set.
pub fn auth_username(settings: &Settings) -> (r: Result<String, Error>)
    ensures
        r is Ok <==> settings.spec_api_key() is Some,
        r matches Ok(k) ==> settings.spec_api_key() == Some(k@),
        r matches Err(e) ==> e.kind is MissingApiKey && e.cause is None,
{
    match settings.api_key() {
        Some(k) => Ok(k.to_owned()),
        None => Err(Error::from_kind(ErrorKind::MissingApiKey)),
    }
}

/// Sends single HTTP requests to the API: the part of a connection that
/// performs input and output.
///
/// An implementation sends one request per call, with the credentials and
/// client identifier that the settings give (see [`auth_username`] and
/// [`user_agent`]), and never retries.
pub trait Transport {
    /// Sends a GET request; the string arguments become query parameters.
    fn get(&mut self, settings: &Settings, url: &str, args: &APIArguments) -> Result<APIResponse, Error>;

    /// Sends a POST request whose multipart body holds the arguments and files.
    fn post(&mut self, settings: &Settings, url: &str, args: &APIArguments) -> Result<APIResponse, Error>;

    /// Waits the given number of milliseconds.
    fn pause(&mut self, millis: u64);
}

/// A connection to the API of the given settings that sends its requests
/// through a transport, and keeps the history of what it sent.
pub struct TransportConnection<T: Transport> {
    settings: Settings,
    transport: T,
    log: Ghost<Seq<Exchange>>,
}

impl<T: Transport> TransportConnection<T> {
    /// Creates a connection that has sent nothing.
    pub fn new(settings: Settings, transport: T) -> (r: Self)
        ensures
            r.history().len() == 0,
            r.spec_api_url() == settings.spec_api_url(),
    {
        TransportConnection { settings, transport, log: Ghost(Seq::empty()) }
    }
}

impl<T: Transport> APIConnection for TransportConnection<T> {
    closed spec fn spec_api_url(&self) -> Seq<char> {
        self.settings.spec_api_url()
    }

    closed spec fn history(&self) -> Seq<Exchange> {
        self.log@
    }

    fn api_url(&self) -> (r: &str) {
        self.settings.api_url()
    }

    fn send_get_request(&mut self, url: &str, args: APIArguments) -> (r: Result<APIResponse, Error>) {
        let r = self.transport.get(&self.settings, url, &args);
        let ghost e = Exchange { request: SentRequest { method: HttpMethod::Get, url: url@, args }, outcome: r };
        self.log = Ghost(self.log@.push(e));
        r
    }

    fn send_post_request(&mut self, url: &str, args: APIArguments) -> (r: Result<APIResponse, Error>) {
        let r = self.transport.post(&self.settings, url, &args);
        let ghost e = Exchange { request: SentRequest { method: HttpMethod::Post, url: url@, args }, outcome: r };
        self.log = Ghost(self.log@.push(e));
        r
    }

    fn wait_for(&mut self, millis: u64) {
        self.transport.pause(millis)
    }
}

/// Creates connections that send their requests through copies of a transport.
pub struct TransportConnectionFactory<T: Transport + Clone> {
    settings: Settings,
    transport: T,
}

impl<T: Transport + Clone> TransportConnectionFactory<T> {
    /// Creates a factory of connections to the API of the given settings.
    pub fn new(settings: Settings, transport: T) -> (r: Self)
        ensures
            r.spec_api_url() == settings.spec_api_url(),
    {
        TransportConnectionFactory { settings, transport }
    }
}

impl<T: Transport + Clone> APIConnectionFactory for TransportConnectionFactory<T> {
    type Connection = TransportConnection<T>;

    closed spec fn spec_api_url(&self) -> Seq<char> {
        self.settings.spec_api_url()
    }

    fn new_connection(&self) -> (r: TransportConnection<T>) {
        TransportConnection::new(self.settings.duplicate(), self.transport.clone())
    }
}

} // verus!
