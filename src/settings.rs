//! Settings for the services: the API key and the URL of the API.
use vstd::prelude::*;
use vstd::string::StrSliceExecFns;

use crate::text::opt_str_view;
use crate::text::opt_view;

verus! {

/// The URL of the public API.
pub const DEFAULT_API_URL: &'static str = "https://retdec.com/service/api";

/// `url` without its trailing slash, if it has one.
///
/// The API uses no trailing slashes, so URLs are joined with `/` later.
pub open spec fn normalized_url(url: Seq<char>) -> Seq<char> {
    if url.len() > 0 && url.last() == '/' {
        url.drop_last()
    } else {
        url
    }
}

/// Settings for the services.
///
/// To use any service, an API key has to be set.
#[derive(Debug, Clone)]
pub struct Settings {
    api_key: Option<String>,
    api_url: String,
}

impl Settings {
    /// The configured API key, if any.
    pub closed spec fn spec_api_key(&self) -> Option<Seq<char>> {
        opt_view(self.api_key)
    }

    /// The configured API URL.
    pub closed spec fn spec_api_url(&self) -> Seq<char> {
        self.api_url@
    }

    /// Returns a copy of the settings.
    pub fn duplicate(&self) -> (r: Settings)
        ensures
            r.spec_api_key() == self.spec_api_key(),
            r.spec_api_url() == self.spec_api_url(),
    {
        let api_key = match &self.api_key {
            Some(k) => Some(k.clone()),
            None => None,
        };
        Settings { api_key, api_url: self.api_url.clone() }
    }

    /// Creates settings with no API key and the default API URL.
    pub fn new() -> (r: Settings)
        ensures
            r.spec_api_key() is None,
            r.spec_api_url() == DEFAULT_API_URL@,
    {
        Settings { api_key: None, api_url: DEFAULT_API_URL.to_owned() }
    }

    /// Creates settings from the values of the `RETDEC_API_KEY` and
    /// `RETDEC_API_URL` environment variables, when they are set.
    ///
    /// Without a key, no key is set; without a URL, the default URL is used.
    pub fn from_environment(api_key: Option<String>, api_url: Option<String>) -> (r: Settings)
        ensures
            r.spec_api_key() == opt_view(api_key),
            r.spec_api_url() == match api_url {
                Some(u) => normalized_url(u@),
                None => DEFAULT_API_URL@,
            },
    {
        let url = match api_url {
            Some(u) => normalize_api_url(u),
            None => DEFAULT_API_URL.to_owned(),
        };
        Settings { api_key, api_url: url }
    }

    /// Sets an API key when used as a builder.
    pub fn with_api_key(self, new_api_key: &str) -> (r: Settings)
        ensures
            r.spec_api_key() == Some(new_api_key@),
            r.spec_api_url() == self.spec_api_url(),
    {
        let mut s = self;
        s.set_api_key(new_api_key);
        s
    }

    /// Sets a custom URL of the API when used as a builder.
    pub fn with_api_url(self, new_api_url: &str) -> (r: Settings)
        ensures
            r.spec_api_key() == self.spec_api_key(),
            r.spec_api_url() == normalized_url(new_api_url@),
    {
        let mut s = self;
        s.set_api_url(new_api_url);
        s
    }

    /// Sets an API key.
    pub fn set_api_key(&mut self, new_api_key: &str)
        ensures
            final(self).spec_api_key() == Some(new_api_key@),
            final(self).spec_api_url() == old(self).spec_api_url(),
    {
        self.api_key = Some(new_api_key.to_owned());
    }

    /// Sets a custom URL of the API; a trailing slash is removed.
    pub fn set_api_url(&mut self, new_api_url: &str)
        ensures
            final(self).spec_api_key() == old(self).spec_api_key(),
            final(self).spec_api_url() == normalized_url(new_api_url@),
    {
        self.api_url = normalize_api_url(new_api_url.to_owned());
    }

    /// Returns the API key, if one was set.
    pub fn api_key(&self) -> (r: Option<&str>)
        ensures
            opt_str_view(r) == self.spec_api_key(),
    {
        match &self.api_key {
            Some(k) => Some(k.as_str()),
            None => None,
        }
    }

    /// Returns the API URL.
    pub fn api_url(&self) -> (r: &str)
        ensures
            r@ == self.spec_api_url(),
    {
        self.api_url.as_str()
    }
}

fn normalize_api_url(api_url: String) -> (r: String)
    ensures
        r@ == normalized_url(api_url@),
{
    let n = api_url.as_str().unicode_len();
    if n > 0 && api_url.as_str().get_char(n - 1) == '/' {
        api_url.as_str().substring_char(0, n - 1).to_owned()
    } else {
        api_url
    }
}

} // verus!
