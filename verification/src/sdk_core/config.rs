//! Client configuration.

use vstd::prelude::*;

use crate::externs::{duration_from_secs, duration_of_secs};
use crate::sdk_core::error::{OpenAIError, Result};

verus! {

/// The API's address, unless the configuration names another.
pub const DEFAULT_BASE_URL: &'static str = "https://api.openai.com/v1";

/// The seconds a request may take, unless the configuration says otherwise.
pub const DEFAULT_TIMEOUT_SECS: u64 = 600;

/// How a client reaches the API.
#[derive(Clone, Debug)]
pub struct Config {
    pub api_key: String,
    pub organization: Option<String>,
    pub project: Option<String>,
    pub base_url: String,
    pub timeout: std::time::Duration,
}

impl Config {
    /// A configuration with the given API key, the default address and
    /// timeout, and no organization or project.
    pub fn new(api_key: &str) -> (c: Self)
        ensures
            c.api_key@ == api_key@,
            c.organization is None,
            c.project is None,
            c.base_url@ == DEFAULT_BASE_URL@,
            c.timeout == duration_of_secs(DEFAULT_TIMEOUT_SECS),
    {
        Config {
            api_key: String::from_str(api_key),
            organization: None,
            project: None,
            base_url: String::from_str(DEFAULT_BASE_URL),
            timeout: duration_from_secs(DEFAULT_TIMEOUT_SECS),
        }
    }

    /// The configuration that the environment describes, given the values
    /// of `OPENAI_API_KEY`, `OPENAI_ORG_ID`, `OPENAI_PROJECT_ID` and
    /// `OPENAI_BASE_URL` (each `None` where the variable is unset): an error
    /// where the API key is missing; otherwise the default configuration for
    /// that key, with the organization and project set to the variables'
    /// values and the base URL replaced where its variable is set.
    pub fn from_env_values(
        api_key: Option<String>,
        organization: Option<String>,
        project: Option<String>,
        base_url: Option<String>,
    ) -> (r: Result<Self>)
        ensures
            api_key is None ==> r matches Err(OpenAIError::MissingApiKey),
            api_key matches Some(k) ==> (r matches Ok(c) && {
                &&& c.api_key@ == k@
                &&& c.organization == organization
                &&& c.project == project
                &&& c.base_url@ == match base_url {
                    Some(b) => b@,
                    None => DEFAULT_BASE_URL@,
                }
                &&& c.timeout == duration_of_secs(DEFAULT_TIMEOUT_SECS)
            }),
    {
        let key = match api_key {
            Some(k) => k,
            None => return Err(OpenAIError::MissingApiKey),
        };
        let mut config = Self::new(key.as_str());
        config.organization = organization;
        config.project = project;
        if let Some(b) = base_url {
            config.base_url = b;
        }
        Ok(config)
    }

    /// The configuration with another base URL.
    pub fn with_base_url(self, base_url: &str) -> (c: Self)
        ensures
            c.base_url@ == base_url@,
            c == (Config { base_url: c.base_url, ..self }),
    {
        let mut c = self;
        c.base_url = String::from_str(base_url);
        c
    }

    /// The configuration with an organization.
    pub fn with_organization(self, organization: &str) -> (c: Self)
        ensures
            c.organization matches Some(o) && o@ == organization@,
            c == (Config { organization: c.organization, ..self }),
    {
        let mut c = self;
        c.organization = Some(String::from_str(organization));
        c
    }

    /// The configuration with a project.
    pub fn with_project(self, project: &str) -> (c: Self)
        ensures
            c.project matches Some(p) && p@ == project@,
            c == (Config { project: c.project, ..self }),
    {
        let mut c = self;
        c.project = Some(String::from_str(project));
        c
    }

    /// The configuration with another timeout.
    pub fn with_timeout(self, timeout: std::time::Duration) -> (c: Self)
        ensures
            c == (Config { timeout, ..self }),
    {
        let mut c = self;
        c.timeout = timeout;
        c
    }
}

} // verus!
