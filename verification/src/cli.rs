//! The command line client: raw command lines with their file transfers, its configuration,
//! and its errors.
use vstd::prelude::*;

verus! {

/// A file sent along with a command.
#[derive(Debug, PartialEq, Eq)]
pub struct Transfer {
    pub id: String,
    pub content: Vec<u8>,
}

impl Transfer {
    pub fn new(id: &str, content: Vec<u8>) -> (r: Self)
        ensures
            r.id@ == id@,
            r.content == content,
    {
        Self { id: id.to_string(), content }
    }
}

/// A command line as typed, with the files it sends.
#[derive(Debug, PartialEq, Eq)]
pub struct RawCommand {
    pub line: String,
    pub transfers: Vec<Transfer>,
}

impl RawCommand {
    pub fn new(line: String) -> (r: Self)
        ensures
            r.line == line,
            r.transfers@.len() == 0,
    {
        Self { line, transfers: Vec::new() }
    }
}

/// An error of the command line client.
#[derive(Debug)]
pub struct CliErr {
    pub message: String,
}

impl CliErr {
    pub fn new(message: &str) -> (r: Self)
        ensures
            r.message@ == message@,
    {
        Self { message: message.to_string() }
    }
}

/// Where the client connects and the tokens it holds.
pub struct CliConfig {
    pub hostname: String,
    pub oauth_url: Option<String>,
    pub refresh_token: Option<String>,
}

impl CliConfig {
    /// Connects to `localhost:4343` with no tokens.
    pub fn default() -> (r: Self)
        ensures
            r.hostname@ == "localhost:4343"@,
            r.refresh_token is None,
            r.oauth_url is None,
    {
        Self { hostname: "localhost:4343".to_string(), refresh_token: None, oauth_url: None }
    }

    /// The configuration that was loaded, or the default one where loading failed.
    pub fn load_or_default(loaded: Result<CliConfig, CliErr>) -> (r: Self)
        ensures
            match loaded {
                Ok(c) => r == c,
                Err(_) => r.hostname@ == "localhost:4343"@ && r.refresh_token is None
                    && r.oauth_url is None,
            },
    {
        match loaded {
            Ok(cli_config) => cli_config,
            Err(_) => Self::default(),
        }
    }
}

/// The answer to a login: a refresh token.
pub struct LoginResp {
    pub refresh_token: String,
}

/// The answer to a token request: an access token.
pub struct AccessTokenResp {
    pub access_token: String,
}

} // verus!
