//! What the bot is set up with when it starts: its login, its token and the
//! secret that it shares with GitHub. Nothing of it changes afterwards.

use vstd::prelude::*;
use vstd::string::*;

verus! {

/// The bot's settings.
#[derive(Debug)]
pub struct Config {
    /// The login of the bot's account.
    pub github_login: String,
    /// The personal access token with which the bot acts.
    pub github_pat: String,
    /// The secret with which deliveries are signed.
    pub github_webhook_secret: String,
}

/// The setting that is missing.
#[derive(Clone, Copy, Debug, PartialEq, Eq, Structural)]
pub enum ConfigError {
    NoLogin,
    NoPat,
    NoWebhookSecret,
}

impl ConfigError {
    pub open spec fn text(self) -> Seq<char> {
        match self {
            ConfigError::NoLogin => "No GITHUB_LOGIN."@,
            ConfigError::NoPat => "No PAT."@,
            ConfigError::NoWebhookSecret => "No GITHUB_WEBHOOK_SECRET."@,
        }
    }

    pub fn message(&self) -> (m: String)
        ensures
            m@ == self.text(),
    {
        match self {
            ConfigError::NoLogin => "No GITHUB_LOGIN.".to_owned(),
            ConfigError::NoPat => "No PAT.".to_owned(),
            ConfigError::NoWebhookSecret => "No GITHUB_WEBHOOK_SECRET.".to_owned(),
        }
    }
}

impl Config {
    /// The settings, from the values of `GITHUB_LOGIN`, `GITHUB_PAT` and
    /// `GITHUB_WEBHOOK_SECRET`. Each must be there; the first that is
    /// missing is reported.
    pub fn from_vars(login: Option<String>, pat: Option<String>, secret: Option<String>) -> (r:
        Result<Config, ConfigError>)
        ensures
            match (login, pat, secret) {
                (Some(login), Some(pat), Some(secret)) => r == Ok::<_, ConfigError>(
                    Config { github_login: login, github_pat: pat, github_webhook_secret: secret },
                ),
                (None, _, _) => r == Err::<Config, _>(ConfigError::NoLogin),
                (Some(_), None, _) => r == Err::<Config, _>(ConfigError::NoPat),
                (Some(_), Some(_), None) => r == Err::<Config, _>(ConfigError::NoWebhookSecret),
            },
    {
        let github_login = match login {
            Some(login) => login,
            None => {
                return Err(ConfigError::NoLogin);
            },
        };
        let github_pat = match pat {
            Some(pat) => pat,
            None => {
                return Err(ConfigError::NoPat);
            },
        };
        let github_webhook_secret = match secret {
            Some(secret) => secret,
            None => {
                return Err(ConfigError::NoWebhookSecret);
            },
        };
        Ok(Config { github_login, github_pat, github_webhook_secret })
    }
}

} // verus!
