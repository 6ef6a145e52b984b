//! Credential resolution: the active token comes from the environment
//! override when that is set, otherwise from the persisted configuration,
//! and is absent only when neither yields a value. An unreadable
//! configuration is reported, never mistaken for an absent token.

use vstd::prelude::*;
use crate::config::AppConfig;
use crate::text::{blank, trimmed, lemma_trimmed_empty_iff_blank};

verus! {

/// Outcome of attempting to read the persisted configuration, as the
/// surrounding binary reports it to the library.
pub enum ConfigRead {
    Loaded(AppConfig),
    Unreadable,
}

/// Failure of credential resolution: the persisted configuration could not
/// be read, which callers must distinguish from "no token configured".
#[derive(Debug)]
pub enum CredentialFault {
    ConfigUnreadable,
}

/// What credential resolution yields: the environment value whenever the
/// override is set, else the trimmed stored token when that is not blank,
/// else no token; an unreadable configuration is an error unless the
/// override made reading it unnecessary.
pub open spec fn resolved_token(
    env_value: Option<Seq<char>>,
    config: ConfigRead,
) -> Result<Option<Seq<char>>, CredentialFault> {
    match env_value {
        Some(v) => Ok(Some(v)),
        None => match config {
            ConfigRead::Loaded(c) => if blank(c.personal_access_token@) {
                Ok(None)
            } else {
                Ok(Some(trimmed(c.personal_access_token@)))
            },
            ConfigRead::Unreadable => Err(CredentialFault::ConfigUnreadable),
        },
    }
}

/// Determines the active access token from the environment override and the
/// persisted configuration.
pub fn resolve_token(env_value: Option<String>, config: &ConfigRead) -> (r: Result<
    Option<String>,
    CredentialFault,
>)
    ensures
        (r matches Ok(Some(t)) && resolved_token(env_value.deep_view(), *config) == Ok::<
            Option<Seq<char>>,
            CredentialFault,
        >(Some(t@))) || (r matches Ok(None) && resolved_token(env_value.deep_view(), *config)
            == Ok::<Option<Seq<char>>, CredentialFault>(None)) || (r matches Err(f)
            && resolved_token(env_value.deep_view(), *config) == Err::<
            Option<Seq<char>>,
            CredentialFault,
        >(f)),
{
    match env_value {
        Some(v) => Ok(Some(v)),
        None => match config {
            ConfigRead::Loaded(c) => {
                let t = crate::text::trim_text(c.personal_access_token.as_str());
                proof {
                    lemma_trimmed_empty_iff_blank(c.personal_access_token@);
                }
                if t.as_str().is_empty() {
                    Ok(None)
                } else {
                    Ok(Some(t))
                }
            },
            ConfigRead::Unreadable => Err(CredentialFault::ConfigUnreadable),
        },
    }
}

/// The environment override takes precedence: whenever it is set, resolution
/// yields exactly its value, whatever the configuration holds.
pub proof fn lemma_env_override_wins(env_value: Seq<char>, config: ConfigRead)
    ensures
        resolved_token(Some(env_value), config) == Ok::<Option<Seq<char>>, CredentialFault>(
            Some(env_value),
        ),
{
}

/// Resolution yields no token exactly when the environment override is
/// unset and the stored token is empty or whitespace-only.
pub proof fn lemma_token_absent_iff(env_value: Option<Seq<char>>, config: ConfigRead)
    ensures
        resolved_token(env_value, config) == Ok::<Option<Seq<char>>, CredentialFault>(None)
            <==> (env_value is None && (config matches ConfigRead::Loaded(c) && blank(
            c.personal_access_token@,
        ))),
{
}

} // verus!
