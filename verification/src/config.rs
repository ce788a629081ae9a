//! Startup configuration: validating the two secrets the relay needs and the
//! capability scopes it declares to the chat platform at connect time.

use vstd::prelude::*;
use vstd::string::*;

verus! {

/// Why startup was refused: the secret store lacks one of the required keys.
#[derive(Clone, Copy, Debug, PartialEq, Eq, Structural)]
pub enum ConfigError {
    MissingDiscordToken,
    MissingOpenAiKey,
}

/// The secrets the relay needs: the chat-platform bot token and the
/// completion-service API key.
pub struct BotConfig {
    pub discord_token: String,
    pub openai_key: String,
}

/// The startup message when the chat-platform token is missing.
pub open spec fn missing_discord_token_text() -> Seq<char> {
    "'DISCORD_TOKEN' was not found"@
}

/// The startup message when the completion-service key is missing.
pub open spec fn missing_openai_key_text() -> Seq<char> {
    "'OPENAI_KEY' was not found"@
}

impl ConfigError {
    /// The human-readable startup message naming the missing secret.
    pub fn message(&self) -> (s: String)
        ensures
            *self == ConfigError::MissingDiscordToken ==> s@ == missing_discord_token_text(),
            *self == ConfigError::MissingOpenAiKey ==> s@ == missing_openai_key_text(),
    {
        match self {
            ConfigError::MissingDiscordToken => String::from_str("'DISCORD_TOKEN' was not found"),
            ConfigError::MissingOpenAiKey => String::from_str("'OPENAI_KEY' was not found"),
        }
    }
}

/// Validates the secrets read at startup. Startup succeeds exactly when both
/// secrets are present; otherwise the error names the first missing one, the
/// chat-platform token being checked before the completion-service key.
pub fn startup_config(discord_token: Option<String>, openai_key: Option<String>) -> (r: Result<
    BotConfig,
    ConfigError,
>)
    ensures
        r is Ok <==> discord_token is Some && openai_key is Some,
        r is Ok ==> r->Ok_0.discord_token == discord_token->Some_0
            && r->Ok_0.openai_key == openai_key->Some_0,
        discord_token is None ==> r == Err::<BotConfig, ConfigError>(
            ConfigError::MissingDiscordToken,
        ),
        discord_token is Some && openai_key is None ==> r == Err::<BotConfig, ConfigError>(
            ConfigError::MissingOpenAiKey,
        ),
{
    let token = match discord_token {
        Some(t) => t,
        None => {
            return Err(ConfigError::MissingDiscordToken);
        },
    };
    let key = match openai_key {
        Some(k) => k,
        None => {
            return Err(ConfigError::MissingOpenAiKey);
        },
    };
    Ok(BotConfig { discord_token: token, openai_key: key })
}

/// The two startup error messages are distinct, so the operator can tell
/// which secret is missing.
pub proof fn lemma_config_messages_distinct()
    ensures
        missing_discord_token_text() != missing_openai_key_text(),
{
    reveal_strlit("'DISCORD_TOKEN' was not found");
    reveal_strlit("'OPENAI_KEY' was not found");
    assert(missing_discord_token_text().len() != missing_openai_key_text().len());
}

/// A capability scope declared to the chat platform at connect time.
#[derive(Clone, Copy, Debug, PartialEq, Eq, Structural)]
pub enum Capability {
    GuildMessages,
    MessageContent,
    DirectMessages,
}

/// The capability scopes the relay declares at connect time: receive guild
/// messages, read message content, receive direct messages.
pub fn gateway_capabilities() -> (v: Vec<Capability>)
    ensures
        v@ == seq![
            Capability::GuildMessages,
            Capability::MessageContent,
            Capability::DirectMessages,
        ],
{
    let mut v: Vec<Capability> = Vec::new();
    v.push(Capability::GuildMessages);
    v.push(Capability::MessageContent);
    v.push(Capability::DirectMessages);
    proof {
        assert(v@ =~= seq![
            Capability::GuildMessages,
            Capability::MessageContent,
            Capability::DirectMessages,
        ]);
    }
    v
}

} // verus!
