//! What the user is told of a server of external tools that could not be reached.
use vstd::prelude::*;

use crate::mcp_connection_manager::{
    McpServerConfig, McpServerTransportConfig, DEFAULT_STARTUP_TIMEOUT,
};
use crate::text;

verus! {

/// What is known of a server.
#[derive(Debug)]
pub struct McpAuthStatusEntry {
    pub config: McpServerConfig,
    /// Whether and how the user is logged in, by its name.
    pub auth_status: String,
}

/// Why a server could not be reached: the error by itself, and with all its causes.
#[derive(Debug)]
pub struct McpClientError {
    pub message: String,
    pub chain: String,
}

/// Whether the server is GitHub's, without a token that it could be reached with.
pub open spec fn is_github_without_token(entry: Option<McpAuthStatusEntry>) -> bool {
    match entry {
        Some(e) => match e.config.transport {
            McpServerTransportConfig::StreamableHttp {
                url,
                bearer_token_env_var,
                http_headers,
                ..
            } => {
                &&& url@ == "https://api.githubcopilot.com/mcp/"@
                &&& bearer_token_env_var is None
                &&& match http_headers {
                    Some(headers) => headers@.len() == 0,
                    None => true,
                }
            },
            _ => false,
        },
        None => false,
    }
}

/// Whether an error says that the user is not logged in.
pub open spec fn asks_for_login(error: McpClientError) -> bool {
    text::occurs_in(error.message@, "Auth required"@)
}

/// Whether an error says that the server did not answer in time.
pub open spec fn ran_out_of_time(error: McpClientError) -> bool {
    text::occurs_in(error.message@, "request timed out"@) || text::occurs_in(
        error.message@,
        "timed out handshaking with MCP server"@,
    )
}

/// How many seconds a server has for its start.
pub open spec fn startup_seconds(entry: Option<McpAuthStatusEntry>) -> u64 {
    match entry {
        Some(e) => match e.config.startup_timeout_sec {
            Some(timeout) => timeout.secs,
            None => DEFAULT_STARTUP_TIMEOUT,
        },
        None => DEFAULT_STARTUP_TIMEOUT,
    }
}

/// What the user is told of a server that could not be reached.
pub open spec fn display(
    server_name: Seq<char>,
    entry: Option<McpAuthStatusEntry>,
    error: McpClientError,
) -> Seq<char> {
    if is_github_without_token(entry) {
        "GitHub MCP does not support OAuth. Log in by adding a personal access token (https://github.com/settings/personal-access-tokens) to your environment and config.toml:\n[mcp_servers."@
            + server_name + "]\nbearer_token_env_var = CODEX_GITHUB_PERSONAL_ACCESS_TOKEN"@
    } else if asks_for_login(error) {
        "The "@ + server_name + " MCP server is not logged in. Run `codex mcp login "@ + server_name
            + "`."@
    } else if ran_out_of_time(error) {
        "MCP client for `"@ + server_name + "` timed out after "@ + text::decimal(
            startup_seconds(entry) as nat,
        )
            + " seconds. Add or adjust `startup_timeout_sec` in your config.toml:\n[mcp_servers."@
            + server_name + "]\nstartup_timeout_sec = XX"@
    } else {
        "MCP client for `"@ + server_name + "` failed to start: "@ + error.chain@
    }
}

/// Whether an error says that the user is not logged in.
pub fn is_mcp_client_auth_required_error(error: &McpClientError) -> (r: bool)
    ensures
        r == asks_for_login(*error),
{
    text::contains(error.message.as_str(), "Auth required")
}

/// Whether an error says that the server did not answer in time.
pub fn is_mcp_client_startup_timeout_error(error: &McpClientError) -> (r: bool)
    ensures
        r == ran_out_of_time(*error),
{
    text::contains(error.message.as_str(), "request timed out") || text::contains(
        error.message.as_str(),
        "timed out handshaking with MCP server",
    )
}

/// Whether the server is GitHub's, without a token that it could be reached with. GitHub supports
/// OAuth for its own clients only, so the user has to give a personal access token.
fn needs_github_token(entry: Option<&McpAuthStatusEntry>) -> (r: bool)
    ensures
        r == match entry {
            Some(e) => is_github_without_token(Some(*e)),
            None => false,
        },
{
    match entry {
        Some(e) => match &e.config.transport {
            McpServerTransportConfig::StreamableHttp {
                url,
                bearer_token_env_var,
                http_headers,
                ..
            } => {
                let no_headers = match http_headers {
                    Some(headers) => headers.len() == 0,
                    None => true,
                };
                text::same(url.as_str(), "https://api.githubcopilot.com/mcp/")
                    && bearer_token_env_var.is_none() && no_headers
            },
            _ => false,
        },
        None => false,
    }
}

/// The entry itself.
pub open spec fn entry_of(entry: Option<&McpAuthStatusEntry>) -> Option<McpAuthStatusEntry> {
    match entry {
        Some(e) => Some(*e),
        None => None,
    }
}

/// What the user is told of a server that could not be reached.
pub fn mcp_init_error_display(
    server_name: &str,
    entry: Option<&McpAuthStatusEntry>,
    err: &McpClientError,
) -> (r: String)
    ensures
        r@ == display(server_name@, entry_of(entry), *err),
{
    if needs_github_token(entry) {
        let mut message =
            "GitHub MCP does not support OAuth. Log in by adding a personal access token (https://github.com/settings/personal-access-tokens) to your environment and config.toml:\n[mcp_servers.".to_owned();
        message.append(server_name);
        message.append("]\nbearer_token_env_var = CODEX_GITHUB_PERSONAL_ACCESS_TOKEN");
        message
    } else if is_mcp_client_auth_required_error(err) {
        let mut message = "The ".to_owned();
        message.append(server_name);
        message.append(" MCP server is not logged in. Run `codex mcp login ");
        message.append(server_name);
        message.append("`.");
        message
    } else if is_mcp_client_startup_timeout_error(err) {
        let secs: u64 = match entry {
            Some(e) => match e.config.startup_timeout_sec {
                Some(timeout) => timeout.secs,
                None => DEFAULT_STARTUP_TIMEOUT,
            },
            None => DEFAULT_STARTUP_TIMEOUT,
        };
        let mut message = "MCP client for `".to_owned();
        message.append(server_name);
        message.append("` timed out after ");
        text::push_decimal(&mut message, secs);
        message.append(
            " seconds. Add or adjust `startup_timeout_sec` in your config.toml:\n[mcp_servers.",
        );
        message.append(server_name);
        message.append("]\nstartup_timeout_sec = XX");
        message
    } else {
        let mut message = "MCP client for `".to_owned();
        message.append(server_name);
        message.append("` failed to start: ");
        message.append(err.chain.as_str());
        message
    }
}

/// What the user is told of a server that does not start: how to log in where GitHub's server has no
/// token, or where a login is asked for; how to give more time where there was too little; and else
/// the error itself.
pub proof fn law_user_is_told_what_to_do(
    server_name: Seq<char>,
    entry: Option<McpAuthStatusEntry>,
    error: McpClientError,
)
    ensures
        ({
            let told = display(server_name, entry, error);
            let github = entry is Some && match (entry->0).config.transport {
                McpServerTransportConfig::StreamableHttp {
                    url,
                    bearer_token_env_var,
                    http_headers,
                    ..
                } => url@ == "https://api.githubcopilot.com/mcp/"@ && bearer_token_env_var is None
                    && (http_headers is None || (http_headers->0)@.len() == 0),
                _ => false,
            };
            let login = text::occurs_in(error.message@, "Auth required"@);
            let late = text::occurs_in(error.message@, "request timed out"@) || text::occurs_in(
                error.message@,
                "timed out handshaking with MCP server"@,
            );
            let seconds = if entry is Some && (entry->0).config.startup_timeout_sec is Some {
                ((entry->0).config.startup_timeout_sec->0).secs
            } else {
                10u64
            };
            &&& github ==> told ==
            "GitHub MCP does not support OAuth. Log in by adding a personal access token (https://github.com/settings/personal-access-tokens) to your environment and config.toml:\n[mcp_servers."@
            + server_name + "]\nbearer_token_env_var = CODEX_GITHUB_PERSONAL_ACCESS_TOKEN"@
            &&& !github && login ==> told == "The "@ + server_name
                + " MCP server is not logged in. Run `codex mcp login "@ + server_name + "`."@
            &&& !github && !login && late ==> told == "MCP client for `"@ + server_name
                + "` timed out after "@ + text::decimal(seconds as nat)
                + " seconds. Add or adjust `startup_timeout_sec` in your config.toml:\n[mcp_servers."@
                + server_name + "]\nstartup_timeout_sec = XX"@
            &&& !github && !login && !late ==> told == "MCP client for `"@ + server_name
                + "` failed to start: "@ + error.chain@
        }),
{
}

} // verus!
