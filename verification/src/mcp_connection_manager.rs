//! The servers that offer external tools: which of them are started, which tools they offer under
//! which names, and what may be asked of them.
use vstd::prelude::*;

use crate::named;
use crate::text;
use crate::truncate;

verus! {

/// The longest name that a tool may have, in bytes.
pub const MAX_TOOL_NAME_LENGTH: usize = 64;

/// The number of hexadecimal digits of a SHA-1 digest.
pub const SHA1_HEX_LENGTH: usize = 40;

/// A span of time.
#[derive(Debug, Clone, Copy, PartialEq, Eq, Structural)]
pub struct Timeout {
    pub secs: u64,
    pub nanos: u32,
}

/// Default timeout, in seconds, for initializing a server and initially listing its tools.
pub const DEFAULT_STARTUP_TIMEOUT: u64 = 10;

/// Default timeout, in seconds, for individual tool calls.
pub const DEFAULT_TOOL_TIMEOUT: u64 = 60;

/// A tool of a server. Its description is JSON text.
#[derive(Debug)]
pub struct ToolInfo {
    pub server_name: String,
    pub tool_name: String,
    pub tool: String,
}

/// How a server is reached.
#[derive(Debug)]
pub enum McpServerTransportConfig {
    /// A program that is started; what it is started with is JSON text.
    Stdio { body: String },
    StreamableHttp {
        url: String,
        bearer_token_env_var: Option<String>,
        http_headers: Option<Vec<(String, String)>>,
        /// Headers whose values are read from these variables of the environment.
        env_http_headers: Option<Vec<(String, String)>>,
    },
}

/// The settings of a server.
#[derive(Debug)]
pub struct McpServerConfig {
    pub transport: McpServerTransportConfig,
    pub enabled: bool,
    pub startup_timeout_sec: Option<Timeout>,
    pub tool_timeout_sec: Option<Timeout>,
    pub enabled_tools: Option<Vec<String>>,
    pub disabled_tools: Option<Vec<String>>,
}

/// The tools that a server may be asked for: those that are enabled, all where no list of enabled
/// ones is given, without those that are disabled.
#[derive(Debug)]
pub struct ToolFilter {
    pub enabled: Option<Vec<String>>,
    pub disabled: Vec<String>,
}

impl ToolFilter {
    /// Whether the filter lets a tool through.
    pub open spec fn lets_through(self, tool_name: Seq<char>) -> bool {
        &&& match self.enabled {
            Some(list) => text::texts(list@).contains(tool_name),
            None => true,
        }
        &&& !text::texts(self.disabled@).contains(tool_name)
    }

    /// The filter that a server's settings ask for.
    pub fn from_config(cfg: &McpServerConfig) -> (r: Self)
        ensures
            match (r.enabled, cfg.enabled_tools) {
                (Some(a), Some(b)) => a@ == b@,
                (None, None) => true,
                _ => false,
            },
            r.disabled@ == match cfg.disabled_tools {
                Some(list) => list@,
                None => Seq::empty(),
            },
    {
        let enabled = match &cfg.enabled_tools {
            Some(list) => Some(text::copy_list(list)),
            None => None,
        };
        let disabled = match &cfg.disabled_tools {
            Some(list) => text::copy_list(list),
            None => Vec::new(),
        };
        ToolFilter { enabled, disabled }
    }

    pub fn allows(&self, tool_name: &str) -> (r: bool)
        ensures
            r == self.lets_through(tool_name@),
    {
        if let Some(enabled) = &self.enabled {
            if !text::is_one_of(tool_name, enabled) {
                return false;
            }
        }
        !text::is_one_of(tool_name, &self.disabled)
    }
}

impl Default for ToolFilter {
    fn default() -> (r: Self)
        ensures
            r.enabled is None,
            r.disabled@.len() == 0,
    {
        ToolFilter { enabled: None, disabled: Vec::new() }
    }
}

/// The SHA-1 digest of bytes, in lowercase hexadecimal digits.
pub uninterp spec fn sha1_hex(bytes: Seq<u8>) -> Seq<char>;

/// The digits of hexadecimal numerals in lowercase.
pub open spec fn is_hex_digit(c: char) -> bool {
    ('0' <= c && c <= '9') || ('a' <= c && c <= 'f')
}

/// `sha1::Sha1` hashes bytes to a digest of 20 bytes, each of which `{:x}` writes as two lowercase
/// hexadecimal digits. The digest depends on the bytes alone; which one it is is left unsaid.
#[verifier::external_body]
fn sha1_hex_digest(bytes: &[u8]) -> (r: String)
    ensures
        r@ == sha1_hex(bytes@),
        r@.len() == SHA1_HEX_LENGTH,
        forall|i: int| 0 <= i < r@.len() ==> is_hex_digit(#[trigger] r@[i]),
{
    format!("{:x}", <sha1::Sha1 as sha1::Digest>::digest(bytes))
}

/// The name of a tool among those of all servers, before it is cut to length.
pub open spec fn full_name(tool: ToolInfo) -> Seq<char> {
    "mcp__"@ + tool.server_name@ + "__"@ + tool.tool_name@
}

/// The number of characters that are kept of a name that is too long.
pub open spec fn kept_prefix(full: Seq<char>) -> nat {
    truncate::fitting(full, (MAX_TOOL_NAME_LENGTH - SHA1_HEX_LENGTH) as nat)
}

/// Whether a name can be cut to length: it fits, or the place of the cut is between two
/// characters.
pub open spec fn can_be_cut(full: Seq<char>) -> bool {
    text::utf8_len(full) <= MAX_TOOL_NAME_LENGTH || text::utf8_len(
        full.take(kept_prefix(full) as int),
    ) == MAX_TOOL_NAME_LENGTH - SHA1_HEX_LENGTH
}

/// A name cut to length, given the digest of the whole: a name that is too long ends in it.
pub open spec fn cut_name(full: Seq<char>, digest: Seq<char>) -> Seq<char> {
    if text::utf8_len(full) <= MAX_TOOL_NAME_LENGTH {
        full
    } else {
        full.take(kept_prefix(full) as int) + digest
    }
}

/// The name of a tool among those of all servers.
pub open spec fn qualified_name(tool: ToolInfo) -> Seq<char> {
    cut_name(full_name(tool), sha1_hex(vstd::utf8::encode_utf8(full_name(tool))))
}

/// Whether a name stands in a list.
pub open spec fn has_name<T>(list: Seq<(Seq<char>, T)>, name: Seq<char>) -> bool {
    exists|i: int| 0 <= i < list.len() && (#[trigger] list[i]).0 == name
}

/// The tools under their names, in order; of tools with the same name the first.
pub open spec fn qualified(tools: Seq<ToolInfo>) -> Seq<(Seq<char>, ToolInfo)>
    decreases tools.len(),
{
    if tools.len() == 0 {
        Seq::empty()
    } else {
        let before = qualified(tools.drop_last());
        let name = qualified_name(tools.last());
        if has_name(before, name) {
            before
        } else {
            before.push((name, tools.last()))
        }
    }
}

/// Names over characters, with their values.
pub open spec fn keyed<T>(list: Seq<(String, T)>) -> Seq<(Seq<char>, T)> {
    Seq::new(list.len(), |i: int| (list[i].0@, list[i].1))
}

/// The name of a tool among those of all servers, before it is cut to length.
fn full_tool_name(tool: &ToolInfo) -> (r: String)
    ensures
        r@ == full_name(*tool),
{
    let mut name = "mcp__".to_owned();
    name.append(tool.server_name.as_str());
    name.append("__");
    name.append(tool.tool_name.as_str());
    name
}

/// Whether the name of a tool can be cut to length.
pub fn can_qualify(tool: &ToolInfo) -> (r: bool)
    ensures
        r == can_be_cut(full_name(*tool)),
{
    let full = full_tool_name(tool);
    if text::byte_len(full.as_str()) <= MAX_TOOL_NAME_LENGTH {
        return true;
    }
    let chars = text::to_chars(full.as_str());
    let (_, used) = truncate::fit_prefix(&chars, MAX_TOOL_NAME_LENGTH - SHA1_HEX_LENGTH);
    used == MAX_TOOL_NAME_LENGTH - SHA1_HEX_LENGTH
}

/// A name cut to length, given the digest of the whole.
pub fn cut_to_length(full: &str, digest: &str) -> (r: String)
    requires
        can_be_cut(full@),
    ensures
        r@ == cut_name(full@, digest@),
{
    if text::byte_len(full) <= MAX_TOOL_NAME_LENGTH {
        return full.to_owned();
    }
    let chars = text::to_chars(full);
    let (k, _) = truncate::fit_prefix(&chars, MAX_TOOL_NAME_LENGTH - SHA1_HEX_LENGTH);
    let mut name = text::from_chars(&chars, 0, k);
    assert(chars@.subrange(0, k as int) =~= full@.take(k as int));
    name.append(digest);
    name
}

/// Whether the names of all tools and of their servers consist of the characters of names.
pub open spec fn all_plain(tools: Seq<ToolInfo>) -> bool {
    forall|i: int|
        0 <= i < tools.len() ==> is_plain_name((#[trigger] tools[i]).server_name@)
            && is_plain_name(tools[i].tool_name@)
}

/// Gives each tool its name among those of all servers. A tool whose name is taken is skipped. No
/// name is longer than is allowed, and where the servers and tools have plain names, so have the
/// tools among those of all servers.
pub fn qualify_tools(tools: Vec<ToolInfo>) -> (r: Vec<(String, ToolInfo)>)
    requires
        forall|i: int| 0 <= i < tools@.len() ==> can_be_cut(full_name(#[trigger] tools@[i])),
    ensures
        keyed(r@) == qualified(tools@),
        forall|i: int|
            0 <= i < r@.len() ==> text::utf8_len((#[trigger] r@[i]).0@) <= MAX_TOOL_NAME_LENGTH,
        all_plain(tools@) ==> forall|i: int|
            0 <= i < r@.len() ==> is_plain_name((#[trigger] r@[i]).0@),
{
    let ghost all = tools@;
    let mut rest = tools;
    let mut out: Vec<(String, ToolInfo)> = Vec::new();
    let mut i: usize = 0;
    let n: usize = rest.len();
    assert(all.take(0) =~= Seq::empty());
    assert(keyed(out@) =~= qualified(all.take(0)));
    while i < n
        invariant
            i <= n == all.len(),
            rest@ == all.skip(i as int),
            keyed(out@) == qualified(all.take(i as int)),
            forall|j: int| 0 <= j < all.len() ==> can_be_cut(full_name(#[trigger] all[j])),
            forall|j: int|
                0 <= j < out@.len() ==> text::utf8_len((#[trigger] out@[j]).0@)
                    <= MAX_TOOL_NAME_LENGTH,
            all_plain(all) ==> forall|j: int|
                0 <= j < out@.len() ==> is_plain_name((#[trigger] out@[j]).0@),
        decreases n - i,
    {
        let tool = rest.remove(0);
        assert(tool == all[i as int]);
        let full = full_tool_name(&tool);
        let digest = sha1_hex_digest(full.as_str().as_bytes());
        let name = cut_to_length(full.as_str(), digest.as_str());
        let ghost before = out@;
        proof {
            assert(all.take(i + 1).drop_last() =~= all.take(i as int));
            assert(all.take(i + 1).last() == tool);
            assert(name@ == qualified_name(tool));
            law_qualified_name_fits(full@, digest@);
            if all_plain(all) {
                law_qualified_name_is_plain(tool, digest@);
            }
            named::lemma_position(out@, name@);
        }
        match named::find(&out, name.as_str()) {
            Some(k) => {
                assert(keyed(out@)[k as int].0 == name@);
            },
            None => {
                proof {
                    assert forall|j: int| 0 <= j < keyed(out@).len() implies (#[trigger] keyed(
                        out@,
                    )[j]).0 != name@ by {
                        assert(out@[j].0@ != name@);
                    }
                }
                out.push((name, tool));
                assert(keyed(out@) =~= keyed(before).push((name@, tool)));
            },
        }
        assert(rest@ =~= all.skip(i + 1));
        i += 1;
    }
    assert(all.take(i as int) =~= all);
    out
}

/// Whether the filters let a tool through: a server without a filter offers all of its tools.
pub open spec fn tool_allowed(filters: Seq<(String, ToolFilter)>, tool: ToolInfo) -> bool {
    match named::lookup(filters, tool.server_name@) {
        Some(filter) => filter.lets_through(tool.tool_name@),
        None => true,
    }
}

/// The tools that the filters let through, in order.
pub open spec fn allowed_tools(filters: Seq<(String, ToolFilter)>, tools: Seq<ToolInfo>) -> Seq<
    ToolInfo,
>
    decreases tools.len(),
{
    if tools.len() == 0 {
        Seq::empty()
    } else {
        let before = allowed_tools(filters, tools.drop_last());
        if tool_allowed(filters, tools.last()) {
            before.push(tools.last())
        } else {
            before
        }
    }
}

/// Whether the filters let a tool through.
pub fn is_allowed(filters: &Vec<(String, ToolFilter)>, tool: &ToolInfo) -> (r: bool)
    ensures
        r == tool_allowed(filters@, *tool),
{
    match named::find(filters, tool.server_name.as_str()) {
        Some(k) => filters[k].1.allows(tool.tool_name.as_str()),
        None => true,
    }
}

/// The tools that the filters let through.
pub fn filter_tools(tools: Vec<ToolInfo>, filters: &Vec<(String, ToolFilter)>) -> (r: Vec<ToolInfo>)
    ensures
        r@ == allowed_tools(filters@, tools@),
{
    let ghost all = tools@;
    let mut rest = tools;
    let mut out: Vec<ToolInfo> = Vec::new();
    let mut i: usize = 0;
    let n: usize = rest.len();
    assert(all.take(0) =~= Seq::empty());
    while i < n
        invariant
            i <= n == all.len(),
            rest@ == all.skip(i as int),
            out@ == allowed_tools(filters@, all.take(i as int)),
        decreases n - i,
    {
        let tool = rest.remove(0);
        proof {
            assert(tool == all[i as int]);
            assert(all.take(i + 1).drop_last() =~= all.take(i as int));
            assert(all.take(i + 1).last() == tool);
        }
        if is_allowed(filters, &tool) {
            out.push(tool);
        }
        assert(rest@ =~= all.skip(i + 1));
        i += 1;
    }
    assert(all.take(i as int) =~= all);
    out
}

/// What the environment holds under a name.
#[derive(Debug)]
pub enum EnvLookup {
    Value(String),
    NotPresent,
    NotUnicode,
}

/// Why a token cannot be had from the environment.
pub open spec fn token_problem(lookup: EnvLookup) -> Option<Seq<char>> {
    match lookup {
        EnvLookup::Value(v) => if v@.len() == 0 {
            Some("' is empty"@)
        } else {
            None
        },
        EnvLookup::NotPresent => Some("' is not set"@),
        EnvLookup::NotUnicode => Some("' contains invalid Unicode"@),
    }
}

/// The token that a server is to be given: none where no variable is named for it. `lookup` is what
/// the environment holds under the name.
pub fn resolve_bearer_token(
    server_name: &str,
    bearer_token_env_var: Option<&str>,
    lookup: EnvLookup,
) -> (r: Result<Option<String>, String>)
    ensures
        match bearer_token_env_var {
            None => r == Ok::<Option<String>, String>(None),
            Some(env_var) => match token_problem(lookup) {
                Some(problem) => r matches Err(message) && message@ == "Environment variable "@
                    + env_var@ + " for MCP server '"@ + server_name@ + problem,
                None => r == Ok::<Option<String>, String>(Some(lookup->Value_0)),
            },
        },
{
    let env_var = match bearer_token_env_var {
        Some(env_var) => env_var,
        None => return Ok(None),
    };
    let problem: &str = match lookup {
        EnvLookup::Value(value) => {
            if value.as_str().is_empty() {
                "' is empty"
            } else {
                return Ok(Some(value));
            }
        },
        EnvLookup::NotPresent => "' is not set",
        EnvLookup::NotUnicode => "' contains invalid Unicode",
    };
    let mut message = "Environment variable ".to_owned();
    message.append(env_var);
    message.append(" for MCP server '");
    message.append(server_name);
    message.append(problem);
    Err(message)
}

/// The characters of which the name of a server may consist.
pub open spec fn is_name_char(c: char) -> bool {
    ('a' <= c && c <= 'z') || ('A' <= c && c <= 'Z') || ('0' <= c && c <= '9') || c == '_' || c
        == '-'
}

/// Whether a text is a name: one or more of the characters of names.
pub open spec fn is_plain_name(s: Seq<char>) -> bool {
    s.len() > 0 && forall|i: int| 0 <= i < s.len() ==> is_name_char(#[trigger] s[i])
}

pub fn is_valid_mcp_server_name(server_name: &str) -> (r: bool)
    ensures
        r == is_plain_name(server_name@),
{
    let chars = text::to_chars(server_name);
    if chars.len() == 0 {
        return false;
    }
    let mut i: usize = 0;
    while i < chars.len()
        invariant
            chars@ == server_name@,
            i <= chars@.len(),
            forall|j: int| 0 <= j < i ==> is_name_char(#[trigger] chars@[j]),
        decreases chars@.len() - i,
    {
        let c = chars[i];
        if !(('a' <= c && c <= 'z') || ('A' <= c && c <= 'Z') || ('0' <= c && c <= '9') || c == '_'
            || c == '-') {
            assert(!is_name_char(server_name@[i as int]));
            return false;
        }
        i += 1;
    }
    true
}

/// A server that is to be started.
#[derive(Debug)]
pub struct ServerStart {
    pub server_name: String,
    pub transport: McpServerTransportConfig,
    pub startup_timeout: Timeout,
    pub tool_timeout: Timeout,
    /// The variable of the environment that holds its token.
    pub bearer_token_env_var: Option<String>,
}

/// What is to be done with the configured servers.
#[derive(Debug)]
pub struct StartupPlan {
    pub starts: Vec<ServerStart>,
    /// The servers that cannot be started, and why.
    pub errors: Vec<(String, String)>,
    pub tool_filters: Vec<(String, ToolFilter)>,
}

/// The variable of the environment that holds the token of a server.
pub open spec fn token_variable(transport: McpServerTransportConfig) -> Option<String> {
    match transport {
        McpServerTransportConfig::StreamableHttp { bearer_token_env_var, .. } => {
            bearer_token_env_var
        },
        _ => None,
    }
}

/// Whether a server is to be started in this way.
pub open spec fn is_start_of(start: ServerStart, name: Seq<char>, cfg: McpServerConfig) -> bool {
    &&& start.server_name@ == name
    &&& start.transport == cfg.transport
    &&& start.startup_timeout == match cfg.startup_timeout_sec {
        Some(t) => t,
        None => Timeout { secs: DEFAULT_STARTUP_TIMEOUT, nanos: 0 },
    }
    &&& start.tool_timeout == match cfg.tool_timeout_sec {
        Some(t) => t,
        None => Timeout { secs: DEFAULT_TOOL_TIMEOUT, nanos: 0 },
    }
    &&& start.bearer_token_env_var == token_variable(cfg.transport)
}

/// Whether a filter is the one that the settings of a server ask for.
pub open spec fn is_filter_of(filter: ToolFilter, cfg: McpServerConfig) -> bool {
    &&& match (filter.enabled, cfg.enabled_tools) {
        (Some(a), Some(b)) => a@ == b@,
        (None, None) => true,
        _ => false,
    }
    &&& filter.disabled@ == match cfg.disabled_tools {
        Some(list) => list@,
        None => Seq::empty(),
    }
}

/// The number of servers among the first `n` that are to be started.
pub open spec fn starts_among(servers: Seq<(String, McpServerConfig)>, n: int) -> nat
    decreases n,
{
    if n <= 0 {
        0
    } else {
        starts_among(servers, n - 1) + (if is_plain_name(servers[n - 1].0@) && servers[n
            - 1].1.enabled {
            1nat
        } else {
            0
        })
    }
}

/// The number of servers among the first `n` whose names are valid.
pub open spec fn valid_among(servers: Seq<(String, McpServerConfig)>, n: int) -> nat
    decreases n,
{
    if n <= 0 {
        0
    } else {
        valid_among(servers, n - 1) + (if is_plain_name(servers[n - 1].0@) {
            1nat
        } else {
            0
        })
    }
}

/// Why a server with an invalid name is not started.
pub open spec fn invalid_name_message(name: Seq<char>) -> Seq<char> {
    "invalid server name '"@ + name + "': must match pattern ^[a-zA-Z0-9_-]+$"@
}

/// Whether a plan covers the first `n` servers: one with an invalid name has an error and nothing
/// else; any other has its filter, and is started, in order, if it is enabled.
pub open spec fn plan_covers(
    plan: StartupPlan,
    servers: Seq<(String, McpServerConfig)>,
    n: int,
) -> bool {
    &&& plan.starts@.len() == starts_among(servers, n)
    &&& plan.tool_filters@.len() == valid_among(servers, n)
    &&& plan.errors@.len() == n - valid_among(servers, n)
    &&& forall|i: int|
        #![trigger servers[i]]
        0 <= i < n ==> if is_plain_name(servers[i].0@) {
            &&& plan.tool_filters@[valid_among(servers, i) as int].0@ == servers[i].0@
            &&& is_filter_of(
                plan.tool_filters@[valid_among(servers, i) as int].1,
                servers[i].1,
            )
            &&& servers[i].1.enabled ==> is_start_of(
                plan.starts@[starts_among(servers, i) as int],
                servers[i].0@,
                servers[i].1,
            )
        } else {
            &&& plan.errors@[i - valid_among(servers, i)].0@ == servers[i].0@
            &&& plan.errors@[i - valid_among(servers, i)].1@ == invalid_name_message(
                servers[i].0@,
            )
        }
}

/// The counts of servers grow with the number of servers that is looked at.
proof fn lemma_counts(servers: Seq<(String, McpServerConfig)>, i: int, n: int)
    requires
        0 <= i < n <= servers.len(),
    ensures
        valid_among(servers, i) <= i,
        starts_among(servers, i) + (if is_plain_name(servers[i].0@) && servers[i].1.enabled {
            1nat
        } else {
            0
        }) <= starts_among(servers, n),
        valid_among(servers, i) + (if is_plain_name(servers[i].0@) {
            1nat
        } else {
            0
        }) <= valid_among(servers, n),
        i - valid_among(servers, i) + (if is_plain_name(servers[i].0@) {
            0int
        } else {
            1
        }) <= n - valid_among(servers, n),
    decreases n,
{
    if i < n - 1 {
        lemma_counts(servers, i, n - 1);
    } else if i > 0 {
        lemma_counts(servers, i - 1, i);
    }
}

/// How a server is started.
fn start_of(server_name: String, cfg: McpServerConfig) -> (r: ServerStart)
    ensures
        is_start_of(r, server_name@, cfg),
{
    let startup_timeout = match cfg.startup_timeout_sec {
        Some(t) => t,
        None => Timeout { secs: DEFAULT_STARTUP_TIMEOUT, nanos: 0 },
    };
    let tool_timeout = match cfg.tool_timeout_sec {
        Some(t) => t,
        None => Timeout { secs: DEFAULT_TOOL_TIMEOUT, nanos: 0 },
    };
    let bearer_token_env_var = match &cfg.transport {
        McpServerTransportConfig::StreamableHttp { bearer_token_env_var: Some(var), .. } => Some(
            var.clone(),
        ),
        _ => None,
    };
    ServerStart {
        server_name,
        transport: cfg.transport,
        startup_timeout,
        tool_timeout,
        bearer_token_env_var,
    }
}

/// Decides which of the configured servers are started, and how.
#[verifier::spinoff_prover]
#[verifier::rlimit(80)]
pub fn plan_startup(servers: Vec<(String, McpServerConfig)>) -> (plan: StartupPlan)
    ensures
        plan_covers(plan, servers@, servers@.len() as int),
{
    let ghost all = servers@;
    let mut rest = servers;
    let mut plan = StartupPlan {
        starts: Vec::new(),
        errors: Vec::new(),
        tool_filters: Vec::new(),
    };
    let mut i: usize = 0;
    let n: usize = rest.len();
    while i < n
        invariant
            i <= n == all.len(),
            rest@ == all.skip(i as int),
            plan_covers(plan, all, i as int),
        decreases n - i,
    {
        let ghost before = plan;
        let (server_name, cfg) = rest.remove(0);
        let ghost name = server_name@;
        let ghost config = cfg;
        proof {
            assert((server_name, cfg) == all[i as int]);
            lemma_counts(all, i as int, i + 1);
        }
        if !is_valid_mcp_server_name(server_name.as_str()) {
            let mut message = "invalid server name '".to_owned();
            message.append(server_name.as_str());
            message.append("': must match pattern ^[a-zA-Z0-9_-]+$");
            plan.errors.push((server_name, message));
        } else {
            let filter = ToolFilter::from_config(&cfg);
            plan.tool_filters.push((server_name.clone(), filter));
            if cfg.enabled {
                plan.starts.push(start_of(server_name, cfg));
            }
        }
        proof {
            assert forall|j: int|
                #![trigger all[j]]
                0 <= j < i + 1 implies if is_plain_name(all[j].0@) {
                &&& plan.tool_filters@[valid_among(all, j) as int].0@ == all[j].0@
                &&& is_filter_of(plan.tool_filters@[valid_among(all, j) as int].1, all[j].1)
                &&& all[j].1.enabled ==> is_start_of(
                    plan.starts@[starts_among(all, j) as int],
                    all[j].0@,
                    all[j].1,
                )
            } else {
                &&& plan.errors@[j - valid_among(all, j)].0@ == all[j].0@
                &&& plan.errors@[j - valid_among(all, j)].1@ == invalid_name_message(all[j].0@)
            } by {
                if j < i {
                    lemma_counts(all, j, i as int);
                }
            }
            assert(rest@ =~= all.skip(i + 1));
        }
        i += 1;
    }
    plan
}

/// The token that a server is started with: a problem with it is passed over.
pub fn startup_token(server_name: &str, bearer_token_env_var: Option<&str>, lookup: EnvLookup) -> (r:
    Option<String>)
    ensures
        r == if bearer_token_env_var is Some && token_problem(lookup) is None {
            Some(lookup->Value_0)
        } else {
            None
        },
{
    match resolve_bearer_token(server_name, bearer_token_env_var, lookup) {
        Ok(token) => token,
        Err(_) => None,
    }
}

/// The timeouts of a server that runs.
#[derive(Debug, Clone, Copy, PartialEq, Eq, Structural)]
pub struct ManagedClient {
    pub startup_timeout: Timeout,
    pub tool_timeout: Option<Timeout>,
}

/// What starting a server came to.
#[derive(Debug)]
pub struct StartOutcome {
    pub server_name: String,
    pub startup_timeout: Timeout,
    pub tool_timeout: Timeout,
    /// Why it could not be started, where it could not.
    pub failure: Option<String>,
}

/// The servers that run, their tools and the filters on them.
#[derive(Debug)]
pub struct McpConnectionManager {
    pub clients: Vec<(String, ManagedClient)>,
    /// The tools, under their names among those of all servers.
    pub tools: Vec<(String, ToolInfo)>,
    pub tool_filters: Vec<(String, ToolFilter)>,
}

/// What listing the tools of a server came to: its tools with their names, or nothing.
#[derive(Debug)]
pub struct ToolListing {
    pub server_name: String,
    /// The tools' names and descriptions, where they could be listed.
    pub tools: Option<Vec<(String, String)>>,
}

/// The tools of one listing.
pub open spec fn listed(listing: ToolListing) -> Seq<(Seq<char>, Seq<char>, Seq<char>)> {
    match listing.tools {
        Some(list) => Seq::new(
            list@.len(),
            |i: int| (listing.server_name@, list@[i].0@, list@[i].1@),
        ),
        None => Seq::empty(),
    }
}

/// The tools of all listings, in order.
pub open spec fn all_listed(listings: Seq<ToolListing>) -> Seq<(Seq<char>, Seq<char>, Seq<char>)>
    decreases listings.len(),
{
    if listings.len() == 0 {
        Seq::empty()
    } else {
        all_listed(listings.drop_last()) + listed(listings.last())
    }
}

/// Tools over characters.
pub open spec fn tool_texts(tools: Seq<ToolInfo>) -> Seq<(Seq<char>, Seq<char>, Seq<char>)> {
    Seq::new(tools.len(), |i: int| (tools[i].server_name@, tools[i].tool_name@, tools[i].tool@))
}

/// The tools of all servers; servers whose tools could not be listed are passed over.
pub fn list_all_tools(listings: &Vec<ToolListing>) -> (r: Vec<ToolInfo>)
    ensures
        tool_texts(r@) == all_listed(listings@),
{
    let mut out: Vec<ToolInfo> = Vec::new();
    let mut i: usize = 0;
    assert(listings@.take(0) =~= Seq::empty());
    assert(tool_texts(out@) =~= all_listed(listings@.take(0)));
    while i < listings.len()
        invariant
            i <= listings@.len(),
            tool_texts(out@) == all_listed(listings@.take(i as int)),
        decreases listings@.len() - i,
    {
        let ghost before = tool_texts(out@);
        let listing = &listings[i];
        match &listing.tools {
            Some(list) => {
                let mut j: usize = 0;
                assert(tool_texts(out@) =~= before + listed(*listing).take(0));
                while j < list.len()
                    invariant
                        j <= list@.len(),
                        listing.tools == Some(*list),
                        tool_texts(out@) == before + listed(*listing).take(j as int),
                    decreases list@.len() - j,
                {
                    let ghost so_far = out@;
                    out.push(
                        ToolInfo {
                            server_name: listing.server_name.clone(),
                            tool_name: list[j].0.clone(),
                            tool: list[j].1.clone(),
                        },
                    );
                    proof {
                        assert(tool_texts(out@) =~= tool_texts(so_far).push(
                            listed(*listing)[j as int],
                        ));
                        assert(listed(*listing).take(j + 1) =~= listed(*listing).take(
                            j as int,
                        ).push(listed(*listing)[j as int]));
                        assert(tool_texts(out@) =~= before + listed(*listing).take(j + 1));
                    }
                    j += 1;
                }
                assert(listed(*listing).take(j as int) =~= listed(*listing));
            },
            None => {
                assert(before + listed(*listing) =~= before);
            },
        }
        proof {
            assert(listings@.take(i + 1).drop_last() =~= listings@.take(i as int));
            assert(listings@.take(i + 1).last() == *listing);
        }
        i += 1;
    }
    assert(listings@.take(i as int) =~= listings@);
    out
}

/// Whether the outcomes of the starts are recorded: a server that runs among the clients, one that
/// failed among the errors; a later outcome for the same server counts.
pub open spec fn outcomes_recorded(
    outcomes: Seq<StartOutcome>,
    n: int,
    clients: Seq<(String, ManagedClient)>,
    errors: Seq<(String, String)>,
    errors_before: Seq<(String, String)>,
    name: Seq<char>,
) -> bool {
    &&& match last_running(outcomes, n, name) {
        Some(client) => named::lookup(clients, name) == Some(client),
        None => named::lookup(clients, name) is None,
    }
    &&& match last_failure(outcomes, n, name) {
        Some(why) => named::lookup(errors, name) == Some(why),
        None => named::lookup(errors, name) == named::lookup(errors_before, name),
    }
}

/// The last of the first `n` outcomes in which a server runs.
pub open spec fn last_running(outcomes: Seq<StartOutcome>, n: int, name: Seq<char>) -> Option<
    ManagedClient,
>
    decreases n,
{
    if n <= 0 {
        None
    } else if outcomes[n - 1].server_name@ == name && outcomes[n - 1].failure is None {
        Some(
            ManagedClient {
                startup_timeout: outcomes[n - 1].startup_timeout,
                tool_timeout: Some(outcomes[n - 1].tool_timeout),
            },
        )
    } else {
        last_running(outcomes, n - 1, name)
    }
}

/// The last of the first `n` outcomes in which a server failed.
pub open spec fn last_failure(outcomes: Seq<StartOutcome>, n: int, name: Seq<char>) -> Option<String>
    decreases n,
{
    if n <= 0 {
        None
    } else if outcomes[n - 1].server_name@ == name && outcomes[n - 1].failure is Some {
        outcomes[n - 1].failure
    } else {
        last_failure(outcomes, n - 1, name)
    }
}

/// Records the outcomes of the starts.
pub fn record_outcomes(outcomes: Vec<StartOutcome>, errors: Vec<(String, String)>) -> (r: (
    Vec<(String, ManagedClient)>,
    Vec<(String, String)>,
))
    ensures
        forall|name: Seq<char>|
            #[trigger] outcomes_recorded(
                outcomes@,
                outcomes@.len() as int,
                r.0@,
                r.1@,
                errors@,
                name,
            ),
        named::unique(r.0@),
{
    let ghost all = outcomes@;
    let ghost errors_before = errors@;
    let mut rest = outcomes;
    let mut clients: Vec<(String, ManagedClient)> = Vec::new();
    let mut errors = errors;
    let mut i: usize = 0;
    let n: usize = rest.len();
    while i < n
        invariant
            i <= n == all.len(),
            rest@ == all.skip(i as int),
            named::unique(clients@),
            forall|name: Seq<char>|
                #[trigger] outcomes_recorded(
                    all,
                    i as int,
                    clients@,
                    errors@,
                    errors_before,
                    name,
                ),
        decreases n - i,
    {
        let ghost clients_before = clients@;
        let ghost errors_so_far = errors@;
        let outcome = rest.remove(0);
        assert(outcome == all[i as int]);
        match outcome.failure {
            Some(why) => named::put(&mut errors, outcome.server_name, why),
            None => named::put(
                &mut clients,
                outcome.server_name,
                ManagedClient {
                    startup_timeout: outcome.startup_timeout,
                    tool_timeout: Some(outcome.tool_timeout),
                },
            ),
        }
        proof {
            assert forall|name: Seq<char>|
                #[trigger] outcomes_recorded(
                    all,
                    i + 1,
                    clients@,
                    errors@,
                    errors_before,
                    name,
                ) by {
                assert(outcomes_recorded(
                    all,
                    i as int,
                    clients_before,
                    errors_so_far,
                    errors_before,
                    name,
                ));
            }
            assert(rest@ =~= all.skip(i + 1));
        }
        i += 1;
    }
    (clients, errors)
}

/// Why a server cannot be asked.
pub open spec fn unknown_server_message(server: Seq<char>) -> Seq<char> {
    "unknown MCP server '"@ + server + "'"@
}

/// Why a tool cannot be called.
pub open spec fn disabled_tool_message(server: Seq<char>, tool: Seq<char>) -> Seq<char> {
    "tool '"@ + tool + "' is disabled for MCP server '"@ + server + "'"@
}

impl McpConnectionManager {
    /// No servers.
    pub fn empty() -> (r: Self)
        ensures
            r.clients@.len() == 0,
            r.tools@.len() == 0,
            r.tool_filters@.len() == 0,
    {
        McpConnectionManager { clients: Vec::new(), tools: Vec::new(), tool_filters: Vec::new() }
    }

    /// The manager of the servers that run, given the outcomes of their starts and the tools that
    /// they list; and the servers that do not run, with the reasons.
    pub fn new(
        plan_errors: Vec<(String, String)>,
        tool_filters: Vec<(String, ToolFilter)>,
        outcomes: Vec<StartOutcome>,
        all_tools: Vec<ToolInfo>,
    ) -> (r: (Self, Vec<(String, String)>))
        requires
            forall|i: int|
                0 <= i < all_tools@.len() && tool_allowed(
                    tool_filters@,
                    #[trigger] all_tools@[i],
                ) ==> can_be_cut(full_name(all_tools@[i])),
        ensures
            forall|name: Seq<char>|
                #[trigger] outcomes_recorded(
                    outcomes@,
                    outcomes@.len() as int,
                    r.0.clients@,
                    r.1@,
                    plan_errors@,
                    name,
                ),
            named::unique(r.0.clients@),
            r.0.tool_filters == tool_filters,
            keyed(r.0.tools@) == qualified(allowed_tools(tool_filters@, all_tools@)),
            forall|i: int|
                0 <= i < r.0.tools@.len() ==> text::utf8_len((#[trigger] r.0.tools@[i]).0@)
                    <= MAX_TOOL_NAME_LENGTH,
            all_plain(all_tools@) ==> forall|i: int|
                0 <= i < r.0.tools@.len() ==> is_plain_name((#[trigger] r.0.tools@[i]).0@),
    {
        let (clients, errors) = record_outcomes(outcomes, plan_errors);
        let ghost listed_tools = all_tools@;
        let filtered = filter_tools(all_tools, &tool_filters);
        proof {
            lemma_allowed_come_from(tool_filters@, listed_tools);
            assert forall|i: int| 0 <= i < filtered@.len() implies can_be_cut(
                full_name(#[trigger] filtered@[i]),
            ) by {
                let j = choose|j: int| 0 <= j < listed_tools.len() && listed_tools[j] == filtered@[i];
                assert(tool_allowed(tool_filters@, listed_tools[j]));
            }
            assert(all_plain(listed_tools) ==> all_plain(filtered@));
        }
        let tools = qualify_tools(filtered);
        (McpConnectionManager { clients, tools, tool_filters }, errors)
    }

    /// All tools, under their names among those of all servers, with their descriptions.
    pub fn list_all_tools(&self) -> (r: Vec<(String, String)>)
        ensures
            r@.len() == self.tools@.len(),
            forall|i: int|
                0 <= i < r@.len() ==> (#[trigger] r@[i]).0 == self.tools@[i].0 && r@[i].1
                    == self.tools@[i].1.tool,
    {
        let mut out: Vec<(String, String)> = Vec::new();
        let mut i: usize = 0;
        while i < self.tools.len()
            invariant
                i <= self.tools@.len(),
                out@.len() == i,
                forall|j: int|
                    0 <= j < i ==> (#[trigger] out@[j]).0 == self.tools@[j].0 && out@[j].1
                        == self.tools@[j].1.tool,
            decreases self.tools@.len() - i,
        {
            out.push((self.tools[i].0.clone(), self.tools[i].1.tool.clone()));
            i += 1;
        }
        out
    }

    /// The server and the tool that a name among those of all servers stands for.
    pub fn parse_tool_name(&self, tool_name: &str) -> (r: Option<(String, String)>)
        ensures
            match named::lookup(self.tools@, tool_name@) {
                Some(info) => r == Some((info.server_name, info.tool_name)),
                None => r is None,
            },
    {
        match named::find(&self.tools, tool_name) {
            Some(i) => Some(
                (self.tools[i].1.server_name.clone(), self.tools[i].1.tool_name.clone()),
            ),
            None => None,
        }
    }

    /// Whether a server may be asked, and how long it may take.
    fn client_timeout(&self, server: &str) -> (r: Result<Option<Timeout>, String>)
        ensures
            match named::lookup(self.clients@, server@) {
                Some(client) => r == Ok::<Option<Timeout>, String>(client.tool_timeout),
                None => r matches Err(message) && message@ == unknown_server_message(server@),
            },
    {
        match named::find(&self.clients, server) {
            Some(i) => Ok(self.clients[i].1.tool_timeout),
            None => {
                let mut message = "unknown MCP server '".to_owned();
                message.append(server);
                message.append("'");
                Err(message)
            },
        }
    }

    /// Whether the tool indicated by the (server, tool) pair may be invoked, and how long it may
    /// take: a tool that is disabled may not, nor one of a server that does not run.
    pub fn call_tool(&self, server: &str, tool: &str) -> (r: Result<Option<Timeout>, String>)
        ensures
            match named::lookup(self.tool_filters@, server@) {
                Some(filter) => !filter.lets_through(tool@) ==> (r matches Err(message) && message@
                    == disabled_tool_message(server@, tool@)),
                None => true,
            },
            (match named::lookup(self.tool_filters@, server@) {
                Some(filter) => filter.lets_through(tool@),
                None => true,
            }) ==> match named::lookup(self.clients@, server@) {
                Some(client) => r == Ok::<Option<Timeout>, String>(client.tool_timeout),
                None => r matches Err(message) && message@ == unknown_server_message(server@),
            },
    {
        if let Some(i) = named::find(&self.tool_filters, server) {
            if !self.tool_filters[i].1.allows(tool) {
                let mut message = "tool '".to_owned();
                message.append(tool);
                message.append("' is disabled for MCP server '");
                message.append(server);
                message.append("'");
                return Err(message);
            }
        }
        self.client_timeout(server)
    }

    /// Whether the specified server may be asked for its resources, and how long it may take.
    pub fn list_resources(&self, server: &str) -> (r: Result<Option<Timeout>, String>)
        ensures
            match named::lookup(self.clients@, server@) {
                Some(client) => r == Ok::<Option<Timeout>, String>(client.tool_timeout),
                None => r matches Err(message) && message@ == unknown_server_message(server@),
            },
    {
        self.client_timeout(server)
    }

    /// Whether the specified server may be asked for its resource templates, and how long it may
    /// take.
    pub fn list_resource_templates(&self, server: &str) -> (r: Result<Option<Timeout>, String>)
        ensures
            match named::lookup(self.clients@, server@) {
                Some(client) => r == Ok::<Option<Timeout>, String>(client.tool_timeout),
                None => r matches Err(message) && message@ == unknown_server_message(server@),
            },
    {
        self.client_timeout(server)
    }

    /// Whether the specified server may be asked for a resource, and how long it may take.
    pub fn read_resource(&self, server: &str) -> (r: Result<Option<Timeout>, String>)
        ensures
            match named::lookup(self.clients@, server@) {
                Some(client) => r == Ok::<Option<Timeout>, String>(client.tool_timeout),
                None => r matches Err(message) && message@ == unknown_server_message(server@),
            },
    {
        self.client_timeout(server)
    }
}

/// The lists that a server gives page by page.
#[derive(Debug, Clone, Copy, PartialEq, Eq, Structural)]
pub enum ListMethod {
    Resources,
    ResourceTemplates,
}

/// What a server's list is when a page repeats the place it was asked from.
pub open spec fn duplicate_cursor_message(method: ListMethod) -> Seq<char> {
    match method {
        ListMethod::Resources => "resources/list returned duplicate cursor"@,
        ListMethod::ResourceTemplates => "resources/templates/list returned duplicate cursor"@,
    }
}

/// A list that is read page by page.
#[derive(Debug)]
pub struct Pager<T> {
    pub collected: Vec<T>,
    /// The place from which the next page is asked.
    pub cursor: Option<String>,
}

/// What follows a page.
#[derive(Debug, PartialEq, Eq)]
pub enum PageStep {
    /// Ask for the next page.
    More,
    /// The list is complete.
    Complete,
    /// The list cannot be had.
    Failed(String),
}

impl<T> Pager<T> {
    pub fn new() -> (r: Self)
        ensures
            r.collected@.len() == 0,
            r.cursor is None,
    {
        Pager { collected: Vec::new(), cursor: None }
    }

    /// Takes in a page and the place of the next one. A place that is that of this page again
    /// would never end.
    pub fn page(&mut self, items: Vec<T>, next_cursor: Option<String>, method: ListMethod) -> (r:
        PageStep)
        ensures
            final(self).collected@ == old(self).collected@ + items@,
            match next_cursor {
                None => r == PageStep::Complete && final(self).cursor == old(self).cursor,
                Some(next) => if old(self).cursor is Some && (old(self).cursor->0)@ == next@ {
                    (r matches PageStep::Failed(message) && message@ == duplicate_cursor_message(
                        method,
                    )) && final(self).cursor == old(self).cursor
                } else {
                    r == PageStep::More && final(self).cursor == Some(next)
                },
            },
    {
        let mut items = items;
        self.collected.append(&mut items);
        match next_cursor {
            Some(next) => {
                let repeated = match &self.cursor {
                    Some(current) => text::same(current.as_str(), next.as_str()),
                    None => false,
                };
                if repeated {
                    return PageStep::Failed(
                        match method {
                            ListMethod::Resources => {
                                "resources/list returned duplicate cursor".to_owned()
                            },
                            ListMethod::ResourceTemplates => {
                                "resources/templates/list returned duplicate cursor".to_owned()
                            },
                        },
                    );
                }
                self.cursor = Some(next);
                PageStep::More
            },
            None => PageStep::Complete,
        }
    }
}

/// The lists of the servers that gave one, in order.
pub open spec fn given_lists<T>(lists: Seq<(String, Option<T>)>) -> Seq<(String, T)>
    decreases lists.len(),
{
    if lists.len() == 0 {
        Seq::empty()
    } else {
        let before = given_lists(lists.drop_last());
        match lists.last().1 {
            Some(list) => before.push((lists.last().0, list)),
            None => before,
        }
    }
}

/// The lists of the servers that gave one; servers that did not are passed over.
fn collect_lists<T>(lists: Vec<(String, Option<T>)>) -> (r: Vec<(String, T)>)
    ensures
        r@ == given_lists(lists@),
{
    let ghost all = lists@;
    let mut rest = lists;
    let mut out: Vec<(String, T)> = Vec::new();
    let mut i: usize = 0;
    let n: usize = rest.len();
    assert(all.take(0) =~= Seq::empty());
    while i < n
        invariant
            i <= n == all.len(),
            rest@ == all.skip(i as int),
            out@ == given_lists(all.take(i as int)),
        decreases n - i,
    {
        let (name, list) = rest.remove(0);
        proof {
            assert((name, list) == all[i as int]);
            assert(all.take(i + 1).drop_last() =~= all.take(i as int));
            assert(all.take(i + 1).last() == all[i as int]);
        }
        if let Some(given) = list {
            out.push((name, given));
        }
        assert(rest@ =~= all.skip(i + 1));
        i += 1;
    }
    assert(all.take(i as int) =~= all);
    out
}

impl McpConnectionManager {
    /// The resources of the servers that could list them, by server; servers that could not are
    /// passed over.
    pub fn list_all_resources<T>(lists: Vec<(String, Option<T>)>) -> (r: Vec<(String, T)>)
        ensures
            r@ == given_lists(lists@),
    {
        collect_lists(lists)
    }

    /// The resource templates of the servers that could list them, by server; servers that could
    /// not are passed over.
    pub fn list_all_resource_templates<T>(lists: Vec<(String, Option<T>)>) -> (r: Vec<(String, T)>)
        ensures
            r@ == given_lists(lists@),
    {
        collect_lists(lists)
    }
}

/// The context of an error in a call of a tool.
pub fn tool_call_context(server: &str, tool: &str) -> (r: String)
    ensures
        r@ == "tool call failed for `"@ + server@ + "/"@ + tool@ + "`"@,
{
    let mut message = "tool call failed for `".to_owned();
    message.append(server);
    message.append("/");
    message.append(tool);
    message.append("`");
    message
}

/// The context of an error in listing the resources of a server.
pub fn list_resources_context(server: &str) -> (r: String)
    ensures
        r@ == "resources/list failed for `"@ + server@ + "`"@,
{
    let mut message = "resources/list failed for `".to_owned();
    message.append(server);
    message.append("`");
    message
}

/// The context of an error in listing the resource templates of a server.
pub fn list_resource_templates_context(server: &str) -> (r: String)
    ensures
        r@ == "resources/templates/list failed for `"@ + server@ + "`"@,
{
    let mut message = "resources/templates/list failed for `".to_owned();
    message.append(server);
    message.append("`");
    message
}

/// The context of an error in reading a resource of a server.
pub fn read_resource_context(server: &str, uri: &str) -> (r: String)
    ensures
        r@ == "resources/read failed for `"@ + server@ + "` ("@ + uri@ + ")"@,
{
    let mut message = "resources/read failed for `".to_owned();
    message.append(server);
    message.append("` (");
    message.append(uri);
    message.append(")");
    message
}

/// Every tool that is let through is one of the tools.
proof fn lemma_allowed_come_from(filters: Seq<(String, ToolFilter)>, tools: Seq<ToolInfo>)
    ensures
        forall|i: int|
            0 <= i < allowed_tools(filters, tools).len() ==> tools.contains(
                #[trigger] allowed_tools(filters, tools)[i],
            ) && tool_allowed(filters, allowed_tools(filters, tools)[i]),
    decreases tools.len(),
{
    if tools.len() > 0 {
        lemma_allowed_come_from(filters, tools.drop_last());
        let before = allowed_tools(filters, tools.drop_last());
        let now = allowed_tools(filters, tools);
        assert forall|i: int| 0 <= i < now.len() implies tools.contains(#[trigger] now[i])
            && tool_allowed(filters, now[i]) by {
            if i < before.len() {
                assert(now[i] == before[i]);
                let j = choose|j: int|
                    0 <= j < tools.drop_last().len() && tools.drop_last()[j] == before[i];
                assert(tools[j] == now[i]);
            } else {
                assert(tools[tools.len() - 1] == now[i]);
            }
        }
    }
}

/// No tool is offered that the filters of its server do not let through.
pub proof fn law_filtered_tools_are_allowed(
    filters: Seq<(String, ToolFilter)>,
    tools: Seq<ToolInfo>,
    i: int,
)
    requires
        0 <= i < allowed_tools(filters, tools).len(),
    ensures
        tools.contains(allowed_tools(filters, tools)[i]),
        tool_allowed(filters, allowed_tools(filters, tools)[i]),
{
    lemma_allowed_come_from(filters, tools);
}

/// The names of the tools are all different, and each tool's name is among them.
pub proof fn law_qualified_names_are_unique_and_complete(tools: Seq<ToolInfo>)
    ensures
        forall|i: int, j: int|
            0 <= i < j < qualified(tools).len() ==> (#[trigger] qualified(tools)[i]).0 != (
            #[trigger] qualified(tools)[j]).0,
        forall|i: int|
            0 <= i < tools.len() ==> has_name(
                qualified(tools),
                qualified_name(#[trigger] tools[i]),
            ),
    decreases tools.len(),
{
    if tools.len() > 0 {
        let before = qualified(tools.drop_last());
        let now = qualified(tools);
        let name = qualified_name(tools.last());
        law_qualified_names_are_unique_and_complete(tools.drop_last());
        assert forall|i: int, j: int| 0 <= i < j < now.len() implies (#[trigger] now[i]).0 != (
        #[trigger] now[j]).0 by {
            if j < before.len() {
                assert(now[i] == before[i] && now[j] == before[j]);
            } else {
                assert(now[i] == before[i]);
            }
        }
        assert forall|i: int| 0 <= i < tools.len() implies has_name(
            now,
            qualified_name(#[trigger] tools[i]),
        ) by {
            if i < tools.len() - 1 {
                assert(tools.drop_last()[i] == tools[i]);
                let k = choose|k: int|
                    0 <= k < before.len() && (#[trigger] before[k]).0 == qualified_name(tools[i]);
                assert(now[k] == before[k]);
            } else if has_name(before, name) {
                let k = choose|k: int| 0 <= k < before.len() && (#[trigger] before[k]).0 == name;
                assert(now[k] == before[k]);
            } else {
                assert(now[now.len() - 1].0 == name);
            }
        }
    }
}

/// Under the first of several tools with the same name, that tool is found.
pub proof fn law_first_tool_keeps_its_name(tools: Seq<ToolInfo>, i: int)
    requires
        0 <= i < tools.len(),
        forall|j: int| 0 <= j < i ==> qualified_name(#[trigger] tools[j]) != qualified_name(tools[i]),
    ensures
        qualified(tools).contains((qualified_name(tools[i]), tools[i])),
    decreases tools.len(),
{
    let before = qualified(tools.drop_last());
    let now = qualified(tools);
    if i == tools.len() - 1 {
        lemma_qualified_come_from(tools.drop_last());
        assert(!has_name(before, qualified_name(tools[i]))) by {
            if has_name(before, qualified_name(tools[i])) {
                let k = choose|k: int|
                    0 <= k < before.len() && (#[trigger] before[k]).0 == qualified_name(tools[i]);
                let j = choose|j: int|
                    0 <= j < tools.drop_last().len() && before[k] == (
                        qualified_name(#[trigger] tools.drop_last()[j]),
                        tools.drop_last()[j],
                    );
                assert(tools[j] == tools.drop_last()[j]);
            }
        }
        assert(now.last() == (qualified_name(tools[i]), tools[i]));
    } else {
        assert forall|j: int| 0 <= j < i implies qualified_name(#[trigger] tools.drop_last()[j])
            != qualified_name(tools.drop_last()[i]) by {
            assert(tools.drop_last()[j] == tools[j]);
        }
        law_first_tool_keeps_its_name(tools.drop_last(), i);
        let k = choose|k: int|
            0 <= k < before.len() && before[k] == (qualified_name(tools[i]), tools[i]);
        assert(now[k] == before[k]);
    }
}

proof fn lemma_qualified_come_from(tools: Seq<ToolInfo>)
    ensures
        forall|k: int|
            0 <= k < qualified(tools).len() ==> exists|j: int|
                0 <= j < tools.len() && #[trigger] qualified(tools)[k] == (
                    qualified_name(#[trigger] tools[j]),
                    tools[j],
                ),
    decreases tools.len(),
{
    if tools.len() > 0 {
        lemma_qualified_come_from(tools.drop_last());
        let before = qualified(tools.drop_last());
        let now = qualified(tools);
        assert forall|k: int| 0 <= k < now.len() implies exists|j: int|
            0 <= j < tools.len() && #[trigger] now[k] == (
                qualified_name(#[trigger] tools[j]),
                tools[j],
            ) by {
            if k < before.len() {
                assert(now[k] == before[k]);
                let j = choose|j: int|
                    0 <= j < tools.drop_last().len() && before[k] == (
                        qualified_name(#[trigger] tools.drop_last()[j]),
                        tools.drop_last()[j],
                    );
                assert(tools[j] == tools.drop_last()[j]);
            } else {
                let last = tools[tools.len() - 1];
                assert(now[k] == (qualified_name(last), last));
            }
        }
    }
}

/// A name that is cut has exactly the longest length that is allowed; any other fits as it is.
pub proof fn law_qualified_name_fits(full: Seq<char>, digest: Seq<char>)
    requires
        can_be_cut(full),
        digest.len() == SHA1_HEX_LENGTH,
        forall|i: int| 0 <= i < digest.len() ==> is_hex_digit(#[trigger] digest[i]),
    ensures
        text::utf8_len(cut_name(full, digest)) <= MAX_TOOL_NAME_LENGTH,
        text::utf8_len(full) > MAX_TOOL_NAME_LENGTH ==> text::utf8_len(cut_name(full, digest))
            == MAX_TOOL_NAME_LENGTH,
{
    lemma_hex_is_one_byte_each(digest);
    text::lemma_utf8_len_concat(full.take(kept_prefix(full) as int), digest);
}

proof fn lemma_hex_is_one_byte_each(s: Seq<char>)
    requires
        forall|i: int| 0 <= i < s.len() ==> is_hex_digit(#[trigger] s[i]),
    ensures
        text::utf8_len(s) == s.len(),
    decreases s.len(),
{
    if s.len() > 0 {
        assert forall|i: int| 0 <= i < s.drop_last().len() implies is_hex_digit(
            #[trigger] s.drop_last()[i],
        ) by {
            assert(s.drop_last()[i] == s[i]);
        }
        lemma_hex_is_one_byte_each(s.drop_last());
        assert(is_hex_digit(s[s.len() - 1]));
    }
}

/// The characters of names take one byte each.
proof fn lemma_name_is_one_byte_each(s: Seq<char>)
    requires
        forall|i: int| 0 <= i < s.len() ==> is_name_char(#[trigger] s[i]),
    ensures
        text::utf8_len(s) == s.len(),
    decreases s.len(),
{
    if s.len() > 0 {
        assert forall|i: int| 0 <= i < s.drop_last().len() implies is_name_char(
            #[trigger] s.drop_last()[i],
        ) by {
            assert(s.drop_last()[i] == s[i]);
        }
        lemma_name_is_one_byte_each(s.drop_last());
        assert(is_name_char(s[s.len() - 1]));
    }
}

/// A tool whose server and own names consist of the characters of names can always be given a name
/// among those of all servers, and that name consists of them too, as the model's interface demands.
pub proof fn law_qualified_name_is_plain(tool: ToolInfo, digest: Seq<char>)
    requires
        is_plain_name(tool.server_name@),
        is_plain_name(tool.tool_name@),
        forall|i: int| 0 <= i < digest.len() ==> is_hex_digit(#[trigger] digest[i]),
    ensures
        can_be_cut(full_name(tool)),
        is_plain_name(full_name(tool)),
        is_plain_name(cut_name(full_name(tool), digest)),
{
    reveal_strlit("mcp__");
    reveal_strlit("__");
    let full = full_name(tool);
    let a = "mcp__"@;
    let b = tool.server_name@;
    let c = "__"@;
    let d = tool.tool_name@;
    assert forall|i: int| 0 <= i < full.len() implies is_name_char(#[trigger] full[i]) by {
        if i < a.len() {
            assert(full[i] == a[i]);
        } else if i < a.len() + b.len() {
            assert(full[i] == b[i - a.len()]);
        } else if i < a.len() + b.len() + c.len() {
            assert(full[i] == c[i - a.len() - b.len()]);
        } else {
            assert(full[i] == d[i - a.len() - b.len() - c.len()]);
        }
    }
    lemma_name_is_one_byte_each(full);
    if text::utf8_len(full) > MAX_TOOL_NAME_LENGTH {
        let k: int = MAX_TOOL_NAME_LENGTH - SHA1_HEX_LENGTH;
        lemma_name_is_one_byte_each(full.take(k));
        lemma_name_is_one_byte_each(full.take(k + 1));
        truncate::lemma_fitting(full, k as nat, k);
        let cut = cut_name(full, digest);
        assert forall|i: int| 0 <= i < cut.len() implies is_name_char(#[trigger] cut[i]) by {
            if i < k {
                assert(cut[i] == full[i]);
            } else {
                assert(cut[i] == digest[i - k]);
            }
        }
    }
}

/// Under its name among those of all servers, a tool is found again: the first of those that share
/// the name.
pub proof fn law_qualified_tool_is_found(
    tools: Seq<ToolInfo>,
    list: Seq<(String, ToolInfo)>,
    i: int,
)
    requires
        keyed(list) == qualified(tools),
        0 <= i < tools.len(),
        forall|j: int| 0 <= j < i ==> qualified_name(#[trigger] tools[j]) != qualified_name(tools[i]),
    ensures
        named::lookup(list, qualified_name(tools[i])) == Some(tools[i]),
{
    let name = qualified_name(tools[i]);
    law_qualified_names_are_unique_and_complete(tools);
    law_first_tool_keeps_its_name(tools, i);
    let k = choose|k: int|
        0 <= k < qualified(tools).len() && qualified(tools)[k] == (name, tools[i]);
    assert(keyed(list)[k] == (list[k].0@, list[k].1));
    assert forall|j: int| 0 <= j < k implies (#[trigger] list[j]).0@ != name by {
        assert(keyed(list)[j] == (list[j].0@, list[j].1));
        assert(qualified(tools)[j].0 != qualified(tools)[k].0);
    }
    named::lemma_position_is(list, name, k);
}

/// Whether a server runs after the starts.
pub open spec fn runs(outcomes: Seq<StartOutcome>, name: Seq<char>) -> bool {
    exists|k: int|
        0 <= k < outcomes.len() && (#[trigger] outcomes[k]).server_name@ == name
            && outcomes[k].failure is None
}

proof fn lemma_running_is_last_running(outcomes: Seq<StartOutcome>, n: int, name: Seq<char>, k: int)
    requires
        0 <= k < n <= outcomes.len(),
        outcomes[k].server_name@ == name,
        outcomes[k].failure is None,
    ensures
        last_running(outcomes, n, name) is Some,
    decreases n,
{
    if k < n - 1 {
        lemma_running_is_last_running(outcomes, n - 1, name, k);
    }
}

/// Every tool comes from a listing of its server.
proof fn lemma_listed_come_from(listings: Seq<ToolListing>, t: int)
    requires
        0 <= t < all_listed(listings).len(),
    ensures
        exists|l: int|
            0 <= l < listings.len() && (#[trigger] listings[l]).tools is Some
                && listings[l].server_name@ == all_listed(listings)[t].0,
    decreases listings.len(),
{
    let before = all_listed(listings.drop_last());
    if t < before.len() {
        lemma_listed_come_from(listings.drop_last(), t);
        let l = choose|l: int|
            0 <= l < listings.drop_last().len() && (#[trigger] listings.drop_last()[l]).tools
                is Some && listings.drop_last()[l].server_name@ == before[t].0;
        assert(listings[l] == listings.drop_last()[l]);
    } else {
        let last = listings[listings.len() - 1];
        assert(all_listed(listings)[t] == listed(last)[t - before.len()]);
        assert(last.tools is Some);
    }
}

/// Where tools are listed by servers that run, every tool of the manager is one of a client of the
/// manager.
pub proof fn law_tools_belong_to_clients(
    outcomes: Seq<StartOutcome>,
    listings: Seq<ToolListing>,
    all_tools: Seq<ToolInfo>,
    plan_errors: Seq<(String, String)>,
    manager: McpConnectionManager,
    errors: Seq<(String, String)>,
)
    requires
        forall|i: int|
            0 <= i < listings.len() && (#[trigger] listings[i]).tools is Some ==> runs(
                outcomes,
                listings[i].server_name@,
            ),
        tool_texts(all_tools) == all_listed(listings),
        forall|name: Seq<char>|
            #[trigger] outcomes_recorded(
                outcomes,
                outcomes.len() as int,
                manager.clients@,
                errors,
                plan_errors,
                name,
            ),
        keyed(manager.tools@) == qualified(allowed_tools(manager.tool_filters@, all_tools)),
    ensures
        forall|i: int|
            0 <= i < manager.tools@.len() ==> named::lookup(
                manager.clients@,
                (#[trigger] manager.tools@[i]).1.server_name@,
            ) is Some,
{
    let allowed = allowed_tools(manager.tool_filters@, all_tools);
    lemma_allowed_come_from(manager.tool_filters@, all_tools);
    lemma_qualified_come_from(allowed);
    assert forall|i: int| 0 <= i < manager.tools@.len() implies named::lookup(
        manager.clients@,
        (#[trigger] manager.tools@[i]).1.server_name@,
    ) is Some by {
        assert(keyed(manager.tools@)[i].1 == manager.tools@[i].1);
        let j = choose|j: int|
            0 <= j < allowed.len() && qualified(allowed)[i] == (
                qualified_name(#[trigger] allowed[j]),
                allowed[j],
            );
        let t = choose|t: int| 0 <= t < all_tools.len() && all_tools[t] == allowed[j];
        let name = all_tools[t].server_name@;
        assert(tool_texts(all_tools)[t].0 == name);
        lemma_listed_come_from(listings, t);
        let l = choose|l: int|
            0 <= l < listings.len() && (#[trigger] listings[l]).tools is Some
                && listings[l].server_name@ == name;
        assert(runs(outcomes, listings[l].server_name@));
        let k = choose|k: int|
            0 <= k < outcomes.len() && (#[trigger] outcomes[k]).server_name@ == name
                && outcomes[k].failure is None;
        lemma_running_is_last_running(outcomes, outcomes.len() as int, name, k);
        assert(outcomes_recorded(
            outcomes,
            outcomes.len() as int,
            manager.clients@,
            errors,
            plan_errors,
            name,
        ));
    }
}

/// A filter lets a tool through exactly where the tool is among those that are enabled, if any are
/// named, and not among those that are disabled.
pub proof fn law_filter_knows_its_tools(filter: ToolFilter, tool_name: Seq<char>)
    ensures
        filter.lets_through(tool_name) <==> {
            &&& filter.enabled is Some ==> exists|i: int|
                0 <= i < (filter.enabled->0)@.len() && (#[trigger] (filter.enabled->0)@[i])@
                    == tool_name
            &&& forall|i: int|
                0 <= i < filter.disabled@.len() ==> (#[trigger] filter.disabled@[i])@ != tool_name
        },
{
    let disabled = text::texts(filter.disabled@);
    assert forall|i: int| 0 <= i < filter.disabled@.len() implies disabled[i] == (
    #[trigger] filter.disabled@[i])@ by {}
    if disabled.contains(tool_name) {
        let i = choose|i: int| 0 <= i < disabled.len() && disabled[i] == tool_name;
        assert(filter.disabled@[i]@ == tool_name);
    }
    if let Some(list) = filter.enabled {
        let enabled = text::texts(list@);
        assert forall|i: int| 0 <= i < list@.len() implies enabled[i] == (#[trigger] list@[i])@ by {}
        if enabled.contains(tool_name) {
            let i = choose|i: int| 0 <= i < enabled.len() && enabled[i] == tool_name;
            assert(list@[i]@ == tool_name);
        }
    }
}

/// A tool is allowed where the filter of its server lets it through, or where its server has none.
pub proof fn law_servers_filter_their_own_tools(filters: Seq<(String, ToolFilter)>, tool: ToolInfo)
    ensures
        match named::lookup(filters, tool.server_name@) {
            Some(filter) => tool_allowed(filters, tool) == filter.lets_through(tool.tool_name@),
            None => tool_allowed(filters, tool),
        },
{
}

/// Tools are filtered one by one, in order: each that is allowed stays, and no other does.
pub proof fn law_tools_are_filtered_one_by_one(
    filters: Seq<(String, ToolFilter)>,
    a: Seq<ToolInfo>,
    b: Seq<ToolInfo>,
    tool: ToolInfo,
)
    ensures
        allowed_tools(filters, a + b) == allowed_tools(filters, a) + allowed_tools(filters, b),
        allowed_tools(filters, seq![tool]) == if tool_allowed(filters, tool) {
            seq![tool]
        } else {
            Seq::empty()
        },
    decreases b.len(),
{
    assert(seq![tool].drop_last() =~= Seq::<ToolInfo>::empty());
    assert(seq![tool].last() == tool);
    assert(allowed_tools(filters, Seq::<ToolInfo>::empty()) =~= Seq::<ToolInfo>::empty());
    assert(allowed_tools(filters, seq![tool]) =~= if tool_allowed(filters, tool) {
        seq![tool]
    } else {
        Seq::empty()
    });
    if b.len() == 0 {
        assert(a + b =~= a);
        assert(allowed_tools(filters, a) + allowed_tools(filters, b) =~= allowed_tools(filters, a));
    } else {
        law_tools_are_filtered_one_by_one(filters, a, b.drop_last(), tool);
        assert((a + b).drop_last() =~= a + b.drop_last());
        assert((a + b).last() == b.last());
        assert(allowed_tools(filters, a + b) =~= allowed_tools(filters, a) + allowed_tools(
            filters,
            b,
        ));
    }
}

/// A tool is called after its server and itself; a name of up to sixty-four bytes is kept, and of a
/// longer one the first twenty-four, followed by the digest of the whole.
pub proof fn law_tools_are_named_after_their_servers(tool: ToolInfo)
    requires
        can_be_cut(full_name(tool)),
    ensures
        ({
            let full = "mcp__"@ + tool.server_name@ + "__"@ + tool.tool_name@;
            let name = qualified_name(tool);
            let digest = sha1_hex(vstd::utf8::encode_utf8(full));
            &&& text::utf8_len(full) <= 64 ==> name == full
            &&& text::utf8_len(full) > 64 ==> exists|k: int|
                {
                    &&& 0 <= k <= full.len()
                    &&& text::utf8_len(#[trigger] full.take(k)) == 24
                    &&& name == full.take(k) + digest
                }
        }),
{
    let full = full_name(tool);
    truncate::lemma_fitting_fits(full, 24);
    let k = kept_prefix(full) as int;
    assert(text::utf8_len(full) > 64 ==> text::utf8_len(full.take(k)) == 24);
}

/// Under each name stands a tool whose name it is.
pub proof fn law_names_stand_for_their_tools(tools: Seq<ToolInfo>, i: int)
    requires
        0 <= i < qualified(tools).len(),
    ensures
        qualified(tools)[i].0 == qualified_name(qualified(tools)[i].1),
        tools.contains(qualified(tools)[i].1),
    decreases tools.len(),
{
    let before = qualified(tools.drop_last());
    if i < before.len() {
        law_names_stand_for_their_tools(tools.drop_last(), i);
        let tool = before[i].1;
        let k = choose|k: int| 0 <= k < tools.drop_last().len() && tools.drop_last()[k] == tool;
        assert(tools[k] == tool);
    } else {
        assert(tools[tools.len() - 1] == tools.last());
    }
}

/// A token is taken from the environment where it is there, can be read and is not empty; else it is
/// said which of these fails.
pub proof fn law_token_must_be_usable(value: String)
    ensures
        value@.len() > 0 ==> token_problem(EnvLookup::Value(value)) is None,
        value@.len() == 0 ==> token_problem(EnvLookup::Value(value)) == Some("' is empty"@),
        token_problem(EnvLookup::NotPresent) == Some("' is not set"@),
        token_problem(EnvLookup::NotUnicode) == Some("' contains invalid Unicode"@),
{
}

/// A server may be named with letters, digits, underscores and hyphens, at least one.
pub proof fn law_plain_names(name: Seq<char>)
    ensures
        is_plain_name(name) <==> name.len() > 0 && forall|i: int|
            0 <= i < name.len() ==> ({
                let c = #[trigger] name[i];
                'a' <= c <= 'z' || 'A' <= c <= 'Z' || '0' <= c <= '9' || c == '_' || c == '-'
            }),
{
    if is_plain_name(name) {
        assert forall|i: int| 0 <= i < name.len() implies ({
            let c = #[trigger] name[i];
            'a' <= c <= 'z' || 'A' <= c <= 'Z' || '0' <= c <= '9' || c == '_' || c == '-'
        }) by {
            assert(is_name_char(name[i]));
        }
    } else if name.len() > 0 {
        let i = choose|i: int| 0 <= i < name.len() && !is_name_char(#[trigger] name[i]);
        assert(name[i] == name[i]);
    }
}

proof fn lemma_starts_are_some(servers: Seq<(String, McpServerConfig)>, n: int, k: int)
    requires
        0 <= n <= servers.len(),
        0 <= k < starts_among(servers, n),
    ensures
        exists|i: int|
            0 <= i < n && is_plain_name((#[trigger] servers[i]).0@) && servers[i].1.enabled
                && starts_among(servers, i) == k,
    decreases n,
{
    if n > 0 {
        if k < starts_among(servers, n - 1) {
            lemma_starts_are_some(servers, n - 1, k);
            let i = choose|i: int|
                0 <= i < n - 1 && is_plain_name((#[trigger] servers[i]).0@) && servers[i].1.enabled
                    && starts_among(servers, i) == k;
            assert(0 <= i < n && is_plain_name(servers[i].0@));
        } else {
            assert(is_plain_name(servers[n - 1].0@));
        }
    }
}

proof fn lemma_starts_grow(servers: Seq<(String, McpServerConfig)>, i: int, n: int)
    requires
        0 <= i <= n,
    ensures
        starts_among(servers, i) <= starts_among(servers, n),
        valid_among(servers, i) <= valid_among(servers, n),
        valid_among(servers, n) - valid_among(servers, i) <= n - i,
    decreases n,
{
    if i < n {
        lemma_starts_grow(servers, i, n - 1);
    }
}

/// Every server that is enabled and has a valid name is started, with its own transport and token,
/// and with the times that are configured, or else ten seconds to start and a minute for a call.
pub proof fn law_enabled_servers_are_started(
    plan: StartupPlan,
    servers: Seq<(String, McpServerConfig)>,
    i: int,
)
    requires
        plan_covers(plan, servers, servers.len() as int),
        0 <= i < servers.len(),
        is_plain_name(servers[i].0@),
        servers[i].1.enabled,
    ensures
        exists|k: int|
            0 <= k < plan.starts@.len() && ({
                let start = #[trigger] plan.starts@[k];
                let cfg = servers[i].1;
                &&& start.server_name@ == servers[i].0@
                &&& start.transport == cfg.transport
                &&& cfg.startup_timeout_sec is Some ==> start.startup_timeout
                    == cfg.startup_timeout_sec->0
                &&& cfg.startup_timeout_sec is None ==> start.startup_timeout.secs == 10
                    && start.startup_timeout.nanos == 0
                &&& cfg.tool_timeout_sec is Some ==> start.tool_timeout == cfg.tool_timeout_sec->0
                &&& cfg.tool_timeout_sec is None ==> start.tool_timeout.secs == 60
                    && start.tool_timeout.nanos == 0
                &&& match cfg.transport {
                    McpServerTransportConfig::StreamableHttp { bearer_token_env_var, .. } => {
                        start.bearer_token_env_var == bearer_token_env_var
                    },
                    McpServerTransportConfig::Stdio { .. } => start.bearer_token_env_var is None,
                }
            }),
{
    let k = starts_among(servers, i) as int;
    lemma_starts_grow(servers, i + 1, servers.len() as int);
    assert(starts_among(servers, i + 1) == k + 1);
    assert(is_start_of(plan.starts@[k], servers[i].0@, servers[i].1));
}

/// Nothing else is started: each start is that of a server that is enabled and has a valid name.
pub proof fn law_only_enabled_servers_are_started(
    plan: StartupPlan,
    servers: Seq<(String, McpServerConfig)>,
    k: int,
)
    requires
        plan_covers(plan, servers, servers.len() as int),
        0 <= k < plan.starts@.len(),
    ensures
        exists|i: int|
            0 <= i < servers.len() && is_plain_name((#[trigger] servers[i]).0@)
                && servers[i].1.enabled && plan.starts@[k].server_name@ == servers[i].0@
                && plan.starts@[k].transport == servers[i].1.transport,
{
    lemma_starts_are_some(servers, servers.len() as int, k);
    let i = choose|i: int|
        0 <= i < servers.len() && is_plain_name((#[trigger] servers[i]).0@) && servers[i].1.enabled
            && starts_among(servers, i) == k;
    assert(is_start_of(plan.starts@[k], servers[i].0@, servers[i].1));
}

/// A server with a valid name gets the filter of its configuration, enabled or not; one with an
/// invalid name gets an error that says what a valid one is.
pub proof fn law_every_server_is_accounted_for(
    plan: StartupPlan,
    servers: Seq<(String, McpServerConfig)>,
    i: int,
)
    requires
        plan_covers(plan, servers, servers.len() as int),
        0 <= i < servers.len(),
    ensures
        plan.tool_filters@.len() + plan.errors@.len() == servers.len(),
        is_plain_name(servers[i].0@) ==> exists|k: int|
            0 <= k < plan.tool_filters@.len() && ({
                let (name, filter) = #[trigger] plan.tool_filters@[k];
                let cfg = servers[i].1;
                &&& name@ == servers[i].0@
                &&& filter.enabled is Some <==> cfg.enabled_tools is Some
                &&& filter.enabled is Some ==> (filter.enabled->0)@ == (cfg.enabled_tools->0)@
                &&& cfg.disabled_tools is Some ==> filter.disabled@ == (cfg.disabled_tools->0)@
                &&& cfg.disabled_tools is None ==> filter.disabled@.len() == 0
            }),
        !is_plain_name(servers[i].0@) ==> exists|k: int|
            0 <= k < plan.errors@.len() && (#[trigger] plan.errors@[k]).0@ == servers[i].0@
                && plan.errors@[k].1@ == "invalid server name '"@ + servers[i].0@
                + "': must match pattern ^[a-zA-Z0-9_-]+$"@,
{
    let n = servers.len() as int;
    let v = valid_among(servers, i) as int;
    lemma_starts_grow(servers, 0, i);
    lemma_starts_grow(servers, i, n);
    lemma_starts_grow(servers, i + 1, n);
    if is_plain_name(servers[i].0@) {
        assert(valid_among(servers, i + 1) == v + 1);
        assert(is_filter_of(plan.tool_filters@[v].1, servers[i].1));
    } else {
        assert(valid_among(servers, i + 1) == v);
        assert(plan.errors@[i - v].0@ == servers[i].0@);
    }
}

/// What the servers list is put together server by server, in order; a server that lists nothing
/// adds nothing, and each tool is listed under its server.
pub proof fn law_tools_are_listed_server_by_server(
    a: Seq<ToolListing>,
    b: Seq<ToolListing>,
    one: ToolListing,
    i: int,
)
    ensures
        all_listed(a + b) == all_listed(a) + all_listed(b),
        match one.tools {
            None => all_listed(seq![one]).len() == 0,
            Some(list) => all_listed(seq![one]).len() == list@.len() && (0 <= i < list@.len()
                ==> all_listed(seq![one])[i] == (one.server_name@, list@[i].0@, list@[i].1@)),
        },
    decreases b.len(),
{
    assert(seq![one].drop_last() =~= Seq::<ToolListing>::empty());
    assert(seq![one].last() == one);
    assert(all_listed(Seq::<ToolListing>::empty()).len() == 0);
    assert(all_listed(seq![one]) =~= listed(one));
    if b.len() == 0 {
        assert(a + b =~= a);
        assert(all_listed(a) + all_listed(b) =~= all_listed(a));
    } else {
        law_tools_are_listed_server_by_server(a, b.drop_last(), one, i);
        assert((a + b).drop_last() =~= a + b.drop_last());
        assert((a + b).last() == b.last());
        assert(all_listed(a + b) =~= all_listed(a) + all_listed(b));
    }
}

/// A server that was started is kept with the times of its last start.
pub proof fn law_last_start_counts(
    outcomes: Seq<StartOutcome>,
    n: int,
    name: Seq<char>,
    k: int,
)
    requires
        0 <= k < n <= outcomes.len(),
        outcomes[k].server_name@ == name,
        outcomes[k].failure is None,
        forall|j: int|
            k < j < n ==> (#[trigger] outcomes[j]).server_name@ != name || outcomes[j].failure
                is Some,
    ensures
        last_running(outcomes, n, name) matches Some(client) && client.startup_timeout
            == outcomes[k].startup_timeout && client.tool_timeout == Some(outcomes[k].tool_timeout),
    decreases n,
{
    if k < n - 1 {
        assert(outcomes[n - 1].server_name@ != name || outcomes[n - 1].failure is Some);
        law_last_start_counts(outcomes, n - 1, name, k);
    }
}

/// A server that could not be started is told with its last reason.
pub proof fn law_last_failure_counts(
    outcomes: Seq<StartOutcome>,
    n: int,
    name: Seq<char>,
    k: int,
)
    requires
        0 <= k < n <= outcomes.len(),
        outcomes[k].server_name@ == name,
        outcomes[k].failure is Some,
        forall|j: int|
            k < j < n ==> (#[trigger] outcomes[j]).server_name@ != name || outcomes[j].failure
                is None,
    ensures
        last_failure(outcomes, n, name) == outcomes[k].failure,
    decreases n,
{
    if k < n - 1 {
        assert(outcomes[n - 1].server_name@ != name || outcomes[n - 1].failure is None);
        law_last_failure_counts(outcomes, n - 1, name, k);
    }
}

/// A server that was never started is not kept, and one that never failed has no reason.
pub proof fn law_only_what_happened_counts(outcomes: Seq<StartOutcome>, n: int, name: Seq<char>)
    requires
        0 <= n <= outcomes.len(),
    ensures
        (forall|j: int|
            0 <= j < n ==> (#[trigger] outcomes[j]).server_name@ != name || outcomes[j].failure
                is Some) ==> last_running(outcomes, n, name) is None,
        (forall|j: int|
            0 <= j < n ==> (#[trigger] outcomes[j]).server_name@ != name || outcomes[j].failure
                is None) ==> last_failure(outcomes, n, name) is None,
    decreases n,
{
    if n > 0 {
        law_only_what_happened_counts(outcomes, n - 1, name);
        assert(outcomes[n - 1] == outcomes[n - 1]);
    }
}

/// What was recorded of the starts: a server is a client where it was started, with an error where
/// it was not, and the errors of the plan stay.
pub proof fn law_outcomes_are_recorded(
    outcomes: Seq<StartOutcome>,
    clients: Seq<(String, ManagedClient)>,
    errors: Seq<(String, String)>,
    before: Seq<(String, String)>,
    name: Seq<char>,
)
    requires
        outcomes_recorded(outcomes, outcomes.len() as int, clients, errors, before, name),
    ensures
        named::lookup(clients, name) == last_running(outcomes, outcomes.len() as int, name),
        last_failure(outcomes, outcomes.len() as int, name) is Some ==> named::lookup(errors, name)
            == last_failure(outcomes, outcomes.len() as int, name),
        last_failure(outcomes, outcomes.len() as int, name) is None ==> named::lookup(errors, name)
            == named::lookup(before, name),
{
}

/// What the user is told of a server or a tool that cannot be used, and of a list that goes round in
/// a circle.
pub proof fn law_messages_name_server_and_tool(server: Seq<char>, tool: Seq<char>)
    ensures
        unknown_server_message(server) == "unknown MCP server '"@ + server + "'"@,
        disabled_tool_message(server, tool) == "tool '"@ + tool + "' is disabled for MCP server '"@
            + server + "'"@,
        duplicate_cursor_message(ListMethod::Resources)
            == "resources/list returned duplicate cursor"@,
        duplicate_cursor_message(ListMethod::ResourceTemplates)
            == "resources/templates/list returned duplicate cursor"@,
{
}

/// The lists that are there are kept, in order and under their names, and the others left out.
pub proof fn law_lists_are_kept_one_by_one<T>(
    a: Seq<(String, Option<T>)>,
    b: Seq<(String, Option<T>)>,
    name: String,
    list: T,
)
    ensures
        given_lists(a + b) == given_lists(a) + given_lists(b),
        given_lists(seq![(name, Some(list))]) == seq![(name, list)],
        given_lists(seq![(name, None::<T>)]).len() == 0,
    decreases b.len(),
{
    let there = seq![(name, Some(list))];
    let missing = seq![(name, None::<T>)];
    assert(there.drop_last() =~= Seq::<(String, Option<T>)>::empty());
    assert(missing.drop_last() =~= Seq::<(String, Option<T>)>::empty());
    assert(given_lists(Seq::<(String, Option<T>)>::empty()) =~= Seq::<(String, T)>::empty());
    assert(given_lists(there) =~= seq![(name, list)]);
    assert(given_lists(missing) =~= Seq::<(String, T)>::empty());
    if b.len() == 0 {
        assert(a + b =~= a);
        assert(given_lists(a) + given_lists(b) =~= given_lists(a));
    } else {
        law_lists_are_kept_one_by_one(a, b.drop_last(), name, list);
        assert((a + b).drop_last() =~= a + b.drop_last());
        assert((a + b).last() == b.last());
        assert(given_lists(a + b) =~= given_lists(a) + given_lists(b));
    }
}

/// A token is asked for only where the server names a variable for it, and is then what the variable
/// holds; where it cannot be used, the error names both.
pub proof fn law_token_is_what_the_variable_holds(
    server: &str,
    variable: Option<&str>,
    lookup: EnvLookup,
    r: Result<Option<String>, String>,
)
    requires
        call_ensures(resolve_bearer_token, (server, variable, lookup), r),
    ensures
        variable is None ==> r == Ok::<Option<String>, String>(None),
        variable is Some ==> match lookup {
            EnvLookup::Value(v) => if v@.len() > 0 {
                r == Ok::<Option<String>, String>(Some(v))
            } else {
                r matches Err(m) && m@ == "Environment variable "@ + (variable->0)@
                    + " for MCP server '"@ + server@ + "' is empty"@
            },
            EnvLookup::NotPresent => r matches Err(m) && m@ == "Environment variable "@ + (
            variable->0)@ + " for MCP server '"@ + server@ + "' is not set"@,
            EnvLookup::NotUnicode => r matches Err(m) && m@ == "Environment variable "@ + (
            variable->0)@ + " for MCP server '"@ + server@ + "' contains invalid Unicode"@,
        },
{
}

/// A name leads back to the server and the tool that it stands for.
pub proof fn law_names_lead_back(
    manager: McpConnectionManager,
    name: &str,
    r: Option<(String, String)>,
)
    requires
        call_ensures(McpConnectionManager::parse_tool_name, (&manager, name), r),
    ensures
        r is Some <==> named::lookup(manager.tools@, name@) is Some,
        r matches Some((server, tool)) ==> {
            let info = named::lookup(manager.tools@, name@)->0;
            server == info.server_name && tool == info.tool_name
        },
{
}

/// A tool is called where its server runs and the filter of the server, if it has one, lets the tool
/// through; it has the time of its server.
pub proof fn law_calls_pass_filter_and_client(
    manager: McpConnectionManager,
    server: &str,
    tool: &str,
    r: Result<Option<Timeout>, String>,
)
    requires
        call_ensures(McpConnectionManager::call_tool, (&manager, server, tool), r),
    ensures
        ({
            let filter = named::lookup(manager.tool_filters@, server@);
            let client = named::lookup(manager.clients@, server@);
            let open = filter is None || (filter->0).lets_through(tool@);
            &&& r is Ok <==> open && client is Some
            &&& r is Ok ==> r->Ok_0 == (client->0).tool_timeout
            &&& !open ==> (r matches Err(m) && m@ == "tool '"@ + tool@
                + "' is disabled for MCP server '"@ + server@ + "'"@)
            &&& open && client is None ==> (r matches Err(m) && m@ == "unknown MCP server '"@
                + server@ + "'"@)
        }),
{
}

/// A list is put together page by page, in order, until there is no further page; a page that leads
/// to where it was asked from ends it as an error.
pub proof fn law_lists_are_read_page_by_page<T>(
    pager: &mut Pager<T>,
    items: Vec<T>,
    next: Option<String>,
    method: ListMethod,
    r: PageStep,
)
    requires
        call_ensures(Pager::<T>::page, (pager, items, next, method), r),
    ensures
        final(pager).collected@ == old(pager).collected@ + items@,
        r is Complete <==> next is None,
        r is Failed <==> next is Some && old(pager).cursor is Some && (old(pager).cursor->0)@ == (
        next->0)@,
        r is More ==> final(pager).cursor == next,
        r matches PageStep::Failed(m) ==> m@ == duplicate_cursor_message(method),
{
}

/// Every tool is listed under its name, with what it does.
pub proof fn law_every_tool_is_listed(
    manager: McpConnectionManager,
    r: Vec<(String, String)>,
    i: int,
)
    requires
        call_ensures(McpConnectionManager::list_all_tools, (&manager,), r),
        0 <= i < manager.tools@.len(),
    ensures
        r@.len() == manager.tools@.len(),
        r@[i].0 == manager.tools@[i].0,
        r@[i].1 == manager.tools@[i].1.tool,
{
}

/// The filter of a server is that of its configuration; without one everything is let through.
pub proof fn law_filter_comes_from_the_configuration(cfg: McpServerConfig, r: ToolFilter)
    requires
        call_ensures(ToolFilter::from_config, (&cfg,), r),
    ensures
        r.enabled is Some <==> cfg.enabled_tools is Some,
        r.enabled is Some ==> (r.enabled->0)@ == (cfg.enabled_tools->0)@,
        cfg.disabled_tools is Some ==> r.disabled@ == (cfg.disabled_tools->0)@,
        cfg.disabled_tools is None ==> r.disabled@.len() == 0,
{
}

/// Resources are asked of a server that runs, with its time.
pub proof fn law_resources_are_asked_of_running_servers(
    manager: McpConnectionManager,
    server: &str,
    resources: Result<Option<Timeout>, String>,
    templates: Result<Option<Timeout>, String>,
    reading: Result<Option<Timeout>, String>,
)
    requires
        call_ensures(McpConnectionManager::list_resources, (&manager, server), resources),
        call_ensures(McpConnectionManager::list_resource_templates, (&manager, server), templates),
        call_ensures(McpConnectionManager::read_resource, (&manager, server), reading),
    ensures
        match named::lookup(manager.clients@, server@) {
            Some(client) => resources == Ok::<Option<Timeout>, String>(client.tool_timeout)
                && templates == Ok::<Option<Timeout>, String>(client.tool_timeout) && reading
                == Ok::<Option<Timeout>, String>(client.tool_timeout),
            None => resources is Err && templates is Err && reading is Err && (resources->Err_0)@
                == "unknown MCP server '"@ + server@ + "'"@ && (templates->Err_0)@
                == "unknown MCP server '"@ + server@ + "'"@ && (reading->Err_0)@
                == "unknown MCP server '"@ + server@ + "'"@,
        },
{
}

} // verus!
