//! The settings of a session, and the context of a turn that follows from them.
use vstd::prelude::*;

use crate::client::model_client::{
    ModelClient, ModelConfig, ModelFamily, ModelInfo, ModelProviderInfo, SessionSource,
};
use crate::protocol::{AskForApproval, ReasoningEffort, ReasoningSummary, SandboxPolicy, UserInput};
use crate::text;
use crate::tools::handlers::shell;

verus! {

/// The features of a session. Those that the library does not read are JSON text.
#[derive(Debug)]
pub struct Features {
    pub web_search_request: bool,
    pub view_image_tool: bool,
    pub ghost_commit: bool,
    pub other: String,
}

impl Features {
    /// A copy of the features.
    pub fn copy(&self) -> (r: Self)
        ensures
            r == *self,
    {
        Features {
            web_search_request: self.web_search_request,
            view_image_tool: self.view_image_tool,
            ghost_commit: self.ghost_commit,
            other: self.other.clone(),
        }
    }
}

/// The configuration that a session was started with.
#[derive(Debug)]
pub struct Config {
    pub model_config: ModelConfig,
    pub features: Features,
    /// Which variables commands see, as JSON text.
    pub shell_environment_policy: String,
    pub codex_linux_sandbox_exe: Option<String>,
    pub review_model: String,
}

/// The settings of a session.
#[derive(Debug)]
pub struct SessionConfiguration {
    /// Provider identifier ("openai", "openrouter", ...).
    pub provider: ModelProviderInfo,
    pub model: String,
    pub model_reasoning_effort: Option<ReasoningEffort>,
    pub model_reasoning_summary: ReasoningSummary,
    /// Developer instructions that supplement the base instructions.
    pub developer_instructions: Option<String>,
    /// Model instructions that are appended to the base instructions.
    pub user_instructions: Option<String>,
    /// Base instructions override.
    pub base_instructions: Option<String>,
    /// Compact prompt override.
    pub compact_prompt: Option<String>,
    /// When to escalate for approval for execution
    pub approval_policy: AskForApproval,
    /// How to sandbox commands executed in the system
    pub sandbox_policy: SandboxPolicy,
    /// Working directory that is the root of the session. All relative paths that the model gives,
    /// and the sandbox, are resolved against it.
    pub cwd: String,
    /// Set of feature flags for this session
    pub features: Features,
    pub original_config: Config,
    /// Source of the session (cli, vscode, exec, mcp, ...)
    pub session_source: SessionSource,
}

/// Changes of the settings; what is not there stays as it is.
#[derive(Debug)]
pub struct SessionSettingsUpdate {
    pub cwd: Option<String>,
    pub approval_policy: Option<AskForApproval>,
    pub sandbox_policy: Option<SandboxPolicy>,
    pub model: Option<String>,
    pub reasoning_effort: Option<Option<ReasoningEffort>>,
    pub reasoning_summary: Option<ReasoningSummary>,
    /// The schema of the final output, as JSON text. It holds for one turn.
    pub final_output_json_schema: Option<Option<String>>,
}

/// Changes that change nothing.
pub open spec fn no_update() -> SessionSettingsUpdate {
    SessionSettingsUpdate {
        cwd: None,
        approval_policy: None,
        sandbox_policy: None,
        model: None,
        reasoning_effort: None,
        reasoning_summary: None,
        final_output_json_schema: None,
    }
}

impl Default for SessionSettingsUpdate {
    fn default() -> (r: Self)
        ensures
            r == no_update(),
    {
        SessionSettingsUpdate {
            cwd: None,
            approval_policy: None,
            sandbox_policy: None,
            model: None,
            reasoning_effort: None,
            reasoning_summary: None,
            final_output_json_schema: None,
        }
    }
}

/// A value, unless a change takes its place.
pub open spec fn changed<T>(value: T, change: Option<T>) -> T {
    match change {
        Some(v) => v,
        None => value,
    }
}

/// The settings after a change.
pub open spec fn applied(c: SessionConfiguration, u: SessionSettingsUpdate) -> SessionConfiguration {
    SessionConfiguration {
        model: changed(c.model, u.model),
        model_reasoning_effort: changed(c.model_reasoning_effort, u.reasoning_effort),
        model_reasoning_summary: changed(c.model_reasoning_summary, u.reasoning_summary),
        approval_policy: changed(c.approval_policy, u.approval_policy),
        sandbox_policy: changed(c.sandbox_policy, u.sandbox_policy),
        cwd: changed(c.cwd, u.cwd),
        ..c
    }
}

impl SessionConfiguration {
    /// The settings after a change.
    pub fn apply(self, updates: SessionSettingsUpdate) -> (r: Self)
        ensures
            r == applied(self, updates),
    {
        let mut next = self;
        next.update(updates);
        next
    }

    /// Changes the settings.
    pub fn update(&mut self, updates: SessionSettingsUpdate)
        ensures
            *final(self) == applied(*old(self), updates),
    {
        if let Some(model) = updates.model {
            self.model = model;
        }
        if let Some(effort) = updates.reasoning_effort {
            self.model_reasoning_effort = effort;
        }
        if let Some(summary) = updates.reasoning_summary {
            self.model_reasoning_summary = summary;
        }
        if let Some(approval_policy) = updates.approval_policy {
            self.approval_policy = approval_policy;
        }
        if let Some(sandbox_policy) = updates.sandbox_policy {
            self.sandbox_policy = sandbox_policy;
        }
        if let Some(cwd) = updates.cwd {
            self.cwd = cwd;
        }
    }
}

/// Whether two policies say the same.
pub open spec fn same_policy(a: SandboxPolicy, b: SandboxPolicy) -> bool {
    match (a, b) {
        (
            SandboxPolicy::WorkspaceWrite {
                writable_roots: roots1,
                network_access: net1,
                exclude_tmpdir_env_var: env1,
                exclude_slash_tmp: tmp1,
            },
            SandboxPolicy::WorkspaceWrite {
                writable_roots: roots2,
                network_access: net2,
                exclude_tmpdir_env_var: env2,
                exclude_slash_tmp: tmp2,
            },
        ) => roots1@ == roots2@ && net1 == net2 && env1 == env2 && tmp1 == tmp2,
        _ => a == b,
    }
}

impl SandboxPolicy {
    /// A copy of the policy.
    pub fn copy(&self) -> (r: Self)
        ensures
            same_policy(r, *self),
    {
        match self {
            SandboxPolicy::DangerFullAccess => SandboxPolicy::DangerFullAccess,
            SandboxPolicy::ReadOnly => SandboxPolicy::ReadOnly,
            SandboxPolicy::WorkspaceWrite {
                writable_roots,
                network_access,
                exclude_tmpdir_env_var,
                exclude_slash_tmp,
            } => SandboxPolicy::WorkspaceWrite {
                writable_roots: text::copy_list(writable_roots),
                network_access: *network_access,
                exclude_tmpdir_env_var: *exclude_tmpdir_env_var,
                exclude_slash_tmp: *exclude_slash_tmp,
            },
        }
    }
}

/// A copy of a text that may be there.
fn copy_text(s: &Option<String>) -> (r: Option<String>)
    ensures
        r == *s,
{
    match s {
        Some(t) => Some(t.clone()),
        None => None,
    }
}

/// What the choice of tools depends on.
#[derive(Debug)]
pub struct ToolsConfigParams {
    pub model_family: ModelFamily,
    pub features: Features,
}

/// The context needed for a single turn of the conversation.
#[derive(Debug)]
pub struct TurnContext {
    pub sub_id: String,
    pub client: ModelClient,
    /// The session's current working directory. All relative paths provided by the model as well
    /// as sandbox policies are resolved against this path.
    pub cwd: String,
    pub developer_instructions: Option<String>,
    pub base_instructions: Option<String>,
    pub compact_prompt: Option<String>,
    pub user_instructions: Option<String>,
    pub approval_policy: AskForApproval,
    pub sandbox_policy: SandboxPolicy,
    pub shell_environment_policy: String,
    pub tools_config: ToolsConfigParams,
    pub final_output_json_schema: Option<String>,
    pub codex_linux_sandbox_exe: Option<String>,
}

impl TurnContext {
    /// A path that the model gave, seen from the directory of the turn.
    pub fn resolve_path(&self, path: &Option<String>, on_windows: bool) -> (r: String)
        ensures
            r@ == shell::working_dir(self.cwd@, *path, on_windows),
    {
        shell::resolve_path(&self.cwd, path, on_windows)
    }

    /// The prompt for summaries: that of the turn, or else the usual one.
    pub fn compact_prompt(&self, usual: &String) -> (r: String)
        ensures
            r == changed(*usual, self.compact_prompt),
    {
        match &self.compact_prompt {
            Some(prompt) => prompt.clone(),
            None => usual.clone(),
        }
    }
}

/// The settings of the model for a turn: the configuration with the model of the session, its
/// family, and the context window that is known of it.
pub open spec fn per_turn_config(
    config: ModelConfig,
    model: String,
    family: Option<ModelFamily>,
    info: Option<ModelInfo>,
) -> ModelConfig {
    ModelConfig {
        model,
        model_family: changed(config.model_family, family),
        model_info: info,
        model_context_window: match info {
            Some(i) => Some(i.context_window),
            None => config.model_context_window,
        },
        ..config
    }
}

/// The settings of the model for a turn.
fn make_per_turn_config(
    config: &ModelConfig,
    model: &String,
    family: ModelFamily,
    info: Option<ModelInfo>,
) -> (r: ModelConfig)
    ensures
        r == per_turn_config(*config, *model, Some(family), info),
{
    ModelConfig {
        model: model.clone(),
        model_family: family,
        model_info: info,
        model_context_window: match info {
            Some(i) => Some(i.context_window),
            None => config.model_context_window,
        },
        model_auto_compact_token_limit: config.model_auto_compact_token_limit,
        model_verbosity: config.model_verbosity,
        show_raw_agent_reasoning: config.show_raw_agent_reasoning,
    }
}

/// Whether `r` is the context of a turn under these settings.
pub open spec fn is_turn_context(
    r: TurnContext,
    c: SessionConfiguration,
    family: Option<ModelFamily>,
    info: Option<ModelInfo>,
    conversation_id: Seq<char>,
    sub_id: String,
    schema: Option<String>,
) -> bool {
    &&& r.sub_id == sub_id
    &&& r.client.config_model() == per_turn_config(
        c.original_config.model_config,
        c.model,
        family,
        info,
    )
    &&& r.client.provider_model() == c.provider
    &&& r.client.effort_model() == c.model_reasoning_effort
    &&& r.client.summary_model() == c.model_reasoning_summary
    &&& r.client.conversation() == conversation_id
    &&& r.client.source_model() == c.session_source
    &&& r.cwd == c.cwd
    &&& r.developer_instructions == c.developer_instructions
    &&& r.base_instructions == c.base_instructions
    &&& r.compact_prompt == c.compact_prompt
    &&& r.user_instructions == c.user_instructions
    &&& r.approval_policy == c.approval_policy
    &&& same_policy(r.sandbox_policy, c.sandbox_policy)
    &&& r.shell_environment_policy == c.original_config.shell_environment_policy
    &&& r.tools_config.model_family == changed(c.original_config.model_config.model_family, family)
    &&& r.tools_config.features == c.original_config.features
    &&& r.final_output_json_schema == schema
    &&& r.codex_linux_sandbox_exe == c.original_config.codex_linux_sandbox_exe
}

/// The context of a turn under the settings of the session. `family` is the family that the model
/// is known to belong to, and `info` what is known of the family that the turn uses.
pub fn make_turn_context(
    configuration: &SessionConfiguration,
    family: Option<ModelFamily>,
    info: Option<ModelInfo>,
    conversation_id: &String,
    sub_id: String,
) -> (r: TurnContext)
    ensures
        is_turn_context(r, *configuration, family, info, conversation_id@, sub_id, None),
{
    let config = &configuration.original_config;
    let model_family = match family {
        Some(f) => f,
        None => config.model_config.model_family.copy(),
    };
    let tools_config = ToolsConfigParams {
        model_family: model_family.copy(),
        features: config.features.copy(),
    };
    let client = ModelClient::new(
        make_per_turn_config(&config.model_config, &configuration.model, model_family, info),
        configuration.provider.copy(),
        configuration.model_reasoning_effort,
        configuration.model_reasoning_summary,
        conversation_id.clone(),
        configuration.session_source.copy(),
    );
    TurnContext {
        sub_id,
        client,
        cwd: configuration.cwd.clone(),
        developer_instructions: copy_text(&configuration.developer_instructions),
        base_instructions: copy_text(&configuration.base_instructions),
        compact_prompt: copy_text(&configuration.compact_prompt),
        user_instructions: copy_text(&configuration.user_instructions),
        approval_policy: configuration.approval_policy,
        sandbox_policy: configuration.sandbox_policy.copy(),
        shell_environment_policy: config.shell_environment_policy.clone(),
        tools_config,
        final_output_json_schema: None,
        codex_linux_sandbox_exe: copy_text(&config.codex_linux_sandbox_exe),
    }
}

/// What is recorded of the context of a turn.
#[derive(Debug)]
pub struct TurnContextItem {
    pub cwd: String,
    pub approval_policy: AskForApproval,
    pub sandbox_policy: SandboxPolicy,
    pub model: String,
    pub effort: Option<ReasoningEffort>,
    pub summary: ReasoningSummary,
}

/// What is recorded of the context of a turn.
pub fn turn_context_item(turn: &TurnContext) -> (r: TurnContextItem)
    ensures
        r.cwd == turn.cwd,
        r.approval_policy == turn.approval_policy,
        same_policy(r.sandbox_policy, turn.sandbox_policy),
        r.model == turn.client.config_model().model,
        r.effort == turn.client.effort_model(),
        r.summary == turn.client.summary_model(),
{
    TurnContextItem {
        cwd: turn.cwd.clone(),
        approval_policy: turn.approval_policy,
        sandbox_policy: turn.sandbox_policy.copy(),
        model: turn.client.get_model(),
        effort: turn.client.get_reasoning_effort(),
        summary: turn.client.get_reasoning_summary(),
    }
}

/// A review: the context it runs in, and what it is asked.
#[derive(Debug)]
pub struct ReviewThread {
    pub context: TurnContext,
    pub input: Vec<UserInput>,
}

/// Whether `r` is the thread that reviews changes for a turn: it uses the model for reviews, without
/// web search and images whatever the settings say, with little effort and detailed summaries, and
/// under the instructions for reviews alone.
pub open spec fn is_review_thread(
    r: ReviewThread,
    config: Config,
    parent: TurnContext,
    family: Option<ModelFamily>,
    info: Option<ModelInfo>,
    conversation_id: Seq<char>,
    sub_id: String,
    review_instructions: String,
    review_prompt: String,
) -> bool {
    let c = r.context;
    let used = changed(parent.client.config_model().model_family, family);
    &&& c.sub_id == sub_id
    &&& c.client.config_model() == per_turn_config(
        config.model_config,
        config.review_model,
        Some(used),
        info,
    )
    &&& c.client.provider_model() == parent.client.provider_model()
    &&& c.client.effort_model() == Some(ReasoningEffort::Low)
    &&& c.client.summary_model() == ReasoningSummary::Detailed
    &&& c.client.conversation() == conversation_id
    &&& c.client.source_model() == parent.client.source_model()
    &&& c.tools_config.model_family == used
    &&& c.tools_config.features == (Features {
        web_search_request: false,
        view_image_tool: false,
        ..config.features
    })
    &&& c.developer_instructions is None
    &&& c.user_instructions is None
    &&& c.base_instructions == Some(review_instructions)
    &&& c.compact_prompt == parent.compact_prompt
    &&& c.approval_policy == parent.approval_policy
    &&& same_policy(c.sandbox_policy, parent.sandbox_policy)
    &&& c.shell_environment_policy == parent.shell_environment_policy
    &&& c.cwd == parent.cwd
    &&& c.final_output_json_schema is None
    &&& c.codex_linux_sandbox_exe == parent.codex_linux_sandbox_exe
    &&& r.input@ == seq![UserInput::Text { text: review_prompt }]
}

/// The thread that reviews changes for a turn. `family` is the family that the model for reviews is
/// known to belong to, and `info` what is known of the family that the review uses.
pub fn spawn_review_thread(
    config: &Config,
    parent: &TurnContext,
    family: Option<ModelFamily>,
    info: Option<ModelInfo>,
    conversation_id: &String,
    sub_id: String,
    review_instructions: &String,
    review_prompt: String,
) -> (r: ReviewThread)
    ensures
        is_review_thread(
            r,
            *config,
            *parent,
            family,
            info,
            conversation_id@,
            sub_id,
            *review_instructions,
            review_prompt,
        ),
{
    let review_model_family = match family {
        Some(f) => f,
        None => parent.client.get_model_family(),
    };
    let mut review_features = config.features.copy();
    review_features.web_search_request = false;
    review_features.view_image_tool = false;
    let tools_config = ToolsConfigParams {
        model_family: review_model_family.copy(),
        features: review_features,
    };
    let client = ModelClient::new(
        make_per_turn_config(
            &config.model_config,
            &config.review_model,
            review_model_family,
            info,
        ),
        parent.client.get_provider(),
        Some(ReasoningEffort::Low),
        ReasoningSummary::Detailed,
        conversation_id.clone(),
        parent.client.get_session_source(),
    );
    let context = TurnContext {
        sub_id,
        client,
        cwd: parent.cwd.clone(),
        developer_instructions: None,
        base_instructions: Some(review_instructions.clone()),
        compact_prompt: copy_text(&parent.compact_prompt),
        user_instructions: None,
        approval_policy: parent.approval_policy,
        sandbox_policy: parent.sandbox_policy.copy(),
        shell_environment_policy: parent.shell_environment_policy.clone(),
        tools_config,
        final_output_json_schema: None,
        codex_linux_sandbox_exe: copy_text(&parent.codex_linux_sandbox_exe),
    };
    let mut input: Vec<UserInput> = Vec::new();
    input.push(UserInput::Text { text: review_prompt });
    assert(input@ =~= seq![UserInput::Text { text: review_prompt }]);
    ReviewThread { context, input }
}

/// What is not changed stays as it is.
pub proof fn law_no_change_changes_nothing(c: SessionConfiguration)
    ensures
        applied(c, no_update()) == c,
{
}

/// A change that is made twice is made once.
pub proof fn law_change_is_idempotent(c: SessionConfiguration, u: SessionSettingsUpdate)
    ensures
        applied(applied(c, u), u) == applied(c, u),
{
}

/// A later change wins over an earlier one, and leaves what it does not name to it.
pub proof fn law_later_change_wins(
    c: SessionConfiguration,
    first: SessionSettingsUpdate,
    second: SessionSettingsUpdate,
)
    ensures
        ({
            let r = applied(applied(c, first), second);
            &&& second.model matches Some(m) ==> r.model == m
            &&& second.model is None ==> r.model == changed(c.model, first.model)
            &&& second.cwd matches Some(d) ==> r.cwd == d
            &&& second.cwd is None ==> r.cwd == changed(c.cwd, first.cwd)
            &&& second.approval_policy matches Some(p) ==> r.approval_policy == p
            &&& second.approval_policy is None ==> r.approval_policy == changed(
                c.approval_policy,
                first.approval_policy,
            )
            &&& second.sandbox_policy matches Some(p) ==> r.sandbox_policy == p
            &&& second.sandbox_policy is None ==> r.sandbox_policy == changed(
                c.sandbox_policy,
                first.sandbox_policy,
            )
            &&& second.reasoning_effort matches Some(e) ==> r.model_reasoning_effort == e
            &&& second.reasoning_effort is None ==> r.model_reasoning_effort == changed(
                c.model_reasoning_effort,
                first.reasoning_effort,
            )
            &&& second.reasoning_summary matches Some(s) ==> r.model_reasoning_summary == s
            &&& second.reasoning_summary is None ==> r.model_reasoning_summary == changed(
                c.model_reasoning_summary,
                first.reasoning_summary,
            )
        }),
{
}

/// A change sets what it names and leaves the rest: of what can be changed, each setting is the new
/// one where there is one and else the old one; nothing else changes.
pub proof fn law_change_sets_what_it_names(c: SessionConfiguration, u: SessionSettingsUpdate)
    ensures
        ({
            let r = applied(c, u);
            &&& r.model == if u.model is Some {
                u.model->0
            } else {
                c.model
            }
            &&& r.cwd == if u.cwd is Some {
                u.cwd->0
            } else {
                c.cwd
            }
            &&& r.approval_policy == if u.approval_policy is Some {
                u.approval_policy->0
            } else {
                c.approval_policy
            }
            &&& r.sandbox_policy == if u.sandbox_policy is Some {
                u.sandbox_policy->0
            } else {
                c.sandbox_policy
            }
            &&& r.model_reasoning_effort == if u.reasoning_effort is Some {
                u.reasoning_effort->0
            } else {
                c.model_reasoning_effort
            }
            &&& r.model_reasoning_summary == if u.reasoning_summary is Some {
                u.reasoning_summary->0
            } else {
                c.model_reasoning_summary
            }
            &&& r.provider == c.provider
            &&& r.developer_instructions == c.developer_instructions
            &&& r.user_instructions == c.user_instructions
            &&& r.base_instructions == c.base_instructions
            &&& r.compact_prompt == c.compact_prompt
            &&& r.features == c.features
            &&& r.original_config == c.original_config
            &&& r.session_source == c.session_source
        }),
{
}

/// Two policies are the same where they are of the same kind and, where something may be written,
/// allow the same places and the same network.
pub proof fn law_same_policy_allows_the_same(a: SandboxPolicy, b: SandboxPolicy)
    requires
        same_policy(a, b),
    ensures
        a is DangerFullAccess <==> b is DangerFullAccess,
        a is ReadOnly <==> b is ReadOnly,
        a is WorkspaceWrite <==> b is WorkspaceWrite,
        a is WorkspaceWrite ==> a->writable_roots@ == b->writable_roots@ && a->network_access
            == b->network_access && a->exclude_tmpdir_env_var == b->exclude_tmpdir_env_var
            && a->exclude_slash_tmp == b->exclude_slash_tmp,
{
}

/// A turn uses the model that is set, with what is known of it: its family where one is known, and
/// the size of its context window; everything else is as configured.
pub proof fn law_turn_uses_the_model_that_is_set(
    config: ModelConfig,
    model: String,
    family: Option<ModelFamily>,
    info: Option<ModelInfo>,
)
    ensures
        ({
            let r = per_turn_config(config, model, family, info);
            &&& r.model == model
            &&& r.model_info == info
            &&& r.model_family == if family is Some {
                family->0
            } else {
                config.model_family
            }
            &&& r.model_context_window == if info is Some {
                Some((info->0).context_window)
            } else {
                config.model_context_window
            }
            &&& r == (ModelConfig {
                model: r.model,
                model_info: r.model_info,
                model_family: r.model_family,
                model_context_window: r.model_context_window,
                ..config
            })
        }),
{
}

/// A turn has the settings of the session at its beginning.
pub proof fn law_turn_has_the_settings_of_the_session(
    r: TurnContext,
    c: SessionConfiguration,
    family: Option<ModelFamily>,
    info: Option<ModelInfo>,
    conversation_id: Seq<char>,
    sub_id: String,
    schema: Option<String>,
)
    requires
        is_turn_context(r, c, family, info, conversation_id, sub_id, schema),
    ensures
        r.sub_id == sub_id,
        r.cwd == c.cwd,
        r.approval_policy == c.approval_policy,
        same_policy(r.sandbox_policy, c.sandbox_policy),
        r.client.config_model().model == c.model,
        r.client.effort_model() == c.model_reasoning_effort,
        r.client.summary_model() == c.model_reasoning_summary,
        r.client.provider_model() == c.provider,
        r.client.conversation() == conversation_id,
        r.client.source_model() == c.session_source,
        r.developer_instructions == c.developer_instructions,
        r.user_instructions == c.user_instructions,
        r.base_instructions == c.base_instructions,
        r.compact_prompt == c.compact_prompt,
        r.final_output_json_schema == schema,
        r.shell_environment_policy == c.original_config.shell_environment_policy,
        r.codex_linux_sandbox_exe == c.original_config.codex_linux_sandbox_exe,
        r.tools_config.features == c.original_config.features,
        r.tools_config.model_family == r.client.config_model().model_family,
{
}

/// A review is a turn of its own: with the model for reviews, little effort and a detailed summary,
/// the instructions for reviews and no other, and without searching the web or looking at images; but
/// it may do no more than the turn it comes from, in the same place.
pub proof fn law_review_is_a_turn_of_its_own(
    r: ReviewThread,
    config: Config,
    parent: TurnContext,
    family: Option<ModelFamily>,
    info: Option<ModelInfo>,
    conversation_id: Seq<char>,
    sub_id: String,
    review_instructions: String,
    review_prompt: String,
)
    requires
        is_review_thread(
            r,
            config,
            parent,
            family,
            info,
            conversation_id,
            sub_id,
            review_instructions,
            review_prompt,
        ),
    ensures
        r.context.client.config_model().model == config.review_model,
        r.context.client.effort_model() == Some(ReasoningEffort::Low),
        r.context.client.summary_model() == ReasoningSummary::Detailed,
        r.context.client.provider_model() == parent.client.provider_model(),
        r.context.client.source_model() == parent.client.source_model(),
        r.context.client.conversation() == conversation_id,
        r.context.sub_id == sub_id,
        r.context.base_instructions == Some(review_instructions),
        r.context.developer_instructions is None,
        r.context.user_instructions is None,
        r.context.final_output_json_schema is None,
        !r.context.tools_config.features.web_search_request,
        !r.context.tools_config.features.view_image_tool,
        r.context.tools_config.features.ghost_commit == config.features.ghost_commit,
        r.context.tools_config.features.other == config.features.other,
        r.context.tools_config.model_family == r.context.client.config_model().model_family,
        r.context.approval_policy == parent.approval_policy,
        same_policy(r.context.sandbox_policy, parent.sandbox_policy),
        r.context.cwd == parent.cwd,
        r.context.compact_prompt == parent.compact_prompt,
        r.context.shell_environment_policy == parent.shell_environment_policy,
        r.context.codex_linux_sandbox_exe == parent.codex_linux_sandbox_exe,
        r.input@ == seq![UserInput::Text { text: review_prompt }],
{
}

} // verus!
