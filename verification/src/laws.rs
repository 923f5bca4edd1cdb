//! What the operations of the library promise their callers, over all that they are called with.
use vstd::prelude::*;

use crate::client::attempt::{
    attempt_stream_responses, law_limit_is_final_only_where_it_says_so, AttemptAction, AttemptEvent,
    ResponseHead, StreamAttemptError,
};
use crate::client::sse::{
    law_item_events_are_passed_on, law_sent_event_tells_its_kind, process_sse, ApiError, ItemPayload,
    ResponseEvent, SseAction, SseEvent, SseInput, SseState,
};
use crate::codex::task::{law_tokens_and_answers_decide, TaskState, TaskStep};
use crate::codex::turn::{
    law_failed_turn_is_tried_again, run_turn, ProcessedResponseItem, TurnRunResult, TurnVerdict,
};
use crate::command_safety::windows_laws::{
    is_bare, is_one_command, is_option, law_direct_arguments_are_the_command, law_git_only_reads,
    law_single_word_is_judged_by_name, names_powershell, only_looks, starts_programs,
};
use crate::command_safety::windows_safe_commands::{
    is_safe_command_windows, is_safe_git_command, is_safe_ripgrep, is_unsafe_ripgrep_option,
};
use crate::config_loader::{
    law_overlay_takes_precedence, law_rest_of_base_is_kept_at_any_depth, merge_toml_values,
    says_nothing_of, TomlValue,
};
use crate::error::CodexErr;
use crate::exec::{is_likely_sandbox_denied, unicode_lower, ExecToolCallOutput, SandboxType};
use crate::exec_policy::{evaluate_with_policy, Decision, Evaluation};
use crate::protocol::{
    AskForApproval, FunctionCallOutputPayload, McpCallResult, RateLimitSnapshot, ResponseInputItem,
    ResponseItem, ReviewDecision,
};
use crate::response_processing::{law_no_output_is_lost, process_items};
use crate::shell::{detect_shell_type, Shell, ShellType};
use crate::text;
use crate::tools::orchestrator::{
    OrchestratorAction, OrchestratorEvent, Stage, ToolOrchestrator, ToolTraits,
};
use crate::tools::sandboxing::{ApprovalRequirement, ToolError};

verus! {

/// No output of a tool is lost: each is recorded under its call, whatever kind of tool gave it, and
/// what an external tool returned as it was returned.
pub proof fn law_processing_records_every_output(
    items: Vec<ProcessedResponseItem>,
    r: (Vec<ResponseInputItem>, Vec<ResponseItem>),
    i: int,
)
    requires
        call_ensures(process_items, (items,), r),
        0 <= i < items@.len(),
    ensures
        r.1@.contains(items@[i].item),
        match items@[i].response {
            None => true,
            Some(ResponseInputItem::Message { .. }) => true,
            Some(ResponseInputItem::FunctionCallOutput { call_id, output }) => r.1@.contains(
                ResponseItem::FunctionCallOutput { call_id, output },
            ),
            Some(ResponseInputItem::CustomToolCallOutput { call_id, output }) => r.1@.contains(
                ResponseItem::CustomToolCallOutput { call_id, output },
            ),
            Some(ResponseInputItem::McpToolCallOutput { call_id, result }) => match result {
                McpCallResult::Returned(output) => r.1@.contains(
                    ResponseItem::FunctionCallOutput { call_id, output },
                ),
                McpCallResult::Failed(err) => r.1@.contains(
                    ResponseItem::FunctionCallOutput {
                        call_id,
                        output: FunctionCallOutputPayload {
                            content: err,
                            content_items: None,
                            success: Some(false),
                        },
                    },
                ),
            },
        },
        items@[i].response matches Some(response) ==> r.0@.contains(response),
{
    law_no_output_is_lost(items@, i);
    crate::response_processing::law_every_item_is_recorded(items@, i);
    if let Some(response) = items@[i].response {
        crate::response_processing::law_every_response_is_sent_back(items@, i);
    }
}

/// An item that the stream reports as begun is passed on as begun, and one that it reports as done as
/// done, each as it is; and nothing else is ever passed on as either.
pub proof fn law_stream_passes_items_on(state: SseState, event: SseEvent, r: (SseState, SseAction))
    requires
        call_ensures(process_sse, (state, SseInput::Event(event)), r),
    ensures
        event.kind@ == "response.output_item.added"@ ==> (event.item matches ItemPayload::Item(item)
            ==> r.1 == SseAction::Send(ResponseEvent::OutputItemAdded(item))),
        event.kind@ == "response.output_item.done"@ ==> (event.item matches ItemPayload::Item(item)
            ==> r.1 == SseAction::Send(ResponseEvent::OutputItemDone(item))),
        r.1 matches SseAction::Send(ResponseEvent::OutputItemAdded(_)) ==> event.kind@
            == "response.output_item.added"@,
        r.1 matches SseAction::Send(ResponseEvent::OutputItemDone(_)) ==> event.kind@
            == "response.output_item.done"@,
{
    law_item_events_are_passed_on(state, event, r.0, r.1);
    law_sent_event_tells_its_kind(state, event, r.0, r.1);
}

/// A request that met a limit is given up exactly where the service says that use or quota is used
/// up or that it is not included; anywhere else it may be tried again as the response says.
pub proof fn law_limits_are_final_only_where_they_say_so(
    head: ResponseHead,
    error: Option<ApiError>,
    known_plan: Option<String>,
    rate_limits: Option<RateLimitSnapshot>,
    r: AttemptAction,
)
    requires
        call_ensures(
            attempt_stream_responses,
            (AttemptEvent::ErrorRead { head, error, known_plan, rate_limits },),
            r,
        ),
    ensures
        ({
            let kind_is = |k: Seq<char>|
                error is Some && (error->0).kind is Some && ((error->0).kind->0)@ == k;
            let quota = error is Some && (error->0).code is Some && ((error->0).code->0)@
                == "insufficient_quota"@;
            let last = kind_is("usage_limit_reached"@) || kind_is("usage_not_included"@) || quota;
            &&& last ==> (r matches AttemptAction::Fail(failure) && failure is Fatal)
            &&& !last ==> r == AttemptAction::Fail(
                StreamAttemptError::RetryableHttpError {
                    status: head.status,
                    retry_after_secs: head.retry_after_secs,
                    request_id: head.request_id,
                },
            )
        }),
{
    law_limit_is_final_only_where_it_says_so(head, error, known_plan, rate_limits);
}

/// Merging keeps what the overlay says nothing of, at any depth, and takes from the overlay every
/// value that it has.
pub proof fn law_merging_keeps_and_takes(
    base: TomlValue,
    overlay: TomlValue,
    r: TomlValue,
    names: Seq<Seq<char>>,
)
    requires
        base.wf(),
        overlay.wf(),
        call_ensures(merge_toml_values, (base, overlay), r),
    ensures
        base.at(names) is Some && says_nothing_of(overlay, names) ==> r.at(names) == base.at(names),
        overlay.at(names) is Some && overlay.at(names)->0 !is Table ==> r.at(names) == overlay.at(
            names,
        ),
{
    if base.at(names) is Some && says_nothing_of(overlay, names) {
        law_rest_of_base_is_kept_at_any_depth(base, overlay, r, names);
    }
    if overlay.at(names) is Some && overlay.at(names)->0 !is Table {
        law_overlay_takes_precedence(base, overlay, r, names);
    }
}

/// A git command handed to PowerShell may run without asking only where its subcommand reads:
/// `status`, `log`, `show`, `diff` or `cat-file`; and with one of these alone it may.
pub proof fn law_git_runs_unasked_only_to_read(command: &[String], r: bool)
    requires
        call_ensures(is_safe_command_windows, (command,), r),
        command@.len() > 2,
        names_powershell(command@[0]@),
        is_one_command(text::texts(command@).skip(1)),
        text::ascii_lower(command@[1]@) == "git"@,
        !is_option(command@[2]@),
    ensures
        ({
            let subcommand = text::ascii_lower(command@[2]@);
            let reads = subcommand == "status"@ || subcommand == "log"@ || subcommand == "show"@
                || subcommand == "diff"@ || subcommand == "cat-file"@;
            &&& r ==> reads
            &&& reads && command@.len() == 3 ==> r
        }),
{
    let all = text::texts(command@);
    let tokens = all.skip(1);
    assert(tokens[0] == command@[1]@);
    assert(tokens[1] == command@[2]@);
    assert(all =~= seq![all[0]] + tokens);
    reveal_strlit("git");
    assert(text::ascii_lower(tokens[0])[0] == text::ascii_lower_char(tokens[0][0]));
    law_direct_arguments_are_the_command(all[0], tokens);
    law_git_only_reads(tokens);
}

/// A git command without options reads exactly where its first argument is one of those that only
/// read.
pub proof fn law_git_commands_are_judged_by_subcommand(words: &[String], r: bool)
    requires
        call_ensures(is_safe_git_command, (words,), r),
        words@.len() > 1,
        !is_option(words@[1]@),
    ensures
        r <==> ({
            let subcommand = text::ascii_lower(words@[1]@);
            subcommand == "status"@ || subcommand == "log"@ || subcommand == "show"@ || subcommand
                == "diff"@ || subcommand == "cat-file"@
        }),
{
    let args = text::texts(words@).skip(1);
    assert(args[0] == words@[1]@);
    reveal_strlit("-");
    if text::begins(args[0], "-"@) {
        assert(args[0].subrange(0, 1)[0] == '-');
    }
}

/// A search with ripgrep is let through exactly where no option starts another program.
pub proof fn law_searches_start_nothing(words: &[String], r: bool)
    requires
        call_ensures(is_safe_ripgrep, (words,), r),
    ensures
        r <==> forall|i: int| 1 <= i < words@.len() ==> !starts_programs((#[trigger] words@[i])@),
{
    let all = text::texts(words@);
    reveal_strlit("--pre=");
    reveal_strlit("--hostname-bin=");
    assert forall|i: int| 1 <= i < words@.len() implies is_unsafe_ripgrep_option(all[i])
        == starts_programs((#[trigger] words@[i])@) by {
        let lower = text::ascii_lower(all[i]);
        if lower.len() >= 6 {
            assert(lower.subrange(0, 6) =~= lower.take(6));
        }
        if lower.len() >= 15 {
            assert(lower.subrange(0, 15) =~= lower.take(15));
        }
    }
    if r {
        assert forall|i: int| 1 <= i < words@.len() implies !starts_programs(
            (#[trigger] words@[i])@,
        ) by {
            assert(!is_unsafe_ripgrep_option(all[i]));
        }
    } else {
        let i = choose|i: int| 1 <= i < all.len() && is_unsafe_ripgrep_option(#[trigger] all[i]);
        assert(starts_programs(words@[i]@));
    }
}

/// A single word that is handed to PowerShell may run without asking exactly where it names a cmdlet
/// that only looks, or ripgrep.
pub proof fn law_single_words_run_unasked_to_look(command: &[String], r: bool)
    requires
        call_ensures(is_safe_command_windows, (command,), r),
        command@.len() == 2,
        names_powershell(command@[0]@),
        is_one_command(text::texts(command@).skip(1)),
        is_bare(command@[1]@),
        command@[1]@[0] != '/',
    ensures
        r <==> only_looks(text::ascii_lower(command@[1]@)) || text::ascii_lower(command@[1]@)
            == "rg"@,
{
    let all = text::texts(command@);
    let tokens = all.skip(1);
    assert(tokens[0] == command@[1]@);
    assert(tokens =~= seq![command@[1]@]);
    assert(all =~= seq![all[0]] + tokens);
    law_direct_arguments_are_the_command(all[0], tokens);
    law_single_word_is_judged_by_name(command@[1]@);
}

/// Nothing but PowerShell may run without asking.
pub proof fn law_nothing_else_runs_unasked(command: &[String], r: bool)
    requires
        call_ensures(is_safe_command_windows, (command,), r),
        r,
    ensures
        command@.len() > 1,
        ({
            let exe = text::ascii_lower(command@[0]@);
            exe == "powershell"@ || exe == "powershell.exe"@ || exe == "pwsh"@ || exe
                == "pwsh.exe"@
        }),
{
    assert(text::texts(command@)[0] == command@[0]@);
}

/// A failure outside a sandbox, and no failure, are never taken for a denial; and a failure in one is
/// where an output speaks of a permission that is missing.
pub proof fn law_denials_are_recognised(
    sandbox: SandboxType,
    output: ExecToolCallOutput,
    on_windows: bool,
    r: bool,
)
    requires
        call_ensures(is_likely_sandbox_denied, (sandbox, &output, on_windows), r),
    ensures
        sandbox == SandboxType::Unsandboxed || output.exit_code == 0 ==> !r,
        sandbox != SandboxType::Unsandboxed && output.exit_code != 0 && text::occurs_in(
            unicode_lower(output.stderr.text@),
            "operation not permitted"@,
        ) ==> r,
        sandbox != SandboxType::Unsandboxed && output.exit_code != 0 && text::occurs_in(
            unicode_lower(output.stderr.text@),
            "permission denied"@,
        ) ==> r,
        sandbox != SandboxType::Unsandboxed && output.exit_code != 0 && text::occurs_in(
            unicode_lower(output.aggregated_output.text@),
            "read-only file system"@,
        ) ==> r,
        r ==> sandbox != SandboxType::Unsandboxed && output.exit_code != 0,
{
}

/// A failed turn is tried again only with attempts left, and each time with one more counted; an
/// error that trying again cannot help ends it at once.
pub proof fn law_turns_are_retried(
    e: CodexErr,
    retries: u64,
    max_retries: u64,
    r: TurnVerdict,
)
    requires
        call_ensures(run_turn, (Err::<TurnRunResult, CodexErr>(e), retries, max_retries), r),
    ensures
        r is Retry ==> retries < max_retries && r->retries == retries + 1,
        e is Fatal || e is Interrupted || e is TurnAborted || e is QuotaExceeded || e
            is UsageLimitReached || e is UsageNotIncluded || e is ContextWindowExceeded || e
            is RefreshTokenFailed || e is EnvVar ==> r !is Retry,
        (e is Stream || e is ConnectionFailed || e is InternalServerError || e is RetryLimit || e
            is UnexpectedStatus || e is ResponseStreamFailed) && retries < max_retries ==> r
            is Retry,
{
    law_failed_turn_is_tried_again(e, retries, max_retries, r);
}

/// A task goes on after a turn exactly where something is to be sent back or the conversation has to
/// be summarised first, and never summarises twice in a row.
pub proof fn law_task_goes_on(
    state: &mut TaskState,
    output: TurnRunResult,
    limit: Option<i64>,
    tokens: Option<i64>,
    step: TaskStep,
)
    requires
        call_ensures(
            TaskState::run_task,
            (state, Ok::<TurnRunResult, CodexErr>(output), limit, tokens),
            step,
        ),
    ensures
        ({
            let items = output.processed_items@;
            let above = tokens is Some && tokens->0 >= (if limit is Some {
                limit->0
            } else {
                0x7fff_ffff_ffff_ffffi64
            });
            &&& step.next is AutoCompact <==> above && !old(state).auto_compact_recently_attempted
            &&& step.next is StillAboveLimit <==> above && old(state).auto_compact_recently_attempted
            &&& step.next is GoOn ==> !above && exists|i: int|
                0 <= i < items.len() && (#[trigger] items[i]).response is Some
            &&& !above && (exists|i: int|
                0 <= i < items.len() && (#[trigger] items[i]).response is Some) ==> step.next
                is GoOn
            &&& step.next is Done <==> !above && forall|i: int|
                0 <= i < items.len() ==> (#[trigger] items[i]).response is None
        }),
{
    law_tokens_and_answers_decide(*old(state), output, limit, tokens, *final(state), step);
    let items = output.processed_items@;
    if !(exists|i: int| 0 <= i < items.len() && (#[trigger] items[i]).response is Some) {
        assert forall|i: int| 0 <= i < items.len() implies (#[trigger] items[i]).response is None by {}
    }
}

/// A tool never runs without a sandbox before the user said yes, unless it asked for that from the
/// beginning or needs no approval; and the user's no ends the request.
pub proof fn law_no_is_no<Out>(
    orchestrator: &mut ToolOrchestrator,
    tool: ToolTraits,
    selected: SandboxType,
    decision: ReviewDecision,
    action: OrchestratorAction<Out>,
)
    requires
        call_ensures(
            ToolOrchestrator::run::<Out>,
            (orchestrator, &tool, selected, OrchestratorEvent::<Out>::Decided(decision)),
            action,
        ),
        old(orchestrator).stage == Stage::AskingFirst || old(orchestrator).stage
            == Stage::AskingRetry,
    ensures
        action is Run <==> decision == ReviewDecision::Approved || decision
            == ReviewDecision::ApprovedForSession,
        action !is Run ==> final(orchestrator).stage == Stage::Finished && (
        action matches OrchestratorAction::Finish(Err(ToolError::Rejected(m))) && m@
            == "rejected by user"@),
{
}

/// A shell that is given by a known name is known by it.
pub proof fn law_known_shells_are_detected(name: String, on_windows: bool, r: Option<ShellType>)
    requires
        call_ensures(detect_shell_type, (&name, on_windows), r),
    ensures
        name@ == "zsh"@ ==> r == Some(ShellType::Zsh),
        name@ == "bash"@ ==> r == Some(ShellType::Bash),
        name@ == "pwsh"@ || name@ == "powershell"@ ==> r == Some(ShellType::PowerShell),
{
    crate::shell::law_bare_names_are_shells(name@, on_windows);
}

/// The words that a shell is started with end with the command, and begin with the shell.
pub proof fn law_shells_are_started_with_the_command(
    shell: Shell,
    command: &str,
    login: bool,
    args: Vec<String>,
)
    requires
        call_ensures(Shell::derive_exec_args, (&shell, command, login), args),
    ensures
        match shell {
            Shell::Zsh(z) => text::texts(args@) == seq![
                z.shell_path@,
                if login {
                    "-lc"@
                } else {
                    "-c"@
                },
                command@,
            ],
            Shell::Bash(b) => text::texts(args@) == seq![
                b.shell_path@,
                if login {
                    "-lc"@
                } else {
                    "-c"@
                },
                command@,
            ],
            Shell::PowerShell(p) => text::texts(args@) == if login {
                seq![p.shell_path@, "-Command"@, command@]
            } else {
                seq![p.shell_path@, "-NoProfile"@, "-Command"@, command@]
            },
            Shell::Unknown => true,
        },
{
}

/// A rule of the policy is kept to, whatever the user prefers to be asked about.
pub proof fn law_rules_are_kept_to(
    evaluation: Evaluation,
    policy: AskForApproval,
    r: Option<ApprovalRequirement>,
)
    requires
        call_ensures(evaluate_with_policy, (evaluation, policy), r),
    ensures
        r is Some <==> evaluation is Match,
        evaluation == Evaluation::Match(Decision::Allow) <==> r == Some(ApprovalRequirement::Skip),
        evaluation == Evaluation::Match(Decision::Forbidden) ==> r is Some && r->0 is Forbidden,
        evaluation == Evaluation::Match(Decision::Prompt) && policy == AskForApproval::Never ==> r
            is Some && r->0 is Forbidden,
        evaluation == Evaluation::Match(Decision::Prompt) && policy != AskForApproval::Never ==> r
            is Some && r->0 is NeedsApproval,
{
}

} // verus!
