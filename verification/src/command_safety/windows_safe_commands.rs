//! The read-only PowerShell invocations that may run without asking.
use vstd::prelude::*;

use crate::shell_words;
use crate::text;

verus! {

/// The words of each command of a sequence.
pub open spec fn command_texts(commands: Seq<Vec<String>>) -> Seq<Seq<Seq<char>>> {
    Seq::new(commands.len(), |i: int| text::texts(commands[i]@))
}

/// The words of each command of an optional sequence.
pub open spec fn optional_command_texts(commands: Option<Vec<Vec<String>>>) -> Option<
    Seq<Seq<Seq<char>>>,
> {
    match commands {
        Some(c) => Some(command_texts(c@)),
        None => None,
    }
}

/// The tokens that end one command and begin the next.
pub open spec fn is_separator(token: Seq<char>) -> bool {
    token == "|"@ || token == "||"@ || token == "&&"@ || token == ";"@
}

/// The characters of separators, redirections and the call operator.
pub open spec fn is_operator_char(c: char) -> bool {
    c == '|' || c == ';' || c == '>' || c == '<' || c == '&'
}

/// Whether a token holds an operator character or begins a subexpression.
pub open spec fn embeds_operator(token: Seq<char>) -> bool {
    (exists|i: int| 0 <= i < token.len() && is_operator_char(token[i])) || text::occurs_in(token, "$("@)
}

/// The runs of tokens between separators, the empty ones included.
pub open spec fn segments(tokens: Seq<Seq<char>>) -> Seq<Seq<Seq<char>>>
    decreases tokens.len(),
{
    if tokens.len() == 0 {
        seq![Seq::empty()]
    } else {
        let before = segments(tokens.drop_last());
        if is_separator(tokens.last()) {
            before.push(Seq::empty())
        } else {
            before.drop_last().push(before.last().push(tokens.last()))
        }
    }
}

/// Whether every run of tokens holds a token.
pub open spec fn none_empty(runs: Seq<Seq<Seq<char>>>) -> bool {
    forall|i: int| 0 <= i < runs.len() ==> (#[trigger] runs[i]).len() > 0
}

/// Whether every token is a separator or embeds none.
pub open spec fn tokens_acceptable(tokens: Seq<Seq<char>>) -> bool {
    forall|i: int|
        0 <= i < tokens.len() ==> is_separator(#[trigger] tokens[i]) || !embeds_operator(tokens[i])
}

/// The commands that the tokens hold: nothing where a token embeds an operator or a separator
/// stands beside no command.
pub open spec fn commands_of(tokens: Seq<Seq<char>>) -> Option<Seq<Seq<Seq<char>>>> {
    if tokens_acceptable(tokens) && none_empty(segments(tokens)) {
        Some(segments(tokens))
    } else {
        None
    }
}

/// What the arguments of a PowerShell binary ask it to run.
pub enum Invocation {
    /// Nothing that is understood.
    Rejected,
    /// A script in one string.
    Script(Seq<char>),
    /// The command itself, as tokens.
    Tokens(Seq<Seq<char>>),
}

/// The switches that take the script in the next argument.
pub open spec fn is_command_switch(lower: Seq<char>) -> bool {
    lower == "-command"@ || lower == "/command"@ || lower == "-c"@
}

/// The switches that hold the script themselves, after a colon.
pub open spec fn is_inline_command_switch(lower: Seq<char>) -> bool {
    text::begins(lower, "-command:"@) || text::begins(lower, "/command:"@)
}

/// The switches without an argument that change nothing of what runs.
pub open spec fn is_benign_switch(lower: Seq<char>) -> bool {
    lower == "-nologo"@ || lower == "-noprofile"@ || lower == "-noninteractive"@ || lower == "-mta"@
        || lower == "-sta"@
}

/// What the arguments of a PowerShell binary ask it to run: benign switches are passed over, any
/// other unknown switch is rejected, and a script must be the last argument.
pub open spec fn invocation(args: Seq<Seq<char>>) -> Invocation
    decreases args.len(),
{
    if args.len() == 0 {
        Invocation::Rejected
    } else {
        let lower = text::ascii_lower(args[0]);
        if is_command_switch(lower) {
            if args.len() == 2 {
                Invocation::Script(args[1])
            } else {
                Invocation::Rejected
            }
        } else if is_inline_command_switch(lower) {
            if args.len() == 1 {
                Invocation::Script(args[0].skip(9))
            } else {
                Invocation::Rejected
            }
        } else if is_benign_switch(lower) {
            invocation(args.skip(1))
        } else if text::begins(lower, "-"@) || lower == "/file"@ {
            Invocation::Rejected
        } else {
            Invocation::Tokens(args)
        }
    }
}

/// The commands of a script, where its words can be told apart.
pub open spec fn script_commands(words: Option<Seq<Seq<char>>>) -> Option<Seq<Seq<Seq<char>>>> {
    match words {
        Some(w) => commands_of(w),
        None => None,
    }
}

/// The commands that an invocation runs.
pub open spec fn invocation_commands(asked: Invocation) -> Option<Seq<Seq<Seq<char>>>> {
    match asked {
        Invocation::Rejected => None,
        Invocation::Script(script) => script_commands(shell_words::shlex_words(script)),
        Invocation::Tokens(tokens) => commands_of(tokens),
    }
}

/// The names of the PowerShell binaries.
pub open spec fn is_powershell(exe: Seq<char>) -> bool {
    let lower = text::ascii_lower(exe);
    lower == "powershell"@ || lower == "powershell.exe"@ || lower == "pwsh"@ || lower
        == "pwsh.exe"@
}

/// The commands that a command line hands to PowerShell.
pub open spec fn powershell_commands(command: Seq<Seq<char>>) -> Option<Seq<Seq<Seq<char>>>> {
    if command.len() > 0 && is_powershell(command[0]) {
        invocation_commands(invocation(command.skip(1)))
    } else {
        None
    }
}

pub open spec fn is_paren(c: char) -> bool {
    c == '(' || c == ')'
}

/// `s` without its leading parentheses.
pub open spec fn drop_leading_parens(s: Seq<char>) -> Seq<char>
    decreases s.len(),
{
    if s.len() > 0 && is_paren(s[0]) {
        drop_leading_parens(s.skip(1))
    } else {
        s
    }
}

/// `s` without its trailing parentheses.
pub open spec fn drop_trailing_parens(s: Seq<char>) -> Seq<char>
    decreases s.len(),
{
    if s.len() > 0 && is_paren(s.last()) {
        drop_trailing_parens(s.drop_last())
    } else {
        s
    }
}

/// `s` without its leading dashes.
pub open spec fn drop_leading_dashes(s: Seq<char>) -> Seq<char>
    decreases s.len(),
{
    if s.len() > 0 && s[0] == '-' {
        drop_leading_dashes(s.skip(1))
    } else {
        s
    }
}

/// The cmdlet that a word names: without parentheses around it and dashes before it, in lowercase.
pub open spec fn cmdlet_name(word: Seq<char>) -> Seq<char> {
    text::ascii_lower(drop_leading_dashes(drop_trailing_parens(drop_leading_parens(word))))
}

/// The cmdlets that change files or processes.
pub open spec fn is_side_effecting(name: Seq<char>) -> bool {
    name == "set-content"@ || name == "add-content"@ || name == "out-file"@ || name == "new-item"@
        || name == "remove-item"@ || name == "move-item"@ || name == "copy-item"@ || name
        == "rename-item"@ || name == "start-process"@ || name == "stop-process"@
}

/// The words that call a command or redirect its output.
pub open spec fn is_call_or_redirection(word: Seq<char>) -> bool {
    word == "&"@ || word == ">"@ || word == ">>"@ || word == "1>"@ || word == "2>"@ || word
        == "2>&1"@ || word == "*>"@ || word == "<"@ || word == "<<"@
}

/// The cmdlets, and their short names, that only read.
pub open spec fn is_read_only(name: Seq<char>) -> bool {
    name == "echo"@ || name == "write-output"@ || name == "write-host"@ || name == "dir"@ || name
        == "ls"@ || name == "get-childitem"@ || name == "gci"@ || name == "cat"@ || name == "type"@
        || name == "gc"@ || name == "get-content"@ || name == "select-string"@ || name == "sls"@
        || name == "findstr"@ || name == "measure-object"@ || name == "measure"@ || name
        == "get-location"@ || name == "gl"@ || name == "pwd"@ || name == "test-path"@ || name
        == "tp"@ || name == "resolve-path"@ || name == "rvpa"@ || name == "select-object"@ || name
        == "select"@ || name == "get-item"@
}

/// The options of ripgrep that start other programs.
pub open spec fn is_unsafe_ripgrep_option(arg: Seq<char>) -> bool {
    let lower = text::ascii_lower(arg);
    lower == "--search-zip"@ || lower == "-z"@ || lower == "--pre"@ || lower == "--hostname-bin"@
        || text::begins(lower, "--pre="@) || text::begins(lower, "--hostname-bin="@)
}

/// Whether none of the arguments after the first is an option that starts other programs.
pub open spec fn ripgrep_is_safe(words: Seq<Seq<char>>) -> bool {
    forall|i: int| 1 <= i < words.len() ==> !is_unsafe_ripgrep_option(#[trigger] words[i])
}

/// The options of git whose value is the next argument.
pub open spec fn git_option_takes_value(lower: Seq<char>) -> bool {
    lower == "-c"@ || lower == "--config"@ || lower == "--git-dir"@ || lower == "--work-tree"@
}

/// The subcommands of git that only read.
pub open spec fn is_read_only_git_subcommand(lower: Seq<char>) -> bool {
    lower == "status"@ || lower == "log"@ || lower == "show"@ || lower == "diff"@ || lower
        == "cat-file"@
}

/// Whether the first argument that is neither an option nor an option's value is a read-only
/// subcommand.
pub open spec fn git_args_safe(args: Seq<Seq<char>>) -> bool
    decreases args.len(),
{
    if args.len() == 0 {
        false
    } else if text::begins(args[0], "-"@) {
        if git_option_takes_value(text::ascii_lower(args[0])) {
            args.len() > 1 && git_args_safe(args.skip(2))
        } else {
            git_args_safe(args.skip(1))
        }
    } else {
        is_read_only_git_subcommand(text::ascii_lower(args[0]))
    }
}

/// Whether one command only reads.
pub open spec fn command_is_safe(words: Seq<Seq<char>>) -> bool {
    &&& words.len() > 0
    &&& forall|i: int| 0 <= i < words.len() ==> !is_side_effecting(cmdlet_name(#[trigger] words[i]))
    &&& forall|i: int| 0 <= i < words.len() ==> !is_call_or_redirection(#[trigger] words[i])
    &&& {
        let name = cmdlet_name(words[0]);
        ||| is_read_only(name)
        ||| name == "git"@ && git_args_safe(words.skip(1))
        ||| name == "rg"@ && ripgrep_is_safe(words)
    }
}

/// Whether each command of a list only reads.
pub open spec fn each_is_safe(list: Seq<Seq<Seq<char>>>) -> bool {
    forall|i: int| 0 <= i < list.len() ==> command_is_safe(#[trigger] list[i])
}

/// Whether there is a list of commands and each of them only reads.
pub open spec fn commands_are_safe(commands: Option<Seq<Seq<Seq<char>>>>) -> bool {
    match commands {
        Some(list) => each_is_safe(list),
        None => false,
    }
}

/// The last run is never missing.
proof fn lemma_segments_nonempty(tokens: Seq<Seq<char>>)
    ensures
        segments(tokens).len() > 0,
    decreases tokens.len(),
{
    if tokens.len() > 0 {
        lemma_segments_nonempty(tokens.drop_last());
    }
}

/// A run that has been closed stays as it is, whatever tokens follow.
proof fn lemma_closed_runs_stay(tokens: Seq<Seq<char>>, n: int, i: int)
    requires
        0 <= n <= tokens.len(),
        0 <= i < segments(tokens.take(n)).len() - 1,
    ensures
        i < segments(tokens).len() - 1,
        segments(tokens)[i] == segments(tokens.take(n))[i],
    decreases tokens.len() - n,
{
    if n < tokens.len() {
        assert(tokens.take(n + 1).drop_last() =~= tokens.take(n));
        lemma_segments_nonempty(tokens.take(n));
        lemma_closed_runs_stay(tokens, n + 1, i);
    } else {
        assert(tokens.take(n) =~= tokens);
    }
}

/// Whether a token holds an operator character or begins a subexpression.
fn token_embeds_operator(token: &str) -> (r: bool)
    ensures
        r == embeds_operator(token@),
{
    let chars = text::to_chars(token);
    let mut i: usize = 0;
    while i < chars.len()
        invariant
            chars@ == token@,
            i <= chars@.len(),
            forall|j: int| 0 <= j < i ==> !is_operator_char(chars@[j]),
        decreases chars@.len() - i,
    {
        let c = chars[i];
        if c == '|' || c == ';' || c == '>' || c == '<' || c == '&' {
            assert(is_operator_char(token@[i as int]));
            return true;
        }
        i += 1;
    }
    text::contains(token, "$(")
}

/// Splits tokens into pipeline segments while ensuring no unsafe separators slip through.
pub fn split_into_commands(tokens: Vec<String>) -> (commands: Option<Vec<Vec<String>>>)
    ensures
        optional_command_texts(commands) == commands_of(text::texts(tokens@)),
{
    let ghost all = text::texts(tokens@);
    let mut commands: Vec<Vec<String>> = Vec::new();
    let mut current: Vec<String> = Vec::new();
    let mut i: usize = 0;
    assert(text::texts(current@) =~= Seq::empty());
    assert(segments(all.take(0)) =~= command_texts(commands@).push(text::texts(current@)));
    while i < tokens.len()
        invariant
            all == text::texts(tokens@),
            i <= tokens@.len(),
            segments(all.take(i as int)) =~= command_texts(commands@).push(text::texts(current@)),
            none_empty(command_texts(commands@)),
            forall|j: int| 0 <= j < i ==> is_separator(#[trigger] all[j]) || !embeds_operator(all[j]),
        decreases tokens@.len() - i,
    {
        let token = tokens[i].as_str();
        let ghost so_far = segments(all.take(i as int));
        proof {
            assert(all.take(i + 1).drop_last() =~= all.take(i as int));
            assert(all.take(i + 1).last() == token@);
            assert(so_far.last() == text::texts(current@));
            assert(so_far.drop_last() =~= command_texts(commands@));
        }
        if text::same(token, "|") || text::same(token, "||") || text::same(token, "&&")
            || text::same(token, ";") {
            if current.len() == 0 {
                proof {
                    let k = so_far.len() - 1;
                    assert(so_far[k].len() == 0);
                    assert(segments(all.take(i + 1))[k] == so_far[k]);
                    lemma_closed_runs_stay(all, i + 1, k);
                    assert(segments(all)[k].len() == 0);
                }
                return None;
            }
            let ghost before = commands@;
            let ghost closed = current@;
            commands.push(current);
            current = Vec::new();
            proof {
                assert(command_texts(commands@) =~= command_texts(before).push(
                    text::texts(closed),
                ));
                assert(text::texts(current@) =~= Seq::empty());
            }
        } else if token_embeds_operator(token) {
            proof {
                assert(!is_separator(all[i as int]) && embeds_operator(all[i as int]));
            }
            return None;
        } else {
            let ghost before = current@;
            current.push(tokens[i].clone());
            proof {
                assert(text::texts(current@) =~= text::texts(before).push(token@));
            }
        }
        i += 1;
    }
    proof {
        assert(all.take(i as int) =~= all);
    }
    if current.len() == 0 {
        proof {
            let k = segments(all).len() - 1;
            assert(segments(all)[k].len() == 0);
        }
        return None;
    }
    let ghost before = commands@;
    let ghost closed = current@;
    commands.push(current);
    proof {
        assert(command_texts(commands@) =~= command_texts(before).push(text::texts(closed)));
    }
    Some(commands)
}

/// Tokenizes an inline PowerShell script and delegates to the command splitter.
pub fn parse_powershell_script(script: &str) -> (commands: Option<Vec<Vec<String>>>)
    ensures
        optional_command_texts(commands) == script_commands(shell_words::shlex_words(script@)),
{
    match shell_words::shlex_split(script) {
        Some(tokens) => split_into_commands(tokens),
        None => None,
    }
}

/// Parses the arguments of a PowerShell binary into the commands it would run.
pub fn parse_powershell_invocation(args: &[String]) -> (commands: Option<Vec<Vec<String>>>)
    ensures
        optional_command_texts(commands) == invocation_commands(
            invocation(text::texts(args@)),
        ),
{
    let ghost all = text::texts(args@);
    let mut idx: usize = 0;
    assert(all.skip(0) =~= all);
    while idx < args.len()
        invariant
            all == text::texts(args@),
            idx <= args@.len(),
            invocation(all) == invocation(all.skip(idx as int)),
        decreases args@.len() - idx,
    {
        let arg = args[idx].as_str();
        let lower = text::to_ascii_lowercase(arg);
        let l = lower.as_str();
        let ghost rest = all.skip(idx as int);
        assert(rest[0] == arg@);
        if text::same(l, "-command") || text::same(l, "/command") || text::same(l, "-c") {
            if args.len() - idx != 2 {
                return None;
            }
            assert(rest[1] == args@[idx + 1]@);
            return parse_powershell_script(args[idx + 1].as_str());
        }
        if text::starts_with(l, "-command:") || text::starts_with(l, "/command:") {
            if args.len() - idx != 1 {
                return None;
            }
            proof {
                reveal_strlit("-command:");
                reveal_strlit("/command:");
            }
            let chars = text::to_chars(arg);
            let script = text::from_chars(&chars, 9, chars.len());
            assert(script@ =~= arg@.skip(9));
            return parse_powershell_script(script.as_str());
        }
        if text::same(l, "-nologo") || text::same(l, "-noprofile") || text::same(
            l,
            "-noninteractive",
        ) || text::same(l, "-mta") || text::same(l, "-sta") {
            assert(rest.skip(1) =~= all.skip(idx + 1));
            idx += 1;
            continue;
        }
        if text::starts_with(l, "-") || text::same(l, "/file") {
            return None;
        }
        let mut tokens: Vec<String> = Vec::new();
        let mut i: usize = idx;
        while i < args.len()
            invariant
                idx <= i <= args@.len(),
                tokens@ == args@.subrange(idx as int, i as int),
            decreases args@.len() - i,
        {
            tokens.push(args[i].clone());
            i += 1;
            assert(args@.subrange(idx as int, i as int) =~= args@.subrange(
                idx as int,
                i - 1,
            ).push(args@[i - 1]));
        }
        assert(text::texts(tokens@) =~= rest);
        return split_into_commands(tokens);
    }
    assert(all.skip(idx as int).len() == 0);
    None
}

/// Whether the executable name is one of the supported PowerShell binaries.
pub fn is_powershell_executable(exe: &str) -> (r: bool)
    ensures
        r == is_powershell(exe@),
{
    let lower = text::to_ascii_lowercase(exe);
    let l = lower.as_str();
    text::same(l, "powershell") || text::same(l, "powershell.exe") || text::same(l, "pwsh")
        || text::same(l, "pwsh.exe")
}

/// Each command of the invocation, where it starts with a PowerShell binary.
pub fn try_parse_powershell_command_sequence(command: &[String]) -> (commands: Option<
    Vec<Vec<String>>,
>)
    ensures
        optional_command_texts(commands) == powershell_commands(text::texts(command@)),
{
    if command.len() == 0 {
        return None;
    }
    if !is_powershell_executable(command[0].as_str()) {
        return None;
    }
    let (first, rest) = command.split_at(1);
    assert(text::texts(rest@) =~= text::texts(command@).skip(1));
    parse_powershell_invocation(rest)
}

/// The cmdlet that a word names.
fn bare_cmdlet(word: &str) -> (r: String)
    ensures
        r@ == cmdlet_name(word@),
{
    let chars = text::to_chars(word);
    let mut from: usize = 0;
    let mut to: usize = chars.len();
    assert(chars@.subrange(0, to as int) =~= chars@);
    assert(chars@.skip(0) =~= chars@);
    while from < to && (chars[from] == '(' || chars[from] == ')')
        invariant
            chars@ == word@,
            from <= to == chars@.len(),
            drop_leading_parens(word@) == drop_leading_parens(chars@.skip(from as int)),
        decreases to - from,
    {
        assert(chars@.skip(from as int).skip(1) =~= chars@.skip(from + 1));
        from += 1;
    }
    let ghost unled = chars@.skip(from as int);
    assert(drop_leading_parens(word@) == unled);
    assert(chars@.subrange(from as int, to as int) =~= unled);
    while from < to && (chars[to - 1] == '(' || chars[to - 1] == ')')
        invariant
            from <= to <= chars@.len(),
            drop_trailing_parens(unled) == drop_trailing_parens(
                chars@.subrange(from as int, to as int),
            ),
        decreases to - from,
    {
        assert(chars@.subrange(from as int, to as int).drop_last() =~= chars@.subrange(
            from as int,
            to - 1,
        ));
        to -= 1;
    }
    let ghost inner = chars@.subrange(from as int, to as int);
    assert(drop_trailing_parens(unled) == inner);
    while from < to && chars[from] == '-'
        invariant
            from <= to <= chars@.len(),
            drop_leading_dashes(inner) == drop_leading_dashes(
                chars@.subrange(from as int, to as int),
            ),
        decreases to - from,
    {
        assert(chars@.subrange(from as int, to as int).skip(1) =~= chars@.subrange(
            from + 1,
            to as int,
        ));
        from += 1;
    }
    let bare = text::from_chars(&chars, from, to);
    text::to_ascii_lowercase(bare.as_str())
}

/// Whether a name is that of a cmdlet that changes files or processes.
fn side_effecting(n: &str) -> (r: bool)
    ensures
        r == is_side_effecting(n@),
{
    text::same(n, "set-content") || text::same(n, "add-content") || text::same(n, "out-file")
        || text::same(n, "new-item") || text::same(n, "remove-item") || text::same(n, "move-item")
        || text::same(n, "copy-item") || text::same(n, "rename-item") || text::same(
        n,
        "start-process",
    ) || text::same(n, "stop-process")
}

/// Whether a word calls a command or redirects its output.
fn call_or_redirection(w: &str) -> (r: bool)
    ensures
        r == is_call_or_redirection(w@),
{
    text::same(w, "&") || text::same(w, ">") || text::same(w, ">>") || text::same(w, "1>")
        || text::same(w, "2>") || text::same(w, "2>&1") || text::same(w, "*>") || text::same(w, "<")
        || text::same(w, "<<")
}

/// Whether a name is that of a cmdlet that only reads.
fn read_only(n: &str) -> (r: bool)
    ensures
        r == is_read_only(n@),
{
    text::same(n, "echo") || text::same(n, "write-output") || text::same(n, "write-host")
        || text::same(n, "dir") || text::same(n, "ls") || text::same(n, "get-childitem")
        || text::same(n, "gci") || text::same(n, "cat") || text::same(n, "type") || text::same(
        n,
        "gc",
    ) || text::same(n, "get-content") || text::same(n, "select-string") || text::same(n, "sls")
        || text::same(n, "findstr") || text::same(n, "measure-object") || text::same(n, "measure")
        || text::same(n, "get-location") || text::same(n, "gl") || text::same(n, "pwd")
        || text::same(n, "test-path") || text::same(n, "tp") || text::same(n, "resolve-path")
        || text::same(n, "rvpa") || text::same(n, "select-object") || text::same(n, "select")
        || text::same(n, "get-item")
}

/// Whether a parsed PowerShell command stays within the read-only safelist.
pub fn is_safe_powershell_command(words: &[String]) -> (r: bool)
    ensures
        r == command_is_safe(text::texts(words@)),
{
    let ghost all = text::texts(words@);
    if words.len() == 0 {
        return false;
    }
    let mut i: usize = 0;
    while i < words.len()
        invariant
            all == text::texts(words@),
            i <= words@.len(),
            forall|j: int| 0 <= j < i ==> !is_side_effecting(cmdlet_name(#[trigger] all[j])),
            forall|j: int| 0 <= j < i ==> !is_call_or_redirection(#[trigger] all[j]),
        decreases words@.len() - i,
    {
        let word = words[i].as_str();
        let name = bare_cmdlet(word);
        assert(all[i as int] == word@);
        if side_effecting(name.as_str()) {
            return false;
        }
        if call_or_redirection(word) {
            return false;
        }
        i += 1;
    }
    let command = bare_cmdlet(words[0].as_str());
    let c = command.as_str();
    assert(all[0] == words@[0]@);
    if read_only(c) {
        true
    } else if text::same(c, "git") {
        proof {
            reveal_strlit("git");
            reveal_strlit("rg");
            assert("git"@.len() != "rg"@.len());
        }
        is_safe_git_command(words)
    } else if text::same(c, "rg") {
        is_safe_ripgrep(words)
    } else {
        false
    }
}

/// Whether an `rg` invocation avoids options that can spawn arbitrary executables.
pub fn is_safe_ripgrep(words: &[String]) -> (r: bool)
    ensures
        r == ripgrep_is_safe(text::texts(words@)),
{
    let ghost all = text::texts(words@);
    let mut i: usize = 1;
    while i < words.len()
        invariant
            all == text::texts(words@),
            1 <= i,
            i <= words@.len() || i == 1,
            forall|j: int| 1 <= j < i ==> !is_unsafe_ripgrep_option(#[trigger] all[j]),
        decreases words@.len() - i,
    {
        let lower = text::to_ascii_lowercase(words[i].as_str());
        let l = lower.as_str();
        assert(all[i as int] == words@[i as int]@);
        if text::same(l, "--search-zip") || text::same(l, "-z") || text::same(l, "--pre")
            || text::same(l, "--hostname-bin") || text::starts_with(l, "--pre=")
            || text::starts_with(l, "--hostname-bin=") {
            return false;
        }
        i += 1;
    }
    true
}

/// Whether a Git command sticks to whitelisted read-only subcommands and flags.
pub fn is_safe_git_command(words: &[String]) -> (r: bool)
    ensures
        r == (words@.len() > 0 && git_args_safe(text::texts(words@).skip(1))),
{
    let ghost all = text::texts(words@);
    let mut i: usize = 1;
    while i < words.len()
        invariant
            all == text::texts(words@),
            1 <= i,
            i <= words@.len() || i == 1,
            git_args_safe(all.skip(1)) == git_args_safe(all.skip(i as int)),
        decreases words@.len() - i,
    {
        let arg = words[i].as_str();
        let lower = text::to_ascii_lowercase(arg);
        let l = lower.as_str();
        let ghost rest = all.skip(i as int);
        assert(rest[0] == arg@);
        if text::starts_with(arg, "-") {
            if text::same(l, "-c") || text::same(l, "--config") || text::same(l, "--git-dir")
                || text::same(l, "--work-tree") {
                if i + 1 == words.len() {
                    return false;
                }
                assert(rest.skip(2) =~= all.skip(i + 2));
                i += 2;
                continue;
            }
            assert(rest.skip(1) =~= all.skip(i + 1));
            i += 1;
            continue;
        }
        return text::same(l, "status") || text::same(l, "log") || text::same(l, "show")
            || text::same(l, "diff") || text::same(l, "cat-file");
    }
    if words.len() > 0 {
        assert(all.skip(i as int).len() == 0);
    }
    false
}

/// On Windows, only clearly read-only PowerShell invocations that match a small safelist are
/// allowed. Anything else (including direct CMD commands) is unsafe.
pub fn is_safe_command_windows(command: &[String]) -> (r: bool)
    ensures
        r == commands_are_safe(powershell_commands(text::texts(command@))),
{
    match try_parse_powershell_command_sequence(command) {
        Some(commands) => {
            let ghost list = command_texts(commands@);
            let mut i: usize = 0;
            while i < commands.len()
                invariant
                    list == command_texts(commands@),
                    powershell_commands(text::texts(command@)) == Some(list),
                    i <= commands@.len(),
                    forall|j: int| 0 <= j < i ==> command_is_safe(#[trigger] list[j]),
                decreases commands@.len() - i,
            {
                assert(list[i as int] == text::texts(commands@[i as int]@));
                if !is_safe_powershell_command(commands[i].as_slice()) {
                    return false;
                }
                i += 1;
            }
            true
        },
        None => false,
    }
}

/// What follows a separator starts a run of its own.
proof fn lemma_segments_concat(a: Seq<Seq<char>>, sep: Seq<char>, b: Seq<Seq<char>>)
    requires
        is_separator(sep),
    ensures
        segments(a.push(sep) + b) == segments(a) + segments(b),
    decreases b.len(),
{
    let whole = a.push(sep) + b;
    if b.len() == 0 {
        assert(whole =~= a.push(sep));
        assert(whole.drop_last() =~= a);
        assert(segments(whole) =~= segments(a) + segments(b));
    } else {
        lemma_segments_concat(a, sep, b.drop_last());
        lemma_segments_nonempty(b.drop_last());
        assert(whole.drop_last() =~= a.push(sep) + b.drop_last());
        assert(whole.last() == b.last());
        let left = segments(a);
        let right = segments(b.drop_last());
        assert((left + right).last() == right.last());
        assert((left + right).drop_last() =~= left + right.drop_last());
        assert(segments(whole) =~= segments(a) + segments(b));
    }
}

/// A chain of two command sequences is safe exactly where both are: an unsafe command on either
/// side of `|`, `||`, `&&` or `;` makes the whole unsafe.
pub proof fn law_chain_safe_iff_both_safe(a: Seq<Seq<char>>, sep: Seq<char>, b: Seq<Seq<char>>)
    requires
        is_separator(sep),
    ensures
        commands_are_safe(commands_of(a.push(sep) + b)) <==> commands_are_safe(commands_of(a))
            && commands_are_safe(commands_of(b)),
{
    let whole = a.push(sep) + b;
    lemma_segments_concat(a, sep, b);
    let left = segments(a);
    let right = segments(b);
    let n = a.len() as int;
    assert forall|i: int| 0 <= i < a.len() implies whole[i] == #[trigger] a[i] by {}
    assert forall|i: int| 0 <= i < b.len() implies whole[n + 1 + i] == #[trigger] b[i] by {}
    assert forall|i: int| 0 <= i < left.len() implies (left + right)[i] == #[trigger] left[i] by {}
    assert forall|i: int| 0 <= i < right.len() implies (left + right)[left.len() + i]
        == #[trigger] right[i] by {}
    if tokens_acceptable(a) && tokens_acceptable(b) {
        assert forall|i: int| 0 <= i < whole.len() implies is_separator(#[trigger] whole[i])
            || !embeds_operator(whole[i]) by {
            if i < n {
                assert(whole[i] == a[i]);
            } else if i > n {
                assert(whole[i] == b[i - n - 1]);
            }
        }
    }
    if tokens_acceptable(whole) {
        assert forall|i: int| 0 <= i < a.len() implies is_separator(#[trigger] a[i])
            || !embeds_operator(a[i]) by {
            assert(whole[i] == a[i]);
        }
        assert forall|i: int| 0 <= i < b.len() implies is_separator(#[trigger] b[i])
            || !embeds_operator(b[i]) by {
            assert(whole[n + 1 + i] == b[i]);
        }
    }
    if none_empty(left + right) {
        assert forall|i: int| 0 <= i < left.len() implies (#[trigger] left[i]).len() > 0 by {
            assert((left + right)[i] == left[i]);
        }
        assert forall|i: int| 0 <= i < right.len() implies (#[trigger] right[i]).len() > 0 by {
            assert((left + right)[left.len() + i] == right[i]);
        }
    }
    if commands_are_safe(commands_of(whole)) {
        assert forall|i: int| 0 <= i < left.len() implies command_is_safe(#[trigger] left[i]) by {
            assert((left + right)[i] == left[i]);
        }
        assert forall|i: int| 0 <= i < right.len() implies command_is_safe(#[trigger] right[i]) by {
            assert((left + right)[left.len() + i] == right[i]);
        }
    }
}

/// Only an invocation of a PowerShell binary is ever safe; a direct command never is.
pub proof fn law_only_powershell_is_safe(command: Seq<Seq<char>>)
    requires
        commands_are_safe(powershell_commands(command)),
    ensures
        command.len() > 1,
        is_powershell(command[0]),
{
}

/// A command sequence with a side-effecting cmdlet anywhere in it, as a command or as an argument,
/// is never safe, and neither is one with a token that embeds an operator.
pub proof fn law_side_effect_anywhere_is_unsafe(tokens: Seq<Seq<char>>, i: int)
    requires
        0 <= i < tokens.len(),
        !is_separator(tokens[i]),
        is_side_effecting(cmdlet_name(tokens[i])) || embeds_operator(tokens[i]),
    ensures
        !commands_are_safe(commands_of(tokens)),
{
    lemma_token_in_a_run(tokens, i);
}

/// Every token that is no separator stands in some run.
proof fn lemma_token_in_a_run(tokens: Seq<Seq<char>>, i: int)
    requires
        0 <= i < tokens.len(),
        !is_separator(tokens[i]),
    ensures
        exists|r: int, k: int|
            0 <= r < segments(tokens).len() && 0 <= k < segments(tokens)[r].len()
                && #[trigger] segments(tokens)[r][k] == tokens[i],
    decreases tokens.len(),
{
    let before = segments(tokens.drop_last());
    lemma_segments_nonempty(tokens.drop_last());
    let now = segments(tokens);
    if i == tokens.len() - 1 {
        let r = now.len() - 1;
        let k = now[r].len() - 1;
        assert(now[r][k] == tokens[i]);
    } else {
        lemma_token_in_a_run(tokens.drop_last(), i);
        assert(tokens.drop_last()[i] == tokens[i]);
        let (r, k) = choose|r: int, k: int|
            0 <= r < before.len() && 0 <= k < before[r].len() && #[trigger] before[r][k]
                == tokens[i];
        assert(now[r][k] == tokens[i]);
    }
}

} // verus!
