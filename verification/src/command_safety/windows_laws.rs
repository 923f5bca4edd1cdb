//! What holds of the read-only PowerShell invocations as a whole.
use vstd::prelude::*;

use crate::command_safety::windows_safe_commands::{
    cmdlet_name, command_is_safe, commands_are_safe, commands_of, drop_leading_dashes,
    drop_leading_parens, drop_trailing_parens, embeds_operator, git_args_safe,
    is_call_or_redirection, is_operator_char, is_paren, is_separator, is_side_effecting,
    law_chain_safe_iff_both_safe, law_side_effect_anywhere_is_unsafe, none_empty, powershell_commands, segments,
    tokens_acceptable,
};
use crate::shell_words;
use crate::text;

verus! {

/// Whether a word has no character that could end, redirect or call a command, and begins no
/// subexpression.
pub open spec fn is_plain(word: Seq<char>) -> bool {
    forall|k: int|
        0 <= k < word.len() ==> (#[trigger] word[k]) != '|' && word[k] != ';' && word[k] != '>'
            && word[k] != '<' && word[k] != '&' && !(word[k] == '$' && k + 1 < word.len() && word[k
            + 1] == '(')
}

/// Whether tokens are the words of one command.
pub open spec fn is_one_command(tokens: Seq<Seq<char>>) -> bool {
    tokens.len() > 0 && forall|i: int| 0 <= i < tokens.len() ==> is_plain(#[trigger] tokens[i])
}

/// Whether a word begins like an option.
pub open spec fn is_option(word: Seq<char>) -> bool {
    word.len() > 0 && word[0] == '-'
}

/// Whether a word stands without parentheses around it and dashes before it.
pub open spec fn is_bare(word: Seq<char>) -> bool {
    &&& word.len() > 0
    &&& word[0] != '(' && word[0] != ')' && word[0] != '-'
    &&& word.last() != '(' && word.last() != ')'
}

/// Whether a cmdlet, in lowercase, changes files or processes.
pub open spec fn changes_things(lower: Seq<char>) -> bool {
    ||| lower == "set-content"@
    ||| lower == "add-content"@
    ||| lower == "out-file"@
    ||| lower == "new-item"@
    ||| lower == "remove-item"@
    ||| lower == "move-item"@
    ||| lower == "copy-item"@
    ||| lower == "rename-item"@
    ||| lower == "start-process"@
    ||| lower == "stop-process"@
}

/// Whether a cmdlet, in lowercase, only lists, prints, searches or measures.
pub open spec fn only_looks(lower: Seq<char>) -> bool {
    ||| lower == "echo"@
    ||| lower == "write-output"@
    ||| lower == "write-host"@
    ||| lower == "dir"@
    ||| lower == "ls"@
    ||| lower == "get-childitem"@
    ||| lower == "gci"@
    ||| lower == "cat"@
    ||| lower == "type"@
    ||| lower == "gc"@
    ||| lower == "get-content"@
    ||| lower == "select-string"@
    ||| lower == "sls"@
    ||| lower == "findstr"@
    ||| lower == "measure-object"@
    ||| lower == "measure"@
    ||| lower == "get-location"@
    ||| lower == "gl"@
    ||| lower == "pwd"@
    ||| lower == "test-path"@
    ||| lower == "tp"@
    ||| lower == "resolve-path"@
    ||| lower == "rvpa"@
    ||| lower == "select-object"@
    ||| lower == "select"@
    ||| lower == "get-item"@
}

/// A plain word is no separator, embeds no operator and redirects nothing.
proof fn lemma_plain(word: Seq<char>)
    requires
        is_plain(word),
    ensures
        !is_separator(word),
        !embeds_operator(word),
        !is_call_or_redirection(word),
{
    reveal_strlit("|");
    reveal_strlit("||");
    reveal_strlit("&&");
    reveal_strlit(";");
    reveal_strlit("$(");
    reveal_strlit("&");
    reveal_strlit(">");
    reveal_strlit(">>");
    reveal_strlit("1>");
    reveal_strlit("2>");
    reveal_strlit("2>&1");
    reveal_strlit("*>");
    reveal_strlit("<");
    reveal_strlit("<<");
    if is_separator(word) {
        assert(word[0] == '|' || word[0] == '&' || word[0] == ';');
    }
    if exists|i: int| 0 <= i < word.len() && is_operator_char(word[i]) {
        let i = choose|i: int| 0 <= i < word.len() && is_operator_char(word[i]);
        assert(word[i] == word[i]);
        assert(false);
    }
    if text::occurs_in(word, "$("@) {
        let at = choose|at: int| text::stands_at(word, "$("@, at);
        let found = word.subrange(at, at + 2);
        assert(found == "$("@);
        assert(word[at] == found[0] && word[at + 1] == found[1]);
    }
    if is_call_or_redirection(word) {
        assert(word.len() > 0);
        if word.len() == 1 {
            assert(word[0] == '&' || word[0] == '>' || word[0] == '<');
        } else {
            assert(word[1] == '>' || word[1] == '<');
        }
    }
}

/// One command stays one command.
proof fn lemma_one_segment(tokens: Seq<Seq<char>>)
    requires
        forall|i: int| 0 <= i < tokens.len() ==> is_plain(#[trigger] tokens[i]),
    ensures
        segments(tokens) == seq![tokens],
    decreases tokens.len(),
{
    if tokens.len() > 0 {
        let before = tokens.drop_last();
        assert forall|i: int| 0 <= i < before.len() implies is_plain(#[trigger] before[i]) by {
            assert(before[i] == tokens[i]);
        }
        lemma_one_segment(before);
        let last = tokens[tokens.len() - 1];
        assert(is_plain(last));
        lemma_plain(last);
        assert(seq![before].drop_last() =~= Seq::empty());
        assert(seq![before].last() == before);
        assert(before.push(last) =~= tokens);
        assert(segments(tokens) =~= seq![tokens]);
    } else {
        assert(tokens =~= Seq::empty());
    }
}

/// Tokens without separators and operators are one command, which is judged by itself.
pub proof fn law_plain_tokens_are_one_command(tokens: Seq<Seq<char>>)
    requires
        is_one_command(tokens),
    ensures
        commands_of(tokens) == Some(seq![tokens]),
        commands_are_safe(commands_of(tokens)) == command_is_safe(tokens),
{
    lemma_one_segment(tokens);
    assert forall|i: int| 0 <= i < tokens.len() implies is_separator(#[trigger] tokens[i])
        || !embeds_operator(tokens[i]) by {
        lemma_plain(tokens[i]);
    }
    let list = seq![tokens];
    assert(none_empty(list));
    if command_is_safe(tokens) {
        assert forall|i: int| 0 <= i < list.len() implies command_is_safe(#[trigger] list[i]) by {}
    } else {
        assert(!command_is_safe(list[0]));
    }
}

/// A separator stands between two commands, and never beside none.
pub proof fn law_separators_stand_between_commands(tokens: Seq<Seq<char>>)
    requires
        tokens.len() > 0,
        ({
            let first = tokens[0];
            let last = tokens.last();
            ||| first == "|"@ || first == "||"@ || first == "&&"@ || first == ";"@
            ||| last == "|"@ || last == "||"@ || last == "&&"@ || last == ";"@
        }),
    ensures
        commands_of(tokens) is None,
    decreases tokens.len(),
{
    if is_separator(tokens.last()) {
        let before = segments(tokens.drop_last());
        assert(segments(tokens) == before.push(Seq::empty()));
        assert(segments(tokens)[before.len() as int].len() == 0);
    } else {
        lemma_first_segment_empty(tokens);
    }
}

/// Where the first token is a separator, the first run is empty.
proof fn lemma_first_segment_empty(tokens: Seq<Seq<char>>)
    requires
        tokens.len() > 0,
        is_separator(tokens[0]),
    ensures
        segments(tokens).len() > 1,
        segments(tokens)[0].len() == 0,
    decreases tokens.len(),
{
    let before = segments(tokens.drop_last());
    if tokens.len() == 1 {
        assert(tokens.drop_last() =~= Seq::empty());
        assert(before == seq![Seq::<Seq<char>>::empty()]);
    } else {
        lemma_first_segment_empty(tokens.drop_last());
        assert(before.drop_last()[0] == before[0]);
    }
}

/// A token that is no separator and holds a character of an operator, or begins a subexpression,
/// makes the whole unsafe.
pub proof fn law_operators_are_refused(tokens: Seq<Seq<char>>, i: int, k: int)
    requires
        0 <= i < tokens.len(),
        tokens[i] != "|"@ && tokens[i] != "||"@ && tokens[i] != "&&"@ && tokens[i] != ";"@,
        0 <= k < tokens[i].len(),
        ({
            let c = tokens[i][k];
            ||| c == '|' || c == ';' || c == '>' || c == '<' || c == '&'
            ||| c == '$' && k + 1 < tokens[i].len() && tokens[i][k + 1] == '('
        }),
    ensures
        commands_of(tokens) is None,
{
    let token = tokens[i];
    if token[k] == '$' {
        reveal_strlit("$(");
        assert(token.subrange(k, k + 2) =~= "$("@);
        assert(text::stands_at(token, "$("@, k));
    } else {
        assert(is_operator_char(token[k]));
    }
    assert(!tokens_acceptable(tokens));
}

proof fn lemma_drop_leading_parens(a: Seq<char>, rest: Seq<char>)
    requires
        forall|k: int| 0 <= k < a.len() ==> is_paren(#[trigger] a[k]),
        rest.len() > 0,
        !is_paren(rest[0]),
    ensures
        drop_leading_parens(a + rest) == rest,
    decreases a.len(),
{
    if a.len() == 0 {
        assert(a + rest =~= rest);
    } else {
        assert(is_paren(a[0]));
        assert((a + rest).skip(1) =~= a.skip(1) + rest);
        assert forall|k: int| 0 <= k < a.skip(1).len() implies is_paren(#[trigger] a.skip(1)[k]) by {
            assert(a.skip(1)[k] == a[k + 1]);
        }
        lemma_drop_leading_parens(a.skip(1), rest);
    }
}

proof fn lemma_drop_trailing_parens(rest: Seq<char>, c: Seq<char>)
    requires
        forall|k: int| 0 <= k < c.len() ==> is_paren(#[trigger] c[k]),
        rest.len() > 0,
        !is_paren(rest.last()),
    ensures
        drop_trailing_parens(rest + c) == rest,
    decreases c.len(),
{
    if c.len() == 0 {
        assert(rest + c =~= rest);
    } else {
        assert(is_paren(c[c.len() - 1]));
        assert((rest + c).drop_last() =~= rest + c.drop_last());
        lemma_drop_trailing_parens(rest, c.drop_last());
    }
}

proof fn lemma_drop_leading_dashes(b: Seq<char>, rest: Seq<char>)
    requires
        forall|k: int| 0 <= k < b.len() ==> #[trigger] b[k] == '-',
        rest.len() > 0,
        rest[0] != '-',
    ensures
        drop_leading_dashes(b + rest) == rest,
    decreases b.len(),
{
    if b.len() == 0 {
        assert(b + rest =~= rest);
    } else {
        assert(b[0] == '-');
        assert((b + rest).skip(1) =~= b.skip(1) + rest);
        assert forall|k: int| 0 <= k < b.skip(1).len() implies #[trigger] b.skip(1)[k] == '-' by {
            assert(b.skip(1)[k] == b[k + 1]);
        }
        lemma_drop_leading_dashes(b.skip(1), rest);
    }
}

/// Parentheses around a name and dashes before it do not hide it: what a word names is the name
/// within, in lowercase.
pub proof fn law_decoration_hides_no_name(
    open: Seq<char>,
    dashes: Seq<char>,
    name: Seq<char>,
    close: Seq<char>,
)
    requires
        forall|k: int| 0 <= k < open.len() ==> (#[trigger] open[k]) == '(' || open[k] == ')',
        forall|k: int| 0 <= k < close.len() ==> (#[trigger] close[k]) == '(' || close[k] == ')',
        forall|k: int| 0 <= k < dashes.len() ==> (#[trigger] dashes[k]) == '-',
        is_bare(name),
    ensures
        cmdlet_name(open + (dashes + name + close)) == text::ascii_lower(name),
{
    let inner = dashes + name;
    assert(inner.last() == name.last());
    if dashes.len() > 0 {
        assert(dashes[0] == '-');
        assert(inner[0] == dashes[0]);
    } else {
        assert(inner[0] == name[0]);
    }
    assert((inner + close)[0] == inner[0]);
    assert forall|k: int| 0 <= k < open.len() implies is_paren(#[trigger] open[k]) by {}
    assert forall|k: int| 0 <= k < close.len() implies is_paren(#[trigger] close[k]) by {}
    lemma_drop_leading_parens(open, inner + close);
    lemma_drop_trailing_parens(inner, close);
    lemma_drop_leading_dashes(dashes, name);
}

/// A bare word names what it says.
proof fn lemma_bare_name(word: Seq<char>)
    requires
        is_bare(word),
    ensures
        cmdlet_name(word) == text::ascii_lower(word),
{
    let none = Seq::<char>::empty();
    law_decoration_hides_no_name(none, none, word, none);
    assert(none + (none + word + none) =~= word);
}

/// A name in lowercase that begins and ends with letters is that of a bare word.
proof fn lemma_lower_is_bare(word: Seq<char>, lower: Seq<char>)
    requires
        text::ascii_lower(word) == lower,
        lower.len() > 0,
        'a' <= lower[0] <= 'z',
        'a' <= lower.last() <= 'z',
    ensures
        is_bare(word),
        cmdlet_name(word) == lower,
{
    assert(lower[0] == text::ascii_lower_char(word[0]));
    assert(lower.last() == text::ascii_lower_char(word.last()));
    lemma_bare_name(word);
}

/// A word that names a cmdlet that changes things makes the whole unsafe, wherever it stands,
/// whatever the case of its letters and whatever parentheses and dashes stand around it.
pub proof fn law_changing_cmdlets_are_refused(
    tokens: Seq<Seq<char>>,
    i: int,
    open: Seq<char>,
    dashes: Seq<char>,
    name: Seq<char>,
    close: Seq<char>,
)
    requires
        0 <= i < tokens.len(),
        tokens[i] == open + (dashes + name + close),
        forall|k: int| 0 <= k < open.len() ==> (#[trigger] open[k]) == '(' || open[k] == ')',
        forall|k: int| 0 <= k < close.len() ==> (#[trigger] close[k]) == '(' || close[k] == ')',
        forall|k: int| 0 <= k < dashes.len() ==> (#[trigger] dashes[k]) == '-',
        changes_things(text::ascii_lower(name)),
    ensures
        !commands_are_safe(commands_of(tokens)),
{
    lemma_changing_names();
    let lower = text::ascii_lower(name);
    assert(lower[0] == text::ascii_lower_char(name[0]));
    assert(lower.last() == text::ascii_lower_char(name.last()));
    law_decoration_hides_no_name(open, dashes, name, close);
    reveal_strlit("|");
    reveal_strlit("||");
    reveal_strlit("&&");
    reveal_strlit(";");
    let token = tokens[i];
    assert(token.len() >= name.len());
    assert(token.len() > 2);
    law_side_effect_anywhere_is_unsafe(tokens, i);
}

/// The names of the cmdlets that change things are words of letters.
proof fn lemma_changing_names()
    ensures
        forall|n: Seq<char>| #[trigger]
            changes_things(n) ==> {
                &&& n.len() >= 8
                &&& 'a' <= n[0] <= 'z'
                &&& 'a' <= n.last() <= 'z'
                &&& is_side_effecting(n)
            },
        forall|n: Seq<char>| #[trigger] is_side_effecting(n) ==> changes_things(n),
{
    reveal_strlit("set-content");
    reveal_strlit("add-content");
    reveal_strlit("out-file");
    reveal_strlit("new-item");
    reveal_strlit("remove-item");
    reveal_strlit("move-item");
    reveal_strlit("copy-item");
    reveal_strlit("rename-item");
    reveal_strlit("start-process");
    reveal_strlit("stop-process");
}

/// No name of a cmdlet that only looks is that of one that changes things, of git or of ripgrep.
#[verifier::rlimit(40)]
proof fn lemma_looking_names()
    ensures
        forall|n: Seq<char>| #[trigger]
            only_looks(n) ==> {
                &&& n.len() > 0
                &&& 'a' <= n[0] <= 'z'
                &&& 'a' <= n.last() <= 'z'
                &&& !changes_things(n)
                &&& n != "git"@ && n != "rg"@
            },
{
    reveal_strlit("set-content");
    reveal_strlit("add-content");
    reveal_strlit("out-file");
    reveal_strlit("new-item");
    reveal_strlit("remove-item");
    reveal_strlit("move-item");
    reveal_strlit("copy-item");
    reveal_strlit("rename-item");
    reveal_strlit("start-process");
    reveal_strlit("stop-process");
    reveal_strlit("echo");
    reveal_strlit("write-output");
    reveal_strlit("write-host");
    reveal_strlit("dir");
    reveal_strlit("ls");
    reveal_strlit("get-childitem");
    reveal_strlit("gci");
    reveal_strlit("cat");
    reveal_strlit("type");
    reveal_strlit("gc");
    reveal_strlit("get-content");
    reveal_strlit("select-string");
    reveal_strlit("sls");
    reveal_strlit("findstr");
    reveal_strlit("measure-object");
    reveal_strlit("measure");
    reveal_strlit("get-location");
    reveal_strlit("gl");
    reveal_strlit("pwd");
    reveal_strlit("test-path");
    reveal_strlit("tp");
    reveal_strlit("resolve-path");
    reveal_strlit("rvpa");
    reveal_strlit("select-object");
    reveal_strlit("select");
    reveal_strlit("get-item");
    reveal_strlit("git");
    reveal_strlit("rg");
    assert forall|n: Seq<char>| #[trigger] only_looks(n) implies !changes_things(n) && n != "git"@
        && n != "rg"@ by {
        if changes_things(n) {
            assert(n[0] == 's' ==> n.len() == 11 || n[1] == 't');
            assert(n[0] == 'r' ==> n.len() == 11);
            assert(n[0] == 'm' || n[0] == 'c' ==> n.len() == 9);
            assert(n[0] != 'e' && n[0] != 'w' && n[0] != 'd' && n[0] != 'l' && n[0] != 'g');
            assert(n[0] != 't' && n[0] != 'f' && n[0] != 'p');
        }
        if n == "git"@ {
            assert(n.len() == 3 && n[0] == 'g' && n[1] == 'i');
        }
        if n == "rg"@ {
            assert(n.len() == 2 && n[0] == 'r');
        }
        assert(n[0] == 's' ==> n.len() != 11 && n[1] != 't');
        assert(n[0] == 'r' ==> n.len() != 11 && n.len() != 2);
        assert(n[0] == 'm' || n[0] == 'c' ==> n.len() != 9);
        assert(n[0] == 'g' ==> n[1] != 'i');
        assert(n[0] != 'a' && n[0] != 'o' && n[0] != 'n');
    }
}

/// Whether a command's words are all plain and none names a cmdlet that changes things.
pub open spec fn is_harmless(words: Seq<Seq<char>>) -> bool {
    forall|i: int|
        0 <= i < words.len() ==> is_plain(#[trigger] words[i]) && !changes_things(
            cmdlet_name(words[i]),
        )
}

/// What a safe command runs is one of the cmdlets that only look, git or ripgrep.
pub proof fn law_safe_command_only_looks(words: Seq<Seq<char>>)
    requires
        command_is_safe(words),
    ensures
        words.len() > 0,
        ({
            let name = cmdlet_name(words[0]);
            only_looks(name) || name == "git"@ || name == "rg"@
        }),
        forall|i: int|
            0 <= i < words.len() ==> !changes_things(cmdlet_name(#[trigger] words[i])),
{
    lemma_changing_names();
}

/// A command that runs a cmdlet that only looks is safe, whatever harmless words follow.
pub proof fn law_looking_is_safe(words: Seq<Seq<char>>)
    requires
        words.len() > 0,
        is_harmless(words),
        only_looks(cmdlet_name(words[0])),
    ensures
        command_is_safe(words),
        commands_are_safe(commands_of(words)),
{
    lemma_harmless(words);
    law_plain_tokens_are_one_command(words);
}

proof fn lemma_harmless(words: Seq<Seq<char>>)
    requires
        is_harmless(words),
    ensures
        forall|i: int|
            0 <= i < words.len() ==> !is_side_effecting(cmdlet_name(#[trigger] words[i])),
        forall|i: int| 0 <= i < words.len() ==> !is_call_or_redirection(#[trigger] words[i]),
{
    lemma_changing_names();
    assert forall|i: int| 0 <= i < words.len() implies !is_side_effecting(
        cmdlet_name(#[trigger] words[i]),
    ) by {}
    assert forall|i: int| 0 <= i < words.len() implies !is_call_or_redirection(
        #[trigger] words[i],
    ) by {
        lemma_plain(words[i]);
    }
}

/// A single bare word is safe exactly where it names a cmdlet that only looks, or ripgrep, whatever
/// the case of its letters.
pub proof fn law_single_word_is_judged_by_name(word: Seq<char>)
    requires
        is_plain(word),
        is_bare(word),
    ensures
        commands_are_safe(commands_of(seq![word])) <==> only_looks(text::ascii_lower(word))
            || text::ascii_lower(word) == "rg"@,
{
    let words = seq![word];
    law_plain_tokens_are_one_command(words);
    lemma_bare_name(word);
    lemma_looking_names();
    lemma_changing_names();
    reveal_strlit("git");
    reveal_strlit("rg");
    let name = text::ascii_lower(word);
    assert(words[0] == word);
    assert(words.skip(1).len() == 0);
    if only_looks(name) || name == "rg"@ {
        assert(is_harmless(words));
        lemma_harmless(words);
    }
}

/// Whether git runs a subcommand, in lowercase, that only reads.
pub open spec fn git_only_reads(lower: Seq<char>) -> bool {
    lower == "status"@ || lower == "log"@ || lower == "show"@ || lower == "diff"@ || lower
        == "cat-file"@
}

/// Whether the next word is the value of an option of git.
pub open spec fn takes_next_word(option: Seq<char>) -> bool {
    let lower = text::ascii_lower(option);
    lower == "-c"@ || lower == "--config"@ || lower == "--git-dir"@ || lower == "--work-tree"@
}

proof fn lemma_git_words()
    ensures
        forall|n: Seq<char>| #[trigger]
            git_only_reads(n) ==> {
                &&& n.len() > 0
                &&& 'a' <= n[0] <= 'z'
                &&& 'a' <= n.last() <= 'z'
                &&& !changes_things(n)
            },
        "git"@.len() == 3,
        "git"@[0] == 'g',
        "git"@[2] == 't',
        !changes_things("git"@),
        !only_looks("git"@),
        "rg"@.len() == 2,
{
    lemma_changing_names();
    lemma_looking_names();
    reveal_strlit("git");
    reveal_strlit("rg");
    reveal_strlit("set-content");
    reveal_strlit("add-content");
    reveal_strlit("out-file");
    reveal_strlit("new-item");
    reveal_strlit("remove-item");
    reveal_strlit("move-item");
    reveal_strlit("copy-item");
    reveal_strlit("rename-item");
    reveal_strlit("start-process");
    reveal_strlit("stop-process");
    reveal_strlit("status");
    reveal_strlit("log");
    reveal_strlit("show");
    reveal_strlit("diff");
    reveal_strlit("cat-file");
    assert forall|n: Seq<char>| #[trigger] git_only_reads(n) implies !changes_things(n) by {
        assert(n.len() <= 8);
        assert(n.len() == 8 ==> n[0] == 'c');
        assert(changes_things(n) && n.len() <= 8 ==> n[0] == 'o' || n[0] == 'n');
    }
}

/// A git command without options is safe only where its first argument is `status`, `log`, `show`,
/// `diff` or `cat-file`, whatever the case of the letters; and with such an argument alone it is.
pub proof fn law_git_only_reads(tokens: Seq<Seq<char>>)
    requires
        is_one_command(tokens),
        text::ascii_lower(tokens[0]) == "git"@,
        tokens.len() > 1,
        !is_option(tokens[1]),
    ensures
        ({
            let subcommand = text::ascii_lower(tokens[1]);
            let reads = subcommand == "status"@ || subcommand == "log"@ || subcommand == "show"@
                || subcommand == "diff"@ || subcommand == "cat-file"@;
            &&& commands_are_safe(commands_of(tokens)) ==> reads
            &&& reads && is_harmless(tokens) ==> commands_are_safe(commands_of(tokens))
            &&& reads && tokens.len() == 2 ==> commands_are_safe(commands_of(tokens))
        }),
{
    law_plain_tokens_are_one_command(tokens);
    lemma_git_words();
    lemma_looking_names();
    lemma_lower_is_bare(tokens[0], "git"@);
    let args = tokens.skip(1);
    assert(args[0] == tokens[1]);
    reveal_strlit("-");
    if text::begins(args[0], "-"@) {
        assert(args[0].subrange(0, 1)[0] == '-');
    }
    let subcommand = text::ascii_lower(tokens[1]);
    if git_only_reads(subcommand) {
        if tokens.len() == 2 {
            lemma_lower_is_bare(tokens[1], subcommand);
            assert forall|i: int| 0 <= i < tokens.len() implies is_plain(#[trigger] tokens[i])
                && !changes_things(cmdlet_name(tokens[i])) by {
                if i == 1 {
                    assert(cmdlet_name(tokens[i]) == subcommand);
                }
            }
        }
        if is_harmless(tokens) {
            lemma_harmless(tokens);
        }
    }
}

/// A git command without a subcommand is never safe, and neither is one that ends with an option
/// whose value is missing.
pub proof fn law_git_needs_a_subcommand(git: Seq<char>, option: Seq<char>)
    requires
        text::ascii_lower(git) == "git"@,
        takes_next_word(option),
    ensures
        !command_is_safe(seq![git]),
        !command_is_safe(seq![git, option]),
{
    lemma_git_words();
    lemma_lower_is_bare(git, "git"@);
    lemma_option_words(option);
    let one = seq![git];
    let two = seq![git, option];
    assert(one[0] == git && two[0] == git);
    assert(one.skip(1).len() == 0);
    assert(two.skip(1) =~= seq![option]);
    assert(two.skip(1)[0] == option);
}

proof fn lemma_option_words(option: Seq<char>)
    ensures
        takes_next_word(option) ==> is_option(option),
        is_option(option) == text::begins(option, "-"@),
{
    reveal_strlit("-");
    reveal_strlit("-c");
    reveal_strlit("--config");
    reveal_strlit("--git-dir");
    reveal_strlit("--work-tree");
    let lower = text::ascii_lower(option);
    if takes_next_word(option) {
        assert(lower.len() > 0 && lower.len() == option.len());
        assert(lower[0] == '-');
        assert(lower[0] == text::ascii_lower_char(option[0]));
    }
    if is_option(option) {
        assert(option.subrange(0, 1) =~= "-"@);
    }
    if text::begins(option, "-"@) {
        assert(option.subrange(0, 1)[0] == '-');
    }
}

/// An option of git that takes no value is passed over: with it a command is safe only where it is
/// without it, and where it is, a harmless option changes nothing.
pub proof fn law_git_options_are_passed_over(
    git: Seq<char>,
    option: Seq<char>,
    rest: Seq<Seq<char>>,
)
    requires
        text::ascii_lower(git) == "git"@,
        is_option(option),
        !takes_next_word(option),
    ensures
        command_is_safe(seq![git, option] + rest) ==> command_is_safe(seq![git] + rest),
        command_is_safe(seq![git] + rest) && is_harmless(seq![option]) ==> command_is_safe(
            seq![git, option] + rest,
        ),
{
    lemma_git_words();
    lemma_lower_is_bare(git, "git"@);
    lemma_option_words(option);
    let longer = seq![git, option] + rest;
    let shorter = seq![git] + rest;
    assert(longer.skip(1)[0] == option);
    assert(longer.skip(1).skip(1) =~= rest);
    assert(shorter.skip(1) =~= rest);
    assert(longer[0] == git && shorter[0] == git);
    assert forall|i: int| 1 <= i < shorter.len() implies #[trigger] shorter[i] == longer[i + 1] by {}
    assert(git_args_safe(longer.skip(1)) == git_args_safe(rest));
    lemma_git_not_looking();
    if command_is_safe(longer) {
        assert forall|i: int| 0 <= i < shorter.len() implies !is_side_effecting(
            cmdlet_name(#[trigger] shorter[i]),
        ) && !is_call_or_redirection(shorter[i]) by {
            if i > 0 {
                assert(shorter[i] == longer[i + 1]);
            } else {
                assert(shorter[0] == longer[0]);
            }
        }
    }
    if command_is_safe(shorter) && is_harmless(seq![option]) {
        lemma_harmless(seq![option]);
        assert(seq![option][0] == option);
        assert forall|i: int| 0 <= i < longer.len() implies !is_side_effecting(
            cmdlet_name(#[trigger] longer[i]),
        ) && !is_call_or_redirection(longer[i]) by {
            if i > 1 {
                assert(shorter[i - 1] == longer[i]);
            } else if i == 0 {
                assert(shorter[0] == longer[0]);
            }
        }
    }
}

proof fn lemma_git_not_looking()
    ensures
        forall|w: Seq<Seq<char>>|
            cmdlet_name(w[0]) == "git"@ && #[trigger] command_is_safe(w) ==> git_args_safe(
                w.skip(1),
            ),
{
    lemma_git_words();
    assert forall|w: Seq<Seq<char>>|
        cmdlet_name(w[0]) == "git"@ && #[trigger] command_is_safe(w) implies git_args_safe(
        w.skip(1),
    ) by {
        assert(!only_looks(cmdlet_name(w[0])));
    }
}

/// An option of git that takes a value is passed over together with the value.
pub proof fn law_git_values_are_passed_over(
    git: Seq<char>,
    option: Seq<char>,
    value: Seq<char>,
    rest: Seq<Seq<char>>,
)
    requires
        text::ascii_lower(git) == "git"@,
        takes_next_word(option),
    ensures
        command_is_safe(seq![git, option, value] + rest) ==> command_is_safe(seq![git] + rest),
        command_is_safe(seq![git] + rest) && is_harmless(seq![option, value]) ==> command_is_safe(
            seq![git, option, value] + rest,
        ),
{
    lemma_git_words();
    lemma_lower_is_bare(git, "git"@);
    lemma_option_words(option);
    let longer = seq![git, option, value] + rest;
    let shorter = seq![git] + rest;
    assert(longer.skip(1)[0] == option);
    assert(longer.skip(1).skip(2) =~= rest);
    assert(shorter.skip(1) =~= rest);
    assert(longer[0] == git && shorter[0] == git);
    assert(git_args_safe(longer.skip(1)) == git_args_safe(rest));
    lemma_git_not_looking();
    if command_is_safe(longer) {
        assert forall|i: int| 0 <= i < shorter.len() implies !is_side_effecting(
            cmdlet_name(#[trigger] shorter[i]),
        ) && !is_call_or_redirection(shorter[i]) by {
            if i > 0 {
                assert(shorter[i] == longer[i + 2]);
            } else {
                assert(shorter[0] == longer[0]);
            }
        }
    }
    if command_is_safe(shorter) && is_harmless(seq![option, value]) {
        lemma_harmless(seq![option, value]);
        assert(seq![option, value][0] == option && seq![option, value][1] == value);
        assert forall|i: int| 0 <= i < longer.len() implies !is_side_effecting(
            cmdlet_name(#[trigger] longer[i]),
        ) && !is_call_or_redirection(longer[i]) by {
            if i > 2 {
                assert(shorter[i - 2] == longer[i]);
            } else if i == 0 {
                assert(shorter[0] == longer[0]);
            }
        }
    }
}

/// Whether the word at `k` is the subcommand of a git command: no option, behind nothing but options
/// and values of options.
pub open spec fn is_subcommand_at(words: Seq<Seq<char>>, k: int) -> bool {
    &&& 1 <= k < words.len()
    &&& !is_option(words[k])
    &&& forall|j: int|
        1 <= j < k ==> is_option(#[trigger] words[j]) || (j > 1 && takes_next_word(words[j - 1]))
}

/// Of a git command that is safe, the first word that is neither an option nor the value of one is
/// `status`, `log`, `show`, `diff` or `cat-file`.
pub proof fn law_safe_git_command_only_reads(words: Seq<Seq<char>>)
    requires
        command_is_safe(words),
        cmdlet_name(words[0]) == "git"@,
    ensures
        exists|k: int| #[trigger]
            is_subcommand_at(words, k) && ({
                let subcommand = text::ascii_lower(words[k]);
                subcommand == "status"@ || subcommand == "log"@ || subcommand == "show"@
                    || subcommand == "diff"@ || subcommand == "cat-file"@
            }),
{
    lemma_git_not_looking();
    lemma_subcommand(words, 1);
}

proof fn lemma_subcommand(words: Seq<Seq<char>>, from: int)
    requires
        1 <= from <= words.len(),
        git_args_safe(words.skip(from)),
        forall|j: int|
            1 <= j < from ==> is_option(#[trigger] words[j]) || (j > 1 && takes_next_word(
                words[j - 1],
            )),
    ensures
        exists|k: int| #[trigger]
            is_subcommand_at(words, k) && git_only_reads(text::ascii_lower(words[k])),
    decreases words.len() - from,
{
    let args = words.skip(from);
    assert(args[0] == words[from]);
    lemma_option_words(args[0]);
    if is_option(args[0]) {
        if takes_next_word(args[0]) {
            assert(args.skip(2) =~= words.skip(from + 2));
            lemma_subcommand(words, from + 2);
        } else {
            assert(args.skip(1) =~= words.skip(from + 1));
            lemma_subcommand(words, from + 1);
        }
    } else {
        assert(is_subcommand_at(words, from));
    }
}

/// Whether an option of ripgrep, whatever the case of its letters, starts other programs.
pub open spec fn starts_programs(word: Seq<char>) -> bool {
    let lower = text::ascii_lower(word);
    ||| lower == "--search-zip"@
    ||| lower == "-z"@
    ||| lower == "--pre"@
    ||| lower == "--hostname-bin"@
    ||| lower.len() >= 6 && lower.take(6) == "--pre="@
    ||| lower.len() >= 15 && lower.take(15) == "--hostname-bin="@
}

/// A search with ripgrep is safe exactly where none of its harmless words is an option that starts
/// other programs.
pub proof fn law_ripgrep_starts_no_programs(words: Seq<Seq<char>>)
    requires
        words.len() > 0,
        cmdlet_name(words[0]) == "rg"@,
    ensures
        command_is_safe(words) ==> forall|i: int|
            1 <= i < words.len() ==> !starts_programs(#[trigger] words[i]),
        is_harmless(words) && (forall|i: int|
            1 <= i < words.len() ==> !starts_programs(#[trigger] words[i])) ==> command_is_safe(
            words,
        ),
{
    lemma_git_words();
    lemma_looking_names();
    reveal_strlit("--pre=");
    reveal_strlit("--hostname-bin=");
    assert(!only_looks("rg"@));
    assert forall|w: Seq<char>|
        text::begins(text::ascii_lower(w), "--pre="@) == (w.len() >= 6 && #[trigger]
        text::ascii_lower(w).take(6) == "--pre="@) by {
        assert(w.len() >= 6 ==> text::ascii_lower(w).subrange(0, 6) =~= text::ascii_lower(w).take(
            6,
        ));
    }
    assert forall|w: Seq<char>|
        text::begins(text::ascii_lower(w), "--hostname-bin="@) == (w.len() >= 15 && #[trigger]
        text::ascii_lower(w).take(15) == "--hostname-bin="@) by {
        assert(w.len() >= 15 ==> text::ascii_lower(w).subrange(0, 15) =~= text::ascii_lower(
            w,
        ).take(15));
    }
    if is_harmless(words) {
        lemma_harmless(words);
    }
    if command_is_safe(words) {
        assert forall|i: int| 1 <= i < words.len() implies !starts_programs(#[trigger] words[i]) by {
            assert(text::ascii_lower(words[i]).take(6) == text::ascii_lower(words[i]).take(6));
            assert(text::ascii_lower(words[i]).take(15) == text::ascii_lower(words[i]).take(15));
        }
    }
}

/// Whether a word names a PowerShell binary, whatever the case of its letters.
pub open spec fn names_powershell(word: Seq<char>) -> bool {
    let lower = text::ascii_lower(word);
    lower == "powershell"@ || lower == "powershell.exe"@ || lower == "pwsh"@ || lower
        == "pwsh.exe"@
}

/// Whether a word is the switch that has the script behind it.
pub open spec fn announces_script(word: Seq<char>) -> bool {
    let lower = text::ascii_lower(word);
    lower == "-command"@ || lower == "/command"@ || lower == "-c"@
}

/// Whether a word is a switch that changes nothing of what is run.
pub open spec fn changes_nothing(word: Seq<char>) -> bool {
    let lower = text::ascii_lower(word);
    lower == "-nologo"@ || lower == "-noprofile"@ || lower == "-noninteractive"@ || lower == "-mta"@
        || lower == "-sta"@
}

/// Nothing but a PowerShell binary with arguments is understood.
pub proof fn law_only_powershell_is_understood(command: Seq<Seq<char>>)
    ensures
        powershell_commands(command) is Some ==> command.len() > 1 && names_powershell(command[0]),
{
}

/// A script behind the switch for it is what is run, told apart into words as a shell does; and the
/// script must be there and be the last argument.
pub proof fn law_script_is_run(exe: Seq<char>, switch: Seq<char>, rest: Seq<Seq<char>>)
    requires
        names_powershell(exe),
        announces_script(switch),
    ensures
        rest.len() == 1 ==> powershell_commands(seq![exe, switch] + rest) == match
            shell_words::shlex_words(rest[0]) {
            Some(words) => commands_of(words),
            None => None,
        },
        rest.len() != 1 ==> powershell_commands(seq![exe, switch] + rest) is None,
{
    let command = seq![exe, switch] + rest;
    let args = command.skip(1);
    assert(args[0] == switch);
    assert(command[0] == exe);
    if rest.len() == 1 {
        assert(args[1] == rest[0]);
    }
}

/// A script may stand in the switch itself, behind a colon, which must then be the last argument.
pub proof fn law_inline_script_is_run(
    exe: Seq<char>,
    switch: Seq<char>,
    script: Seq<char>,
    rest: Seq<Seq<char>>,
)
    requires
        names_powershell(exe),
        text::ascii_lower(switch) == "-command:"@ || text::ascii_lower(switch) == "/command:"@,
    ensures
        rest.len() == 0 ==> powershell_commands(seq![exe, switch + script]) == match
            shell_words::shlex_words(script) {
            Some(words) => commands_of(words),
            None => None,
        },
        rest.len() > 0 ==> powershell_commands(seq![exe, switch + script] + rest) is None,
{
    reveal_strlit("-command:");
    reveal_strlit("/command:");
    reveal_strlit("-command");
    reveal_strlit("/command");
    reveal_strlit("-c");
    let word = switch + script;
    let lower = text::ascii_lower(word);
    assert(lower.subrange(0, 9) =~= text::ascii_lower(switch));
    assert(word.skip(9) =~= script);
    assert(lower.len() >= 9);
    let alone = seq![exe, word];
    assert(alone.skip(1) =~= seq![word]);
    assert(alone[0] == exe && alone.skip(1)[0] == word);
    let more = alone + rest;
    assert(more[0] == exe && more.skip(1)[0] == word);
}

/// A switch that changes nothing of what is run is passed over.
pub proof fn law_idle_switches_are_passed_over(
    exe: Seq<char>,
    switch: Seq<char>,
    rest: Seq<Seq<char>>,
)
    requires
        names_powershell(exe),
        changes_nothing(switch),
    ensures
        powershell_commands(seq![exe, switch] + rest) == powershell_commands(seq![exe] + rest),
{
    lemma_switch_words();
    let longer = seq![exe, switch] + rest;
    let shorter = seq![exe] + rest;
    assert(longer[0] == exe && shorter[0] == exe);
    assert(longer.skip(1)[0] == switch);
    assert(longer.skip(1).skip(1) =~= rest);
    assert(shorter.skip(1) =~= rest);
    let lower = text::ascii_lower(switch);
    assert(lower[1] == 'n' || lower[1] == 'm' || lower[1] == 's');
    if text::begins(lower, "-command:"@) || text::begins(lower, "/command:"@) {
        assert(lower.subrange(0, 9)[1] == lower[1]);
    }
}

proof fn lemma_switch_words()
    ensures
        "-command"@.len() == 8,
        "-command"@[1] == 'c',
        "/command"@.len() == 8,
        "/command"@[1] == 'c',
        "-c"@.len() == 2,
        "-c"@[1] == 'c',
        "-command:"@.len() == 9,
        "-command:"@[1] == 'c',
        "/command:"@.len() == 9,
        "/command:"@[1] == 'c',
        "-nologo"@.len() == 7,
        "-nologo"@[1] == 'n',
        "-noprofile"@.len() == 10,
        "-noprofile"@[1] == 'n',
        "-noninteractive"@.len() == 15,
        "-noninteractive"@[1] == 'n',
        "-mta"@.len() == 4,
        "-mta"@[1] == 'm',
        "-sta"@.len() == 4,
        "-sta"@[1] == 's',
        "/file"@.len() == 5,
        "/file"@[1] == 'f',
{
    reveal_strlit("-command");
    reveal_strlit("/command");
    reveal_strlit("-c");
    reveal_strlit("-command:");
    reveal_strlit("/command:");
    reveal_strlit("-nologo");
    reveal_strlit("-noprofile");
    reveal_strlit("-noninteractive");
    reveal_strlit("-mta");
    reveal_strlit("-sta");
    reveal_strlit("/file");
}

/// Any other switch, and a file to run, is refused.
pub proof fn law_other_switches_are_refused(
    exe: Seq<char>,
    switch: Seq<char>,
    rest: Seq<Seq<char>>,
)
    requires
        is_option(switch) || text::ascii_lower(switch) == "/file"@,
        !announces_script(switch),
        !changes_nothing(switch),
        switch.len() >= 9 ==> text::ascii_lower(switch).take(9) != "-command:"@,
    ensures
        powershell_commands(seq![exe, switch] + rest) is None,
{
    lemma_switch_words();
    lemma_option_words(switch);
    reveal_strlit("-");
    let command = seq![exe, switch] + rest;
    assert(command.skip(1)[0] == switch);
    let lower = text::ascii_lower(switch);
    if is_option(switch) {
        assert(lower[0] == text::ascii_lower_char(switch[0]));
        assert(lower.subrange(0, 1) =~= "-"@);
    }
    if switch.len() >= 9 {
        assert(lower.subrange(0, 9) =~= lower.take(9));
    }
    reveal_strlit("/command:");
    if text::begins(lower, "/command:"@) {
        assert(lower.subrange(0, 9)[0] == '/');
    }
}

/// Arguments that begin with no switch are the command itself.
pub proof fn law_direct_arguments_are_the_command(exe: Seq<char>, tokens: Seq<Seq<char>>)
    requires
        names_powershell(exe),
        tokens.len() > 0,
        tokens[0].len() == 0 || (tokens[0][0] != '-' && tokens[0][0] != '/'),
    ensures
        powershell_commands(seq![exe] + tokens) == commands_of(tokens),
{
    lemma_switch_words();
    let command = seq![exe] + tokens;
    assert(command.skip(1) =~= tokens);
    assert(command[0] == exe);
    let lower = text::ascii_lower(tokens[0]);
    reveal_strlit("-command");
    reveal_strlit("/command");
    reveal_strlit("-c");
    reveal_strlit("-command:");
    reveal_strlit("/command:");
    reveal_strlit("-nologo");
    reveal_strlit("-noprofile");
    reveal_strlit("-noninteractive");
    reveal_strlit("-mta");
    reveal_strlit("-sta");
    reveal_strlit("/file");
    reveal_strlit("-");
    if lower.len() > 0 {
        assert(lower[0] == text::ascii_lower_char(tokens[0][0]));
        if text::begins(lower, "-"@) {
            assert(lower.subrange(0, 1)[0] == lower[0]);
        }
        if text::begins(lower, "-command:"@) || text::begins(lower, "/command:"@) {
            assert(lower.subrange(0, 9)[0] == lower[0]);
        }
    }
}

/// A chain of two command sequences, joined by `|`, `||`, `&&` or `;`, is safe exactly where both are.
pub proof fn law_commands_are_chained(a: Seq<Seq<char>>, sep: Seq<char>, b: Seq<Seq<char>>)
    requires
        sep == "|"@ || sep == "||"@ || sep == "&&"@ || sep == ";"@,
    ensures
        commands_are_safe(commands_of(a.push(sep) + b)) <==> commands_are_safe(commands_of(a))
            && commands_are_safe(commands_of(b)),
{
    law_chain_safe_iff_both_safe(a, sep, b);
}

} // verus!
