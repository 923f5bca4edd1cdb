//! The user's policy on commands: which files hold it, and what a match means.
use vstd::prelude::*;

use crate::path;
use crate::protocol::AskForApproval;
use crate::text;
use crate::tools::sandboxing::ApprovalRequirement;

verus! {

/// What a policy says of a command.
#[derive(Debug, Clone, Copy, PartialEq, Eq, Structural)]
pub enum Decision {
    Allow,
    Prompt,
    Forbidden,
}

/// What a policy says of the commands of a command line: the strictest decision of the rules that
/// match, or that none matches.
#[derive(Debug, Clone, Copy, PartialEq, Eq, Structural)]
pub enum Evaluation {
    Match(Decision),
    NoMatch,
}

/// Why a policy cannot be loaded.
#[derive(Debug, PartialEq, Eq)]
pub enum ExecPolicyError {
    ReadDir { dir: String, source: String },
    ReadFile { path: String, source: String },
    ParsePolicy { path: String, source: String },
}

impl ExecPolicyError {
    /// The text of the error.
    pub open spec fn text(self) -> Seq<char> {
        match self {
            ExecPolicyError::ReadDir { dir, source } => "failed to read execpolicy files from "@
                + dir@ + ": "@ + source@,
            ExecPolicyError::ReadFile { path, source } => "failed to read execpolicy file "@ + path@
                + ": "@ + source@,
            ExecPolicyError::ParsePolicy { path, source } => "failed to parse execpolicy file "@
                + path@ + ": "@ + source@,
        }
    }

    /// The text of the error.
    pub fn message(&self) -> (r: String)
        ensures
            r@ == self.text(),
    {
        let (head, place, source): (&str, &String, &String) = match self {
            ExecPolicyError::ReadDir { dir, source } => (
                "failed to read execpolicy files from ",
                dir,
                source,
            ),
            ExecPolicyError::ReadFile { path, source } => (
                "failed to read execpolicy file ",
                path,
                source,
            ),
            ExecPolicyError::ParsePolicy { path, source } => (
                "failed to parse execpolicy file ",
                path,
                source,
            ),
        };
        let mut out = head.to_owned();
        out.append(place.as_str());
        out.append(": ");
        out.append(source.as_str());
        out
    }
}

/// The directory that holds the policy: none where the feature is off.
pub fn policy_dir(feature_enabled: bool, codex_home: &str, on_windows: bool) -> (r: Option<String>)
    ensures
        path::optional_text(r) == if feature_enabled {
            Some(path::joined_path(codex_home@, "policy"@, on_windows))
        } else {
            None
        },
{
    if feature_enabled {
        Some(path::join(codex_home, "policy", on_windows))
    } else {
        None
    }
}

/// The commands that the policy is asked about: those of a shell script of plain commands, else
/// the command itself.
pub fn commands_to_check(plain_commands: Option<Vec<Vec<String>>>, command: Vec<String>) -> (r: Vec<
    Vec<String>,
>)
    ensures
        match plain_commands {
            Some(commands) => r == commands,
            None => r@ == seq![command],
        },
{
    match plain_commands {
        Some(commands) => commands,
        None => {
            let mut out: Vec<Vec<String>> = Vec::new();
            out.push(command);
            assert(out@ =~= seq![command]);
            out
        },
    }
}

/// Whether `r` is what the policy demands for a command.
pub open spec fn is_policy_requirement(
    r: Option<ApprovalRequirement>,
    evaluation: Evaluation,
    approval_policy: AskForApproval,
) -> bool {
    match evaluation {
        Evaluation::NoMatch => r is None,
        Evaluation::Match(Decision::Allow) => r == Some(ApprovalRequirement::Skip),
        Evaluation::Match(Decision::Forbidden) => r matches Some(
            ApprovalRequirement::Forbidden { reason },
        ) && reason@ == "execpolicy forbids this command"@,
        Evaluation::Match(Decision::Prompt) => if approval_policy == AskForApproval::Never {
            r matches Some(ApprovalRequirement::Forbidden { reason }) && reason@
                == "execpolicy requires approval for this command"@
        } else {
            r matches Some(ApprovalRequirement::NeedsApproval { reason: Some(reason) }) && reason@
                == "execpolicy requires approval for this command"@
        },
    }
}

/// What the policy demands for a command: a prompt that nobody may be asked is a refusal.
pub fn evaluate_with_policy(evaluation: Evaluation, approval_policy: AskForApproval) -> (r: Option<
    ApprovalRequirement,
>)
    ensures
        is_policy_requirement(r, evaluation, approval_policy),
{
    match evaluation {
        Evaluation::Match(decision) => match decision {
            Decision::Forbidden => Some(
                ApprovalRequirement::Forbidden {
                    reason: "execpolicy forbids this command".to_owned(),
                },
            ),
            Decision::Prompt => {
                let reason = "execpolicy requires approval for this command".to_owned();
                if approval_policy == AskForApproval::Never {
                    Some(ApprovalRequirement::Forbidden { reason })
                } else {
                    Some(ApprovalRequirement::NeedsApproval { reason: Some(reason) })
                }
            },
            Decision::Allow => Some(ApprovalRequirement::Skip),
        },
        Evaluation::NoMatch => None,
    }
}

/// What is demanded before a command runs: what the policy demands; where it says nothing, an
/// approval if the command needs one by itself.
pub fn create_approval_requirement_for_command(
    evaluation: Evaluation,
    approval_policy: AskForApproval,
    requires_initial_approval: bool,
) -> (r: ApprovalRequirement)
    ensures
        match evaluation {
            Evaluation::Match(_) => is_policy_requirement(Some(r), evaluation, approval_policy),
            Evaluation::NoMatch => r == if requires_initial_approval {
                ApprovalRequirement::NeedsApproval { reason: None }
            } else {
                ApprovalRequirement::Skip
            },
        },
{
    match evaluate_with_policy(evaluation, approval_policy) {
        Some(requirement) => requirement,
        None => {
            if requires_initial_approval {
                ApprovalRequirement::NeedsApproval { reason: None }
            } else {
                ApprovalRequirement::Skip
            }
        },
    }
}

/// An entry of a directory.
#[derive(Debug)]
pub struct DirEntry {
    pub path: String,
    pub is_file: bool,
}

/// What reading a directory came to.
#[derive(Debug)]
pub enum DirListing {
    NotFound,
    Unreadable(String),
    /// The entries, in the order in which they came; an entry that cannot be read is its error.
    Entries(Vec<Result<DirEntry, String>>),
}

/// Whether an entry is a file with a policy.
pub open spec fn is_policy_file(entry: DirEntry, on_windows: bool) -> bool {
    path::last_extension(entry.path@, on_windows) == Some("codexpolicy"@) && entry.is_file
}

/// The policy files among the entries, in their order.
pub open spec fn policy_files(entries: Seq<Result<DirEntry, String>>, on_windows: bool) -> Seq<
    String,
>
    decreases entries.len(),
{
    if entries.len() == 0 {
        Seq::empty()
    } else {
        let before = policy_files(entries.drop_last(), on_windows);
        match entries.last() {
            Ok(entry) => if is_policy_file(entry, on_windows) {
                before.push(entry.path)
            } else {
                before
            },
            Err(_) => before,
        }
    }
}

/// The first error among the entries.
pub open spec fn first_error(entries: Seq<Result<DirEntry, String>>) -> Option<String>
    decreases entries.len(),
{
    if entries.len() == 0 {
        None
    } else {
        let before = first_error(entries.drop_last());
        if before is Some {
            before
        } else {
            match entries.last() {
                Err(e) => Some(e),
                Ok(_) => None,
            }
        }
    }
}

/// The numbers by which a name is ordered: one for each character, and an end below all of them.
pub open spec fn name_key(name: Seq<char>) -> Seq<int> {
    Seq::new(name.len(), |i: int| name[i] as u32 as int + 1) + seq![0int]
}

/// The number by which the kind of a prefix is ordered.
pub open spec fn kind_rank(kind: path::PrefixKind) -> int {
    match kind {
        path::PrefixKind::Verbatim => 0,
        path::PrefixKind::VerbatimUnc => 1,
        path::PrefixKind::VerbatimDisk => 2,
        path::PrefixKind::Device => 3,
        path::PrefixKind::Unc => 4,
        path::PrefixKind::Disk => 5,
    }
}

/// The numbers by which a component of a path is ordered: prefixes before the root, the root before
/// `.`, `.` before `..`, `..` before names; prefixes by their kinds and names, and names by their
/// characters.
pub open spec fn part_key(part: path::Part) -> Seq<int> {
    match part {
        path::Part::Prefix(p) => seq![0int, kind_rank(p.kind)] + name_key(p.first) + name_key(
            p.second,
        ),
        path::Part::Root => seq![1int],
        path::Part::Here => seq![2int],
        path::Part::Up => seq![3int],
        path::Part::Name(name) => seq![4int] + name_key(name),
    }
}

/// The numbers by which the components of a path are ordered.
pub open spec fn parts_key(parts: Seq<path::Part>) -> Seq<int>
    decreases parts.len(),
{
    if parts.len() == 0 {
        Seq::empty()
    } else {
        parts_key(parts.drop_last()) + part_key(parts.last())
    }
}

/// The numbers by which a path is ordered: component by component.
pub open spec fn path_key(p: Seq<char>, on_windows: bool) -> Seq<int> {
    parts_key(path::parts(p, on_windows))
}

/// Whether `a` does not come after `b` in lexicographic order.
pub open spec fn lex_le(a: Seq<int>, b: Seq<int>) -> bool
    decreases a.len(),
{
    if a.len() == 0 {
        true
    } else if b.len() == 0 {
        false
    } else if a[0] != b[0] {
        a[0] < b[0]
    } else {
        lex_le(a.skip(1), b.skip(1))
    }
}

/// Whether a list of paths is in order.
pub open spec fn in_path_order(list: Seq<String>, on_windows: bool) -> bool {
    forall|i: int, j: int|
        0 <= i < j < list.len() ==> lex_le(
            path_key((#[trigger] list[i])@, on_windows),
            path_key((#[trigger] list[j])@, on_windows),
        )
}

/// The paths of a list that compare equal to a path, in their order.
pub open spec fn alike(list: Seq<String>, p: Seq<char>, on_windows: bool) -> Seq<String>
    decreases list.len(),
{
    if list.len() == 0 {
        Seq::empty()
    } else {
        let before = alike(list.drop_last(), p, on_windows);
        if path_key(list.last()@, on_windows) == path_key(p, on_windows) {
            before.push(list.last())
        } else {
            before
        }
    }
}

proof fn lemma_alike_concat(a: Seq<String>, b: Seq<String>, p: Seq<char>, on_windows: bool)
    ensures
        alike(a + b, p, on_windows) == alike(a, p, on_windows) + alike(b, p, on_windows),
    decreases b.len(),
{
    if b.len() == 0 {
        assert(a + b =~= a);
    } else {
        lemma_alike_concat(a, b.drop_last(), p, on_windows);
        assert((a + b).drop_last() =~= a + b.drop_last());
        assert((a + b).last() == b.last());
    }
}

proof fn lemma_none_alike(list: Seq<String>, p: Seq<char>, on_windows: bool)
    requires
        forall|i: int|
            0 <= i < list.len() ==> path_key((#[trigger] list[i])@, on_windows) != path_key(
                p,
                on_windows,
            ),
    ensures
        alike(list, p, on_windows).len() == 0,
    decreases list.len(),
{
    if list.len() > 0 {
        let front = list.drop_last();
        assert forall|i: int| 0 <= i < front.len() implies path_key(
            (#[trigger] front[i])@,
            on_windows,
        ) != path_key(p, on_windows) by {
            assert(front[i] == list[i]);
        }
        lemma_none_alike(front, p, on_windows);
        assert(list[list.len() - 1] == list.last());
    }
}

/// A path that is put before none but those that come after it goes behind the paths that compare
/// equal to it.
proof fn lemma_alike_insert(
    list: Seq<String>,
    at: int,
    item: String,
    p: Seq<char>,
    on_windows: bool,
)
    requires
        0 <= at <= list.len(),
        forall|j: int|
            at <= j < list.len() ==> path_key((#[trigger] list[j])@, on_windows) != path_key(
                item@,
                on_windows,
            ),
    ensures
        alike(list.insert(at, item), p, on_windows) == alike(list.push(item), p, on_windows),
{
    let front = list.take(at);
    let back = list.skip(at);
    let one = seq![item];
    assert(list.insert(at, item) =~= front + one + back);
    assert(list.push(item) =~= front + back + one);
    lemma_alike_concat(front + one, back, p, on_windows);
    lemma_alike_concat(front, one, p, on_windows);
    lemma_alike_concat(front + back, one, p, on_windows);
    lemma_alike_concat(front, back, p, on_windows);
    if path_key(item@, on_windows) == path_key(p, on_windows) {
        assert forall|j: int| 0 <= j < back.len() implies path_key(
            (#[trigger] back[j])@,
            on_windows,
        ) != path_key(p, on_windows) by {
            assert(back[j] == list[at + j]);
        }
        lemma_none_alike(back, p, on_windows);
    } else {
        lemma_none_alike(one, p, on_windows);
    }
    assert(alike(list.insert(at, item), p, on_windows) =~= alike(
        list.push(item),
        p,
        on_windows,
    ));
}

proof fn lemma_lex_total(a: Seq<int>, b: Seq<int>)
    ensures
        lex_le(a, b) || lex_le(b, a),
    decreases a.len(),
{
    if a.len() > 0 && b.len() > 0 && a[0] == b[0] {
        lemma_lex_total(a.skip(1), b.skip(1));
    }
}

proof fn lemma_lex_transitive(a: Seq<int>, b: Seq<int>, c: Seq<int>)
    requires
        lex_le(a, b),
        lex_le(b, c),
    ensures
        lex_le(a, c),
    decreases a.len(),
{
    if a.len() > 0 && b.len() > 0 && c.len() > 0 && a[0] == b[0] && b[0] == c[0] {
        lemma_lex_transitive(a.skip(1), b.skip(1), c.skip(1));
    }
}

/// Keys over integers.
pub open spec fn key_model(key: Seq<u32>) -> Seq<int> {
    Seq::new(key.len(), |i: int| key[i] as int)
}

/// Adds the numbers by which a name is ordered.
fn push_name_key(out: &mut Vec<u32>, name: &str)
    ensures
        key_model(final(out)@) == key_model(old(out)@) + name_key(name@),
{
    let ghost before = key_model(out@);
    let chars = text::to_chars(name);
    let ghost codes = Seq::new(chars@.len(), |i: int| chars@[i] as u32 as int + 1);
    let mut j: usize = 0;
    assert(key_model(out@) =~= before + codes.take(0));
    while j < chars.len()
        invariant
            j <= chars@.len(),
            codes == Seq::new(chars@.len(), |i: int| chars@[i] as u32 as int + 1),
            key_model(out@) == before + codes.take(j as int),
        decreases chars@.len() - j,
    {
        let ghost so_far = key_model(out@);
        proof {
            vstd::utf8::char_is_scalar(chars@[j as int]);
        }
        let c: u32 = chars[j] as u32;
        out.push(c + 1);
        proof {
            assert(key_model(out@) =~= so_far.push(codes[j as int]));
            assert(codes.take(j + 1) =~= codes.take(j as int).push(codes[j as int]));
            assert(key_model(out@) =~= before + codes.take(j + 1));
        }
        j += 1;
    }
    let ghost so_far = key_model(out@);
    out.push(0);
    proof {
        assert(codes.take(j as int) =~= codes);
        assert(key_model(out@) =~= so_far.push(0int));
        assert(key_model(out@) =~= before + name_key(name@));
    }
}

/// The number by which the kind of a prefix is ordered.
fn rank_of(kind: path::PrefixKind) -> (r: u32)
    ensures
        r == kind_rank(kind),
{
    match kind {
        path::PrefixKind::Verbatim => 0,
        path::PrefixKind::VerbatimUnc => 1,
        path::PrefixKind::VerbatimDisk => 2,
        path::PrefixKind::Device => 3,
        path::PrefixKind::Unc => 4,
        path::PrefixKind::Disk => 5,
    }
}

/// The numbers by which a path is ordered.
fn order_key(p: &str, on_windows: bool) -> (r: Vec<u32>)
    ensures
        key_model(r@) == path_key(p@, on_windows),
{
    let parts = path::components(p, on_windows);
    let ghost models = path::models(parts@);
    let mut out: Vec<u32> = Vec::new();
    let mut i: usize = 0;
    assert(models.take(0) =~= Seq::empty());
    assert(key_model(out@) =~= parts_key(models.take(0)));
    while i < parts.len()
        invariant
            models == path::models(parts@),
            i <= parts@.len(),
            key_model(out@) == parts_key(models.take(i as int)),
        decreases parts@.len() - i,
    {
        let ghost before = key_model(out@);
        proof {
            assert(models.take(i + 1).drop_last() =~= models.take(i as int));
            assert(models.take(i + 1).last() == parts@[i as int].model());
        }
        match &parts[i] {
            path::PathPart::Prefix(p) => {
                out.push(0);
                out.push(rank_of(p.kind));
                assert(key_model(out@) =~= before + seq![0int, kind_rank(p.kind)]);
                push_name_key(&mut out, p.first.as_str());
                push_name_key(&mut out, p.second.as_str());
                assert(key_model(out@) =~= before + (seq![0int, kind_rank(p.kind)] + name_key(
                    p.first@,
                ) + name_key(p.second@)));
            },
            path::PathPart::Root => {
                out.push(1);
                assert(key_model(out@) =~= before + seq![1int]);
            },
            path::PathPart::Here => {
                out.push(2);
                assert(key_model(out@) =~= before + seq![2int]);
            },
            path::PathPart::Up => {
                out.push(3);
                assert(key_model(out@) =~= before + seq![3int]);
            },
            path::PathPart::Name(name) => {
                out.push(4);
                assert(key_model(out@) =~= before + seq![4int]);
                push_name_key(&mut out, name.as_str());
                assert(key_model(out@) =~= before + (seq![4int] + name_key(name@)));
            },
        }
        i += 1;
    }
    assert(models.take(i as int) =~= models);
    out
}

/// Whether `a` does not come after `b`.
fn key_le(a: &Vec<u32>, b: &Vec<u32>) -> (r: bool)
    ensures
        r == lex_le(key_model(a@), key_model(b@)),
{
    let ghost x = key_model(a@);
    let ghost y = key_model(b@);
    let mut i: usize = 0;
    assert(x.skip(0) =~= x);
    assert(y.skip(0) =~= y);
    while i < a.len() && i < b.len()
        invariant
            x == key_model(a@),
            y == key_model(b@),
            i <= a@.len(),
            i <= b@.len(),
            lex_le(x, y) == lex_le(x.skip(i as int), y.skip(i as int)),
        decreases a@.len() - i,
    {
        proof {
            assert(x.skip(i as int)[0] == a@[i as int]);
            assert(y.skip(i as int)[0] == b@[i as int]);
            assert(x.skip(i as int).skip(1) =~= x.skip(i + 1));
            assert(y.skip(i as int).skip(1) =~= y.skip(i + 1));
        }
        if a[i] != b[i] {
            return a[i] < b[i];
        }
        i += 1;
    }
    i == a.len()
}

/// Puts the paths in order. Paths that compare equal keep their order.
pub fn sort_paths(list: Vec<String>, on_windows: bool) -> (r: Vec<String>)
    ensures
        in_path_order(r@, on_windows),
        r@.to_multiset() == list@.to_multiset(),
        forall|p: Seq<char>| #[trigger]
            alike(r@, p, on_windows) == alike(list@, p, on_windows),
{
    let ghost all = list@;
    let mut rest = list;
    let mut out: Vec<String> = Vec::new();
    let n: usize = rest.len();
    let mut i: usize = 0;
    assert(all.take(0) =~= Seq::<String>::empty());
    assert(out@ =~= Seq::<String>::empty());
    while i < n
        invariant
            i <= n == all.len(),
            rest@ == all.skip(i as int),
            in_path_order(out@, on_windows),
            out@.to_multiset() == all.take(i as int).to_multiset(),
            out@.len() == i,
            forall|p: Seq<char>| #[trigger]
                alike(out@, p, on_windows) == alike(all.take(i as int), p, on_windows),
        decreases n - i,
    {
        let p = rest.remove(0);
        let ghost item = p;
        assert(p == all[i as int]);
        let key = order_key(p.as_str(), on_windows);
        let ghost before = out@;
        let mut at: usize = out.len();
        while at > 0
            invariant
                at <= out@.len(),
                out@ == before,
                in_path_order(before, on_windows),
                key_model(key@) == path_key(item@, on_windows),
                forall|j: int|
                    at <= j < before.len() ==> lex_le(
                        path_key(item@, on_windows),
                        path_key((#[trigger] before[j])@, on_windows),
                    ) && !lex_le(
                        path_key(before[j]@, on_windows),
                        path_key(item@, on_windows),
                    ),
            ensures
                at <= before.len(),
                forall|j: int|
                    at <= j < before.len() ==> lex_le(
                        path_key(item@, on_windows),
                        path_key((#[trigger] before[j])@, on_windows),
                    ) && !lex_le(
                        path_key(before[j]@, on_windows),
                        path_key(item@, on_windows),
                    ),
                at > 0 ==> lex_le(path_key(before[at - 1]@, on_windows), path_key(item@, on_windows)),
            decreases at,
        {
            let other = order_key(out[at - 1].as_str(), on_windows);
            if key_le(&other, &key) {
                break;
            }
            proof {
                lemma_lex_total(key_model(other@), key_model(key@));
            }
            at -= 1;
        }
        out.insert(at, p);
        proof {
            assert(out@ =~= before.insert(at as int, item));
            assert forall|x: int, y: int| 0 <= x < y < out@.len() implies lex_le(
                path_key((#[trigger] out@[x])@, on_windows),
                path_key((#[trigger] out@[y])@, on_windows),
            ) by {
                let bx = if x < at {
                    x
                } else {
                    x - 1
                };
                let by = if y < at {
                    y
                } else {
                    y - 1
                };
                if x == at {
                    assert(out@[y] == before[y - 1]);
                } else if y == at {
                    assert(out@[x] == before[x]);
                    if x < at - 1 {
                        assert(lex_le(
                            path_key(before[x]@, on_windows),
                            path_key(before[at - 1]@, on_windows),
                        ));
                        lemma_lex_transitive(
                            path_key(before[x]@, on_windows),
                            path_key(before[at - 1]@, on_windows),
                            path_key(item@, on_windows),
                        );
                    }
                } else {
                    assert(out@[x] == before[bx]);
                    assert(out@[y] == before[by]);
                }
            }
            lemma_lex_total(path_key(item@, on_windows), path_key(item@, on_windows));
            assert forall|q: Seq<char>| #[trigger]
                alike(out@, q, on_windows) == alike(all.take(i + 1), q, on_windows) by {
                lemma_alike_insert(before, at as int, item, q, on_windows);
                assert(before.push(item).drop_last() =~= before);
                assert(all.take(i + 1).drop_last() =~= all.take(i as int));
                assert(alike(before, q, on_windows) == alike(all.take(i as int), q, on_windows));
            }
            lemma_insert_multiset(before, at as int, item);
            assert(all.take(i + 1) =~= all.take(i as int).push(item));
            lemma_push_multiset(all.take(i as int), item);
            assert(rest@ =~= all.skip(i + 1));
        }
        i += 1;
    }
    assert(all.take(i as int) =~= all);
    out
}

proof fn lemma_push_multiset(s: Seq<String>, x: String)
    ensures
        s.push(x).to_multiset() == s.to_multiset().insert(x),
{
    broadcast use vstd::seq_lib::group_to_multiset_ensures;

}

proof fn lemma_insert_multiset(s: Seq<String>, at: int, x: String)
    requires
        0 <= at <= s.len(),
    ensures
        s.insert(at, x).to_multiset() == s.to_multiset().insert(x),
{
    broadcast use vstd::seq_lib::group_to_multiset_ensures;

    let t = s.insert(at, x);
    assert(t.remove(at) =~= s);
    assert(t[at] == x);
    assert(t.to_multiset().remove(x) =~= s.to_multiset());
    assert(t.to_multiset() =~= s.to_multiset().insert(x));
}

/// The files of a directory that hold a policy, in order. A directory that is not there holds
/// none; one that cannot be read is an error.
pub fn collect_policy_files(dir: &str, listing: DirListing, on_windows: bool) -> (r: Result<
    Vec<String>,
    ExecPolicyError,
>)
    ensures
        match listing {
            DirListing::NotFound => r matches Ok(files) && files@.len() == 0,
            DirListing::Unreadable(why) => r matches Err(
                ExecPolicyError::ReadDir { dir: d, source },
            ) && d@ == dir@ && source == why,
            DirListing::Entries(entries) => match first_error(entries@) {
                Some(why) => r matches Err(ExecPolicyError::ReadDir { dir: d, source }) && d@
                    == dir@ && source == why,
                None => r matches Ok(files) && {
                    let found = policy_files(entries@, on_windows);
                    &&& in_path_order(files@, on_windows)
                    &&& files@.to_multiset() == found.to_multiset()
                    &&& forall|p: Seq<char>| #[trigger]
                        alike(files@, p, on_windows) == alike(found, p, on_windows)
                },
            },
        },
{
    let entries = match listing {
        DirListing::NotFound => return Ok(Vec::new()),
        DirListing::Unreadable(source) => return Err(
            ExecPolicyError::ReadDir { dir: dir.to_owned(), source },
        ),
        DirListing::Entries(entries) => entries,
    };
    let ghost all = entries@;
    assert(listing->Entries_0@ == all);
    let mut rest = entries;
    let mut files: Vec<String> = Vec::new();
    let n: usize = rest.len();
    let mut i: usize = 0;
    assert(all.take(0) =~= Seq::empty());
    while i < n
        invariant
            i <= n == all.len(),
            rest@ == all.skip(i as int),
            listing matches DirListing::Entries(e) && e@ == all,
            files@ == policy_files(all.take(i as int), on_windows),
            first_error(all.take(i as int)) is None,
        decreases n - i,
    {
        let item = rest.remove(0);
        proof {
            assert(item == all[i as int]);
            assert(all.take(i + 1).drop_last() =~= all.take(i as int));
            assert(all.take(i + 1).last() == item);
        }
        match item {
            Err(source) => {
                proof {
                    lemma_first_error_stays(all, i + 1);
                }
                return Err(ExecPolicyError::ReadDir { dir: dir.to_owned(), source });
            },
            Ok(entry) => {
                let is_policy = match path::extension(entry.path.as_str(), on_windows) {
                    Some(ext) => text::same(ext.as_str(), "codexpolicy"),
                    None => false,
                };
                if is_policy && entry.is_file {
                    files.push(entry.path);
                }
            },
        }
        assert(rest@ =~= all.skip(i + 1));
        i += 1;
    }
    assert(all.take(i as int) =~= all);
    Ok(sort_paths(files, on_windows))
}

proof fn lemma_first_error_stays(entries: Seq<Result<DirEntry, String>>, k: int)
    requires
        0 <= k <= entries.len(),
        first_error(entries.take(k)) is Some,
    ensures
        first_error(entries) == first_error(entries.take(k)),
    decreases entries.len() - k,
{
    if k < entries.len() {
        assert(entries.take(k + 1).drop_last() =~= entries.take(k));
        lemma_first_error_stays(entries, k + 1);
    } else {
        assert(entries.take(k) =~= entries);
    }
}

/// What became of a file of policies.
#[derive(Debug)]
pub enum PolicyRead {
    Parsed,
    /// The file could not be read.
    Unreadable(String),
    /// The file holds no policy.
    Unparsable(String),
}

/// The error that a file of policies is, where it is one.
pub open spec fn policy_file_error(path: String, read: PolicyRead) -> Option<ExecPolicyError> {
    match read {
        PolicyRead::Parsed => None,
        PolicyRead::Unreadable(source) => Some(ExecPolicyError::ReadFile { path, source }),
        PolicyRead::Unparsable(source) => Some(ExecPolicyError::ParsePolicy { path, source }),
    }
}

/// Goes through the files of policies: the number of files that were loaded, or the first error.
pub fn exec_policy_for(files: Vec<(String, PolicyRead)>) -> (r: Result<usize, ExecPolicyError>)
    ensures
        match r {
            Ok(n) => n == files@.len() && forall|i: int|
                0 <= i < files@.len() ==> policy_file_error(
                    (#[trigger] files@[i]).0,
                    files@[i].1,
                ) is None,
            Err(e) => exists|k: int|
                {
                    &&& 0 <= k < files@.len()
                    &&& policy_file_error((#[trigger] files@[k]).0, files@[k].1) == Some(e)
                    &&& forall|i: int|
                        0 <= i < k ==> policy_file_error(
                            (#[trigger] files@[i]).0,
                            files@[i].1,
                        ) is None
                },
        },
{
    let ghost all = files@;
    let mut rest = files;
    let n: usize = rest.len();
    let mut i: usize = 0;
    assert(rest@ =~= all.skip(0));
    while i < n
        invariant
            all == files@,
            i <= n == all.len(),
            rest@ == all.skip(i as int),
            forall|j: int|
                0 <= j < i ==> policy_file_error((#[trigger] all[j]).0, all[j].1) is None,
        decreases n - i,
    {
        let (path, read) = rest.remove(0);
        proof {
            assert((path, read) == all[i as int]);
            assert(rest@ =~= all.skip(i + 1));
        }
        match read {
            PolicyRead::Parsed => {},
            PolicyRead::Unreadable(source) => {
                return Err(ExecPolicyError::ReadFile { path, source });
            },
            PolicyRead::Unparsable(source) => {
                return Err(ExecPolicyError::ParsePolicy { path, source });
            },
        }
        i += 1;
    }
    Ok(n)
}

/// Where the user is never asked, nothing that the policy matches waits for an approval.
pub proof fn law_never_asking_never_prompts(r: Option<ApprovalRequirement>, evaluation: Evaluation)
    requires
        is_policy_requirement(r, evaluation, AskForApproval::Never),
    ensures
        !(r matches Some(ApprovalRequirement::NeedsApproval { .. })),
{
}

/// What a policy decides is kept to: a command is let through only where it is allowed, refused only
/// where it is forbidden or where the user would have to be asked and may not be, and asked about
/// only where a rule says so; and where no rule matches the policy decides nothing.
pub proof fn law_policy_is_kept_to(
    r: Option<ApprovalRequirement>,
    evaluation: Evaluation,
    approval_policy: AskForApproval,
)
    requires
        is_policy_requirement(r, evaluation, approval_policy),
    ensures
        r is None <==> evaluation == Evaluation::NoMatch,
        r == Some(ApprovalRequirement::Skip) <==> evaluation == Evaluation::Match(Decision::Allow),
        (r is Some && r->0 is Forbidden) <==> evaluation == Evaluation::Match(Decision::Forbidden)
            || (evaluation == Evaluation::Match(Decision::Prompt) && approval_policy
            == AskForApproval::Never),
        (r is Some && r->0 is NeedsApproval) <==> evaluation == Evaluation::Match(Decision::Prompt)
            && approval_policy != AskForApproval::Never,
        evaluation == Evaluation::Match(Decision::Forbidden) ==> (r matches Some(
            ApprovalRequirement::Forbidden { reason },
        ) && reason@ == "execpolicy forbids this command"@),
        evaluation == Evaluation::Match(Decision::Prompt) ==> match r {
            Some(ApprovalRequirement::Forbidden { reason }) => reason@
                == "execpolicy requires approval for this command"@,
            Some(ApprovalRequirement::NeedsApproval { reason }) => reason is Some && (reason->0)@
                == "execpolicy requires approval for this command"@,
            _ => false,
        },
{
}

/// A file of the directory that ends in `.codexpolicy` is found, wherever it stands in the listing.
pub proof fn law_policy_file_is_found(
    entries: Seq<Result<DirEntry, String>>,
    i: int,
    entry: DirEntry,
    on_windows: bool,
)
    requires
        0 <= i < entries.len(),
        entries[i] == Ok::<DirEntry, String>(entry),
        entry.is_file,
        path::last_extension(entry.path@, on_windows) == Some("codexpolicy"@),
    ensures
        policy_files(entries, on_windows).contains(entry.path),
    decreases entries.len(),
{
    let before = policy_files(entries.drop_last(), on_windows);
    if i == entries.len() - 1 {
        assert(policy_files(entries, on_windows)[before.len() as int] == entry.path);
    } else {
        law_policy_file_is_found(entries.drop_last(), i, entry, on_windows);
        let k = choose|k: int| 0 <= k < before.len() && before[k] == entry.path;
        assert(policy_files(entries, on_windows)[k] == entry.path);
    }
}

/// Nothing but files that end in `.codexpolicy` is found, and each once for each time that it is
/// listed.
pub proof fn law_only_policy_files_are_found(
    entries: Seq<Result<DirEntry, String>>,
    k: int,
    on_windows: bool,
)
    requires
        0 <= k < policy_files(entries, on_windows).len(),
    ensures
        policy_files(entries, on_windows).len() <= entries.len(),
        exists|i: int|
            0 <= i < entries.len() && (#[trigger] entries[i] matches Ok(entry) && entry.is_file
                && entry.path == policy_files(entries, on_windows)[k] && path::last_extension(
                entry.path@,
                on_windows,
            ) == Some("codexpolicy"@)),
    decreases entries.len(),
{
    let shorter = entries.drop_last();
    let before = policy_files(shorter, on_windows);
    if before.len() > 0 {
        law_only_policy_files_are_found(shorter, 0, on_windows);
    }
    if k < before.len() {
        law_only_policy_files_are_found(shorter, k, on_windows);
        let i = choose|i: int|
            0 <= i < shorter.len() && (#[trigger] shorter[i] matches Ok(entry) && entry.is_file
                && entry.path == before[k] && path::last_extension(entry.path@, on_windows) == Some(
                "codexpolicy"@,
            ));
        assert(entries[i] == shorter[i]);
    } else {
        assert(entries[entries.len() - 1] is Ok);
    }
}

/// An error among the entries is never passed over, and it is the first that is told.
pub proof fn law_first_unreadable_entry_is_told(entries: Seq<Result<DirEntry, String>>, i: int)
    requires
        0 <= i < entries.len(),
        entries[i] is Err,
        forall|j: int| 0 <= j < i ==> #[trigger] entries[j] is Ok,
    ensures
        first_error(entries) == Some(entries[i]->Err_0),
    decreases entries.len(),
{
    let shorter = entries.drop_last();
    if i < shorter.len() {
        assert forall|j: int| 0 <= j < i implies #[trigger] shorter[j] is Ok by {
            assert(shorter[j] == entries[j]);
        }
        law_first_unreadable_entry_is_told(shorter, i);
    } else {
        assert forall|j: int| 0 <= j < shorter.len() implies #[trigger] shorter[j] is Ok by {
            assert(shorter[j] == entries[j]);
        }
        law_readable_entries_have_no_error(shorter);
    }
}

/// Where every entry can be read there is no error.
pub proof fn law_readable_entries_have_no_error(entries: Seq<Result<DirEntry, String>>)
    requires
        forall|j: int| 0 <= j < entries.len() ==> #[trigger] entries[j] is Ok,
    ensures
        first_error(entries) is None,
    decreases entries.len(),
{
    if entries.len() > 0 {
        let shorter = entries.drop_last();
        assert forall|j: int| 0 <= j < shorter.len() implies #[trigger] shorter[j] is Ok by {
            assert(shorter[j] == entries[j]);
        }
        law_readable_entries_have_no_error(shorter);
        assert(entries[entries.len() - 1] is Ok);
    }
}

proof fn lemma_lex_shared(s: Seq<int>, a: Seq<int>, b: Seq<int>)
    ensures
        lex_le(s + a, s + b) == lex_le(a, b),
    decreases s.len(),
{
    if s.len() == 0 {
        assert(s + a =~= a && s + b =~= b);
    } else {
        lemma_lex_shared(s.skip(1), a, b);
        assert((s + a).skip(1) =~= s.skip(1) + a);
        assert((s + b).skip(1) =~= s.skip(1) + b);
    }
}

proof fn lemma_parts_key_concat(p: Seq<path::Part>, a: Seq<path::Part>)
    ensures
        parts_key(p + a) == parts_key(p) + parts_key(a),
    decreases a.len(),
{
    if a.len() == 0 {
        assert(p + a =~= p);
        assert(parts_key(p) + parts_key(a) =~= parts_key(p));
    } else {
        lemma_parts_key_concat(p, a.drop_last());
        assert((p + a).drop_last() =~= p + a.drop_last());
        assert((p + a).last() == a.last());
        assert(parts_key(p + a) =~= parts_key(p) + parts_key(a));
    }
}

/// Two paths that begin alike stand in the order of what is left of them, and one that ends there
/// stands first: a directory before what is in it.
pub proof fn law_shared_beginning_does_not_matter(
    shared: Seq<path::Part>,
    a: Seq<path::Part>,
    b: Seq<path::Part>,
)
    ensures
        lex_le(parts_key(shared + a), parts_key(shared + b)) == lex_le(parts_key(a), parts_key(b)),
        lex_le(parts_key(shared), parts_key(shared + b)),
        b.len() > 0 ==> !lex_le(parts_key(shared + b), parts_key(shared)),
{
    lemma_parts_key_concat(shared, a);
    lemma_parts_key_concat(shared, b);
    lemma_lex_shared(parts_key(shared), parts_key(a), parts_key(b));
    let none = Seq::<int>::empty();
    lemma_lex_shared(parts_key(shared), none, parts_key(b));
    lemma_lex_shared(parts_key(shared), parts_key(b), none);
    assert(parts_key(shared) + none =~= parts_key(shared));
    if b.len() > 0 {
        assert(part_key(b.last()).len() > 0);
        assert(parts_key(b).len() > 0);
    }
}

proof fn lemma_single_part_key(x: path::Part, rest: Seq<path::Part>)
    ensures
        parts_key(seq![x] + rest) == part_key(x) + parts_key(rest),
{
    lemma_parts_key_concat(seq![x], rest);
    assert(seq![x].drop_last() =~= Seq::<path::Part>::empty());
    assert(seq![x].last() == x);
    assert(parts_key(Seq::<path::Part>::empty()) =~= Seq::<int>::empty());
    assert(parts_key(seq![x]) =~= part_key(x));
}

/// Where two paths first differ in a name, they stand in the order of the characters of the names:
/// by the first in which they differ.
pub proof fn law_names_are_ordered_by_characters(
    a: Seq<char>,
    b: Seq<char>,
    k: int,
    c: Seq<path::Part>,
    d: Seq<path::Part>,
)
    requires
        0 <= k < a.len(),
        k < b.len(),
        a.take(k) == b.take(k),
        (a[k] as u32) < (b[k] as u32),
    ensures
        lex_le(
            parts_key(seq![path::Part::Name(a)] + c),
            parts_key(seq![path::Part::Name(b)] + d),
        ),
        !lex_le(
            parts_key(seq![path::Part::Name(b)] + d),
            parts_key(seq![path::Part::Name(a)] + c),
        ),
{
    lemma_single_part_key(path::Part::Name(a), c);
    lemma_single_part_key(path::Part::Name(b), d);
    let x = part_key(path::Part::Name(a)) + parts_key(c);
    let y = part_key(path::Part::Name(b)) + parts_key(d);
    let n = k + 1;
    assert forall|i: int| 0 <= i < k implies #[trigger] a[i] == b[i] by {
        assert(a.take(k)[i] == a[i]);
        assert(b.take(k)[i] == b[i]);
    }
    assert forall|i: int| 0 <= i < n implies #[trigger] x[i] == y[i] by {
        if i > 0 {
            assert(a[i - 1] == b[i - 1]);
        }
    }
    assert(x.take(n) =~= y.take(n));
    assert(x.take(n) + x.skip(n) =~= x);
    assert(y.take(n) + y.skip(n) =~= y);
    lemma_lex_shared(x.take(n), x.skip(n), y.skip(n));
    lemma_lex_shared(x.take(n), y.skip(n), x.skip(n));
    assert(x.skip(n)[0] == a[k] as u32 as int + 1);
    assert(y.skip(n)[0] == b[k] as u32 as int + 1);
}

/// A name stands before every longer one that begins with it, whatever follows in the paths.
pub proof fn law_shorter_name_stands_first(
    a: Seq<char>,
    more: Seq<char>,
    c: Seq<path::Part>,
    d: Seq<path::Part>,
)
    requires
        more.len() > 0,
    ensures
        lex_le(
            parts_key(seq![path::Part::Name(a)] + c),
            parts_key(seq![path::Part::Name(a + more)] + d),
        ),
        !lex_le(
            parts_key(seq![path::Part::Name(a + more)] + d),
            parts_key(seq![path::Part::Name(a)] + c),
        ),
{
    lemma_single_part_key(path::Part::Name(a), c);
    lemma_single_part_key(path::Part::Name(a + more), d);
    let x = part_key(path::Part::Name(a)) + parts_key(c);
    let y = part_key(path::Part::Name(a + more)) + parts_key(d);
    let n = a.len() as int + 1;
    assert(x.take(n) =~= y.take(n));
    assert(x.take(n) + x.skip(n) =~= x);
    assert(y.take(n) + y.skip(n) =~= y);
    lemma_lex_shared(x.take(n), x.skip(n), y.skip(n));
    lemma_lex_shared(x.take(n), y.skip(n), x.skip(n));
    assert(x.skip(n)[0] == 0);
    assert(y.skip(n)[0] == more[0] as u32 as int + 1);
}

/// Of two paths that first differ in the kind of a part, one with a prefix stands before one with a
/// root, and those before the current directory, the parent directory and a name, in this order.
pub proof fn law_kinds_of_parts_are_ordered(
    prefix: path::Prefix,
    name: Seq<char>,
    c: Seq<path::Part>,
    d: Seq<path::Part>,
)
    ensures
        ({
            let order = seq![
                path::Part::Prefix(prefix),
                path::Part::Root,
                path::Part::Here,
                path::Part::Up,
                path::Part::Name(name),
            ];
            forall|i: int, j: int|
                0 <= i < j < 5 ==> lex_le(
                    parts_key(seq![#[trigger] order[i]] + c),
                    parts_key(seq![#[trigger] order[j]] + d),
                ) && !lex_le(parts_key(seq![order[j]] + d), parts_key(seq![order[i]] + c))
        }),
{
    let order = seq![
        path::Part::Prefix(prefix),
        path::Part::Root,
        path::Part::Here,
        path::Part::Up,
        path::Part::Name(name),
    ];
    assert forall|i: int, j: int| 0 <= i < j < 5 implies lex_le(
        parts_key(seq![#[trigger] order[i]] + c),
        parts_key(seq![#[trigger] order[j]] + d),
    ) && !lex_le(parts_key(seq![order[j]] + d), parts_key(seq![order[i]] + c)) by {
        lemma_single_part_key(order[i], c);
        lemma_single_part_key(order[j], d);
        assert(part_key(order[i])[0] == i);
        assert(part_key(order[j])[0] == j);
    }
}

/// A policy that cannot be read is told apart from one that makes no sense, each with its path and
/// the reason.
pub proof fn law_policy_file_error_tells_why(path: String, source: String)
    ensures
        policy_file_error(path, PolicyRead::Parsed) is None,
        policy_file_error(path, PolicyRead::Unreadable(source)) == Some(
            ExecPolicyError::ReadFile { path, source },
        ),
        policy_file_error(path, PolicyRead::Unparsable(source)) == Some(
            ExecPolicyError::ParsePolicy { path, source },
        ),
        (ExecPolicyError::ReadFile { path, source }).text() == "failed to read execpolicy file "@
            + path@ + ": "@ + source@,
        (ExecPolicyError::ParsePolicy { path, source }).text()
            == "failed to parse execpolicy file "@ + path@ + ": "@ + source@,
        (ExecPolicyError::ReadDir { dir: path, source }).text()
            == "failed to read execpolicy files from "@ + path@ + ": "@ + source@,
{
}

/// What is required of a command: what the policy says, where a rule matches; and where none does,
/// an approval exactly where one is wanted from the beginning.
pub proof fn law_policy_comes_before_the_usual_question(
    evaluation: Evaluation,
    approval_policy: AskForApproval,
    wanted: bool,
    r: ApprovalRequirement,
)
    requires
        call_ensures(
            create_approval_requirement_for_command,
            (evaluation, approval_policy, wanted),
            r,
        ),
    ensures
        evaluation == Evaluation::NoMatch && wanted ==> r == (ApprovalRequirement::NeedsApproval {
            reason: None,
        }),
        evaluation == Evaluation::NoMatch && !wanted ==> r == ApprovalRequirement::Skip,
        evaluation == Evaluation::Match(Decision::Allow) ==> r == ApprovalRequirement::Skip,
        evaluation == Evaluation::Match(Decision::Forbidden) ==> r is Forbidden,
        evaluation == Evaluation::Match(Decision::Prompt) ==> if approval_policy
            == AskForApproval::Never {
            r is Forbidden
        } else {
            r is NeedsApproval
        },
{
}

/// The commands of a command line are checked one by one where they can be told apart, and else the
/// line as a whole.
pub proof fn law_commands_are_checked_one_by_one(
    plain: Option<Vec<Vec<String>>>,
    command: Vec<String>,
    r: Vec<Vec<String>>,
)
    requires
        call_ensures(commands_to_check, (plain, command), r),
    ensures
        plain is Some ==> r == plain->0,
        plain is None ==> r@ == seq![command],
{
}

/// A policy lies in a directory of its own beside the other settings, and is looked for only where
/// the feature is on.
pub proof fn law_policy_has_a_directory(
    enabled: bool,
    home: &str,
    on_windows: bool,
    r: Option<String>,
)
    requires
        call_ensures(policy_dir, (enabled, home, on_windows), r),
    ensures
        r is Some <==> enabled,
        enabled ==> (r->0)@ == path::joined_path(home@, "policy"@, on_windows),
{
}

/// The files of a policy are all those of its directory that end in `.codexpolicy`, no other, and in
/// the order of their paths; a directory that is not there has none, and one that cannot be read is
/// an error.
pub proof fn law_policy_files_are_collected_in_order(
    dir: &str,
    listing: DirListing,
    on_windows: bool,
    r: Result<Vec<String>, ExecPolicyError>,
    i: int,
    j: int,
)
    requires
        call_ensures(collect_policy_files, (dir, listing, on_windows), r),
    ensures
        match listing {
            DirListing::NotFound => r is Ok && (r->Ok_0)@.len() == 0,
            DirListing::Unreadable(why) => r matches Err(ExecPolicyError::ReadDir { dir: d, source })
                && d@ == dir@ && source == why,
            DirListing::Entries(entries) => {
                &&& r is Err <==> exists|k: int|
                    0 <= k < entries@.len() && (#[trigger] entries@[k]) is Err
                &&& r matches Ok(files) ==> {
                    &&& 0 <= i < j < files@.len() ==> lex_le(
                        parts_key(path::parts(files@[i]@, on_windows)),
                        parts_key(path::parts(files@[j]@, on_windows)),
                    )
                    &&& 0 <= i < files@.len() ==> path::last_extension(files@[i]@, on_windows)
                        == Some("codexpolicy"@)
                    &&& 0 <= j < entries@.len() && (entries@[j] matches Ok(entry) && entry.is_file
                        && path::last_extension(entry.path@, on_windows) == Some("codexpolicy"@))
                        ==> files@.contains((entries@[j]->Ok_0).path)
                }
            },
        },
{
    if let DirListing::Entries(entries) = listing {
        if exists|k: int| 0 <= k < entries@.len() && (#[trigger] entries@[k]) is Err {
            lemma_some_error(entries@);
        } else {
            assert forall|k: int| 0 <= k < entries@.len() implies (#[trigger] entries@[k])
                is Ok by {}
            law_readable_entries_have_no_error(entries@);
            let files = (r->Ok_0)@;
            let found = policy_files(entries@, on_windows);
            files.to_multiset_ensures();
            found.to_multiset_ensures();
            if 0 <= i < files.len() {
                assert(files.contains(files[i]));
                assert(files.to_multiset().count(files[i]) > 0);
                assert(found.to_multiset().count(files[i]) > 0);
                assert(found.contains(files[i]));
                let k = choose|k: int| 0 <= k < found.len() && found[k] == files[i];
                law_only_policy_files_are_found(entries@, k, on_windows);
            }
            if 0 <= j < entries@.len() {
                let entry = entries@[j]->Ok_0;
                if entry.is_file && path::last_extension(entry.path@, on_windows) == Some(
                    "codexpolicy"@,
                ) {
                    law_policy_file_is_found(entries@, j, entry, on_windows);
                    assert(found.to_multiset().count(entry.path) > 0);
                    assert(files.to_multiset().count(entry.path) > 0);
                }
            }
        }
    }
}

proof fn lemma_some_error(entries: Seq<Result<DirEntry, String>>)
    requires
        exists|k: int| 0 <= k < entries.len() && (#[trigger] entries[k]) is Err,
    ensures
        first_error(entries) is Some,
    decreases entries.len(),
{
    let k = choose|k: int| 0 <= k < entries.len() && (#[trigger] entries[k]) is Err;
    if k < entries.len() - 1 {
        assert(entries.drop_last()[k] == entries[k]);
        lemma_some_error(entries.drop_last());
    }
}

/// Of two paths with prefixes of different kinds, the one that is taken word by word stands first,
/// and among those one without a server or drive; next come devices, servers and drives.
pub proof fn law_kinds_of_prefixes_are_ordered(
    a: path::Prefix,
    b: path::Prefix,
    c: Seq<path::Part>,
    d: Seq<path::Part>,
)
    requires
        ({
            let rank = |k: path::PrefixKind|
                match k {
                    path::PrefixKind::Verbatim => 1int,
                    path::PrefixKind::VerbatimUnc => 2,
                    path::PrefixKind::VerbatimDisk => 3,
                    path::PrefixKind::Device => 4,
                    path::PrefixKind::Unc => 5,
                    path::PrefixKind::Disk => 6,
                };
            rank(a.kind) < rank(b.kind)
        }),
    ensures
        lex_le(
            parts_key(seq![path::Part::Prefix(a)] + c),
            parts_key(seq![path::Part::Prefix(b)] + d),
        ),
        !lex_le(
            parts_key(seq![path::Part::Prefix(b)] + d),
            parts_key(seq![path::Part::Prefix(a)] + c),
        ),
{
    lemma_single_part_key(path::Part::Prefix(a), c);
    lemma_single_part_key(path::Part::Prefix(b), d);
    let x = part_key(path::Part::Prefix(a)) + parts_key(c);
    let y = part_key(path::Part::Prefix(b)) + parts_key(d);
    assert(x[0] == 0 && y[0] == 0);
    assert(x.skip(1)[0] == kind_rank(a.kind));
    assert(y.skip(1)[0] == kind_rank(b.kind));
    reveal_with_fuel(lex_le, 2);
}

} // verus!
