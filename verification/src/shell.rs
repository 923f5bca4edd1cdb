//! The user's shell: which one it is, where it lives, and how it is told to run a command.
use vstd::prelude::*;

use crate::path;
use crate::shell_words;
use crate::text;

verus! {

#[derive(Debug, PartialEq, Eq, Clone, Copy, Structural)]
pub enum ShellType {
    Zsh,
    Bash,
    PowerShell,
}

#[derive(Debug, PartialEq, Eq, Clone)]
pub struct ZshShell {
    pub shell_path: String,
}

#[derive(Debug, PartialEq, Eq, Clone)]
pub struct BashShell {
    pub shell_path: String,
}

#[derive(Debug, PartialEq, Eq, Clone)]
pub struct PowerShellConfig {
    /// Executable name or path, e.g. "pwsh" or "powershell.exe".
    pub shell_path: String,
}

#[derive(Debug, PartialEq, Eq, Clone)]
pub enum Shell {
    Zsh(ZshShell),
    Bash(BashShell),
    PowerShell(PowerShellConfig),
    Unknown,
}

/// What the machine says about itself and the shells on it.
#[derive(Debug, PartialEq, Eq, Clone)]
pub struct HostShells {
    pub platform: Platform,
    /// The login shell of the current user.
    pub user_shell: Option<String>,
    /// Of the paths that may be asked for, those that are regular files.
    pub files: Vec<String>,
    /// Where a search of the executable path finds `zsh`.
    pub zsh: Option<String>,
    /// Where a search of the executable path finds `bash`.
    pub bash: Option<String>,
    /// Where a search of the executable path finds `pwsh`.
    pub pwsh: Option<String>,
    /// Where a search of the executable path finds `powershell`.
    pub powershell: Option<String>,
}

/// The operating system, as far as the form of paths and the choice of a default shell depend on
/// it.
#[derive(Debug, PartialEq, Eq, Clone, Copy, Structural)]
pub enum Platform {
    Windows,
    MacOs,
    Other,
}

/// Where zsh is looked for last.
pub const ZSH_FALLBACK_PATH: &'static str = "/bin/zsh";

/// Where bash is looked for last.
pub const BASH_FALLBACK_PATH: &'static str = "/bin/bash";

/// Where PowerShell is looked for last.
pub const POWERSHELL_FALLBACK_PATH: &'static str = "/usr/local/bin/pwsh";

/// The shell that a path names: by the whole path, or by its last component with one extension
/// after another taken off.
pub open spec fn shell_type_of(shell_path: Seq<char>, on_windows: bool) -> Option<ShellType>
    decreases shell_path.len(),
{
    if shell_path == "zsh"@ {
        Some(ShellType::Zsh)
    } else if shell_path == "bash"@ {
        Some(ShellType::Bash)
    } else if shell_path == "pwsh"@ || shell_path == "powershell"@ {
        Some(ShellType::PowerShell)
    } else {
        match path::last_stem(shell_path, on_windows) {
            Some(name) => {
                if path::parts(name, on_windows) != path::parts(shell_path, on_windows) {
                    proof {
                        path::lemma_stem_is_shorter(shell_path, on_windows);
                    }
                    shell_type_of(name, on_windows)
                } else {
                    None
                }
            },
            None => None,
        }
    }
}

/// A shell over characters: its type and its path.
pub open spec fn shell_model(shell: Shell) -> Option<(ShellType, Seq<char>)> {
    match shell {
        Shell::Zsh(z) => Some((ShellType::Zsh, z.shell_path@)),
        Shell::Bash(b) => Some((ShellType::Bash, b.shell_path@)),
        Shell::PowerShell(p) => Some((ShellType::PowerShell, p.shell_path@)),
        Shell::Unknown => None,
    }
}

/// A found shell over characters; `Shell::Unknown` counts as none found.
pub open spec fn found_shell_model(shell: Option<Shell>) -> Option<(ShellType, Seq<char>)> {
    match shell {
        Some(s) => shell_model(s),
        None => None,
    }
}

/// The first of `a` and `b` that is there.
pub open spec fn first_of<T>(a: Option<T>, b: Option<T>) -> Option<T> {
    if a is Some {
        a
    } else {
        b
    }
}

impl HostShells {
    /// Whether the paths are those of Windows.
    pub open spec fn on_windows(self) -> bool {
        self.platform == Platform::Windows
    }

    /// Whether the path is a regular file.
    pub open spec fn has_file(self, file: Seq<char>) -> bool {
        text::texts(self.files@).contains(file)
    }

    /// The user's login shell, where it is one of the type.
    pub open spec fn user_shell_of(self, shell_type: ShellType) -> Option<Seq<char>> {
        match self.user_shell {
            Some(own) => if shell_type_of(own@, self.on_windows()) == Some(shell_type) {
                Some(own@)
            } else {
                None
            },
            None => None,
        }
    }
}

/// The path of a shell: the provided one where it is a file; else the user's own where it is of
/// the type; else the one that was found by its name; else the first fallback that is a file.
pub open spec fn shell_path_of(
    host: HostShells,
    shell_type: ShellType,
    provided: Option<Seq<char>>,
    found: Option<Seq<char>>,
    fallback: Option<Seq<char>>,
) -> Option<Seq<char>> {
    if provided is Some && host.has_file(provided->0) {
        provided
    } else if host.user_shell_of(shell_type) is Some {
        host.user_shell_of(shell_type)
    } else if found is Some {
        found
    } else if fallback is Some && host.has_file(fallback->0) {
        fallback
    } else {
        None
    }
}

/// The path of the shell of a type on this machine.
pub open spec fn located(
    host: HostShells,
    shell_type: ShellType,
    provided: Option<Seq<char>>,
) -> Option<Seq<char>> {
    match shell_type {
        ShellType::Zsh => shell_path_of(
            host,
            shell_type,
            provided,
            path::optional_text(host.zsh),
            Some(ZSH_FALLBACK_PATH@),
        ),
        ShellType::Bash => shell_path_of(
            host,
            shell_type,
            provided,
            path::optional_text(host.bash),
            Some(BASH_FALLBACK_PATH@),
        ),
        ShellType::PowerShell => first_of(
            shell_path_of(
                host,
                shell_type,
                provided,
                path::optional_text(host.pwsh),
                Some(POWERSHELL_FALLBACK_PATH@),
            ),
            shell_path_of(host, shell_type, provided, path::optional_text(host.powershell), None),
        ),
    }
}

/// The shell of a type on this machine.
pub open spec fn located_shell(
    host: HostShells,
    shell_type: ShellType,
    provided: Option<Seq<char>>,
) -> Option<(ShellType, Seq<char>)> {
    match located(host, shell_type, provided) {
        Some(found) => Some((shell_type, found)),
        None => None,
    }
}

/// The shell that a path given by the model stands for.
pub open spec fn model_provided_shell(host: HostShells, shell_path: Seq<char>) -> Option<
    (ShellType, Seq<char>),
> {
    match shell_type_of(shell_path, host.on_windows()) {
        Some(shell_type) => located_shell(host, shell_type, Some(shell_path)),
        None => None,
    }
}

/// The shell that the user logs in with, where its type is known and it can be found.
pub open spec fn login_shell(host: HostShells) -> Option<(ShellType, Seq<char>)> {
    match host.user_shell {
        Some(own) => match shell_type_of(own@, host.on_windows()) {
            Some(shell_type) => located_shell(host, shell_type, None),
            None => None,
        },
        None => None,
    }
}

/// The shell to use when nothing else is asked for.
pub open spec fn default_shell_model(host: HostShells) -> Option<
    (ShellType, Seq<char>),
> {
    match host.platform {
        Platform::Windows => located_shell(host, ShellType::PowerShell, None),
        Platform::MacOs => first_of(
            first_of(login_shell(host), located_shell(host, ShellType::Zsh, None)),
            located_shell(host, ShellType::Bash, None),
        ),
        Platform::Other => first_of(
            first_of(login_shell(host), located_shell(host, ShellType::Bash, None)),
            located_shell(host, ShellType::Zsh, None),
        ),
    }
}

/// The display name of a shell.
pub open spec fn shell_name(shell: Shell, on_windows: bool) -> Option<Seq<char>> {
    match shell {
        Shell::Zsh(z) => path::last_name(z.shell_path@, on_windows),
        Shell::Bash(b) => path::last_name(b.shell_path@, on_windows),
        Shell::PowerShell(p) => path::last_stem(p.shell_path@, on_windows),
        Shell::Unknown => None,
    }
}

/// The arguments that make a shell run a command, given the words of the command.
pub open spec fn exec_args(
    shell: Shell,
    command: Seq<char>,
    use_login_shell: bool,
    words: Option<Seq<Seq<char>>>,
) -> Seq<Seq<char>> {
    match shell_model(shell) {
        Some((ShellType::PowerShell, exe)) => {
            if use_login_shell {
                seq![exe, "-Command"@, command]
            } else {
                seq![exe, "-NoProfile"@, "-Command"@, command]
            }
        },
        Some((_, exe)) => {
            seq![
                exe,
                if use_login_shell {
                    "-lc"@
                } else {
                    "-c"@
                },
                command,
            ]
        },
        None => match words {
            Some(w) => w,
            None => seq![command],
        },
    }
}

impl Shell {
    pub fn name(&self, on_windows: bool) -> (r: Option<String>)
        ensures
            path::optional_text(r) == shell_name(*self, on_windows),
    {
        match self {
            Shell::Zsh(z) => path::file_name(z.shell_path.as_str(), on_windows),
            Shell::Bash(b) => path::file_name(b.shell_path.as_str(), on_windows),
            Shell::PowerShell(p) => path::file_stem(p.shell_path.as_str(), on_windows),
            Shell::Unknown => None,
        }
    }

    /// Takes a string of shell and returns the full list of command args to use with `exec()` to
    /// run the shell command.
    pub fn derive_exec_args(&self, command: &str, use_login_shell: bool) -> (args: Vec<String>)
        ensures
            text::texts(args@) == exec_args(
                *self,
                command@,
                use_login_shell,
                shell_words::shlex_words(command@),
            ),
    {
        match self {
            Shell::Unknown => {
                let words = shell_words::shlex_split(command);
                self.exec_args_with_words(command, use_login_shell, words)
            },
            _ => self.exec_args_with_words(command, use_login_shell, None),
        }
    }

    /// The arguments of [`Shell::derive_exec_args`], given the words of the command.
    pub fn exec_args_with_words(
        &self,
        command: &str,
        use_login_shell: bool,
        words: Option<Vec<String>>,
    ) -> (args: Vec<String>)
        ensures
            text::texts(args@) == exec_args(
                *self,
                command@,
                use_login_shell,
                shell_words::optional_texts(words),
            ),
    {
        let mut args: Vec<String> = Vec::new();
        match self {
            Shell::Zsh(ZshShell { shell_path }) | Shell::Bash(BashShell { shell_path }) => {
                args.push(shell_path.clone());
                args.push(
                    if use_login_shell {
                        "-lc".to_owned()
                    } else {
                        "-c".to_owned()
                    },
                );
                args.push(command.to_owned());
                assert(text::texts(args@) =~= seq![
                    shell_path@,
                    if use_login_shell {
                        "-lc"@
                    } else {
                        "-c"@
                    },
                    command@,
                ]);
                args
            },
            Shell::PowerShell(p) => {
                args.push(p.shell_path.clone());
                if !use_login_shell {
                    args.push("-NoProfile".to_owned());
                }
                args.push("-Command".to_owned());
                args.push(command.to_owned());
                assert(text::texts(args@) =~= if use_login_shell {
                    seq![p.shell_path@, "-Command"@, command@]
                } else {
                    seq![p.shell_path@, "-NoProfile"@, "-Command"@, command@]
                });
                args
            },
            Shell::Unknown => match words {
                Some(w) => w,
                None => {
                    args.push(command.to_owned());
                    assert(text::texts(args@) =~= seq![command@]);
                    args
                },
            },
        }
    }
}

/// The characters of an optional path.
pub open spec fn path_text(p: Option<&String>) -> Option<Seq<char>> {
    match p {
        Some(s) => Some(s@),
        None => None,
    }
}

/// A path where it is a regular file.
fn file_exists(host: &HostShells, file: &str) -> (r: bool)
    ensures
        r == host.has_file(file@),
{
    text::is_one_of(file, &host.files)
}

/// The path of a shell of the type: the provided one, the user's own, the one found by its name,
/// or the fallback.
fn get_shell_path(
    host: &HostShells,
    shell_type: ShellType,
    provided_path: Option<&String>,
    found: &Option<String>,
    fallback_path: Option<&str>,
) -> (r: Option<String>)
    ensures
        path::optional_text(r) == shell_path_of(
            *host,
            shell_type,
            path_text(provided_path),
            path::optional_text(*found),
            match fallback_path {
                Some(f) => Some(f@),
                None => None,
            },
        ),
{
    if let Some(provided) = provided_path {
        if file_exists(host, provided.as_str()) {
            return Some(provided.clone());
        }
    }
    if let Some(own) = &host.user_shell {
        match detect_shell_type(own, host.platform == Platform::Windows) {
            Some(own_type) => {
                if own_type == shell_type {
                    return Some(own.clone());
                }
            },
            None => {},
        }
    }
    if let Some(f) = found {
        return Some(f.clone());
    }
    if let Some(fallback) = fallback_path {
        if file_exists(host, fallback) {
            return Some(fallback.to_owned());
        }
    }
    None
}

pub fn get_zsh_shell(path: Option<&String>, host: &HostShells) -> (r: Option<ZshShell>)
    ensures
        match r {
            Some(z) => located(*host, ShellType::Zsh, path_text(path)) == Some(z.shell_path@),
            None => located(*host, ShellType::Zsh, path_text(path)) is None,
        },
{
    match get_shell_path(host, ShellType::Zsh, path, &host.zsh, Some(ZSH_FALLBACK_PATH)) {
        Some(shell_path) => Some(ZshShell { shell_path }),
        None => None,
    }
}

pub fn get_bash_shell(path: Option<&String>, host: &HostShells) -> (r: Option<BashShell>)
    ensures
        match r {
            Some(b) => located(*host, ShellType::Bash, path_text(path)) == Some(b.shell_path@),
            None => located(*host, ShellType::Bash, path_text(path)) is None,
        },
{
    match get_shell_path(host, ShellType::Bash, path, &host.bash, Some(BASH_FALLBACK_PATH)) {
        Some(shell_path) => Some(BashShell { shell_path }),
        None => None,
    }
}

pub fn get_powershell_shell(path: Option<&String>, host: &HostShells) -> (r: Option<
    PowerShellConfig,
>)
    ensures
        match r {
            Some(p) => located(*host, ShellType::PowerShell, path_text(path)) == Some(
                p.shell_path@,
            ),
            None => located(*host, ShellType::PowerShell, path_text(path)) is None,
        },
{
    match get_shell_path(
        host,
        ShellType::PowerShell,
        path,
        &host.pwsh,
        Some(POWERSHELL_FALLBACK_PATH),
    ) {
        Some(shell_path) => Some(PowerShellConfig { shell_path }),
        None => match get_shell_path(
            host,
            ShellType::PowerShell,
            path,
            &host.powershell,
            None,
        ) {
            Some(shell_path) => Some(PowerShellConfig { shell_path }),
            None => None,
        },
    }
}

/// The shell that a path given by the model stands for, or `Shell::Unknown`.
pub fn get_shell_by_model_provided_path(shell_path: &String, host: &HostShells) -> (r: Shell)
    ensures
        shell_model(r) == model_provided_shell(*host, shell_path@),
{
    match detect_shell_type(shell_path, host.platform == Platform::Windows) {
        Some(shell_type) => match get_shell(shell_type, Some(shell_path), host) {
            Some(shell) => shell,
            None => Shell::Unknown,
        },
        None => Shell::Unknown,
    }
}

/// The shell of a type on this machine.
pub fn get_shell(shell_type: ShellType, path: Option<&String>, host: &HostShells) -> (r: Option<
    Shell,
>)
    ensures
        r is Some <==> located(*host, shell_type, path_text(path)) is Some,
        found_shell_model(r) == located_shell(*host, shell_type, path_text(path)),
{
    match shell_type {
        ShellType::Zsh => match get_zsh_shell(path, host) {
            Some(shell) => Some(Shell::Zsh(shell)),
            None => None,
        },
        ShellType::Bash => match get_bash_shell(path, host) {
            Some(shell) => Some(Shell::Bash(shell)),
            None => None,
        },
        ShellType::PowerShell => match get_powershell_shell(path, host) {
            Some(shell) => Some(Shell::PowerShell(shell)),
            None => None,
        },
    }
}

/// The shell that a path names.
pub fn detect_shell_type(shell_path: &String, on_windows: bool) -> (r: Option<ShellType>)
    ensures
        r == shell_type_of(shell_path@, on_windows),
    decreases shell_path@.len(),
{
    let p = shell_path.as_str();
    if text::same(p, "zsh") {
        Some(ShellType::Zsh)
    } else if text::same(p, "bash") {
        Some(ShellType::Bash)
    } else if text::same(p, "pwsh") {
        Some(ShellType::PowerShell)
    } else if text::same(p, "powershell") {
        Some(ShellType::PowerShell)
    } else {
        match path::file_stem(p, on_windows) {
            Some(shell_name) => {
                if !path::same_path(shell_name.as_str(), p, on_windows) {
                    proof {
                        path::lemma_stem_is_shorter(shell_path@, on_windows);
                    }
                    detect_shell_type(&shell_name, on_windows)
                } else {
                    None
                }
            },
            None => None,
        }
    }
}

/// The shell to use when nothing else is asked for.
pub fn default_user_shell(host: &HostShells) -> (r: Shell)
    ensures
        shell_model(r) == default_shell_model(*host),
{
    let found = match host.platform {
        Platform::Windows => get_shell(ShellType::PowerShell, None, host),
        _ => {
            let login = match &host.user_shell {
                Some(own) => match detect_shell_type(own, false) {
                    Some(shell_type) => get_shell(shell_type, None, host),
                    None => None,
                },
                None => None,
            };
            let (first, second) = if host.platform == Platform::MacOs {
                (ShellType::Zsh, ShellType::Bash)
            } else {
                (ShellType::Bash, ShellType::Zsh)
            };
            match login {
                Some(shell) => Some(shell),
                None => match get_shell(first, None, host) {
                    Some(shell) => Some(shell),
                    None => get_shell(second, None, host),
                },
            }
        },
    };
    match found {
        Some(shell) => shell,
        None => Shell::Unknown,
    }
}

/// A shell that is found is of the type that was asked for.
pub proof fn law_found_shell_has_the_type(
    host: HostShells,
    shell_type: ShellType,
    provided: Option<Seq<char>>,
)
    ensures
        located_shell(host, shell_type, provided) matches Some(found) ==> found.0 == shell_type,
{
}

/// A path given by the model that names a shell and is a file is used as it stands.
pub proof fn law_existing_model_path_is_used(host: HostShells, shell_path: Seq<char>)
    requires
        host.has_file(shell_path),
        shell_type_of(shell_path, host.on_windows()) is Some,
    ensures
        model_provided_shell(host, shell_path) == Some(
            (shell_type_of(shell_path, host.on_windows())->0, shell_path),
        ),
{
}

/// Whatever the shell, a shell that is known gets the command as its last argument, unchanged.
pub proof fn law_command_is_the_last_argument(
    shell: Shell,
    command: Seq<char>,
    use_login_shell: bool,
    words: Option<Seq<Seq<char>>>,
)
    requires
        shell !is Unknown,
    ensures
        exec_args(shell, command, use_login_shell, words).len() >= 3,
        exec_args(shell, command, use_login_shell, words).last() == command,
        exec_args(shell, command, use_login_shell, words)[0] == (shell_model(shell)->0).1,
{
}

/// A file is taken for the shell that it is named after, whatever directory it lies in and whatever
/// extension it has.
pub proof fn law_shell_is_told_by_its_name(shell_path: Seq<char>, on_windows: bool)
    requires
        path::last_stem(shell_path, on_windows) is Some,
        ({
            let name = path::last_stem(shell_path, on_windows)->0;
            path::parts(name, on_windows) != path::parts(shell_path, on_windows)
        }),
        shell_path != "zsh"@ && shell_path != "bash"@ && shell_path != "pwsh"@ && shell_path
            != "powershell"@,
    ensures
        ({
            let name = path::last_stem(shell_path, on_windows)->0;
            &&& name == "zsh"@ ==> shell_type_of(shell_path, on_windows) == Some(ShellType::Zsh)
            &&& name == "bash"@ ==> shell_type_of(shell_path, on_windows) == Some(ShellType::Bash)
            &&& name == "pwsh"@ || name == "powershell"@ ==> shell_type_of(shell_path, on_windows)
                == Some(ShellType::PowerShell)
            &&& shell_type_of(shell_path, on_windows) == shell_type_of(name, on_windows)
        }),
{
    lemma_shell_names_differ();
    let name = path::last_stem(shell_path, on_windows)->0;
    path::lemma_stem_is_shorter(shell_path, on_windows);
    reveal_with_fuel(shell_type_of, 2);
}

proof fn lemma_shell_names_differ()
    ensures
        "zsh"@.len() == 3,
        "bash"@.len() == 4,
        "pwsh"@.len() == 4,
        "powershell"@.len() == 10,
        "bash"@ != "pwsh"@,
{
    reveal_strlit("zsh");
    reveal_strlit("bash");
    reveal_strlit("pwsh");
    reveal_strlit("powershell");
    assert("bash"@[0] != "pwsh"@[0]);
}

/// A shell may be given by its bare name; a path that names nothing is none.
pub proof fn law_bare_names_are_shells(shell_path: Seq<char>, on_windows: bool)
    ensures
        shell_path == "zsh"@ ==> shell_type_of(shell_path, on_windows) == Some(ShellType::Zsh),
        shell_path == "bash"@ ==> shell_type_of(shell_path, on_windows) == Some(ShellType::Bash),
        shell_path == "pwsh"@ || shell_path == "powershell"@ ==> shell_type_of(
            shell_path,
            on_windows,
        ) == Some(ShellType::PowerShell),
        shell_type_of(shell_path, on_windows) is Some && path::last_stem(shell_path, on_windows)
            is None ==> shell_path == "zsh"@ || shell_path == "bash"@ || shell_path == "pwsh"@
            || shell_path == "powershell"@,
{
    lemma_shell_names_differ();
}

/// Where a shell is looked for: first the path that was given, if there is such a file; next the
/// user's own shell, if it is of the type; next where a search finds it; and last where it usually
/// lies, if there is such a file.
pub proof fn law_places_are_tried_in_order(
    host: HostShells,
    shell_type: ShellType,
    provided: Option<Seq<char>>,
)
    ensures
        ({
            let here = located(host, shell_type, provided);
            let given = provided is Some && text::texts(host.files@).contains(provided->0);
            let own = host.user_shell is Some && shell_type_of(
                (host.user_shell->0)@,
                host.platform == Platform::Windows,
            ) == Some(shell_type);
            &&& given ==> here == provided
            &&& !given && own ==> here == Some((host.user_shell->0)@)
            &&& !given && !own ==> match shell_type {
                ShellType::Zsh => if host.zsh is Some {
                    here == Some((host.zsh->0)@)
                } else if text::texts(host.files@).contains("/bin/zsh"@) {
                    here == Some("/bin/zsh"@)
                } else {
                    here is None
                },
                ShellType::Bash => if host.bash is Some {
                    here == Some((host.bash->0)@)
                } else if text::texts(host.files@).contains("/bin/bash"@) {
                    here == Some("/bin/bash"@)
                } else {
                    here is None
                },
                ShellType::PowerShell => if host.pwsh is Some {
                    here == Some((host.pwsh->0)@)
                } else if text::texts(host.files@).contains("/usr/local/bin/pwsh"@) {
                    here == Some("/usr/local/bin/pwsh"@)
                } else if host.powershell is Some {
                    here == Some((host.powershell->0)@)
                } else {
                    here is None
                },
            }
        }),
{
}

/// Away from Windows the user's own shell is the default wherever it is a known one.
pub proof fn law_own_shell_is_the_default(host: HostShells, shell_type: ShellType)
    requires
        host.platform != Platform::Windows,
        host.user_shell is Some,
        shell_type_of((host.user_shell->0)@, false) == Some(shell_type),
    ensures
        default_shell_model(host) == Some((shell_type, (host.user_shell->0)@)),
{
}

/// Without a known shell of the user's own, the default on macOS is zsh, and bash where there is no
/// zsh; elsewhere it is bash, and zsh where there is no bash; and on Windows it is PowerShell, or
/// none.
pub proof fn law_default_shell_depends_on_the_platform(host: HostShells)
    requires
        host.platform == Platform::Windows || host.user_shell is None || shell_type_of(
            (host.user_shell->0)@,
            false,
        ) is None,
    ensures
        ({
            let zsh = located(host, ShellType::Zsh, None);
            let bash = located(host, ShellType::Bash, None);
            let powershell = located(host, ShellType::PowerShell, None);
            &&& host.platform == Platform::MacOs ==> default_shell_model(host) == if zsh is Some {
                Some((ShellType::Zsh, zsh->0))
            } else if bash is Some {
                Some((ShellType::Bash, bash->0))
            } else {
                None
            }
            &&& host.platform == Platform::Other ==> default_shell_model(host) == if bash is Some {
                Some((ShellType::Bash, bash->0))
            } else if zsh is Some {
                Some((ShellType::Zsh, zsh->0))
            } else {
                None
            }
            &&& host.platform == Platform::Windows ==> default_shell_model(host)
                == if powershell is Some {
                Some((ShellType::PowerShell, powershell->0))
            } else {
                None
            }
        }),
{
}

/// A shell that the model asks for is of the type that its path tells, and lies where that type is
/// found when asked for there; a path of no known shell gives none.
pub proof fn law_model_gets_the_shell_it_names(host: HostShells, shell_path: Seq<char>)
    ensures
        match shell_type_of(shell_path, host.platform == Platform::Windows) {
            Some(t) => match located(host, t, Some(shell_path)) {
                Some(found) => model_provided_shell(host, shell_path) == Some((t, found)),
                None => model_provided_shell(host, shell_path) is None,
            },
            None => model_provided_shell(host, shell_path) is None,
        },
{
}

/// How a shell is told to run a command: a login shell by `-lc`, another by `-c`; PowerShell with
/// its profile, or without where no login shell is asked for; and without a shell the words of the
/// command are run, or the whole of it where it has none.
pub proof fn law_shells_are_told_what_to_run(
    path: String,
    command: Seq<char>,
    words: Option<Seq<Seq<char>>>,
)
    ensures
        ({
            let zsh = Shell::Zsh(ZshShell { shell_path: path });
            let bash = Shell::Bash(BashShell { shell_path: path });
            let powershell = Shell::PowerShell(PowerShellConfig { shell_path: path });
            &&& exec_args(zsh, command, true, words) == seq![path@, "-lc"@, command]
            &&& exec_args(zsh, command, false, words) == seq![path@, "-c"@, command]
            &&& exec_args(bash, command, true, words) == seq![path@, "-lc"@, command]
            &&& exec_args(bash, command, false, words) == seq![path@, "-c"@, command]
            &&& exec_args(powershell, command, true, words) == seq![path@, "-Command"@, command]
            &&& exec_args(powershell, command, false, words) == seq![
                path@,
                "-NoProfile"@,
                "-Command"@,
                command,
            ]
            &&& forall|login: bool| #[trigger]
                exec_args(Shell::Unknown, command, login, words) == if words is Some {
                    words->0
                } else {
                    seq![command]
                }
        }),
{
}

/// A shell is of one type and lies at its path; PowerShell is called by its name without extension,
/// the others by the whole name of the file.
pub proof fn law_shell_has_a_type_a_path_and_a_name(path: String, on_windows: bool)
    ensures
        ({
            let zsh = Shell::Zsh(ZshShell { shell_path: path });
            let bash = Shell::Bash(BashShell { shell_path: path });
            let powershell = Shell::PowerShell(PowerShellConfig { shell_path: path });
            &&& shell_model(zsh) == Some((ShellType::Zsh, path@))
            &&& shell_model(bash) == Some((ShellType::Bash, path@))
            &&& shell_model(powershell) == Some((ShellType::PowerShell, path@))
            &&& shell_model(Shell::Unknown) is None
            &&& shell_name(zsh, on_windows) == path::last_name(path@, on_windows)
            &&& shell_name(bash, on_windows) == path::last_name(path@, on_windows)
            &&& shell_name(powershell, on_windows) == path::last_stem(path@, on_windows)
            &&& shell_name(Shell::Unknown, on_windows) is None
        }),
{
}

} // verus!
