//! The controlled account-shell bootstrap: the fixed private startup files
//! and the checks on the paths a provisional shell inherits.

use vstd::prelude::*;

use crate::actions::strings_view;
use crate::browser::{path_file_name, path_file_name_of};
use crate::cutover::optional_view;
use crate::text::{is_control, is_control_char, owned, push_str, text_eq};

verus! {

/// The private Bash startup file of a provisional shell.
pub const BASH_WRAPPER_FILE: &'static str = ".wsnav-provisional-bashrc";

/// The private Zsh startup file of a provisional shell.
pub const ZSH_WRAPPER_FILE: &'static str = ".zshrc";

/// The environment variable naming the account home.
pub const HOME_ENV: &'static str = "HOME";

/// The environment variable naming the state root.
pub const STATE_ROOT_ENV: &'static str = "WSNAV_STATE_ROOT";

/// The environment variable naming the presentation directory.
pub const PRESENTATION_DIRECTORY_ENV: &'static str = "WSNAV_PRESENTATION_DIRECTORY";

/// The environment variable keeping the account's home.
pub const ORIGINAL_HOME_ENV: &'static str = "WSNAV_ORIGINAL_HOME";

/// The environment variable keeping the account's Zsh directory.
pub const ORIGINAL_ZDOTDIR_ENV: &'static str = "WSNAV_ORIGINAL_ZDOTDIR";

/// The environment variable naming the executable of this build.
pub const EXECUTABLE_ENV: &'static str = "WSNAV_EXECUTABLE";

/// The Bash startup file: it sources the account's own rc file once, then
/// routes `codex` and `opencode` through the hidden shell gate.
pub const BASH_WRAPPER: &'static str = r#"if shopt -q login_shell; then
    printf '%s\n' 'WSNav onboarding requires a non-login shell' >&2
    return 64
fi
if [[ -f "${WSNAV_ORIGINAL_HOME:?}/.bashrc" ]] && ! source "${WSNAV_ORIGINAL_HOME}/.bashrc"; then
    printf '%s\n' 'WSNav account-shell startup was refused' >&2
    return 64
fi
unalias codex opencode 2>/dev/null || true
unset -f codex opencode 2>/dev/null || true
codex() {
    local wsnav_capability wsnav_status wsnav_consent wsnav_setup_status
    while :; do
    wsnav_capability="$("${WSNAV_EXECUTABLE:?}" _shell_gate --provider codex --shell-leader-pid "$$" -- "$@")"
    wsnav_status=$?
    if [[ "$wsnav_status" -eq 0 && -n "$wsnav_capability" && ${#wsnav_capability} -le 512 && "$wsnav_capability" != *$'\n'* && "$wsnav_capability" != *$'\r'* ]]; then
        exec "${WSNAV_EXECUTABLE}" _launch_helper --capability "$wsnav_capability" --provider codex -- "$@"
        printf '%s\n' 'WSNav onboarding command is unavailable' >&2
        return 64
    fi
    if [[ "$wsnav_status" -eq 10 ]]; then
        command codex "$@"
        return
    fi
    if [[ "$wsnav_status" -eq 11 ]]; then
        printf '%s' 'WSNav Codex observer setup is required. Allow exact profile setup and native /hooks review? [y/N] ' >&2
        IFS= read -r wsnav_consent || wsnav_consent=''
        if [[ "$wsnav_consent" == [yY] || "$wsnav_consent" == [yY][eE][sS] ]]; then
            "${WSNAV_EXECUTABLE}" _observer_setup --shell-leader-pid "$$" --consent
            wsnav_setup_status=$?
            if [[ "$wsnav_setup_status" -eq 0 ]]; then
                continue
            fi
        else
            printf '%s\n' 'WSNav Codex observer setup was declined' >&2
        fi
    fi
    printf '%s\n' 'WSNav onboarding command is unavailable' >&2
    return 64
    done
}
opencode() {
    local wsnav_capability
    wsnav_capability="$("${WSNAV_EXECUTABLE:?}" _shell_gate --provider opencode --shell-leader-pid "$$" -- "$@")"
    local wsnav_status=$?
    if [[ "$wsnav_status" -eq 0 && -n "$wsnav_capability" && ${#wsnav_capability} -le 512 && "$wsnav_capability" != *$'\n'* && "$wsnav_capability" != *$'\r'* ]]; then
        exec "${WSNAV_EXECUTABLE}" _launch_helper --capability "$wsnav_capability" --provider opencode -- "$@"
        printf '%s\n' 'WSNav onboarding command is unavailable' >&2
        return 64
    fi
    if [[ "$wsnav_status" -eq 10 ]]; then
        command opencode "$@"
        return
    fi
    printf '%s\n' 'WSNav onboarding command is unavailable' >&2
    return 64
}
"#;

/// The Zsh startup file: it points `ZDOTDIR` back at the account's own
/// directory, sources the account's rc file once, then sends `codex` and
/// `opencode` through the hidden shell gate.
pub const ZSH_WRAPPER: &'static str = r#"if [[ -o login ]]; then
    print -r -- 'WSNav onboarding requires a non-login shell' >&2
    return 64
fi
export ZDOTDIR="${WSNAV_ORIGINAL_ZDOTDIR:?}"
if [[ -f "${ZDOTDIR}/.zshrc" ]] && ! source "${ZDOTDIR}/.zshrc"; then
    print -r -- 'WSNav account-shell startup was refused' >&2
    return 64
fi
if (( $+aliases[codex] )); then unalias codex || return 64; fi
if (( $+aliases[opencode] )); then unalias opencode || return 64; fi
if (( $+functions[codex] )); then unfunction codex || return 64; fi
if (( $+functions[opencode] )); then unfunction opencode || return 64; fi
codex() {
    local wsnav_capability wsnav_status wsnav_consent wsnav_setup_status
    while :; do
    wsnav_capability="$("${WSNAV_EXECUTABLE:?}" _shell_gate --provider codex --shell-leader-pid "$$" -- "$@")"
    wsnav_status=$?
    if [[ "$wsnav_status" -eq 0 && -n "$wsnav_capability" && ${#wsnav_capability} -le 512 && "$wsnav_capability" != *$'\n'* && "$wsnav_capability" != *$'\r'* ]]; then
        exec "${WSNAV_EXECUTABLE}" _launch_helper --capability "$wsnav_capability" --provider codex -- "$@"
        print -r -- 'WSNav onboarding command is unavailable' >&2
        return 64
    fi
    if [[ "$wsnav_status" -eq 10 ]]; then
        command codex "$@"
        return
    fi
    if [[ "$wsnav_status" -eq 11 ]]; then
        print -n -- 'WSNav Codex observer setup is required. Allow exact profile setup and native /hooks review? [y/N] ' >&2
        read -r wsnav_consent || wsnav_consent=''
        if [[ "$wsnav_consent" == [yY] || "$wsnav_consent" == [yY][eE][sS] ]]; then
            "${WSNAV_EXECUTABLE}" _observer_setup --shell-leader-pid "$$" --consent
            wsnav_setup_status=$?
            if [[ "$wsnav_setup_status" -eq 0 ]]; then
                continue
            fi
        else
            print -r -- 'WSNav Codex observer setup was declined' >&2
        fi
    fi
    print -r -- 'WSNav onboarding command is unavailable' >&2
    return 64
    done
}
opencode() {
    local wsnav_capability
    wsnav_capability="$("${WSNAV_EXECUTABLE:?}" _shell_gate --provider opencode --shell-leader-pid "$$" -- "$@")"
    local wsnav_status=$?
    if [[ "$wsnav_status" -eq 0 && -n "$wsnav_capability" && ${#wsnav_capability} -le 512 && "$wsnav_capability" != *$'\n'* && "$wsnav_capability" != *$'\r'* ]]; then
        exec "${WSNAV_EXECUTABLE}" _launch_helper --capability "$wsnav_capability" --provider opencode -- "$@"
        print -r -- 'WSNav onboarding command is unavailable' >&2
        return 64
    fi
    if [[ "$wsnav_status" -eq 10 ]]; then
        command opencode "$@"
        return
    fi
    print -r -- 'WSNav onboarding command is unavailable' >&2
    return 64
}
"#;

/// The interactive shells a provisional account shell supports.
#[derive(Clone, Copy, Debug, PartialEq, Eq, Structural)]
pub enum AccountShellKind {
    Bash,
    Zsh,
}

/// Failures of the account-shell bootstrap.
#[derive(Clone, Copy, Debug, PartialEq, Eq, Structural)]
pub enum AccountShellError {
    ShellUnavailable,
    UnsupportedShell,
    SeedCwdUnavailable,
    ContextUnavailable,
    HomeUnavailable,
    ZdotdirUnavailable,
    ExecutableUnavailable,
    UnsafeEnvironment,
}

impl AccountShellKind {
    /// The shell named by a canonical executable's file name.
    pub fn from_file_name(name: Option<&str>) -> (r: Result<AccountShellKind, AccountShellError>)
        ensures
            (match name {
                Some(n) => n@ == "bash"@,
                None => false,
            }) ==> r == Ok::<AccountShellKind, AccountShellError>(AccountShellKind::Bash),
            (match name {
                Some(n) => n@ == "zsh"@,
                None => false,
            }) ==> r == Ok::<AccountShellKind, AccountShellError>(AccountShellKind::Zsh),
            (match name {
                Some(n) => n@ != "bash"@ && n@ != "zsh"@,
                None => true,
            }) ==> r == Err::<AccountShellKind, AccountShellError>(AccountShellError::UnsupportedShell),
    {
        proof {
            reveal_strlit("bash");
            reveal_strlit("zsh");
            assert("zsh"@.len() == 3 && "bash"@.len() == 4);
        }
        match name {
            Some(n) => {
                if text_eq(n, "bash") {
                    Ok(AccountShellKind::Bash)
                } else if text_eq(n, "zsh") {
                    Ok(AccountShellKind::Zsh)
                } else {
                    Err(AccountShellError::UnsupportedShell)
                }
            },
            None => Err(AccountShellError::UnsupportedShell),
        }
    }

    /// The private startup file the shell reads.
    pub fn wrapper_file(self) -> (r: &'static str)
        ensures
            self == AccountShellKind::Bash ==> r@ == BASH_WRAPPER_FILE@,
            self == AccountShellKind::Zsh ==> r@ == ZSH_WRAPPER_FILE@,
    {
        match self {
            AccountShellKind::Bash => BASH_WRAPPER_FILE,
            AccountShellKind::Zsh => ZSH_WRAPPER_FILE,
        }
    }

    /// The body of the private startup file.
    pub fn wrapper_body(self) -> (r: &'static str)
        ensures
            self == AccountShellKind::Bash ==> r@ == BASH_WRAPPER@,
            self == AccountShellKind::Zsh ==> r@ == ZSH_WRAPPER@,
    {
        match self {
            AccountShellKind::Bash => BASH_WRAPPER,
            AccountShellKind::Zsh => ZSH_WRAPPER,
        }
    }
}

/// A path text a shell may inherit: non-empty and free of control characters.
pub open spec fn environment_text_ok(s: Seq<char>) -> bool {
    s.len() > 0 && !(exists|i: int| 0 <= i < s.len() && is_control_char(#[trigger] s[i]))
}

fn has_control(text: &str) -> (r: bool)
    ensures
        r == (exists|i: int| 0 <= i < text@.len() && is_control_char(#[trigger] text@[i])),
{
    let n = text.unicode_len();
    let mut i: usize = 0;
    while i < n
        invariant
            n == text@.len(),
            i <= n,
            forall|k: int| 0 <= k < i ==> !is_control_char(#[trigger] text@[k]),
        decreases n - i,
    {
        if is_control(text.get_char(i)) {
            return true;
        }
        i = i + 1;
    }
    false
}

/// The environment value for a path; `None` stands for a path that is not
/// valid Unicode.
pub fn path_environment_value(path: Option<&str>) -> (r: Result<String, AccountShellError>)
    ensures
        (match path {
            Some(p) => environment_text_ok(p@),
            None => false,
        }) ==> (r matches Ok(v) && v@ == path->0@),
        !(match path {
            Some(p) => environment_text_ok(p@),
            None => false,
        }) ==> r == Err::<String, AccountShellError>(AccountShellError::UnsafeEnvironment),
{
    match path {
        Some(p) => {
            if p.unicode_len() == 0 || has_control(p) {
                Err(AccountShellError::UnsafeEnvironment)
            } else {
                Ok(owned(p))
            }
        },
        None => Err(AccountShellError::UnsafeEnvironment),
    }
}

/// The path an inherited environment value names; `None` stands for an unset
/// or non-Unicode value.
pub fn environment_path(value: Option<&str>) -> (r: Result<String, AccountShellError>)
    ensures
        (match value {
            Some(p) => environment_text_ok(p@),
            None => false,
        }) ==> (r matches Ok(v) && v@ == value->0@),
        !(match value {
            Some(p) => environment_text_ok(p@),
            None => false,
        }) ==> r == Err::<String, AccountShellError>(AccountShellError::ContextUnavailable),
{
    match value {
        Some(p) => {
            if p.unicode_len() == 0 || has_control(p) {
                Err(AccountShellError::ContextUnavailable)
            } else {
                Ok(owned(p))
            }
        },
        None => Err(AccountShellError::ContextUnavailable),
    }
}

impl AccountShellKind {
    /// The shell a canonical executable path names, by its file name, with
    /// that path.
    pub fn from_path(canonical: &str) -> (r: Result<(AccountShellKind, String), AccountShellError>)
        ensures
            text_option_is(path_file_name_of(canonical@), "bash"@) ==> (r matches Ok((kind, path))
                && kind == AccountShellKind::Bash && path@ == canonical@),
            text_option_is(path_file_name_of(canonical@), "zsh"@) ==> (r matches Ok((kind, path))
                && kind == AccountShellKind::Zsh && path@ == canonical@),
            !text_option_is(path_file_name_of(canonical@), "bash"@) && !text_option_is(
                path_file_name_of(canonical@),
                "zsh"@,
            ) ==> r == Err::<(AccountShellKind, String), AccountShellError>(
                AccountShellError::UnsupportedShell,
            ),
    {
        let name = path_file_name(canonical);
        let kind = match &name {
            Some(n) => AccountShellKind::from_file_name(Some(n.as_str())),
            None => AccountShellKind::from_file_name(None),
        };
        match kind {
            Ok(kind) => Ok((kind, owned(canonical))),
            Err(e) => Err(e),
        }
    }
}

/// The optional text is exactly `word`.
pub open spec fn text_option_is(o: Option<Seq<char>>, word: Seq<char>) -> bool {
    o == Some(word)
}

/// A file name joined under a directory, as `Path::join` joins a relative
/// name: no separator after an empty directory or one ending in `/`.
pub open spec fn joined_path(directory: Seq<char>, name: Seq<char>) -> Seq<char> {
    if directory.len() == 0 {
        name
    } else if directory.last() == '/' {
        directory + name
    } else {
        directory + seq!['/'] + name
    }
}

fn join_path(directory: &str, name: &str) -> (r: String)
    ensures
        r@ == joined_path(directory@, name@),
{
    let n = directory.unicode_len();
    if n == 0 {
        return owned(name);
    }
    let mut joined = owned(directory);
    if directory.get_char(n - 1) != '/' {
        push_str(&mut joined, "/");
        proof {
            reveal_strlit("/");
        }
    }
    push_str(&mut joined, name);
    joined
}

/// The environment of an account shell, ordered by variable name: the
/// original home as `HOME` and `WSNAV_ORIGINAL_HOME`, the executable, the
/// presentation directory and the state root; a Zsh shell also keeps its
/// original `ZDOTDIR` and reads its startup from the Runtime directory.
pub open spec fn shell_environment_of(
    kind: AccountShellKind,
    state_root: Seq<char>,
    presentation_directory: Seq<char>,
    home: Seq<char>,
    executable: Seq<char>,
    zdotdir: Seq<char>,
    runtime_directory: Seq<char>,
) -> Seq<(Seq<char>, Seq<char>)> {
    match kind {
        AccountShellKind::Bash => seq![
            (HOME_ENV@, home),
            (EXECUTABLE_ENV@, executable),
            (ORIGINAL_HOME_ENV@, home),
            (PRESENTATION_DIRECTORY_ENV@, presentation_directory),
            (STATE_ROOT_ENV@, state_root),
        ],
        AccountShellKind::Zsh => seq![
            (HOME_ENV@, home),
            (EXECUTABLE_ENV@, executable),
            (ORIGINAL_HOME_ENV@, home),
            (ORIGINAL_ZDOTDIR_ENV@, zdotdir),
            (PRESENTATION_DIRECTORY_ENV@, presentation_directory),
            (STATE_ROOT_ENV@, state_root),
            ("ZDOTDIR"@, runtime_directory),
        ],
    }
}

/// The program of an account shell: a non-login interactive Bash reading
/// the private wrapper in the Runtime directory, or an interactive Zsh.
pub open spec fn shell_program_of(
    kind: AccountShellKind,
    shell: Seq<char>,
    runtime_directory: Seq<char>,
) -> Seq<Seq<char>> {
    match kind {
        AccountShellKind::Bash => seq![
            shell,
            "--noprofile"@,
            "--rcfile"@,
            joined_path(runtime_directory, BASH_WRAPPER_FILE@),
            "-i"@,
        ],
        AccountShellKind::Zsh => seq![shell, "-i"@],
    }
}

/// Every value the environment carries is a non-empty control-free text.
pub open spec fn shell_environment_safe(
    kind: AccountShellKind,
    state_root: Seq<char>,
    presentation_directory: Seq<char>,
    home: Seq<char>,
    executable: Seq<char>,
    zdotdir: Seq<char>,
    runtime_directory: Seq<char>,
) -> bool {
    &&& environment_text_ok(state_root)
    &&& environment_text_ok(presentation_directory)
    &&& environment_text_ok(home)
    &&& environment_text_ok(executable)
    &&& (kind == AccountShellKind::Zsh ==> environment_text_ok(zdotdir) && environment_text_ok(
        runtime_directory,
    ))
}

/// The launch of a provisional account shell: where it starts, its program
/// and its environment.
#[derive(Clone, Debug, PartialEq, Eq)]
pub struct AccountShellPlan {
    pub cwd: String,
    pub program: Vec<String>,
    pub environment: Vec<(String, String)>,
}

/// The texts of a list of variable and value pairs.
pub open spec fn pairs_view(v: Seq<(String, String)>) -> Seq<(Seq<char>, Seq<char>)> {
    v.map_values(|p: (String, String)| (p.0@, p.1@))
}

/// The zdotdir a Zsh account shell starts from: the inherited one, else the
/// original home, as Zsh itself defaults; Bash needs none.
pub open spec fn zdotdir_source_of(
    kind: AccountShellKind,
    original_zdotdir: Option<Seq<char>>,
    home: Seq<char>,
) -> Option<Seq<char>> {
    match kind {
        AccountShellKind::Bash => None,
        AccountShellKind::Zsh => match original_zdotdir {
            Some(z) => Some(z),
            None => Some(home),
        },
    }
}

/// The directory to resolve as the shell's original zdotdir, as
/// `zdotdir_source_of` states.
pub fn zdotdir_source<'a>(
    kind: AccountShellKind,
    original_zdotdir: Option<&'a str>,
    home: &'a str,
) -> (r: Option<&'a str>)
    ensures
        optional_view(r) == zdotdir_source_of(kind, optional_view(original_zdotdir), home@),
{
    match kind {
        AccountShellKind::Bash => None,
        AccountShellKind::Zsh => match original_zdotdir {
            Some(z) => Some(z),
            None => Some(home),
        },
    }
}

/// Plans a provisional account shell from the resolved paths: the seed
/// directory, the shell and its kind, the original home, the resolved
/// zdotdir of a Zsh shell, the executable, the Runtime directory, the state
/// root and the presentation directory. An unsafe environment value refuses
/// the plan.
pub fn account_shell_plan(
    kind: AccountShellKind,
    shell: &str,
    seed_cwd: &str,
    home: &str,
    zdotdir: &str,
    executable: &str,
    runtime_directory: &str,
    state_root: &str,
    presentation_directory: &str,
) -> (r: Result<AccountShellPlan, AccountShellError>)
    ensures
        shell_environment_safe(
            kind,
            state_root@,
            presentation_directory@,
            home@,
            executable@,
            zdotdir@,
            runtime_directory@,
        ) ==> (r matches Ok(plan) && plan.cwd@ == seed_cwd@ && strings_view(plan.program@)
            == shell_program_of(kind, shell@, runtime_directory@) && pairs_view(
            plan.environment@,
        ) == shell_environment_of(
            kind,
            state_root@,
            presentation_directory@,
            home@,
            executable@,
            zdotdir@,
            runtime_directory@,
        )),
        !shell_environment_safe(
            kind,
            state_root@,
            presentation_directory@,
            home@,
            executable@,
            zdotdir@,
            runtime_directory@,
        ) ==> r == Err::<AccountShellPlan, AccountShellError>(AccountShellError::UnsafeEnvironment),
{
    let state_root_value = path_environment_value(Some(state_root))?;
    let presentation_value = path_environment_value(Some(presentation_directory))?;
    let home_value = path_environment_value(Some(home))?;
    let original_home_value = path_environment_value(Some(home))?;
    let executable_value = path_environment_value(Some(executable))?;
    let mut environment: Vec<(String, String)> = Vec::new();
    environment.push((owned(HOME_ENV), home_value));
    environment.push((owned(EXECUTABLE_ENV), executable_value));
    environment.push((owned(ORIGINAL_HOME_ENV), original_home_value));
    let program = match kind {
        AccountShellKind::Bash => {
            environment.push((owned(PRESENTATION_DIRECTORY_ENV), presentation_value));
            environment.push((owned(STATE_ROOT_ENV), state_root_value));
            let mut program: Vec<String> = Vec::new();
            program.push(owned(shell));
            program.push(owned("--noprofile"));
            program.push(owned("--rcfile"));
            program.push(join_path(runtime_directory, BASH_WRAPPER_FILE));
            program.push(owned("-i"));
            program
        },
        AccountShellKind::Zsh => {
            let zdotdir_value = path_environment_value(Some(zdotdir))?;
            let directory_value = path_environment_value(Some(runtime_directory))?;
            environment.push((owned(ORIGINAL_ZDOTDIR_ENV), zdotdir_value));
            environment.push((owned(PRESENTATION_DIRECTORY_ENV), presentation_value));
            environment.push((owned(STATE_ROOT_ENV), state_root_value));
            environment.push((owned("ZDOTDIR"), directory_value));
            let mut program: Vec<String> = Vec::new();
            program.push(owned(shell));
            program.push(owned("-i"));
            program
        },
    };
    proof {
        assert(strings_view(program@) =~= shell_program_of(kind, shell@, runtime_directory@));
        assert(pairs_view(environment@) =~= shell_environment_of(
            kind,
            state_root@,
            presentation_directory@,
            home@,
            executable@,
            zdotdir@,
            runtime_directory@,
        ));
    }
    Ok(AccountShellPlan { cwd: owned(seed_cwd), program, environment })
}

} // verus!
