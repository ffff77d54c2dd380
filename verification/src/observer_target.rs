//! The OpenCode observer a cutover targets: the shape its projection must
//! have, the hidden observer command line that proves an observer's
//! generation, and the arguments a standby observer is spawned with.

use vstd::prelude::*;

use crate::actions::{
    OpenCodeObserverStatus, OpenCodeRuntimeHandle, ProviderBinding, RuntimeRecord, loopback_host,
    loopback_host_text, same_session,
};
use crate::cutover::{
    CutoverError, CutoverProcessEvidence, paths_same, CutoverProcessStatus, ObserverProcessIdentity,
    executable_match_result, is_standby_command_line, process_identity_matches, process_matches, OpenCodeObserverKind, birth_token_ok, same_identity, optional_view,
    paths_equal, standby_command, starts_with_slash, strip_deleted_suffix, valid_birth_token,
    without_deleted_suffix,
};
use crate::decimal::{decimal_of, decimal_text, is_ascii_digit, lemma_decimal_of_digits};
use crate::domain::{ProviderKind, RuntimeStatus};
use crate::ids::{RuntimeId, is_hex_char, lemma_uuid_hyphenated_shape, uuid_hyphenated_text};
use crate::proc_evidence::{
    CommandLineFault, command_arguments, lemma_recorded_command_line_reads_back, nul_pieces,
    recordable_argument, recorded_command_line,
};
use crate::sort::{SortKey, is_permutation, sort_by_key};
use crate::actions::strings_view;
use crate::domain::Revision;
use crate::text::{contains_char, owned, seq_has_char, text_eq};

verus! {

/// The projection of one OpenCode Runtime that a cutover acts on: the
/// Runtime record, its endpoint and observer handle, and its provider binding.
#[derive(Clone, Debug, PartialEq, Eq)]
pub struct OpenCodeObserverProjection {
    pub runtime: RuntimeRecord,
    pub handle: OpenCodeRuntimeHandle,
    pub binding: ProviderBinding,
}

/// A non-empty single-line text of at most 256 bytes.
pub open spec fn bounded_line_ok(s: Seq<char>) -> bool {
    &&& s.len() > 0
    &&& (vstd::utf8::encode_utf8(s).len() as usize) <= 256
    &&& !seq_has_char(s, '\0')
    &&& !seq_has_char(s, '\n')
    &&& !seq_has_char(s, '\r')
}

fn valid_bounded_line(s: &str) -> (r: bool)
    ensures
        r == bounded_line_ok(s@),
{
    !s.is_empty() && s.len() <= 256 && !contains_char(s, '\0') && !contains_char(s, '\n')
        && !contains_char(s, '\r')
}

/// An optional birth token is absent or valid.
pub open spec fn optional_birth_ok(birth: Option<String>) -> bool {
    birth matches Some(b) ==> birth_token_ok(b@)
}

fn valid_optional_birth(birth: &Option<String>) -> (r: bool)
    ensures
        r == optional_birth_ok(*birth),
{
    match birth {
        Some(b) => valid_birth_token(b.as_str()),
        None => true,
    }
}

/// A projection a cutover may target: an OpenCode Runtime, its handle and
/// binding naming the same Runtime, generation and OpenCode session, bounded
/// single-line generation, tmux session and version, an absolute working
/// directory, a loopback endpoint with a port, valid recorded births, and
/// neither the Runtime nor its observer stopped.
pub open spec fn projection_shape_ok(p: OpenCodeObserverProjection) -> bool {
    let runtime = p.runtime;
    let handle = p.handle;
    let binding = p.binding;
    &&& runtime.provider == ProviderKind::OpenCode
    &&& handle.runtime_id == runtime.runtime_id
    &&& handle.native_session_id.spec_provider() == ProviderKind::OpenCode
    &&& binding.runtime_id == runtime.runtime_id
    &&& binding.provider == ProviderKind::OpenCode
    &&& binding.native_session_id.spec_provider() == handle.native_session_id.spec_provider()
    &&& binding.native_session_id.spec_native_id() == handle.native_session_id.spec_native_id()
    &&& binding.runtime_generation@ == handle.runtime_generation@
    &&& bounded_line_ok(handle.runtime_generation@)
    &&& runtime.tmux_generation@ == handle.runtime_generation@
    &&& bounded_line_ok(runtime.tmux_session@)
    &&& runtime.cwd@.len() > 0
    &&& runtime.cwd@[0] == '/'
    &&& handle.endpoint_host@ == loopback_host()
    &&& handle.endpoint_port != 0
    &&& bounded_line_ok(handle.version@)
    &&& optional_birth_ok(runtime.process_birth)
    &&& optional_birth_ok(handle.observer_birth)
    &&& runtime.status != RuntimeStatus::Stopped
    &&& handle.observer_status != OpenCodeObserverStatus::Stopped
}

/// Whether a projection has the shape a cutover may target.
pub fn validate_projection_shape(p: &OpenCodeObserverProjection) -> (r: bool)
    ensures
        r == projection_shape_ok(*p),
{
    let runtime = &p.runtime;
    let handle = &p.handle;
    let binding = &p.binding;
    runtime.provider == ProviderKind::OpenCode && handle.runtime_id == runtime.runtime_id
        && handle.native_session_id.provider() == ProviderKind::OpenCode && binding.runtime_id
        == runtime.runtime_id && binding.provider == ProviderKind::OpenCode && same_session(
        &binding.native_session_id,
        &handle.native_session_id,
    ) && text_eq(binding.runtime_generation.as_str(), handle.runtime_generation.as_str())
        && valid_bounded_line(handle.runtime_generation.as_str()) && text_eq(
        runtime.tmux_generation.as_str(),
        handle.runtime_generation.as_str(),
    ) && valid_bounded_line(runtime.tmux_session.as_str()) && starts_with_slash(
        runtime.cwd.as_str(),
    ) && text_eq(handle.endpoint_host.as_str(), loopback_host_text()) && handle.endpoint_port
        != 0 && valid_bounded_line(handle.version.as_str()) && valid_optional_birth(
        &runtime.process_birth,
    ) && valid_optional_birth(&handle.observer_birth) && runtime.status != RuntimeStatus::Stopped
        && handle.observer_status != OpenCodeObserverStatus::Stopped
}

/// The provider process a projection names, refused as an invalid target
/// when the projection's shape is wrong and as unavailable when the Runtime
/// records no provider pid or no non-empty birth.
pub open spec fn provider_target_of(p: OpenCodeObserverProjection) -> Result<
    (u32, Seq<char>),
    CutoverError,
> {
    if !projection_shape_ok(p) {
        Err(CutoverError::InvalidObserverTarget)
    } else {
        match (p.runtime.provider_pid, p.runtime.process_birth) {
            (Some(pid), Some(birth)) => if birth@.len() > 0 {
                Ok((pid, birth@))
            } else {
                Err(CutoverError::RuntimeProjectionUnavailable)
            },
            _ => Err(CutoverError::RuntimeProjectionUnavailable),
        }
    }
}

/// Checks a projection's shape and returns the provider pid and birth it records.
pub fn projection_provider_target(p: &OpenCodeObserverProjection) -> (r: Result<
    (u32, String),
    CutoverError,
>)
    ensures
        match r {
            Ok((pid, birth)) => provider_target_of(*p) == Ok::<(u32, Seq<char>), CutoverError>(
                (pid, birth@),
            ),
            Err(e) => provider_target_of(*p) == Err::<(u32, Seq<char>), CutoverError>(e),
        },
{
    if !validate_projection_shape(p) {
        return Err(CutoverError::InvalidObserverTarget);
    }
    match (&p.runtime.provider_pid, &p.runtime.process_birth) {
        (Some(pid), Some(birth)) => {
            if birth.as_str().is_empty() {
                Err(CutoverError::RuntimeProjectionUnavailable)
            } else {
                Ok((*pid, birth.clone()))
            }
        },
        _ => Err(CutoverError::RuntimeProjectionUnavailable),
    }
}

/// The observer process a handle names: its pid and non-empty birth, else
/// the target is invalid.
pub open spec fn observer_target_of(handle: OpenCodeRuntimeHandle) -> Result<
    (u32, Seq<char>),
    CutoverError,
> {
    match (handle.observer_pid, handle.observer_birth) {
        (Some(pid), Some(birth)) => if birth@.len() > 0 {
            Ok((pid, birth@))
        } else {
            Err(CutoverError::InvalidObserverTarget)
        },
        _ => Err(CutoverError::InvalidObserverTarget),
    }
}

/// The observer pid and birth a handle records.
pub fn handle_observer_target(handle: &OpenCodeRuntimeHandle) -> (r: Result<
    (u32, String),
    CutoverError,
>)
    ensures
        match r {
            Ok((pid, birth)) => observer_target_of(*handle) == Ok::<(u32, Seq<char>), CutoverError>(
                (pid, birth@),
            ),
            Err(e) => observer_target_of(*handle) == Err::<(u32, Seq<char>), CutoverError>(e),
        },
{
    match (&handle.observer_pid, &handle.observer_birth) {
        (Some(pid), Some(birth)) => {
            if birth.as_str().is_empty() {
                Err(CutoverError::InvalidObserverTarget)
            } else {
                Ok((*pid, birth.clone()))
            }
        },
        _ => Err(CutoverError::InvalidObserverTarget),
    }
}

/// Whether two paths name the same place: their canonical forms compared
/// when both resolved on disk, else their spellings compared as paths.
pub open spec fn same_location(
    a: Seq<char>,
    a_canonical: Option<Seq<char>>,
    b: Seq<char>,
    b_canonical: Option<Seq<char>>,
) -> bool {
    match (a_canonical, b_canonical) {
        (Some(x), Some(y)) => paths_same(x, y),
        _ => paths_same(a, b),
    }
}

/// Compares two paths given the canonical forms the filesystem gave them.
pub fn paths_match(
    actual: &str,
    actual_canonical: Option<&str>,
    expected: &str,
    expected_canonical: Option<&str>,
) -> (r: bool)
    ensures
        r == same_location(
            actual@,
            optional_view(actual_canonical),
            expected@,
            optional_view(expected_canonical),
        ),
{
    match (actual_canonical, expected_canonical) {
        (Some(x), Some(y)) => paths_equal(x, y),
        _ => paths_equal(actual, expected),
    }
}

/// What the filesystem resolved for an observer's command line: the
/// canonical form of each argument, of the observer's executable, of the
/// state root and of the Runtime's working directory, each `None` where the
/// path did not resolve.
#[derive(Clone, Debug, PartialEq, Eq)]
pub struct CommandLineResolution {
    pub arguments: Vec<Option<String>>,
    pub executable: Option<String>,
    pub state_root: Option<String>,
    pub cwd: Option<String>,
}

impl CommandLineResolution {
    /// Nothing resolved: every path is compared by its spelling.
    pub fn unresolved() -> (r: CommandLineResolution)
        ensures
            r.arguments@.len() == 0,
            r.executable is None,
            r.state_root is None,
            r.cwd is None,
    {
        CommandLineResolution { arguments: Vec::new(), executable: None, state_root: None, cwd: None }
    }
}

/// The text of an optional owned string.
pub open spec fn text_option(o: Option<String>) -> Option<Seq<char>> {
    match o {
        Some(s) => Some(s@),
        None => None,
    }
}

fn as_text(o: &Option<String>) -> (r: Option<&str>)
    ensures
        optional_view(r) == text_option(*o),
{
    match o {
        Some(s) => Some(s.as_str()),
        None => None,
    }
}

/// The canonical form resolved for argument `i`, if any.
pub open spec fn resolved_argument(res: CommandLineResolution, i: int) -> Option<Seq<char>> {
    if 0 <= i < res.arguments@.len() {
        text_option(res.arguments@[i])
    } else {
        None
    }
}

fn resolved_argument_at(res: &CommandLineResolution, i: usize) -> (r: Option<&str>)
    ensures
        optional_view(r) == resolved_argument(*res, i as int),
{
    if i < res.arguments.len() {
        as_text(&res.arguments[i])
    } else {
        None
    }
}

/// The command line's first argument names the observer's executable: the
/// same place, or the absolute underlying spelling of an executable whose
/// inode was replaced.
pub open spec fn executable_argument_ok(
    argument: Seq<char>,
    argument_canonical: Option<Seq<char>>,
    executable: Seq<char>,
    executable_canonical: Option<Seq<char>>,
) -> bool {
    ||| same_location(argument, argument_canonical, executable, executable_canonical)
    ||| (without_deleted_suffix(executable) matches Some(underlying) && underlying.len() > 0
        && underlying[0] == '/' && argument == underlying)
}

/// The prefix every observer command line shares: the executable, the state
/// root, the handle's Runtime, generation and endpoint port.
pub open spec fn common_arguments_ok(
    args: Seq<Seq<char>>,
    p: OpenCodeObserverProjection,
    executable: Seq<char>,
    state_root: Seq<char>,
    res: CommandLineResolution,
) -> bool {
    &&& args.len() >= 7
    &&& executable_argument_ok(
        args[0],
        resolved_argument(res, 0),
        executable,
        text_option(res.executable),
    )
    &&& args[1] == "--state-root"@
    &&& same_location(args[2], resolved_argument(res, 2), state_root, text_option(res.state_root))
    &&& args[4] == uuid_hyphenated_text(p.handle.runtime_id.value)
    &&& args[5] == p.handle.runtime_generation@
    &&& args[6] == decimal_of(p.handle.endpoint_port as nat)
}

/// From argument `at` on, the command line names the OpenCode session, the
/// provider pid, the Runtime's working directory and the provider birth.
pub open spec fn provider_arguments_ok(
    args: Seq<Seq<char>>,
    at: int,
    p: OpenCodeObserverProjection,
    pid: u32,
    birth: Seq<char>,
    res: CommandLineResolution,
) -> bool {
    &&& args[at] == p.handle.native_session_id.spec_native_id()
    &&& args[at + 1] == decimal_of(pid as nat)
    &&& same_location(
        args[at + 2],
        resolved_argument(res, at + 2),
        p.runtime.cwd@,
        text_option(res.cwd),
    )
    &&& args[at + 3] == birth
}

/// The generation an observer's command line proves, or why it proves none:
/// the projection must record the provider's pid and birth, and the command
/// line must be a legacy observer's, a current observer's or a standby's,
/// each naming exactly this Runtime, endpoint, session and provider process.
pub open spec fn observer_command_kind(
    args: Seq<Seq<char>>,
    p: OpenCodeObserverProjection,
    executable: Seq<char>,
    state_root: Seq<char>,
    res: CommandLineResolution,
) -> Result<OpenCodeObserverKind, CutoverError> {
    match (p.runtime.process_birth, p.runtime.provider_pid) {
        (Some(birth), Some(pid)) => if !common_arguments_ok(args, p, executable, state_root, res) {
            Err(CutoverError::FuzzyProcessIdentity)
        } else if args[3] == "_opencode_observer"@ && args.len() == 11 {
            if provider_arguments_ok(args, 7, p, pid, birth@, res) {
                Ok(OpenCodeObserverKind::PreD16)
            } else {
                Err(CutoverError::FuzzyProcessIdentity)
            }
        } else if args[3] == "_opencode_observer_d16"@ && args.len() == 11 {
            if provider_arguments_ok(args, 7, p, pid, birth@, res) {
                Ok(OpenCodeObserverKind::D16)
            } else {
                Err(CutoverError::FuzzyProcessIdentity)
            }
        } else if args[3] == standby_command() && args.len() == 12 {
            if args[7] == p.handle.version@ && provider_arguments_ok(args, 8, p, pid, birth@, res) {
                Ok(OpenCodeObserverKind::D16)
            } else {
                Err(CutoverError::FuzzyProcessIdentity)
            }
        } else {
            Err(CutoverError::FuzzyProcessIdentity)
        },
        _ => Err(CutoverError::RuntimeProjectionUnavailable),
    }
}

fn provider_arguments_match(
    arguments: &[String],
    at: usize,
    p: &OpenCodeObserverProjection,
    pid: u32,
    birth: &str,
    res: &CommandLineResolution,
) -> (r: bool)
    requires
        at + 4 <= arguments@.len(),
    ensures
        r == provider_arguments_ok(
            arguments@.map_values(|a: String| a@),
            at as int,
            *p,
            pid,
            birth@,
            *res,
        ),
{
    let ghost args = arguments@.map_values(|a: String| a@);
    let pid_text = decimal_text(pid as u64);
    text_eq(arguments[at].as_str(), p.handle.native_session_id.native_id()) && text_eq(
        arguments[at + 1].as_str(),
        pid_text.as_str(),
    ) && paths_match(
        arguments[at + 2].as_str(),
        resolved_argument_at(res, at + 2),
        p.runtime.cwd.as_str(),
        as_text(&res.cwd),
    ) && text_eq(arguments[at + 3].as_str(), birth)
}

fn executable_argument_matches(
    argument: &str,
    argument_canonical: Option<&str>,
    executable: &str,
    executable_canonical: Option<&str>,
) -> (r: bool)
    ensures
        r == executable_argument_ok(
            argument@,
            optional_view(argument_canonical),
            executable@,
            optional_view(executable_canonical),
        ),
{
    if paths_match(argument, argument_canonical, executable, executable_canonical) {
        return true;
    }
    match strip_deleted_suffix(executable) {
        Some(underlying) => starts_with_slash(underlying) && text_eq(argument, underlying),
        None => false,
    }
}

/// Reads which observer generation a process's command line proves, as
/// `observer_command_kind` states; paths are compared through `resolution`.
pub fn validate_observer_generation_command_line(
    arguments: &[String],
    target: &OpenCodeObserverProjection,
    executable: &str,
    state_root: &str,
    resolution: &CommandLineResolution,
) -> (r: Result<OpenCodeObserverKind, CutoverError>)
    ensures
        r == observer_command_kind(
            arguments@.map_values(|a: String| a@),
            *target,
            executable@,
            state_root@,
            *resolution,
        ),
{
    let ghost args = arguments@.map_values(|a: String| a@);
    let runtime = &target.runtime;
    let handle = &target.handle;
    let provider_birth = match &runtime.process_birth {
        Some(birth) => birth.as_str(),
        None => {
            return Err(CutoverError::RuntimeProjectionUnavailable);
        },
    };
    let provider_pid = match runtime.provider_pid {
        Some(pid) => pid,
        None => {
            return Err(CutoverError::RuntimeProjectionUnavailable);
        },
    };
    if arguments.len() < 7 {
        return Err(CutoverError::FuzzyProcessIdentity);
    }
    let runtime_text = handle.runtime_id.text();
    let port_text = decimal_text(handle.endpoint_port as u64);
    let common = executable_argument_matches(
        arguments[0].as_str(),
        resolved_argument_at(resolution, 0),
        executable,
        as_text(&resolution.executable),
    ) && text_eq(arguments[1].as_str(), "--state-root") && paths_match(
        arguments[2].as_str(),
        resolved_argument_at(resolution, 2),
        state_root,
        as_text(&resolution.state_root),
    ) && text_eq(arguments[4].as_str(), runtime_text.as_str()) && text_eq(
        arguments[5].as_str(),
        handle.runtime_generation.as_str(),
    ) && text_eq(arguments[6].as_str(), port_text.as_str());
    if !common {
        return Err(CutoverError::FuzzyProcessIdentity);
    }
    let command = arguments[3].as_str();
    if text_eq(command, "_opencode_observer") && arguments.len() == 11 {
        if provider_arguments_match(arguments, 7, target, provider_pid, provider_birth, resolution) {
            Ok(OpenCodeObserverKind::PreD16)
        } else {
            Err(CutoverError::FuzzyProcessIdentity)
        }
    } else if text_eq(command, "_opencode_observer_d16") && arguments.len() == 11 {
        if provider_arguments_match(arguments, 7, target, provider_pid, provider_birth, resolution) {
            Ok(OpenCodeObserverKind::D16)
        } else {
            Err(CutoverError::FuzzyProcessIdentity)
        }
    } else if text_eq(command, "_opencode_observer_standby") && arguments.len() == 12 {
        if text_eq(arguments[7].as_str(), handle.version.as_str()) && provider_arguments_match(
            arguments,
            8,
            target,
            provider_pid,
            provider_birth,
            resolution,
        ) {
            Ok(OpenCodeObserverKind::D16)
        } else {
            Err(CutoverError::FuzzyProcessIdentity)
        }
    } else {
        Err(CutoverError::FuzzyProcessIdentity)
    }
}

/// The arguments a standby observer is spawned with after its executable:
/// the state root, the standby command, the Runtime, its generation, the
/// endpoint port, the version, the OpenCode session, and the provider's pid,
/// working directory and birth.
pub open spec fn standby_arguments_of(
    p: OpenCodeObserverProjection,
    state_root: Seq<char>,
    pid: u32,
    birth: Seq<char>,
) -> Seq<Seq<char>> {
    seq![
        "--state-root"@,
        state_root,
        standby_command(),
        uuid_hyphenated_text(p.runtime.runtime_id.value),
        p.handle.runtime_generation@,
        decimal_of(p.handle.endpoint_port as nat),
        p.handle.version@,
        p.handle.native_session_id.spec_native_id(),
        decimal_of(pid as nat),
        p.runtime.cwd@,
        birth,
    ]
}

/// The standby observer's spawn arguments, as `standby_arguments_of` states.
pub fn standby_observer_arguments(
    target: &OpenCodeObserverProjection,
    state_root: &str,
    provider_pid: u32,
    provider_birth: &str,
) -> (r: Vec<String>)
    ensures
        strings_view(r@) == standby_arguments_of(*target, state_root@, provider_pid, provider_birth@),
{
    let mut v: Vec<String> = Vec::new();
    v.push(owned("--state-root"));
    v.push(owned(state_root));
    v.push(owned("_opencode_observer_standby"));
    v.push(target.runtime.runtime_id.text());
    v.push(target.handle.runtime_generation.clone());
    v.push(decimal_text(target.handle.endpoint_port as u64));
    v.push(target.handle.version.clone());
    v.push(owned(target.handle.native_session_id.native_id()));
    v.push(decimal_text(provider_pid as u64));
    v.push(target.runtime.cwd.clone());
    v.push(owned(provider_birth));
    proof {
        assert(strings_view(v@) =~= standby_arguments_of(
            *target,
            state_root@,
            provider_pid,
            provider_birth@,
        ));
    }
    v
}

/// Why a standby observer cannot be spawned for a projection: the Runtime
/// records no provider pid or birth, or the handle's revision cannot
/// advance to another positive revision.
pub open spec fn standby_spawn_error(p: OpenCodeObserverProjection) -> Option<CutoverError> {
    if p.runtime.provider_pid is None || p.runtime.process_birth is None {
        Some(CutoverError::RuntimeProjectionUnavailable)
    } else if !revision_can_advance(p.handle.revision) {
        Some(CutoverError::InvalidHandoverJournal)
    } else {
        None
    }
}

/// The arguments to spawn a standby observer for a projection with, after
/// the executable, or why none can be spawned.
pub fn standby_spawn_arguments(target: &OpenCodeObserverProjection, state_root: &str) -> (r: Result<
    Vec<String>,
    CutoverError,
>)
    ensures
        match r {
            Ok(args) => standby_spawn_error(*target) is None && strings_view(args@)
                == standby_arguments_of(
                *target,
                state_root@,
                target.runtime.provider_pid->0,
                target.runtime.process_birth->0@,
            ),
            Err(e) => standby_spawn_error(*target) == Some(e),
        },
{
    let provider_pid = match target.runtime.provider_pid {
        Some(pid) => pid,
        None => {
            return Err(CutoverError::RuntimeProjectionUnavailable);
        },
    };
    let provider_birth = match &target.runtime.process_birth {
        Some(birth) => birth.as_str(),
        None => {
            return Err(CutoverError::RuntimeProjectionUnavailable);
        },
    };
    if let Err(e) = next_handle_revision(target.handle.revision) {
        return Err(e);
    }
    Ok(standby_observer_arguments(target, state_root, provider_pid, provider_birth))
}

/// The filesystem resolved each path of a command line the way it resolved
/// the executable, the state root and the working directory it spells.
pub open spec fn resolution_agrees_with_standby(res: CommandLineResolution) -> bool {
    ||| res.arguments@.len() == 0
    ||| {
        &&& res.arguments@.len() == 12
        &&& text_option(res.arguments@[0]) == text_option(res.executable)
        &&& text_option(res.arguments@[2]) == text_option(res.state_root)
        &&& text_option(res.arguments@[10]) == text_option(res.cwd)
    }
}

/// A standby observer spawned for a valid target, with its executable as
/// the first argument, is read back as a current-generation observer of that
/// target, however the filesystem resolves its paths consistently.
pub proof fn lemma_standby_command_line_is_current_generation(
    p: OpenCodeObserverProjection,
    executable: Seq<char>,
    state_root: Seq<char>,
    res: CommandLineResolution,
)
    requires
        projection_shape_ok(p),
        p.runtime.provider_pid is Some,
        p.runtime.process_birth is Some,
        resolution_agrees_with_standby(res),
    ensures
        observer_command_kind(
            seq![executable] + standby_arguments_of(
                p,
                state_root,
                p.runtime.provider_pid->0,
                p.runtime.process_birth->0@,
            ),
            p,
            executable,
            state_root,
            res,
        ) == Ok::<OpenCodeObserverKind, CutoverError>(OpenCodeObserverKind::D16),
{
    let pid = p.runtime.provider_pid->0;
    let birth = p.runtime.process_birth->0@;
    let args = seq![executable] + standby_arguments_of(p, state_root, pid, birth);
    assert(args.len() == 12);
    assert(args[0] == executable);
    assert(args[1] == "--state-root"@);
    assert(args[2] == state_root);
    assert(args[3] == standby_command());
    assert(args[10] == p.runtime.cwd@);
    assert(common_arguments_ok(args, p, executable, state_root, res));
    assert(args[3] != "_opencode_observer"@ || args.len() != 11);
    assert(provider_arguments_ok(args, 8, p, pid, birth, res));
}

/// A handle revision advances to the next positive revision.
pub open spec fn revision_can_advance(revision: Revision) -> bool {
    1 <= revision.spec_value() + 1 <= i64::MAX
}

/// The revision a handle takes when its observer is swapped, or an invalid
/// journal when the revision cannot advance.
pub fn next_handle_revision(revision: Revision) -> (r: Result<Revision, CutoverError>)
    ensures
        r is Ok <==> revision_can_advance(revision),
        r matches Ok(next) ==> next.spec_value() == revision.spec_value() + 1,
        r matches Err(e) ==> e == CutoverError::InvalidHandoverJournal,
{
    let advanced = match revision.value().checked_add(1) {
        Some(value) => Revision::try_from_value(value),
        None => None,
    };
    match advanced {
        Some(next) => Ok(next),
        None => Err(CutoverError::InvalidHandoverJournal),
    }
}

/// One observer a cutover hands over: the projection, the exact process the
/// authority corroborated as its observer, and that observer's generation.
#[derive(Clone, Debug, PartialEq, Eq)]
pub struct OpenCodeObserverTarget {
    pub projection: OpenCodeObserverProjection,
    pub observer: ObserverProcessIdentity,
    pub kind: OpenCodeObserverKind,
}

/// A single-line text: no NUL, line feed or carriage return.
pub open spec fn single_line(s: Seq<char>) -> bool {
    !seq_has_char(s, '\0') && !seq_has_char(s, '\n') && !seq_has_char(s, '\r')
}

fn is_single_line(s: &str) -> (r: bool)
    ensures
        r == single_line(s@),
{
    !contains_char(s, '\0') && !contains_char(s, '\n') && !contains_char(s, '\r')
}

/// A target a handover may act on: an OpenCode session, a generation, and
/// an observer process that is exactly the one the handle records, with a
/// pid, a single-line birth and a single-line executable.
pub open spec fn observer_target_ok(t: OpenCodeObserverTarget) -> bool {
    &&& t.projection.handle.native_session_id.spec_provider() == ProviderKind::OpenCode
    &&& t.projection.handle.runtime_generation@.len() > 0
    &&& t.projection.handle.observer_pid == Some(t.observer.pid)
    &&& text_option(t.projection.handle.observer_birth) == Some(t.observer.birth@)
    &&& t.observer.pid != 0
    &&& t.observer.birth@.len() > 0
    &&& t.observer.executable@.len() > 0
    &&& single_line(t.observer.birth@)
    &&& single_line(t.observer.executable@)
}

/// Refuses a target whose observer is not exactly the handle's.
pub fn validate_observer_target(t: &OpenCodeObserverTarget) -> (r: Result<(), CutoverError>)
    ensures
        r is Ok <==> observer_target_ok(*t),
        r matches Err(e) ==> e == CutoverError::InvalidObserverTarget,
{
    let handle = &t.projection.handle;
    let recorded_pid = match handle.observer_pid {
        Some(pid) => pid == t.observer.pid,
        None => false,
    };
    let recorded_birth = match as_text(&handle.observer_birth) {
        Some(birth) => text_eq(birth, t.observer.birth.as_str()),
        None => false,
    };
    if handle.native_session_id.provider() != ProviderKind::OpenCode
        || handle.runtime_generation.as_str().is_empty() || !recorded_pid || !recorded_birth
        || t.observer.pid == 0 || t.observer.birth.as_str().is_empty()
        || t.observer.executable.as_str().is_empty() || !is_single_line(t.observer.birth.as_str())
        || !is_single_line(t.observer.executable.as_str()) {
        return Err(CutoverError::InvalidObserverTarget);
    }
    Ok(())
}

/// The observer handle the state currently records for a Runtime.
#[derive(Clone, Debug, PartialEq, Eq)]
pub struct CurrentObserverHandleProof {
    pub runtime_id: RuntimeId,
    pub runtime_generation: String,
    pub pid: u32,
    pub birth: String,
    pub revision: Revision,
}

/// The recorded handle is the target's Runtime generation with exactly the
/// expected observer and revision.
pub open spec fn current_handle_matches(
    current: CurrentObserverHandleProof,
    t: OpenCodeObserverTarget,
    pid: u32,
    birth: Seq<char>,
    revision: Revision,
) -> bool {
    &&& current.runtime_id == t.projection.runtime.runtime_id
    &&& current.runtime_generation@ == t.projection.handle.runtime_generation@
    &&& current.pid == pid
    &&& current.birth@ == birth
    &&& current.revision.spec_value() == revision.spec_value()
}

/// Refuses a recorded handle that is not exactly the expected one.
pub fn require_current_handle(
    current: &CurrentObserverHandleProof,
    t: &OpenCodeObserverTarget,
    expected_pid: u32,
    expected_birth: &str,
    expected_revision: Revision,
) -> (r: Result<(), CutoverError>)
    ensures
        r is Ok <==> current_handle_matches(
            *current,
            *t,
            expected_pid,
            expected_birth@,
            expected_revision,
        ),
        r matches Err(e) ==> e == CutoverError::FuzzyProcessIdentity,
{
    if current.runtime_id != t.projection.runtime.runtime_id || !text_eq(
        current.runtime_generation.as_str(),
        t.projection.handle.runtime_generation.as_str(),
    ) || current.pid != expected_pid || !text_eq(current.birth.as_str(), expected_birth)
        || current.revision.value() != expected_revision.value() {
        return Err(CutoverError::FuzzyProcessIdentity);
    }
    Ok(())
}

/// A standby may replace an observer only as another process with a pid,
/// a birth and an executable.
pub open spec fn standby_identity_ok(
    standby: ObserverProcessIdentity,
    observer: ObserverProcessIdentity,
) -> bool {
    &&& !same_identity(standby, observer)
    &&& standby.pid != 0
    &&& standby.birth@.len() > 0
    &&& standby.executable@.len() > 0
}

/// Refuses a standby that is the old observer itself or names no process.
pub fn validate_standby_identity(
    standby: &ObserverProcessIdentity,
    observer: &ObserverProcessIdentity,
) -> (r: Result<(), CutoverError>)
    ensures
        r is Ok <==> standby_identity_ok(*standby, *observer),
        r matches Err(e) ==> e == CutoverError::InvalidObserverTarget,
{
    let same = standby.pid == observer.pid && text_eq(standby.birth.as_str(), observer.birth.as_str())
        && text_eq(standby.executable.as_str(), observer.executable.as_str());
    if same || standby.pid == 0 || standby.birth.as_str().is_empty()
        || standby.executable.as_str().is_empty() {
        return Err(CutoverError::InvalidObserverTarget);
    }
    Ok(())
}

impl SortKey for OpenCodeObserverProjection {
    open spec fn key_le(&self, other: &Self) -> bool {
        self.runtime.runtime_id.value <= other.runtime.runtime_id.value
    }

    fn le(&self, other: &Self) -> (r: bool) {
        self.runtime.runtime_id.value <= other.runtime.runtime_id.value
    }

    proof fn lemma_key_le_total(a: &Self, b: &Self) {
    }

    proof fn lemma_key_le_transitive(a: &Self, b: &Self, c: &Self) {
    }
}

/// No two projections name the same Runtime.
pub open spec fn distinct_runtimes(s: Seq<OpenCodeObserverProjection>) -> bool {
    forall|i: int, j: int|
        #![trigger s[i], s[j]]
        0 <= i < s.len() && 0 <= j < s.len() && i != j ==> s[i].runtime.runtime_id
            != s[j].runtime.runtime_id
}

/// Each projection names a greater Runtime identity than the one before.
pub open spec fn strictly_ordered_runtimes(s: Seq<OpenCodeObserverProjection>) -> bool {
    forall|i: int, j: int|
        #![trigger s[i], s[j]]
        0 <= i < j < s.len() ==> s[i].runtime.runtime_id.value < s[j].runtime.runtime_id.value
}

proof fn lemma_permuted_duplicate(
    r: Seq<OpenCodeObserverProjection>,
    v: Seq<OpenCodeObserverProjection>,
    a: int,
)
    requires
        is_permutation(r, v),
        0 <= a,
        a + 1 < r.len(),
        !neighbours_differ(r, a),
    ensures
        !distinct_runtimes(v),
{
    let perm = choose|perm: Seq<int>| crate::sort::permutes(r, v, perm);
    let x = perm[a];
    let y = perm[a + 1];
    assert(v[x] == r[a]);
    assert(v[y] == r[a + 1]);
    assert(x != y);
    assert(v[x].runtime.runtime_id == v[y].runtime.runtime_id);
}

proof fn lemma_permuted_distinct(
    r: Seq<OpenCodeObserverProjection>,
    v: Seq<OpenCodeObserverProjection>,
)
    requires
        is_permutation(r, v),
        distinct_runtimes(r),
    ensures
        distinct_runtimes(v),
{
    let perm = choose|perm: Seq<int>| crate::sort::permutes(r, v, perm);
    assert forall|i: int, j: int|
        0 <= i < v.len() && 0 <= j < v.len() && i != j implies #[trigger] v[i].runtime.runtime_id
        != #[trigger] v[j].runtime.runtime_id by {
        assert(crate::sort::position_covered(perm, i));
        assert(crate::sort::position_covered(perm, j));
        let ki = choose|k: int| 0 <= k < perm.len() && #[trigger] perm[k] == i;
        let kj = choose|k: int| 0 <= k < perm.len() && #[trigger] perm[k] == j;
        assert(r[ki] == v[i]);
        assert(r[kj] == v[j]);
        assert(ki != kj);
    }
}

/// The projection at `k` and the next one name different Runtimes.
pub open spec fn neighbours_differ(s: Seq<OpenCodeObserverProjection>, k: int) -> bool {
    s[k].runtime.runtime_id != s[k + 1].runtime.runtime_id
}

fn adjacent_duplicate(sorted: &Vec<OpenCodeObserverProjection>) -> (r: Option<usize>)
    ensures
        r matches Some(i) ==> i + 1 < sorted@.len() && !neighbours_differ(sorted@, i as int),
        r is None ==> forall|k: int|
            0 <= k && k + 1 < sorted@.len() ==> #[trigger] neighbours_differ(sorted@, k),
{
    if sorted.len() < 2 {
        return None;
    }
    let mut i: usize = 0;
    while i < sorted.len() - 1
        invariant
            sorted@.len() >= 2,
            i <= sorted@.len() - 1,
            forall|k: int| 0 <= k < i ==> #[trigger] neighbours_differ(sorted@, k),
        decreases sorted@.len() - i,
    {
        if sorted[i].runtime.runtime_id == sorted[i + 1].runtime.runtime_id {
            return Some(i);
        }
        i = i + 1;
    }
    None
}

proof fn lemma_sorted_distinct_neighbours_are_strict(s: Seq<OpenCodeObserverProjection>)
    requires
        crate::sort::sorted_by_key(s),
        forall|k: int| 0 <= k && k + 1 < s.len() ==> #[trigger] neighbours_differ(s, k),
    ensures
        strictly_ordered_runtimes(s),
        distinct_runtimes(s),
{
    assert forall|a: int, b: int|
        #![trigger s[a], s[b]]
        0 <= a < b < s.len() implies s[a].runtime.runtime_id.value < s[b].runtime.runtime_id.value by {
        assert(neighbours_differ(s, a));
        let x = s[a];
        let y = s[a + 1];
        let z = s[b];
        assert(x.key_le(&y));
        assert(y.key_le(&z));
        assert(x.runtime.runtime_id.value != y.runtime.runtime_id.value);
    }
    assert forall|a: int, b: int|
        0 <= a < s.len() && 0 <= b < s.len() && a != b implies #[trigger] s[a].runtime.runtime_id
        != #[trigger] s[b].runtime.runtime_id by {
        if a < b {
            assert(s[a].runtime.runtime_id.value < s[b].runtime.runtime_id.value);
        } else {
            assert(s[b].runtime.runtime_id.value < s[a].runtime.runtime_id.value);
        }
    }
}

/// The projections in Runtime identity order, refused as ambiguous when two
/// of them name the same Runtime.
pub fn order_observer_projections(projections: Vec<OpenCodeObserverProjection>) -> (r: Result<
    Vec<OpenCodeObserverProjection>,
    CutoverError,
>)
    ensures
        r is Ok <==> distinct_runtimes(projections@),
        r matches Ok(ordered) ==> is_permutation(ordered@, projections@)
            && strictly_ordered_runtimes(ordered@),
        r matches Err(e) ==> e == CutoverError::AmbiguousRuntime,
{
    let ghost given = projections@;
    let sorted = sort_by_key(projections);
    match adjacent_duplicate(&sorted) {
        Some(i) => {
            proof {
                lemma_permuted_duplicate(sorted@, given, i as int);
            }
            Err(CutoverError::AmbiguousRuntime)
        },
        None => {
            proof {
                lemma_sorted_distinct_neighbours_are_strict(sorted@);
                lemma_permuted_distinct(sorted@, given);
            }
            Ok(sorted)
        },
    }
}

/// The provider process evidence is the projection's provider: the recorded
/// birth, running, in the Runtime's working directory.
pub open spec fn provider_evidence_ok(
    evidence: CutoverProcessEvidence,
    birth: Seq<char>,
    cwd: Seq<char>,
    evidence_cwd_canonical: Option<Seq<char>>,
    cwd_canonical: Option<Seq<char>>,
) -> bool {
    &&& evidence.birth@ == birth
    &&& evidence.status == CutoverProcessStatus::Running
    &&& same_location(evidence.cwd@, evidence_cwd_canonical, cwd, cwd_canonical)
}

/// Whether the provider process evidence is exactly the projection's provider.
pub fn provider_evidence_matches(
    evidence: &CutoverProcessEvidence,
    birth: &str,
    cwd: &str,
    evidence_cwd_canonical: Option<&str>,
    cwd_canonical: Option<&str>,
) -> (r: bool)
    ensures
        r == provider_evidence_ok(
            *evidence,
            birth@,
            cwd@,
            optional_view(evidence_cwd_canonical),
            optional_view(cwd_canonical),
        ),
{
    text_eq(evidence.birth.as_str(), birth) && evidence.status == CutoverProcessStatus::Running
        && paths_match(evidence.cwd.as_str(), evidence_cwd_canonical, cwd, cwd_canonical)
}

/// What a spawned standby proves once it reported ready: the reported pid is
/// the spawned child's, the child's evidence has the reported birth and the
/// current executable, runs a standby command line, and that command line
/// proves a current observer of the target.
pub open spec fn standby_acceptance(
    ready_pid: u32,
    ready_birth: Seq<char>,
    child_pid: u32,
    evidence: Option<CutoverProcessEvidence>,
    executable: Seq<char>,
    executable_canonical: Option<bool>,
    target: OpenCodeObserverProjection,
    state_root: Seq<char>,
    res: CommandLineResolution,
) -> Result<(), CutoverError> {
    if ready_pid != child_pid {
        Err(CutoverError::FuzzyProcessIdentity)
    } else {
        match evidence {
            None => Err(CutoverError::FuzzyProcessIdentity),
            Some(e) => if !process_matches(
                e,
                ready_birth,
                executable_match_result(e.executable@, executable, executable_canonical),
            ) || e.status != CutoverProcessStatus::Running || !(e.arguments@.len() == 12
                && e.arguments@[3]@ == standby_command()) {
                Err(CutoverError::FuzzyProcessIdentity)
            } else {
                match observer_command_kind(
                    e.arguments@.map_values(|a: String| a@),
                    target,
                    e.executable@,
                    state_root,
                    res,
                ) {
                    Ok(_) => Ok(()),
                    Err(error) => Err(error),
                }
            },
        }
    }
}

/// Accepts a spawned standby as `standby_acceptance` states, naming it by
/// the child's pid, the reported birth and the current executable.
pub fn accept_standby_observer(
    ready_pid: u32,
    ready_birth: String,
    child_pid: u32,
    evidence: Option<CutoverProcessEvidence>,
    executable: String,
    executable_canonical: Option<bool>,
    target: &OpenCodeObserverProjection,
    state_root: &str,
    resolution: &CommandLineResolution,
) -> (r: Result<ObserverProcessIdentity, CutoverError>)
    ensures
        match r {
            Ok(identity) => standby_acceptance(
                ready_pid,
                ready_birth@,
                child_pid,
                evidence,
                executable@,
                executable_canonical,
                *target,
                state_root@,
                *resolution,
            ) is Ok && identity.pid == child_pid && identity.birth@ == ready_birth@
                && identity.executable@ == executable@,
            Err(e) => standby_acceptance(
                ready_pid,
                ready_birth@,
                child_pid,
                evidence,
                executable@,
                executable_canonical,
                *target,
                state_root@,
                *resolution,
            ) == Err::<(), CutoverError>(e),
        },
{
    if ready_pid != child_pid {
        return Err(CutoverError::FuzzyProcessIdentity);
    }
    let e = match evidence {
        Some(e) => e,
        None => {
            return Err(CutoverError::FuzzyProcessIdentity);
        },
    };
    if !process_identity_matches(&e, ready_birth.as_str(), executable.as_str(), executable_canonical)
        || e.status != CutoverProcessStatus::Running || !is_standby_command_line(
        e.arguments.as_slice(),
    ) {
        return Err(CutoverError::FuzzyProcessIdentity);
    }
    match validate_observer_generation_command_line(
        e.arguments.as_slice(),
        target,
        e.executable.as_str(),
        state_root,
        resolution,
    ) {
        Ok(_) => {},
        Err(error) => {
            return Err(error);
        },
    }
    Ok(ObserverProcessIdentity { pid: child_pid, birth: ready_birth, executable })
}

proof fn lemma_decimal_recordable(n: nat)
    ensures
        recordable_argument(decimal_of(n)),
{
    lemma_decimal_of_digits(n);
    let d = decimal_of(n);
    if seq_has_char(d, '\0') {
        let k = choose|k: int| 0 <= k < d.len() && #[trigger] d[k] == '\0';
        assert(is_ascii_digit(d[k]));
    }
}

proof fn lemma_uuid_text_recordable(v: u128)
    ensures
        recordable_argument(uuid_hyphenated_text(v)),
{
    lemma_uuid_hyphenated_shape(v);
    let t = uuid_hyphenated_text(v);
    if seq_has_char(t, '\0') {
        let k = choose|k: int| 0 <= k < t.len() && #[trigger] t[k] == '\0';
        assert(is_hex_char(t[k]) || t[k] == '-');
    }
}

proof fn lemma_bounded_line_recordable(s: Seq<char>)
    requires
        bounded_line_ok(s),
    ensures
        recordable_argument(s),
{
}

/// A standby observer spawned for a valid target, its executable first, is
/// read back from the command line procfs records for it as exactly the
/// arguments it was spawned with, and those prove a current-generation
/// observer of the target, when no argument holds a NUL.
pub proof fn lemma_recorded_standby_command_line_is_current_generation(
    p: OpenCodeObserverProjection,
    executable: Seq<char>,
    state_root: Seq<char>,
    res: CommandLineResolution,
)
    requires
        projection_shape_ok(p),
        p.runtime.provider_pid is Some,
        p.runtime.process_birth is Some,
        recordable_argument(executable),
        recordable_argument(state_root),
        recordable_argument(p.handle.native_session_id.spec_native_id()),
        !seq_has_char(p.runtime.cwd@, '\0'),
        resolution_agrees_with_standby(res),
    ensures
        command_arguments(
            nul_pieces(
                recorded_command_line(
                    seq![executable] + standby_arguments_of(
                        p,
                        state_root,
                        p.runtime.provider_pid->0,
                        p.runtime.process_birth->0@,
                    ),
                ),
            ),
        ) == Ok::<Seq<Seq<char>>, CommandLineFault>(
            seq![executable] + standby_arguments_of(
                p,
                state_root,
                p.runtime.provider_pid->0,
                p.runtime.process_birth->0@,
            ),
        ),
        observer_command_kind(
            seq![executable] + standby_arguments_of(
                p,
                state_root,
                p.runtime.provider_pid->0,
                p.runtime.process_birth->0@,
            ),
            p,
            executable,
            state_root,
            res,
        ) == Ok::<OpenCodeObserverKind, CutoverError>(OpenCodeObserverKind::D16),
{
    let pid = p.runtime.provider_pid->0;
    let birth = p.runtime.process_birth->0@;
    let args = seq![executable] + standby_arguments_of(p, state_root, pid, birth);
    reveal_strlit("--state-root");
    reveal_strlit("_opencode_observer_standby");
    assert(recordable_argument("--state-root"@)) by {
        let s = "--state-root"@;
        if seq_has_char(s, '\0') {
            let k = choose|k: int| 0 <= k < s.len() && #[trigger] s[k] == '\0';
        }
    }
    assert(recordable_argument(standby_command())) by {
        let s = standby_command();
        if seq_has_char(s, '\0') {
            let k = choose|k: int| 0 <= k < s.len() && #[trigger] s[k] == '\0';
        }
    }
    lemma_uuid_text_recordable(p.runtime.runtime_id.value);
    lemma_decimal_recordable(p.handle.endpoint_port as nat);
    lemma_decimal_recordable(pid as nat);
    lemma_bounded_line_recordable(p.handle.runtime_generation@);
    lemma_bounded_line_recordable(p.handle.version@);
    assert(birth_token_ok(birth));
    assert(args.len() == 12);
    assert forall|i: int| 0 <= i < args.len() implies recordable_argument(#[trigger] args[i]) by {
        if i == 10 {
            assert(args[i] == p.runtime.cwd@);
        } else if i == 11 {
            assert(args[i] == birth);
        }
    }
    lemma_recorded_command_line_reads_back(args);
    lemma_standby_command_line_is_current_generation(p, executable, state_root, res);
}

} // verus!
