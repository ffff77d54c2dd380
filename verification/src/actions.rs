//! Host-local lifecycle actions: the durable outcome and failure types, and
//! the exact-identity decisions every native process effect depends on.

use vstd::prelude::*;

use crate::cutover::{paths_same, same_path};
use crate::domain::{ProviderKind, Revision, RuntimeStatus};
use crate::ids::{RuntimeId, WorkstreamId, uuid_hyphenated_text};
use crate::state::StateError;
use crate::text::{owned, text_eq};

verus! {

/// The durable outcome of a start-or-resume request.
#[derive(Clone, Copy, Debug, PartialEq, Eq, Structural)]
pub enum StartOutcome {
    Started,
    AlreadyLive,
}

/// Failures of the private tmux Runtime layer.
#[derive(Clone, Debug, PartialEq, Eq)]
pub enum RuntimeError {
    TmuxRejected(String),
    StartupUnavailable,
    ProcessGroupUnproven,
    Unavailable,
}

/// Bounded failures of a lifecycle action.
#[derive(Clone, Debug, PartialEq, Eq)]
pub enum ActionError {
    ProviderReadiness,
    UnsupportedProvider(ProviderKind),
    ProviderRecoveryUnavailable(ProviderKind),
    CodexHomeUnavailable,
    Io,
    NoRuntime(WorkstreamId),
    NoProviderBinding(WorkstreamId),
    ObserverNotInstalled,
    ObserverNotReady,
    RuntimeProbeAmbiguous,
    OpenCodeProviderReadinessTimeout,
    OpenCodeObserverReadinessTimeout,
    OpenCodeObserverStartupFailed,
    OpenCodeObserverIdentityChanged,
    OpenCodeObserverExitedBeforeReady,
    NativeRecoveryRequired,
    NativeRecoveryUnavailable,
    UnknownWorkstream,
    WorkstreamArchived,
    WorkstreamAlreadyArchived,
    WorkstreamNotArchived,
    WorkstreamRevisionConflict,
    OpenCodeSessionCreationExternalEffectUnknown,
    Profile,
    AppServer,
    OpenCode,
    Runtime(RuntimeError),
    State(StateError),
}


/// A provider-namespaced native session identity.
#[derive(Clone, Debug, PartialEq, Eq)]
pub struct ProviderSessionId {
    provider: ProviderKind,
    native_id: String,
}

impl ProviderSessionId {
    pub closed spec fn spec_provider(&self) -> ProviderKind {
        self.provider
    }

    pub closed spec fn spec_native_id(&self) -> Seq<char> {
        self.native_id@
    }

    /// A session identity of the provider; the native identity must not be empty.
    pub fn new(provider: ProviderKind, native_id: &str) -> (r: Option<ProviderSessionId>)
        ensures
            r is Some <==> native_id@.len() > 0,
            r matches Some(id) ==> id.spec_provider() == provider && id.spec_native_id() == native_id@,
    {
        if native_id.unicode_len() == 0 {
            None
        } else {
            Some(ProviderSessionId { provider, native_id: owned(native_id) })
        }
    }

    /// The provider that owns the session.
    pub fn provider(&self) -> (r: ProviderKind)
        ensures
            r == self.spec_provider(),
    {
        self.provider
    }

    /// The provider's own session identity.
    pub fn native_id(&self) -> (r: &str)
        ensures
            r@ == self.spec_native_id(),
    {
        self.native_id.as_str()
    }
}

/// Provider-namespaced equality of two session identities.
pub fn same_session(a: &ProviderSessionId, b: &ProviderSessionId) -> (r: bool)
    ensures
        r == (a.spec_provider() == b.spec_provider() && a.spec_native_id() == b.spec_native_id()),
{
    a.provider() == b.provider() && text_eq(a.native_id(), b.native_id())
}

/// The durable record of one private Runtime generation.
#[derive(Clone, Debug, PartialEq, Eq)]
pub struct RuntimeRecord {
    pub runtime_id: RuntimeId,
    pub workstream_id: WorkstreamId,
    pub provider: ProviderKind,
    pub tmux_generation: String,
    pub tmux_session: String,
    pub cwd: String,
    pub provider_pid: Option<u32>,
    pub process_birth: Option<String>,
    pub status: RuntimeStatus,
    pub revision: Revision,
}

/// What a bounded probe of a private Runtime's pane observed.
#[derive(Clone, Debug, PartialEq, Eq)]
pub enum RuntimeProbe {
    Live { pane_id: String, pane_pid: u32, cwd: String, process_birth: Option<String> },
    Missing,
    Unknown { diagnostic: String },
}

/// The text of an optional owned string.
pub open spec fn optional_string_view(o: Option<String>) -> Option<Seq<char>> {
    match o {
        Some(s) => Some(s@),
        None => None,
    }
}

/// The probe shows exactly the recorded provider process: live, in the
/// recorded working directory, with the recorded pid and birth; with
/// `require_starting`, the record must also still be starting.
pub open spec fn runtime_matches_record(
    record: RuntimeRecord,
    probe: RuntimeProbe,
    require_starting: bool,
) -> bool {
    &&& (!require_starting || record.status == RuntimeStatus::Starting)
    &&& probe matches RuntimeProbe::Live { pane_pid, cwd, process_birth: Some(birth), .. }
    &&& paths_same(cwd@, record.cwd@)
    &&& record.provider_pid == Some(pane_pid)
    &&& optional_string_view(record.process_birth) == Some(birth@)
}

fn optional_text_eq(a: &Option<String>, b: &str) -> (r: bool)
    ensures
        r == (optional_string_view(*a) == Some(b@)),
{
    match a {
        Some(text) => text_eq(text.as_str(), b),
        None => false,
    }
}

/// Whether the probe shows exactly the recorded provider process.
pub fn matches_recorded_runtime(record: &RuntimeRecord, probe: &RuntimeProbe, require_starting: bool) -> (r: bool)
    ensures
        r == runtime_matches_record(*record, *probe, require_starting),
{
    if require_starting && record.status != RuntimeStatus::Starting {
        return false;
    }
    match probe {
        RuntimeProbe::Live { pane_pid, cwd, process_birth: Some(birth), .. } => {
            same_path(cwd.as_str(), record.cwd.as_str()) && record.provider_pid == Some(*pane_pid)
                && optional_text_eq(&record.process_birth, birth.as_str())
        },
        _ => false,
    }
}

/// Native attachment is accepted only for exactly the recorded provider process.
pub fn attachment_runtime_matches(record: &RuntimeRecord, probe: &RuntimeProbe) -> (r: bool)
    ensures
        r == runtime_matches_record(*record, *probe, false),
{
    matches_recorded_runtime(record, probe, false)
}

/// Requiring a starting record only narrows an exact match.
pub proof fn lemma_starting_match_is_exact_match(record: RuntimeRecord, probe: RuntimeProbe)
    ensures
        runtime_matches_record(record, probe, true) ==> runtime_matches_record(record, probe, false),
{
}

/// The recorded provider identity, complete: a pid and a non-empty birth.
pub open spec fn recorded_identity_of(record: RuntimeRecord) -> Option<(u32, Seq<char>)> {
    match (record.provider_pid, record.process_birth) {
        (Some(pid), Some(birth)) => if birth@.len() > 0 {
            Some((pid, birth@))
        } else {
            None
        },
        _ => None,
    }
}

/// The complete recorded provider identity; an incomplete one is ambiguous.
pub fn recorded_provider_identity(record: &RuntimeRecord) -> (r: Result<(u32, &str), ActionError>)
    ensures
        recorded_identity_of(*record) matches Some((pid, birth)) ==> r matches Ok((p, b)) && p == pid
            && b@ == birth,
        recorded_identity_of(*record) is None ==> r == Err::<(u32, &str), ActionError>(
            ActionError::RuntimeProbeAmbiguous,
        ),
{
    let pid = match record.provider_pid {
        Some(pid) => pid,
        None => {
            return Err(ActionError::RuntimeProbeAmbiguous);
        },
    };
    match &record.process_birth {
        Some(birth) => {
            if birth.as_str().unicode_len() == 0 {
                Err(ActionError::RuntimeProbeAmbiguous)
            } else {
                Ok((pid, birth.as_str()))
            }
        },
        None => Err(ActionError::RuntimeProbeAmbiguous),
    }
}

/// A cleanup failure is reported in preference to the failure that caused it.
pub fn prefer_cleanup_error(cleanup: Result<(), ActionError>, given: ActionError) -> (r: ActionError)
    ensures
        r == (match cleanup {
            Err(e) => e,
            Ok(()) => given,
        }),
{
    match cleanup {
        Err(e) => e,
        Ok(()) => given,
    }
}

/// Reads the birth token of a live process; users supply the probe.
pub trait ProcessProbe {
    fn process_birth(&self, pid: u32) -> Option<String>;
}

/// An observed birth proves the expected process only when the expected
/// birth is non-empty and equal to it.
pub open spec fn birth_proves(observed: Option<Seq<char>>, expected_birth: Seq<char>) -> bool {
    expected_birth.len() > 0 && observed == Some(expected_birth)
}

/// Decides whether an observed birth proves the expected process.
pub fn birth_matches(observed: &Option<String>, expected_birth: &str) -> (r: bool)
    ensures
        r == birth_proves(optional_string_view(*observed), expected_birth@),
{
    expected_birth.unicode_len() > 0 && optional_text_eq(observed, expected_birth)
}

/// Whether a live process is exactly the expected observer; a missing or
/// reused birth never matches, and neither does an empty expected birth.
pub fn observer_identity_matches<P: ProcessProbe>(probe: &P, pid: u32, expected_birth: &str) -> (r: bool)
    ensures
        r ==> expected_birth@.len() > 0,
{
    if expected_birth.unicode_len() == 0 {
        return false;
    }
    let observed = probe.process_birth(pid);
    birth_matches(&observed, expected_birth)
}

/// Whether an observer process is live.
#[derive(Clone, Copy, Debug, PartialEq, Eq, Structural)]
pub enum OpenCodeObserverStatus {
    Starting,
    Ready,
    Unknown,
    Stopped,
}

/// The durable handle of one OpenCode Runtime's private endpoint and observer.
#[derive(Clone, Debug, PartialEq, Eq)]
pub struct OpenCodeRuntimeHandle {
    pub runtime_id: RuntimeId,
    pub runtime_generation: String,
    pub endpoint_host: String,
    pub endpoint_port: u16,
    pub version: String,
    pub native_session_id: ProviderSessionId,
    pub observer_pid: Option<u32>,
    pub observer_birth: Option<String>,
    pub observer_status: OpenCodeObserverStatus,
    pub revision: Revision,
}

/// A spawned observer is the handle's recorded one: same pid and birth.
pub open spec fn handle_names_observer(handle: OpenCodeRuntimeHandle, pid: u32, birth: Seq<char>) -> bool {
    handle.observer_pid == Some(pid) && optional_string_view(handle.observer_birth) == Some(birth)
}

/// Whether a spawned observer is ready: the handle records exactly its pid
/// and birth, and the live process still has that birth.
pub fn spawned_observer_identity_matches<P: ProcessProbe>(
    handle: &OpenCodeRuntimeHandle,
    pid: u32,
    birth: &str,
    probe: &P,
) -> (r: bool)
    ensures
        r ==> handle_names_observer(*handle, pid, birth@) && birth@.len() > 0,
{
    handle.observer_pid == Some(pid) && optional_text_eq(&handle.observer_birth, birth)
        && observer_identity_matches(probe, pid, birth)
}

/// The loopback host every private OpenCode endpoint binds.
pub open spec fn loopback_host() -> Seq<char> {
    seq!['1', '2', '7', '.', '0', '.', '0', '.', '1']
}

/// The loopback host every private OpenCode endpoint binds.
pub fn loopback_host_text() -> (r: &'static str)
    ensures
        r@ == loopback_host(),
{
    proof {
        reveal_strlit("127.0.0.1");
    }
    "127.0.0.1"
}

/// The current provider conversation of one Runtime generation.
#[derive(Clone, Debug, PartialEq, Eq)]
pub struct ProviderBinding {
    pub runtime_id: RuntimeId,
    pub runtime_generation: String,
    pub provider: ProviderKind,
    pub native_session_id: ProviderSessionId,
    pub start_source: String,
    pub last_settled_turn_id: Option<String>,
    pub observed_thread_name: Option<String>,
    pub revision: Revision,
}

/// An OpenCode recovery may reuse a handle only when the Runtime has a
/// complete recorded provider identity and the handle and binding name the
/// same Runtime generation, a loopback endpoint, a version, and the same
/// OpenCode session.
pub open spec fn recovery_handle_ok(
    runtime: RuntimeRecord,
    binding: ProviderBinding,
    handle: OpenCodeRuntimeHandle,
) -> bool {
    &&& runtime.provider == ProviderKind::OpenCode
    &&& runtime.provider_pid is Some
    &&& runtime.process_birth matches Some(birth) && birth@.len() > 0
    &&& handle.runtime_id == runtime.runtime_id
    &&& handle.runtime_generation@ == runtime.tmux_generation@
    &&& handle.endpoint_host@ == loopback_host()
    &&& handle.endpoint_port != 0
    &&& handle.version@.len() > 0
    &&& binding.runtime_id == runtime.runtime_id
    &&& binding.runtime_generation@ == runtime.tmux_generation@
    &&& binding.provider == ProviderKind::OpenCode
    &&& binding.native_session_id.spec_provider() == handle.native_session_id.spec_provider()
    &&& binding.native_session_id.spec_native_id() == handle.native_session_id.spec_native_id()
}

/// Whether an OpenCode recovery may reuse the recorded handle.
pub fn opencode_recovery_handle_matches(
    runtime: &RuntimeRecord,
    binding: &ProviderBinding,
    handle: &OpenCodeRuntimeHandle,
) -> (r: bool)
    ensures
        r == recovery_handle_ok(*runtime, *binding, *handle),
{
    let birth_ok = match &runtime.process_birth {
        Some(birth) => birth.as_str().unicode_len() > 0,
        None => false,
    };
    runtime.provider == ProviderKind::OpenCode && runtime.provider_pid.is_some() && birth_ok
        && handle.runtime_id == runtime.runtime_id && text_eq(
        handle.runtime_generation.as_str(),
        runtime.tmux_generation.as_str(),
    ) && text_eq(handle.endpoint_host.as_str(), loopback_host_text()) && handle.endpoint_port
        != 0 && handle.version.as_str().unicode_len() > 0 && binding.runtime_id == runtime.runtime_id
        && text_eq(binding.runtime_generation.as_str(), runtime.tmux_generation.as_str())
        && binding.provider == ProviderKind::OpenCode && same_session(
        &binding.native_session_id,
        &handle.native_session_id,
    )
}


/// The texts of a sequence of strings.
pub open spec fn strings_view(v: Seq<String>) -> Seq<Seq<char>> {
    v.map_values(|s: String| s@)
}

/// The managed Codex command: the observer profile in the Workstream's
/// directory, resuming the bound session when there is one.
pub open spec fn launch_program_of(cwd: Seq<char>, session: Option<Seq<char>>) -> Seq<Seq<char>> {
    let base = seq!["codex"@, "--profile"@, "wsnav-observer"@, "-C"@, cwd];
    match session {
        Some(id) => base + seq!["resume"@, id],
        None => base,
    }
}

/// The recovery command: the bare launch command followed by `resume` and,
/// when a binding survived, its session; without one Codex shows its picker.
pub open spec fn recovery_program_of(cwd: Seq<char>, session: Option<Seq<char>>) -> Seq<Seq<char>> {
    match session {
        Some(id) => launch_program_of(cwd, None) + seq!["resume"@, id],
        None => launch_program_of(cwd, None) + seq!["resume"@],
    }
}

/// The session a binding names, if any.
pub open spec fn binding_session(binding: Option<&ProviderBinding>) -> Option<Seq<char>> {
    match binding {
        Some(b) => Some(b.native_session_id.spec_native_id()),
        None => None,
    }
}

fn push_text(v: &mut Vec<String>, text: &str)
    ensures
        strings_view(final(v)@) == strings_view(old(v)@).push(text@),
{
    let ghost before = v@;
    v.push(owned(text));
    proof {
        assert(strings_view(v@) =~= strings_view(before).push(text@));
    }
}

/// Builds the only native provider command permitted for a managed Runtime.
pub fn codex_launch_program(cwd: &str, binding: Option<&ProviderBinding>) -> (r: Vec<String>)
    ensures
        strings_view(r@) == launch_program_of(cwd@, binding_session(binding)),
{
    let mut program: Vec<String> = Vec::new();
    proof {
        assert(strings_view(program@) =~= Seq::<Seq<char>>::empty());
    }
    push_text(&mut program, "codex");
    push_text(&mut program, "--profile");
    push_text(&mut program, "wsnav-observer");
    push_text(&mut program, "-C");
    push_text(&mut program, cwd);
    match binding {
        Some(b) => {
            push_text(&mut program, "resume");
            push_text(&mut program, b.native_session_id.native_id());
        },
        None => {},
    }
    proof {
        assert(strings_view(program@) =~= launch_program_of(cwd@, binding_session(binding)));
    }
    program
}

/// Builds the recovery-only native Codex command.
pub fn codex_recovery_program(cwd: &str, binding: Option<&ProviderBinding>) -> (r: Vec<String>)
    ensures
        strings_view(r@) == recovery_program_of(cwd@, binding_session(binding)),
{
    let mut program = codex_launch_program(cwd, None);
    push_text(&mut program, "resume");
    match binding {
        Some(b) => {
            push_text(&mut program, b.native_session_id.native_id());
        },
        None => {},
    }
    proof {
        assert(strings_view(program@) =~= recovery_program_of(cwd@, binding_session(binding)));
    }
    program
}

/// Recovery with a surviving binding resumes exactly the session a launch
/// with that binding resumes; without one it ends at the native picker.
pub proof fn lemma_recovery_resumes_like_launch(cwd: Seq<char>, session: Option<Seq<char>>)
    ensures
        session is Some ==> recovery_program_of(cwd, session) == launch_program_of(cwd, session),
        session is None ==> recovery_program_of(cwd, session) == launch_program_of(cwd, None).push(
            "resume"@,
        ),
{
    if let Some(id) = session {
        assert(launch_program_of(cwd, None) + seq!["resume"@, id] =~= seq![
            "codex"@,
            "--profile"@,
            "wsnav-observer"@,
            "-C"@,
            cwd,
        ] + seq!["resume"@, id]);
    } else {
        assert(launch_program_of(cwd, None) + seq!["resume"@] =~= launch_program_of(cwd, None).push(
            "resume"@,
        ));
    }
}

/// The provider command wrapped by the private launch barrier.
pub open spec fn launch_barrier_program_of(
    executable: Seq<char>,
    state_root: Seq<char>,
    runtime_id: RuntimeId,
    program: Seq<Seq<char>>,
) -> Seq<Seq<char>> {
    seq![
        executable,
        "--state-root"@,
        state_root,
        "_runtime_launch"@,
        uuid_hyphenated_text(runtime_id.value),
        "--"@,
    ] + program
}

/// Wraps a native provider command in the private launch barrier of the
/// given executable.
pub fn runtime_launch_program(
    executable: &str,
    state_root: &str,
    runtime_id: RuntimeId,
    program: Vec<String>,
) -> (r: Vec<String>)
    ensures
        strings_view(r@) == launch_barrier_program_of(
            executable@,
            state_root@,
            runtime_id,
            strings_view(program@),
        ),
{
    let mut wrapped: Vec<String> = Vec::new();
    proof {
        assert(strings_view(wrapped@) =~= Seq::<Seq<char>>::empty());
    }
    push_text(&mut wrapped, executable);
    push_text(&mut wrapped, "--state-root");
    push_text(&mut wrapped, state_root);
    push_text(&mut wrapped, "_runtime_launch");
    let id_text = runtime_id.text();
    push_text(&mut wrapped, id_text.as_str());
    push_text(&mut wrapped, "--");
    let ghost head = strings_view(wrapped@);
    let mut rest = program;
    let ghost all = rest@;
    let mut k: usize = 0;
    let n = rest.len();
    while k < n
        invariant
            n == all.len(),
            k <= n,
            rest@ == all.subrange(k as int, n as int),
            strings_view(wrapped@) == head + strings_view(all.subrange(0, k as int)),
        decreases n - k,
    {
        let item = rest.remove(0);
        let ghost before = wrapped@;
        wrapped.push(item);
        proof {
            assert(strings_view(wrapped@) =~= strings_view(before).push(all[k as int]@));
            assert(strings_view(all.subrange(0, k + 1)) =~= strings_view(all.subrange(0, k as int)).push(
                all[k as int]@,
            ));
        }
        k = k + 1;
        proof {
            assert(rest@ =~= all.subrange(k as int, n as int));
        }
    }
    proof {
        assert(all.subrange(0, n as int) =~= all);
        assert(strings_view(wrapped@) =~= launch_barrier_program_of(
            executable@,
            state_root@,
            runtime_id,
            strings_view(all),
        ));
    }
    wrapped
}

/// The environment owned by a managed Codex Runtime, in key order: only the
/// explicit UTF-8 locale.
pub open spec fn managed_environment() -> Seq<(Seq<char>, Seq<char>)> {
    seq![("LANG"@, "C.UTF-8"@), ("LC_ALL"@, "C.UTF-8"@), ("LC_CTYPE"@, "C.UTF-8"@)]
}

/// Builds the environment owned by a managed Codex Runtime.
pub fn managed_codex_environment() -> (r: Vec<(String, String)>)
    ensures
        r@.map_values(|p: (String, String)| (p.0@, p.1@)) == managed_environment(),
{
    let locale = "C.UTF-8";
    let r = vec![
        (owned("LANG"), owned(locale)),
        (owned("LC_ALL"), owned(locale)),
        (owned("LC_CTYPE"), owned(locale)),
    ];
    proof {
        assert(r@.map_values(|p: (String, String)| (p.0@, p.1@)) =~= managed_environment());
    }
    r
}

/// When an exact live probe may backfill a record that lacks its provider
/// pid: the probe is live with a birth, the record has no pid, the same
/// directory and that birth. The result is the pane pid to record.
pub open spec fn backfill_pid_of(record: RuntimeRecord, probe: RuntimeProbe) -> Option<u32> {
    match probe {
        RuntimeProbe::Live { pane_pid, cwd, process_birth: Some(birth), .. } => if record.provider_pid
            is None && paths_same(cwd@, record.cwd@) && optional_string_view(record.process_birth) == Some(
            birth@,
        ) {
            Some(pane_pid)
        } else {
            None
        },
        _ => None,
    }
}

/// The pane pid an exact live probe may backfill into the record.
pub fn backfill_candidate(record: &RuntimeRecord, probe: &RuntimeProbe) -> (r: Option<u32>)
    ensures
        r == backfill_pid_of(*record, *probe),
{
    match probe {
        RuntimeProbe::Live { pane_pid, cwd, process_birth: Some(birth), .. } => {
            if record.provider_pid.is_none() && same_path(cwd.as_str(), record.cwd.as_str())
                && optional_text_eq(&record.process_birth, birth.as_str()) {
                Some(*pane_pid)
            } else {
                None
            }
        },
        _ => None,
    }
}

/// What reconciliation does with one recorded Runtime.
#[derive(Clone, Copy, Debug, PartialEq, Eq, Structural)]
pub enum LostRuntimeDecision {
    /// Not a candidate: already recovery-required, never launched, or stopped.
    Skip,
    /// The probe is inconclusive; state stays as it is.
    Keep,
    /// The exact live process lacks its recorded pid; record it.
    Backfill { pane_pid: u32 },
    /// The private Runtime is conclusively lost.
    MarkRecoveryRequired,
}

/// Whether a Runtime row is reconciled at all.
pub open spec fn reconcile_candidate(lifecycle: crate::domain::WorkstreamLifecycle, record: RuntimeRecord) -> bool {
    lifecycle != crate::domain::WorkstreamLifecycle::RecoveryRequired && record.process_birth is Some
        && record.status != RuntimeStatus::Stopped
}

/// How a probe of a candidate Runtime is read: missing is conclusive loss;
/// a live pane is kept when it backfills an exact identity, else lost unless
/// it is exactly the recorded process; anything else leaves state alone.
pub open spec fn lost_runtime_decision_of(
    lifecycle: crate::domain::WorkstreamLifecycle,
    record: RuntimeRecord,
    probe: Option<RuntimeProbe>,
) -> LostRuntimeDecision {
    if !reconcile_candidate(lifecycle, record) {
        LostRuntimeDecision::Skip
    } else {
        match probe {
            Some(RuntimeProbe::Missing) => LostRuntimeDecision::MarkRecoveryRequired,
            Some(RuntimeProbe::Live { pane_pid, cwd, process_birth, .. }) => if record.provider_pid
                is None && paths_same(cwd@, record.cwd@) && process_birth is Some && optional_string_view(
                process_birth,
            ) == optional_string_view(record.process_birth) {
                LostRuntimeDecision::Backfill { pane_pid }
            } else if !paths_same(cwd@, record.cwd@) || record.provider_pid != Some(pane_pid)
                || optional_string_view(process_birth) != optional_string_view(record.process_birth) {
                LostRuntimeDecision::MarkRecoveryRequired
            } else {
                LostRuntimeDecision::Keep
            },
            _ => LostRuntimeDecision::Keep,
        }
    }
}

fn optional_texts_eq(a: &Option<String>, b: &Option<String>) -> (r: bool)
    ensures
        r == (optional_string_view(*a) == optional_string_view(*b)),
{
    match (a, b) {
        (Some(x), Some(y)) => text_eq(x.as_str(), y.as_str()),
        (None, None) => true,
        _ => false,
    }
}

/// Reconciliation leaves alone exactly the Runtimes it may not judge lost: a
/// stopped (parked) Runtime, one never launched (no process birth), or one of
/// a Workstream already recovery-required is skipped whatever its probe
/// shows, and every other Runtime is judged by its probe. A conclusively
/// missing pane marks only a launched, unstopped Runtime of a Workstream not
/// yet recovery-required.
pub proof fn lemma_reconciliation_skips_exactly_unjudged_runtimes(
    lifecycle: crate::domain::WorkstreamLifecycle,
    record: RuntimeRecord,
    probe: Option<RuntimeProbe>,
)
    ensures
        record.status == RuntimeStatus::Stopped ==> lost_runtime_decision_of(lifecycle, record, probe)
            == LostRuntimeDecision::Skip,
        record.process_birth is None ==> lost_runtime_decision_of(lifecycle, record, probe)
            == LostRuntimeDecision::Skip,
        lifecycle == crate::domain::WorkstreamLifecycle::RecoveryRequired ==> lost_runtime_decision_of(
            lifecycle,
            record,
            probe,
        ) == LostRuntimeDecision::Skip,
        lost_runtime_decision_of(lifecycle, record, probe) == LostRuntimeDecision::Skip ==> (
        record.status == RuntimeStatus::Stopped || record.process_birth is None || lifecycle
            == crate::domain::WorkstreamLifecycle::RecoveryRequired),
        lost_runtime_decision_of(lifecycle, record, probe) == LostRuntimeDecision::MarkRecoveryRequired
            ==> record.status != RuntimeStatus::Stopped && record.process_birth is Some && lifecycle
            != crate::domain::WorkstreamLifecycle::RecoveryRequired,
        record.status != RuntimeStatus::Stopped && record.process_birth is Some && lifecycle
            != crate::domain::WorkstreamLifecycle::RecoveryRequired && probe == Some(RuntimeProbe::Missing)
            ==> lost_runtime_decision_of(lifecycle, record, probe)
            == LostRuntimeDecision::MarkRecoveryRequired,
{
}

/// Decides what reconciliation does with one recorded Runtime, given its
/// probe (`None` when the probe failed).
pub fn lost_runtime_decision(
    lifecycle: crate::domain::WorkstreamLifecycle,
    record: &RuntimeRecord,
    probe: Option<&RuntimeProbe>,
) -> (r: LostRuntimeDecision)
    ensures
        r == lost_runtime_decision_of(
            lifecycle,
            *record,
            match probe {
                Some(p) => Some(*p),
                None => None,
            },
        ),
{
    if lifecycle == crate::domain::WorkstreamLifecycle::RecoveryRequired || record.process_birth.is_none()
        || record.status == RuntimeStatus::Stopped {
        return LostRuntimeDecision::Skip;
    }
    match probe {
        Some(RuntimeProbe::Missing) => LostRuntimeDecision::MarkRecoveryRequired,
        Some(RuntimeProbe::Live { pane_pid, cwd, process_birth, .. }) => {
            let same_cwd = same_path(cwd.as_str(), record.cwd.as_str());
            let same_birth = optional_texts_eq(process_birth, &record.process_birth);
            if record.provider_pid.is_none() && same_cwd && process_birth.is_some() && same_birth {
                LostRuntimeDecision::Backfill { pane_pid: *pane_pid }
            } else if !same_cwd || record.provider_pid != Some(*pane_pid) || !same_birth {
                LostRuntimeDecision::MarkRecoveryRequired
            } else {
                LostRuntimeDecision::Keep
            }
        },
        _ => LostRuntimeDecision::Keep,
    }
}

} // verus!
