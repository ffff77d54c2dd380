use sha2::{Digest, Sha256};
use wsnav::account_shell::{
    AccountShellError, AccountShellKind, AccountShellPlan, account_shell_plan, zdotdir_source, BASH_WRAPPER, ZSH_WRAPPER, ZSH_WRAPPER_FILE,
    environment_path, path_environment_value,
};
use wsnav::build_info::{BuildInfo, BuildInfoError, CONTROL_ABI, HOST_SCHEMA_VERSION};
use wsnav::clock::{SystemD17Clock, boot_provenance_from_boot_id, ClockError, broker_boot_provenance};
use wsnav::decimal::{parse_i64, parse_u32};
use wsnav::domain::{IntegrationLifecycle, Revision, RuntimeStatus, WorkstreamLifecycle};
use wsnav::facade::ProfileInspection;
use wsnav::observer::{
    CodexHomeShape, CodexIntegrationRecord, CycleDirection, LaunchReadiness, ObserverActivationError, ObserverDoctorEvidence,
    observer_doctor_line,
    adjacent_cycle_candidate, classify_observer_readiness, cycle_workstream_eligible,
};

#[test]
fn zsh_wrapper_body_is_the_only_startup_file_that_restores_zdotdir() {
    assert!(ZSH_WRAPPER.contains("export ZDOTDIR=\"${WSNAV_ORIGINAL_ZDOTDIR:?}\""));
    assert!(ZSH_WRAPPER.contains("_shell_gate --provider opencode --shell-leader-pid \"$$\" --"));
    assert!(BASH_WRAPPER.contains("_launch_helper --capability \"$wsnav_capability\" --provider codex --"));
    assert_eq!(ZSH_WRAPPER_FILE, ".zshrc");
    assert!(!BASH_WRAPPER.contains("ZDOTDIR"));
}

#[test]
fn account_shells_are_only_bash_and_zsh() {
    assert_eq!(AccountShellKind::from_file_name(Some("bash")), Ok(AccountShellKind::Bash));
    assert_eq!(AccountShellKind::from_file_name(Some("zsh")), Ok(AccountShellKind::Zsh));
    assert_eq!(
        AccountShellKind::from_file_name(Some("fish")),
        Err(AccountShellError::UnsupportedShell)
    );
    assert_eq!(AccountShellKind::from_file_name(None), Err(AccountShellError::UnsupportedShell));
    assert_eq!(AccountShellKind::Bash.wrapper_file(), ".wsnav-provisional-bashrc");
    assert_eq!(AccountShellKind::Zsh.wrapper_body(), ZSH_WRAPPER);
    assert_eq!(path_environment_value(Some("/home/me")).unwrap(), "/home/me");
    assert_eq!(path_environment_value(Some("")), Err(AccountShellError::UnsafeEnvironment));
    assert_eq!(
        environment_path(Some("unsafe\nstate")),
        Err(AccountShellError::ContextUnavailable)
    );
    assert_eq!(environment_path(None), Err(AccountShellError::ContextUnavailable));
}

#[test]
fn current_build_is_compatible_with_itself() {
    assert!(BuildInfo::current().ensure_compatible_with_local().is_ok());
    assert_eq!(CONTROL_ABI, 2);
}

#[test]
fn control_abi_mismatch_is_rejected_before_other_metadata() {
    let mut remote = BuildInfo::current();
    remote.control_abi = 1;
    remote.host_schema_version += 1;
    assert_eq!(
        remote.ensure_compatible_with_local(),
        Err(BuildInfoError::ControlAbiMismatch { local: 2, remote: 1 })
    );
}

#[test]
fn schema_mismatch_requires_manual_upgrade() {
    let mut remote = BuildInfo::current();
    remote.host_schema_version += 1;
    assert_eq!(
        remote.ensure_compatible_with_local(),
        Err(BuildInfoError::HostSchemaVersionMismatch {
            local: HOST_SCHEMA_VERSION,
            remote: HOST_SCHEMA_VERSION + 1
        })
    );
}

#[test]
fn malformed_build_metadata_is_refused() {
    let mut remote = BuildInfo::current();
    remote.package_version = "  ".to_owned();
    assert_eq!(remote.ensure_compatible_with_local(), Err(BuildInfoError::InvalidPackageVersion));
    remote.package_version = "1.0\n".to_owned();
    assert_eq!(remote.validate(), Err(BuildInfoError::InvalidPackageVersion));
    let mut zero = BuildInfo::current();
    zero.protocol_version = 0;
    assert_eq!(zero.validate(), Err(BuildInfoError::InvalidProtocolVersion));
}

#[test]
fn system_clock_has_a_nonnegative_reading_and_private_boot_provenance() {
    let clock = SystemD17Clock;
    assert!(clock.now_monotonic_millis().unwrap() >= 0);
    let provenance =
        boot_provenance_from_boot_id("6f1c2d3e-4a5b-4c6d-8e9f-0a1b2c3d4e5f\n").unwrap();
    assert!(provenance.starts_with("d17-boot-v1:sha256:"));
    assert_eq!(provenance.len(), "d17-boot-v1:sha256:".len() + 64);
    assert_eq!(boot_provenance_from_boot_id("not-a-boot-id"), Err(ClockError::Unavailable));
}

#[test]
fn boot_provenance_digests_the_trimmed_identifier() {
    let a = boot_provenance_from_boot_id("6f1c2d3e-4a5b-4c6d-8e9f-0a1b2c3d4e5f").unwrap();
    let b = boot_provenance_from_boot_id("  6f1c2d3e-4a5b-4c6d-8e9f-0a1b2c3d4e5f\n").unwrap();
    assert_eq!(a, b);
    assert_eq!(
        boot_provenance_from_boot_id(""),
        Err(ClockError::Unavailable)
    );
    assert_eq!(
        broker_boot_provenance(),
        "d17-boot-v1:sha256:".to_owned() + &sha_hex(b"wsnav-d17-broker-bootstrap-v1")
    );
}

fn sha_hex(bytes: &[u8]) -> String {
    Sha256::digest(bytes)
        .iter()
        .map(|b| format!("{b:02x}"))
        .collect()
}

#[test]
fn decimal_parsing_follows_integer_text_rules() {
    assert_eq!(parse_u32("42"), Some(42));
    assert_eq!(parse_u32("+42"), Some(42));
    assert_eq!(parse_u32("4294967295"), Some(u32::MAX));
    assert_eq!(parse_u32("4294967296"), None);
    assert_eq!(parse_u32("-1"), None);
    assert_eq!(parse_u32("+"), None);
    assert_eq!(parse_u32(""), None);
    assert_eq!(parse_u32("1a"), None);
    assert_eq!(parse_i64("-9223372036854775808"), Some(i64::MIN));
    assert_eq!(parse_i64("9223372036854775807"), Some(i64::MAX));
    assert_eq!(parse_i64("9223372036854775808"), None);
    assert_eq!(parse_i64("-7"), Some(-7));
    for text in ["0", "17", "+5", "-0", "007", "x", "", "-", "99999999999999999999"] {
        assert_eq!(parse_u32(text), text.parse::<u32>().ok(), "{text:?}");
        assert_eq!(parse_i64(text), text.parse::<i64>().ok(), "{text:?}");
    }
}

fn integration(lifecycle: IntegrationLifecycle) -> Option<CodexIntegrationRecord> {
    Some(CodexIntegrationRecord { lifecycle, revision: Revision::initial() })
}

fn readiness(
    integration: Option<CodexIntegrationRecord>,
    home: CodexHomeShape,
    inspection: Option<Option<ProfileInspection>>,
) -> Result<LaunchReadiness, ObserverActivationError> {
    classify_observer_readiness(integration, home, inspection).map(|evidence| evidence.readiness)
}

#[test]
fn observer_readiness_classification_for_launches() {
    assert_eq!(
        readiness(None, CodexHomeShape::Absolute, Some(Some(ProfileInspection::Missing))),
        Ok(LaunchReadiness::SetupRequired)
    );
    assert_eq!(
        readiness(None, CodexHomeShape::Absolute, Some(Some(ProfileInspection::Ready))),
        Ok(LaunchReadiness::Foreign)
    );
    assert_eq!(
        readiness(None, CodexHomeShape::Absolute, None),
        Err(ObserverActivationError::NotReady)
    );
    assert_eq!(
        readiness(
            integration(IntegrationLifecycle::TrustPending),
            CodexHomeShape::Absolute,
            Some(Some(ProfileInspection::Ready))
        ),
        Ok(LaunchReadiness::TrustFinalizationRequired)
    );
    assert_eq!(
        readiness(
            integration(IntegrationLifecycle::Ready),
            CodexHomeShape::Relative,
            Some(Some(ProfileInspection::Ready))
        ),
        Ok(LaunchReadiness::Ambiguous)
    );
    assert_eq!(
        readiness(integration(IntegrationLifecycle::Ready), CodexHomeShape::Absolute, Some(None)),
        Ok(LaunchReadiness::Modified)
    );
    let evidence = classify_observer_readiness(
        integration(IntegrationLifecycle::Ready),
        CodexHomeShape::Absolute,
        Some(Some(ProfileInspection::Ready)),
    )
    .unwrap();
    assert_eq!(evidence.readiness, LaunchReadiness::Ready);
    assert_eq!(evidence.integration, integration(IntegrationLifecycle::Ready));
    assert_eq!(evidence.integration_revision, Some(Revision::initial()));
    let evidence = classify_observer_readiness(
        None,
        CodexHomeShape::Absolute,
        Some(Some(ProfileInspection::Missing)),
    )
    .unwrap();
    assert_eq!(evidence.integration, None);
    assert_eq!(evidence.integration_revision, None);
    assert!(LaunchReadiness::TrustFinalizationRequired.needs_interactive_setup());
    assert!(!LaunchReadiness::Ready.needs_interactive_setup());
}

#[test]
fn cycle_candidate_skips_ineligible_rows_without_wrap() {
    let eligible = vec![true, false, true, true];
    assert_eq!(adjacent_cycle_candidate(&eligible, 0, CycleDirection::Next), Some(2));
    assert_eq!(adjacent_cycle_candidate(&vec![true; 4], 0, CycleDirection::Previous), None);
    assert_eq!(adjacent_cycle_candidate(&vec![true; 4], 3, CycleDirection::Next), None);
    assert_eq!(adjacent_cycle_candidate(&eligible, 3, CycleDirection::Previous), Some(2));
    assert!(cycle_workstream_eligible(false, WorkstreamLifecycle::Open, false, Some(RuntimeStatus::Idle)));
    assert!(!cycle_workstream_eligible(true, WorkstreamLifecycle::Open, false, Some(RuntimeStatus::Idle)));
    assert!(!cycle_workstream_eligible(false, WorkstreamLifecycle::Open, false, Some(RuntimeStatus::Stopped)));
    assert!(!cycle_workstream_eligible(false, WorkstreamLifecycle::Open, true, Some(RuntimeStatus::Working)));
}

fn plan(kind: AccountShellKind, shell: &str, runtime_directory: &str) -> Result<AccountShellPlan, AccountShellError> {
    account_shell_plan(
        kind,
        shell,
        "/work/seed",
        "/home/user",
        "/home/user/.config/zsh",
        "/usr/local/bin/wsnav",
        runtime_directory,
        "/state",
        "/state/presentation",
    )
}

fn pair(name: &str, value: &str) -> (String, String) {
    (name.to_owned(), value.to_owned())
}

#[test]
fn a_bash_account_shell_reads_only_the_private_wrapper() {
    let plan = plan(AccountShellKind::Bash, "/usr/bin/bash", "/state/run/rt").unwrap();
    assert_eq!(plan.cwd, "/work/seed");
    assert_eq!(
        plan.program,
        vec![
            "/usr/bin/bash".to_owned(),
            "--noprofile".to_owned(),
            "--rcfile".to_owned(),
            "/state/run/rt/.wsnav-provisional-bashrc".to_owned(),
            "-i".to_owned(),
        ]
    );
    assert_eq!(
        plan.environment,
        vec![
            pair("HOME", "/home/user"),
            pair("WSNAV_EXECUTABLE", "/usr/local/bin/wsnav"),
            pair("WSNAV_ORIGINAL_HOME", "/home/user"),
            pair("WSNAV_PRESENTATION_DIRECTORY", "/state/presentation"),
            pair("WSNAV_STATE_ROOT", "/state"),
        ]
    );
    let trailing = plan_with_directory("/state/run/rt/");
    assert_eq!(trailing.program[3], "/state/run/rt/.wsnav-provisional-bashrc");
}

fn plan_with_directory(directory: &str) -> AccountShellPlan {
    plan(AccountShellKind::Bash, "/usr/bin/bash", directory).unwrap()
}

#[test]
fn a_zsh_account_shell_redirects_its_startup_directory() {
    let plan = plan(AccountShellKind::Zsh, "/usr/bin/zsh", "/state/run/rt").unwrap();
    assert_eq!(plan.program, vec!["/usr/bin/zsh".to_owned(), "-i".to_owned()]);
    assert_eq!(
        plan.environment,
        vec![
            pair("HOME", "/home/user"),
            pair("WSNAV_EXECUTABLE", "/usr/local/bin/wsnav"),
            pair("WSNAV_ORIGINAL_HOME", "/home/user"),
            pair("WSNAV_ORIGINAL_ZDOTDIR", "/home/user/.config/zsh"),
            pair("WSNAV_PRESENTATION_DIRECTORY", "/state/presentation"),
            pair("WSNAV_STATE_ROOT", "/state"),
            pair("ZDOTDIR", "/state/run/rt"),
        ]
    );
    assert_eq!(
        zdotdir_source(AccountShellKind::Zsh, None, "/home/user"),
        Some("/home/user")
    );
    assert_eq!(
        zdotdir_source(AccountShellKind::Zsh, Some("/home/user/.zdot"), "/home/user"),
        Some("/home/user/.zdot")
    );
    assert_eq!(zdotdir_source(AccountShellKind::Bash, Some("/z"), "/home/user"), None);
}

#[test]
fn unsafe_account_shell_environments_are_refused() {
    assert_eq!(
        account_shell_plan(
            AccountShellKind::Bash,
            "/usr/bin/bash",
            "/work/seed",
            "/home/us\ner",
            "/unused",
            "/usr/local/bin/wsnav",
            "/state/run/rt",
            "/state",
            "/state/presentation",
        ),
        Err(AccountShellError::UnsafeEnvironment)
    );
    assert_eq!(
        account_shell_plan(
            AccountShellKind::Zsh,
            "/usr/bin/zsh",
            "/work/seed",
            "/home/user",
            "",
            "/usr/local/bin/wsnav",
            "/state/run/rt",
            "/state",
            "/state/presentation",
        ),
        Err(AccountShellError::UnsafeEnvironment)
    );
    assert!(
        account_shell_plan(
            AccountShellKind::Bash,
            "/usr/bin/bash",
            "/work/seed",
            "/home/user",
            "",
            "/usr/local/bin/wsnav",
            "/state/run/rt",
            "/state",
            "/state/presentation",
        )
        .is_ok()
    );
}

#[test]
fn account_shell_kinds_come_from_canonical_file_names() {
    assert_eq!(
        AccountShellKind::from_path("/usr/bin/bash"),
        Ok((AccountShellKind::Bash, "/usr/bin/bash".to_owned()))
    );
    assert_eq!(
        AccountShellKind::from_path("/bin/zsh"),
        Ok((AccountShellKind::Zsh, "/bin/zsh".to_owned()))
    );
    assert_eq!(
        AccountShellKind::from_path("/usr/bin/fish"),
        Err(AccountShellError::UnsupportedShell)
    );
    assert_eq!(AccountShellKind::from_path("/"), Err(AccountShellError::UnsupportedShell));
}

#[test]
fn observer_diagnosis_reports_the_profile_or_the_lifecycle() {
    assert_eq!(
        observer_doctor_line(ObserverDoctorEvidence::NotInstalled),
        "observer: not installed"
    );
    assert_eq!(
        observer_doctor_line(ObserverDoctorEvidence::SchemaOutdated),
        "observer: update required"
    );
    assert_eq!(
        observer_doctor_line(ObserverDoctorEvidence::Inspected {
            lifecycle: IntegrationLifecycle::Ready,
            inspection: ProfileInspection::Foreign,
        }),
        "observer: profile path is foreign"
    );
    assert_eq!(
        observer_doctor_line(ObserverDoctorEvidence::Inspected {
            lifecycle: IntegrationLifecycle::TrustPending,
            inspection: ProfileInspection::Ready,
        }),
        "observer: TrustPending"
    );
}

#[test]
fn boot_identifiers_are_accepted_in_every_uuid_spelling() {
    for spelling in [
        "6f1c2d3e4a5b4c6d8e9f0a1b2c3d4e5f",
        "6F1C2D3E-4A5B-4C6D-8E9F-0A1B2C3D4E5F",
        "{6f1c2d3e-4a5b-4c6d-8e9f-0a1b2c3d4e5f}",
        "URN:uuid:6f1c2d3e-4a5b-4c6d-8e9f-0a1b2c3d4e5f",
    ] {
        assert!(boot_provenance_from_boot_id(spelling).is_ok(), "{spelling}");
    }
    for refused in [
        "6f1c2d3e-4a5b-4c6d-8e9f_0a1b2c3d4e5f",
        "[6f1c2d3e-4a5b-4c6d-8e9f-0a1b2c3d4e5f]",
        "urn:uid:x6f1c2d3e-4a5b-4c6d-8e9f-0a1b2c3d4e5f",
        "6f1c2d3e4a5b4c6d8e9f0a1b2c3d4e5g",
    ] {
        assert_eq!(boot_provenance_from_boot_id(refused), Err(ClockError::Unavailable));
    }
}
