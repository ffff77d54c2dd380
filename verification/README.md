# wsnav

Host-local workstream navigation: the typed application boundary of the
navigator, the lifecycle decisions for managed provider runtimes, and the
confirmed cutover of legacy state, written in Verus with their contracts
proved.

## Layout

- `src/` — the verified library.
  - `domain`, `ids`, `text`, `decimal`, `sort`, `state` — identities,
    revisions, bounded text, decimal spelling and parsing, a stable verified
    sort, and typed state failures.
  - `application`, `snapshot`, `snapshot_source`, `facade` — the snapshot
    input the host catalog yields, its validation and deterministic ordering
    into the navigator snapshot, and the facade, whose application of an
    action is a step machine that lets an observer-dependent action reach
    the backend only after a `Ready` observer.
  - `action_authority`, `browser` — the checks an action makes against what
    it read (revisions, providers, browser root, registration paths) and the
    bounded browser paths and listings.
  - `actions`, `lifecycle`, `observer`, `account_shell` — runtime identity
    matching, launch programs, lifecycle step decisions, observer readiness,
    cycling between workstreams and account shell wrappers.
  - `cutover`, `presentation`, `observer_target`, `standby`, `proc_evidence`,
    `client_artifact` — the confirmed cutover: authorization, presentation
    retirement, the OpenCode observer targets and their command lines, the
    standby observer's line protocol, procfs evidence, and the file facts that
    guard the transition lock and the legacy client files.
  - `orchestrator`, `handover` — the cutover run and each observer handover
    (and the replay of an interrupted one) as step machines: after each
    effect's result they decide the next effect, with the order of effects
    proved.
  - `build_info`, `clock` — build compatibility and the boot-scoped clock.
- `tests/` — tests of the library on concrete values.
- `app/` — the command-line program: argument parsing, file, procfs and
  terminal I/O, the serialized build probe, and the loops that run the
  cutover and handover machines against the injected authorities.
