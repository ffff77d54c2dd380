use wsnav::cutover::{CutoverError, CutoverProcessStatus};
use wsnav::proc_evidence::{
    MAX_CUTOVER_OBSERVER_ARGUMENTS, MAX_CUTOVER_OBSERVER_CMDLINE_BYTES, parse_command_line,
    parse_process_stat,
};

fn effect(message: &str) -> CutoverError {
    CutoverError::ProcessEffect(message.to_owned())
}

fn stat_line(command: &str, state: &str) -> String {
    format!(
        "4242 ({command}) {state} 1 4242 4242 0 -1 4194560 100 0 0 0 5 3 0 0 20 0 1 0 987654 12345 67 \
         18446744073709551615 1 1 0 0 0 0 0 0 0 0 0 0 17 3 0 0 0 0 0"
    )
}

#[test]
fn stat_records_yield_state_and_start_time() {
    assert_eq!(
        parse_process_stat(&stat_line("wsnav", "S")),
        Ok((CutoverProcessStatus::Running, "987654".to_owned()))
    );
    assert_eq!(
        parse_process_stat(&stat_line("wsnav", "R")),
        Ok((CutoverProcessStatus::Running, "987654".to_owned()))
    );
    assert_eq!(
        parse_process_stat(&stat_line("wsnav", "T")),
        Ok((CutoverProcessStatus::Stopped, "987654".to_owned()))
    );
    assert_eq!(
        parse_process_stat(&stat_line("wsnav", "t")),
        Ok((CutoverProcessStatus::Stopped, "987654".to_owned()))
    );
    assert_eq!(
        parse_process_stat(&stat_line("wsnav", "Z")),
        Err(effect("observer process became a zombie"))
    );
}

#[test]
fn a_command_name_with_parentheses_and_spaces_is_skipped_whole() {
    assert_eq!(
        parse_process_stat(&stat_line("we (ird) name", "S")),
        Ok((CutoverProcessStatus::Running, "987654".to_owned()))
    );
    assert_eq!(
        parse_process_stat(&stat_line("tab\tname", "T")),
        Ok((CutoverProcessStatus::Stopped, "987654".to_owned()))
    );
}

#[test]
fn malformed_stat_records_are_refused() {
    let malformed = effect("observer process metadata is malformed");
    assert_eq!(parse_process_stat("4242 wsnav S 1"), Err(malformed.clone()));
    assert_eq!(parse_process_stat("4242 (wsnav)"), Err(malformed.clone()));
    assert_eq!(parse_process_stat("4242 (wsnav) S 1 2 3"), Err(malformed.clone()));
    assert_eq!(
        parse_process_stat("4242 (wsnav)\u{e9}S 1 2 3 4 5 6 7 8 9 10 11 12 13 14 15 16 17 18 19 20"),
        Err(malformed.clone())
    );
    assert_eq!(parse_process_stat(""), Err(malformed));
}

#[test]
fn command_lines_split_at_nul_bytes() {
    assert_eq!(
        parse_command_line(b"/usr/bin/wsnav\0--state-root\0/state\0"),
        Ok(vec![
            "/usr/bin/wsnav".to_owned(),
            "--state-root".to_owned(),
            "/state".to_owned(),
        ])
    );
    assert_eq!(
        parse_command_line(b"a\0\0b"),
        Ok(vec!["a".to_owned(), "b".to_owned()])
    );
    assert_eq!(parse_command_line(b""), Ok(Vec::new()));
    assert_eq!(parse_command_line(b"\0\0"), Ok(Vec::new()));
}

#[test]
fn command_lines_are_bounded_and_utf8() {
    assert_eq!(
        parse_command_line(b"ok\0\xff\xfe\0"),
        Err(effect("observer command line is malformed"))
    );
    let mut many = Vec::new();
    for _ in 0..MAX_CUTOVER_OBSERVER_ARGUMENTS {
        many.extend_from_slice(b"x\0");
    }
    assert_eq!(
        parse_command_line(&many).map(|arguments| arguments.len()),
        Ok(MAX_CUTOVER_OBSERVER_ARGUMENTS)
    );
    many.extend_from_slice(b"y");
    assert_eq!(
        parse_command_line(&many),
        Err(effect("observer command line exceeded its argument bound"))
    );
    let huge = vec![b'a'; MAX_CUTOVER_OBSERVER_CMDLINE_BYTES + 1];
    assert_eq!(
        parse_command_line(&huge),
        Err(effect("observer command line exceeded its bound"))
    );
}
