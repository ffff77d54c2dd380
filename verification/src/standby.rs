//! The line protocol of a standby observer: its readiness line and its
//! activation acknowledgement, read as bounded UTF-8 text.

use vstd::prelude::*;
use vstd::utf8::{decode_utf8, valid_utf8};

use crate::cutover::{CutoverError, ObserverProcessIdentity, birth_token_ok, valid_birth_token};
use crate::decimal::{parse_i64, parse_u32, parsed_i64, parsed_u32};
use crate::domain::Revision;
use crate::ids::{RuntimeId, uuid_hyphenated_text};
use crate::text::{contains_char, seq_has_char, text_eq};

verus! {

/// Bound on the bytes of one standby protocol line.
pub const STANDBY_LINE_MAX_BYTES: usize = 512;

/// `i` is the position of the first space of `s`.
pub open spec fn is_first_space(s: Seq<char>, i: int) -> bool {
    &&& 0 <= i < s.len()
    &&& s[i] == ' '
    &&& forall|j: int| 0 <= j < i ==> #[trigger] s[j] != ' '
}

/// The text before the first space and the text after it, if `s` has a space.
pub open spec fn split_first_space(s: Seq<char>) -> Option<(Seq<char>, Seq<char>)> {
    if exists|i: int| is_first_space(s, i) {
        let i = choose|i: int| is_first_space(s, i);
        Some((s.subrange(0, i), s.subrange(i + 1, s.len() as int)))
    } else {
        None
    }
}

fn split_at_first_space(s: &str) -> (r: Option<(&str, &str)>)
    ensures
        (match r {
            Some((a, b)) => Some((a@, b@)),
            None => None,
        }) == split_first_space(s@),
{
    let n = s.unicode_len();
    let mut i: usize = 0;
    while i < n
        invariant
            n == s@.len(),
            i <= n,
            forall|j: int| 0 <= j < i ==> #[trigger] s@[j] != ' ',
        decreases n - i,
    {
        if s.get_char(i) == ' ' {
            proof {
                assert(is_first_space(s@, i as int));
                assert forall|k: int| is_first_space(s@, k) implies k == i by {
                    if k < i {
                        assert(s@[k] != ' ');
                    } else if k > i {
                        assert(s@[i as int] == ' ');
                    }
                }
            }
            return Some((s.substring_char(0, i), s.substring_char(i + 1, n)));
        }
        i = i + 1;
    }
    None
}

/// `std::str::from_utf8`: the text when the bytes are valid UTF-8.
#[verifier::external_body]
pub(crate) fn utf8_text(bytes: &[u8]) -> (r: Option<&str>)
    ensures
        r is Some <==> valid_utf8(bytes@),
        r matches Some(text) ==> text@ == decode_utf8(bytes@),
{
    std::str::from_utf8(bytes).ok()
}

/// The text of one bounded, newline-terminated UTF-8 line, without its newline.
pub open spec fn line_body(bytes: Seq<u8>) -> Option<Seq<char>> {
    if bytes.len() == 0 || bytes.len() > STANDBY_LINE_MAX_BYTES || !valid_utf8(bytes) {
        None
    } else {
        let text = decode_utf8(bytes);
        if text.len() > 0 && text.last() == '\n' {
            Some(text.drop_last())
        } else {
            None
        }
    }
}

fn read_line_body(line: &[u8]) -> (r: Option<&str>)
    ensures
        (match r {
            Some(t) => Some(t@),
            None => None,
        }) == line_body(line@),
{
    if line.len() == 0 || line.len() > STANDBY_LINE_MAX_BYTES {
        return None;
    }
    let text = utf8_text(line)?;
    let n = text.unicode_len();
    if n == 0 || text.get_char(n - 1) != '\n' {
        return None;
    }
    Some(text.substring_char(0, n - 1))
}

pub open spec fn ready_word() -> Seq<char> {
    seq!['R', 'E', 'A', 'D', 'Y']
}

pub open spec fn activated_word() -> Seq<char> {
    seq!['A', 'C', 'T', 'I', 'V', 'A', 'T', 'E', 'D']
}

/// The pid and birth of a readiness line `READY <pid> <birth>\n`: exactly
/// three space-separated fields, a non-zero decimal pid and a valid birth.
pub open spec fn parsed_ready_line(bytes: Seq<u8>) -> Option<(u32, Seq<char>)> {
    match line_body(bytes) {
        None => None,
        Some(body) => match split_first_space(body) {
            None => None,
            Some((word, rest)) => if word != ready_word() {
                None
            } else {
                match split_first_space(rest) {
                    None => None,
                    Some((pid_text, birth)) => if seq_has_char(birth, ' ') {
                        None
                    } else {
                        match parsed_u32(pid_text) {
                            Some(pid) => if pid != 0 && birth_token_ok(birth) {
                                Some((pid, birth))
                            } else {
                                None
                            },
                            None => None,
                        }
                    },
                }
            },
        },
    }
}

fn is_word(text: &str, word: &str) -> (r: bool)
    ensures
        r == (text@ == word@),
{
    text_eq(text, word)
}

/// Reads a standby observer's readiness line.
pub fn parse_standby_ready_line(line: &[u8]) -> (r: Result<(u32, String), CutoverError>)
    ensures
        parsed_ready_line(line@) matches Some((pid, birth)) ==> r matches Ok((p, b)) && p == pid
            && b@ == birth,
        parsed_ready_line(line@) is None ==> r == Err::<(u32, String), CutoverError>(
            CutoverError::StandbyObserverUnavailable,
        ),
{
    let body = match read_line_body(line) {
        Some(body) => body,
        None => {
            return Err(CutoverError::StandbyObserverUnavailable);
        },
    };
    let (word, rest) = match split_at_first_space(body) {
        Some(parts) => parts,
        None => {
            return Err(CutoverError::StandbyObserverUnavailable);
        },
    };
    proof {
        reveal_strlit("READY");
        assert("READY"@ =~= ready_word());
    }
    if !is_word(word, "READY") {
        return Err(CutoverError::StandbyObserverUnavailable);
    }
    let (pid_text, birth) = match split_at_first_space(rest) {
        Some(parts) => parts,
        None => {
            return Err(CutoverError::StandbyObserverUnavailable);
        },
    };
    if contains_char(birth, ' ') {
        return Err(CutoverError::StandbyObserverUnavailable);
    }
    let pid = match parse_u32(pid_text) {
        Some(pid) => pid,
        None => {
            return Err(CutoverError::StandbyObserverUnavailable);
        },
    };
    if pid == 0 || !valid_birth_token(birth) {
        return Err(CutoverError::StandbyObserverUnavailable);
    }
    Ok((pid, String::from_str(birth)))
}

/// An activation acknowledgement names exactly the expected standby process,
/// Runtime, handle revision and generation:
/// `ACTIVATED <pid> <birth> <runtime-id> <revision> <generation>\n`, where the
/// generation is the rest of the line and must not be empty.
pub open spec fn activation_ack_matches(
    bytes: Seq<u8>,
    expected: ObserverProcessIdentity,
    runtime_text: Seq<char>,
    generation: Seq<char>,
    revision: int,
) -> bool {
    match line_body(bytes) {
        None => false,
        Some(body) => match split_first_space(body) {
            None => false,
            Some((word, r1)) => word == activated_word() && match split_first_space(r1) {
                None => false,
                Some((pid_text, r2)) => match split_first_space(r2) {
                    None => false,
                    Some((birth, r3)) => match split_first_space(r3) {
                        None => false,
                        Some((runtime, r4)) => match split_first_space(r4) {
                            None => false,
                            Some((revision_text, rest)) => {
                                &&& parsed_u32(pid_text) matches Some(pid)
                                &&& pid != 0
                                &&& birth_token_ok(birth)
                                &&& parsed_i64(revision_text) matches Some(v)
                                &&& v >= 1
                                &&& rest.len() > 0
                                &&& pid == expected.pid
                                &&& birth == expected.birth@
                                &&& runtime == runtime_text
                                &&& v == revision
                                &&& rest == generation
                            },
                        },
                    },
                },
            },
        },
    }
}

/// Accepts an activation acknowledgement only for the exact standby process,
/// Runtime, generation and handle revision.
pub fn parse_standby_activation_ack(
    line: &[u8],
    expected: &ObserverProcessIdentity,
    expected_runtime_id: RuntimeId,
    expected_generation: &str,
    expected_revision: Revision,
) -> (r: Result<(), CutoverError>)
    ensures
        r is Ok <==> activation_ack_matches(
            line@,
            *expected,
            uuid_hyphenated_text(expected_runtime_id.value),
            expected_generation@,
            expected_revision.spec_value(),
        ),
        r matches Err(e) ==> e == CutoverError::StandbyActivationAckUnavailable,
{
    let fail = CutoverError::StandbyActivationAckUnavailable;
    let body = match read_line_body(line) {
        Some(body) => body,
        None => {
            return Err(fail);
        },
    };
    let (word, r1) = match split_at_first_space(body) {
        Some(parts) => parts,
        None => {
            return Err(fail);
        },
    };
    proof {
        reveal_strlit("ACTIVATED");
        assert("ACTIVATED"@ =~= activated_word());
    }
    if !is_word(word, "ACTIVATED") {
        return Err(fail);
    }
    let (pid_text, r2) = match split_at_first_space(r1) {
        Some(parts) => parts,
        None => {
            return Err(fail);
        },
    };
    let (birth, r3) = match split_at_first_space(r2) {
        Some(parts) => parts,
        None => {
            return Err(fail);
        },
    };
    let (runtime, r4) = match split_at_first_space(r3) {
        Some(parts) => parts,
        None => {
            return Err(fail);
        },
    };
    let (revision_text, rest) = match split_at_first_space(r4) {
        Some(parts) => parts,
        None => {
            return Err(fail);
        },
    };
    let pid = match parse_u32(pid_text) {
        Some(pid) => pid,
        None => {
            return Err(fail);
        },
    };
    if pid == 0 || !valid_birth_token(birth) {
        return Err(fail);
    }
    let revision = match parse_i64(revision_text) {
        Some(v) => v,
        None => {
            return Err(fail);
        },
    };
    if revision < 1 || rest.unicode_len() == 0 {
        return Err(fail);
    }
    let expected_runtime = expected_runtime_id.text();
    if pid != expected.pid || !text_eq(birth, expected.birth.as_str()) || !text_eq(
        runtime,
        expected_runtime.as_str(),
    ) || revision != expected_revision.value() || !text_eq(rest, expected_generation) {
        return Err(fail);
    }
    Ok(())
}

} // verus!
