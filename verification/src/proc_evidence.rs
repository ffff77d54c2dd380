//! The process evidence a cutover reads from procfs: the state and start
//! time recorded in `/proc/<pid>/stat`, and the arguments recorded in
//! `/proc/<pid>/cmdline`.

use vstd::prelude::*;
use vstd::utf8::{
    decode_utf8, encode_scalar, encode_utf8, encode_utf8_decode_utf8, encode_utf8_valid_utf8,
    has_width_1_encoding, last_continuation_byte, leading_byte_width_1, leading_byte_width_2,
    leading_byte_width_3, leading_byte_width_4, second_last_continuation_byte,
    third_last_continuation_byte, valid_utf8,
};

use crate::actions::strings_view;
use crate::cutover::{CutoverError, CutoverProcessStatus};
use crate::standby::utf8_text;
use crate::text::{chars_of, is_white_space, is_white_space_char, owned, push_char, seq_has_char};

verus! {

/// The largest command line a cutover reads, in bytes.
pub const MAX_CUTOVER_OBSERVER_CMDLINE_BYTES: usize = 16384;

/// The most arguments an observer command line may carry.
pub const MAX_CUTOVER_OBSERVER_ARGUMENTS: usize = 16;

/// The error carries exactly this process-effect message.
pub open spec fn process_effect_with(e: CutoverError, message: Seq<char>) -> bool {
    e matches CutoverError::ProcessEffect(m) && m@ == message
}

/// The pieces of `b` between NUL bytes, in order, empty pieces included.
pub open spec fn nul_pieces(b: Seq<u8>) -> Seq<Seq<u8>>
    decreases b.len(),
{
    if b.len() == 0 {
        seq![Seq::<u8>::empty()]
    } else {
        let p = nul_pieces(b.drop_last());
        if b.last() == 0 {
            p.push(Seq::<u8>::empty())
        } else {
            p.update(p.len() - 1, p.last().push(b.last()))
        }
    }
}

/// Why a command line is refused after its pieces were split.
#[derive(Clone, Copy, Debug, PartialEq, Eq, Structural)]
pub enum CommandLineFault {
    Malformed,
    TooManyArguments,
}

/// The arguments of the pieces, read in order: empty pieces are skipped,
/// each other piece must be UTF-8, and at most
/// `MAX_CUTOVER_OBSERVER_ARGUMENTS` arguments are accepted.
pub open spec fn command_arguments(pieces: Seq<Seq<u8>>) -> Result<Seq<Seq<char>>, CommandLineFault>
    decreases pieces.len(),
{
    if pieces.len() == 0 {
        Ok(Seq::empty())
    } else {
        match command_arguments(pieces.drop_last()) {
            Err(f) => Err(f),
            Ok(args) => {
                let piece = pieces.last();
                if piece.len() == 0 {
                    Ok(args)
                } else if !valid_utf8(piece) {
                    Err(CommandLineFault::Malformed)
                } else if args.len() + 1 > MAX_CUTOVER_OBSERVER_ARGUMENTS {
                    Err(CommandLineFault::TooManyArguments)
                } else {
                    Ok(args.push(decode_utf8(piece)))
                }
            },
        }
    }
}

/// The message of a refused command line.
pub open spec fn command_line_fault_message(f: CommandLineFault) -> Seq<char> {
    match f {
        CommandLineFault::Malformed => "observer command line is malformed"@,
        CommandLineFault::TooManyArguments => "observer command line exceeded its argument bound"@,
    }
}

fn fault_error(f: CommandLineFault) -> (r: CutoverError)
    ensures
        process_effect_with(r, command_line_fault_message(f)),
{
    match f {
        CommandLineFault::Malformed => CutoverError::ProcessEffect(
            owned("observer command line is malformed"),
        ),
        CommandLineFault::TooManyArguments => CutoverError::ProcessEffect(
            owned("observer command line exceeded its argument bound"),
        ),
    }
}

/// Reads one piece into the arguments read so far, as `command_arguments`
/// reads its last piece.
fn take_piece(args: &mut Vec<String>, piece: &[u8]) -> (r: Result<(), CommandLineFault>)
    requires
        old(args)@.len() <= MAX_CUTOVER_OBSERVER_ARGUMENTS,
    ensures
        match r {
            Ok(()) => {
                &&& piece@.len() == 0 ==> strings_view(final(args)@) == strings_view(old(args)@)
                &&& piece@.len() > 0 ==> valid_utf8(piece@) && old(args)@.len() + 1
                    <= MAX_CUTOVER_OBSERVER_ARGUMENTS && strings_view(final(args)@) == strings_view(
                    old(args)@,
                ).push(decode_utf8(piece@))
                &&& final(args)@.len() <= MAX_CUTOVER_OBSERVER_ARGUMENTS
            },
            Err(f) => piece@.len() > 0 && (if !valid_utf8(piece@) {
                f == CommandLineFault::Malformed
            } else {
                old(args)@.len() + 1 > MAX_CUTOVER_OBSERVER_ARGUMENTS && f
                    == CommandLineFault::TooManyArguments
            }),
        },
{
    if piece.len() == 0 {
        return Ok(());
    }
    let text = match utf8_text(piece) {
        Some(text) => text,
        None => {
            return Err(CommandLineFault::Malformed);
        },
    };
    if args.len() + 1 > MAX_CUTOVER_OBSERVER_ARGUMENTS {
        return Err(CommandLineFault::TooManyArguments);
    }
    args.push(owned(text));
    proof {
        assert(strings_view(args@) =~= strings_view(old(args)@).push(decode_utf8(piece@)));
    }
    Ok(())
}

proof fn lemma_nul_pieces_step(b: Seq<u8>, i: int)
    requires
        0 <= i < b.len(),
    ensures
        nul_pieces(b.subrange(0, i + 1)) == (if b[i] == 0 {
            nul_pieces(b.subrange(0, i)).push(Seq::<u8>::empty())
        } else {
            let p = nul_pieces(b.subrange(0, i));
            p.update(p.len() - 1, p.last().push(b[i]))
        }),
{
    let s = b.subrange(0, i + 1);
    assert(s.drop_last() =~= b.subrange(0, i));
    assert(s.last() == b[i]);
}

proof fn lemma_nul_pieces_nonempty(b: Seq<u8>)
    ensures
        nul_pieces(b).len() >= 1,
    decreases b.len(),
{
    if b.len() > 0 {
        lemma_nul_pieces_nonempty(b.drop_last());
    }
}

/// Splits a command line as procfs records it: bounded in size, split at NUL
/// bytes, empty pieces skipped, each argument UTF-8, at most
/// `MAX_CUTOVER_OBSERVER_ARGUMENTS` of them.
pub fn parse_command_line(bytes: &[u8]) -> (r: Result<Vec<String>, CutoverError>)
    ensures
        bytes@.len() > MAX_CUTOVER_OBSERVER_CMDLINE_BYTES ==> (r matches Err(e) && process_effect_with(
            e,
            "observer command line exceeded its bound"@,
        )),
        bytes@.len() <= MAX_CUTOVER_OBSERVER_CMDLINE_BYTES ==> match command_arguments(
            nul_pieces(bytes@),
        ) {
            Ok(args) => (r matches Ok(v) && strings_view(v@) == args),
            Err(f) => (r matches Err(e) && process_effect_with(e, command_line_fault_message(f))),
        },
{
    if bytes.len() > MAX_CUTOVER_OBSERVER_CMDLINE_BYTES {
        return Err(CutoverError::ProcessEffect(owned("observer command line exceeded its bound")));
    }
    let ghost b = bytes@;
    let mut args: Vec<String> = Vec::new();
    let mut start: usize = 0;
    let mut i: usize = 0;
    proof {
        assert(b.subrange(0, 0) =~= Seq::<u8>::empty());
        assert(nul_pieces(b.subrange(0, 0)).drop_last() =~= Seq::<Seq<u8>>::empty());
        assert(strings_view(args@) =~= Seq::<Seq<char>>::empty());
    }
    while i < bytes.len()
        invariant
            b == bytes@,
            b.len() <= MAX_CUTOVER_OBSERVER_CMDLINE_BYTES,
            start <= i <= b.len(),
            args@.len() <= MAX_CUTOVER_OBSERVER_ARGUMENTS,
            nul_pieces(b.subrange(0, i as int)).len() >= 1,
            nul_pieces(b.subrange(0, i as int)).last() == b.subrange(start as int, i as int),
            command_arguments(nul_pieces(b.subrange(0, i as int)).drop_last()) == Ok::<
                Seq<Seq<char>>,
                CommandLineFault,
            >(strings_view(args@)),
        decreases b.len() - i,
    {
        let ghost before = nul_pieces(b.subrange(0, i as int));
        proof {
            lemma_nul_pieces_step(b, i as int);
        }
        if bytes[i] == 0 {
            let piece = vstd::slice::slice_subrange(bytes, start, i);
            let ghost old_args = strings_view(args@);
            match take_piece(&mut args, piece) {
                Ok(()) => {},
                Err(f) => {
                    proof {
                        assert(command_arguments(before) == Err::<Seq<Seq<char>>, CommandLineFault>(
                            f,
                        ));
                        assert(nul_pieces(b.subrange(0, i + 1)).drop_last() =~= before);
                        lemma_pieces_prefix_sticky(b, i as int + 1, before);
                    }
                    return Err(fault_error(f));
                },
            }
            proof {
                let after = nul_pieces(b.subrange(0, i + 1));
                assert(after.drop_last() =~= before);
                assert(command_arguments(before) == Ok::<Seq<Seq<char>>, CommandLineFault>(
                    strings_view(args@),
                ));
                assert(b.subrange(i + 1, i + 1) =~= Seq::<u8>::empty());
            }
            start = i + 1;
        } else {
            proof {
                let after = nul_pieces(b.subrange(0, i + 1));
                assert(after.drop_last() =~= before.drop_last());
                assert(b.subrange(start as int, i + 1) =~= b.subrange(start as int, i as int).push(
                    b[i as int],
                ));
            }
        }
        i = i + 1;
    }
    proof {
        assert(b.subrange(0, i as int) =~= b);
    }
    let piece = vstd::slice::slice_subrange(bytes, start, i);
    match take_piece(&mut args, piece) {
        Ok(()) => Ok(args),
        Err(f) => Err(fault_error(f)),
    }
}

/// Once the pieces read so far are refused, every longer command line is
/// refused for the same reason.
proof fn lemma_pieces_prefix_sticky(b: Seq<u8>, n: int, refused: Seq<Seq<u8>>)
    requires
        0 < n <= b.len(),
        command_arguments(refused) is Err,
        nul_pieces(b.subrange(0, n)).drop_last() == refused,
    ensures
        command_arguments(nul_pieces(b)) == command_arguments(refused),
    decreases b.len() - n,
{
    let p = nul_pieces(b.subrange(0, n));
    lemma_nul_pieces_nonempty(b.subrange(0, n));
    assert(p =~= refused.push(p.last()));
    lemma_arguments_error_extends(refused, p.last());
    if n == b.len() {
        assert(b.subrange(0, n) =~= b);
    } else {
        lemma_nul_pieces_step(b, n);
        let q = nul_pieces(b.subrange(0, n + 1));
        if b[n] == 0 {
            assert(q.drop_last() =~= p);
            lemma_pieces_prefix_sticky(b, n + 1, p);
        } else {
            assert(q.drop_last() =~= refused);
            lemma_pieces_prefix_sticky(b, n + 1, refused);
        }
    }
}

proof fn lemma_arguments_error_extends(refused: Seq<Seq<u8>>, piece: Seq<u8>)
    requires
        command_arguments(refused) is Err,
    ensures
        command_arguments(refused.push(piece)) == command_arguments(refused),
{
    assert(refused.push(piece).drop_last() =~= refused);
}

/// The last position of `c` in `s`.
pub open spec fn last_position(s: Seq<char>, c: char) -> Option<int>
    decreases s.len(),
{
    if s.len() == 0 {
        None
    } else if s.last() == c {
        Some(s.len() - 1)
    } else {
        last_position(s.drop_last(), c)
    }
}

fn find_last(chars: &Vec<char>, c: char) -> (r: Option<usize>)
    ensures
        match r {
            Some(k) => k < chars@.len() && last_position(chars@, c) == Some(k as int),
            None => last_position(chars@, c) is None,
        },
{
    let mut k: usize = chars.len();
    proof {
        assert(chars@.subrange(0, k as int) =~= chars@);
    }
    while k > 0
        invariant
            k <= chars@.len(),
            last_position(chars@, c) == last_position(chars@.subrange(0, k as int), c),
        decreases k,
    {
        let ghost prefix = chars@.subrange(0, k as int);
        proof {
            assert(prefix.drop_last() =~= chars@.subrange(0, k - 1));
            assert(prefix.last() == chars@[k - 1]);
        }
        if chars[k - 1] == c {
            return Some(k - 1);
        }
        k = k - 1;
    }
    proof {
        assert(chars@.subrange(0, 0) =~= Seq::<char>::empty());
    }
    None
}

/// The whitespace-separated fields of `s`, in order, as `split_whitespace`
/// yields them.
pub open spec fn whitespace_fields(s: Seq<char>) -> Seq<Seq<char>>
    decreases s.len(),
{
    if s.len() == 0 {
        Seq::empty()
    } else {
        let f = whitespace_fields(s.drop_last());
        let c = s.last();
        if is_white_space(c) {
            f
        } else if s.len() >= 2 && !is_white_space(s[s.len() - 2]) {
            f.update(f.len() - 1, f.last().push(c))
        } else {
            f.push(seq![c])
        }
    }
}

fn whitespace_split(chars: &Vec<char>, from: usize) -> (r: Vec<String>)
    requires
        from <= chars@.len(),
    ensures
        strings_view(r@) == whitespace_fields(chars@.subrange(from as int, chars@.len() as int)),
{
    let mut fields: Vec<String> = Vec::new();
    let mut current = String::new();
    let mut in_field = false;
    let mut i: usize = from;
    proof {
        assert(chars@.subrange(from as int, from as int) =~= Seq::<char>::empty());
        assert(strings_view(fields@) =~= Seq::<Seq<char>>::empty());
    }
    while i < chars.len()
        invariant
            from <= i <= chars@.len(),
            in_field == (i > from && !is_white_space(chars@[i - 1])),
            whitespace_fields(chars@.subrange(from as int, i as int)) == (if in_field {
                strings_view(fields@).push(current@)
            } else {
                strings_view(fields@)
            }),
        decreases chars@.len() - i,
    {
        let c = chars[i];
        let ghost pre = chars@.subrange(from as int, i as int);
        let ghost post = chars@.subrange(from as int, i + 1);
        let ghost before = strings_view(fields@);
        let ghost field = current@;
        proof {
            assert(post.drop_last() =~= pre);
            assert(post.last() == c);
            if post.len() >= 2 {
                assert(post[post.len() - 2] == chars@[i - 1]);
            }
        }
        if is_white_space_char(c) {
            if in_field {
                fields.push(current);
                current = String::new();
                in_field = false;
                proof {
                    assert(strings_view(fields@) =~= before.push(field));
                }
            }
        } else {
            if in_field {
                push_char(&mut current, c);
                proof {
                    assert(before.push(field).update(before.len() as int, field.push(c)) =~= before.push(
                        current@,
                    ));
                }
            } else {
                current = String::new();
                push_char(&mut current, c);
                in_field = true;
                proof {
                    assert(current@ =~= seq![c]);
                }
            }
        }
        i = i + 1;
    }
    if in_field {
        let ghost before = strings_view(fields@);
        let ghost field = current@;
        fields.push(current);
        proof {
            assert(strings_view(fields@) =~= before.push(field));
        }
    }
    fields
}

/// A character of one byte in UTF-8.
pub open spec fn is_ascii_char(c: char) -> bool {
    (c as int) < 128
}

proof fn lemma_char_code(c: char)
    ensures
        (c as u32) as int == c as int,
{
}

/// The fields after the command name of a stat record: what follows the
/// last `)` and the single byte after it, split at white space.
pub open spec fn stat_fields(stat: Seq<char>) -> Option<Seq<Seq<char>>> {
    match last_position(stat, ')') {
        None => None,
        Some(close) => if close + 1 < stat.len() && is_ascii_char(stat[close + 1]) {
            Some(whitespace_fields(stat.subrange(close + 2, stat.len() as int)))
        } else {
            None
        },
    }
}

/// Why a stat record yields no process evidence.
#[derive(Clone, Copy, Debug, PartialEq, Eq, Structural)]
pub enum StatFault {
    Malformed,
    Zombie,
}

/// What a stat record shows: its state (`T` or `t` stopped, `Z` a zombie,
/// anything else running) and its start time, the twentieth field after the
/// state.
pub open spec fn stat_reading(stat: Seq<char>) -> Result<(CutoverProcessStatus, Seq<char>), StatFault> {
    match stat_fields(stat) {
        None => Err(StatFault::Malformed),
        Some(fields) => if fields.len() <= 19 || fields[0].len() == 0 {
            Err(StatFault::Malformed)
        } else {
            let state = fields[0][0];
            if state == 'T' || state == 't' {
                Ok((CutoverProcessStatus::Stopped, fields[19]))
            } else if state == 'Z' {
                Err(StatFault::Zombie)
            } else {
                Ok((CutoverProcessStatus::Running, fields[19]))
            }
        },
    }
}

/// The message of a refused stat record.
pub open spec fn stat_fault_message(f: StatFault) -> Seq<char> {
    match f {
        StatFault::Malformed => "observer process metadata is malformed"@,
        StatFault::Zombie => "observer process became a zombie"@,
    }
}

fn malformed_stat() -> (r: CutoverError)
    ensures
        process_effect_with(r, stat_fault_message(StatFault::Malformed)),
{
    CutoverError::ProcessEffect(owned("observer process metadata is malformed"))
}

/// Reads a process's state and start time from its stat record, as
/// `stat_reading` states.
pub fn parse_process_stat(stat: &str) -> (r: Result<(CutoverProcessStatus, String), CutoverError>)
    ensures
        match stat_reading(stat@) {
            Ok((status, birth)) => (r matches Ok((s, b)) && s == status && b@ == birth),
            Err(f) => (r matches Err(e) && process_effect_with(e, stat_fault_message(f))),
        },
{
    let chars = chars_of(stat);
    let close = match find_last(&chars, ')') {
        Some(close) => close,
        None => {
            return Err(malformed_stat());
        },
    };
    if chars.len() - close < 2 {
        return Err(malformed_stat());
    }
    let after = chars[close + 1];
    proof {
        lemma_char_code(after);
    }
    if (after as u32) >= 128 {
        return Err(malformed_stat());
    }
    let fields = whitespace_split(&chars, close + 2);
    proof {
        assert(strings_view(fields@).len() == fields@.len());
    }
    if fields.len() <= 19 {
        return Err(malformed_stat());
    }
    let first = fields[0].as_str();
    proof {
        assert(strings_view(fields@)[0] == fields@[0]@);
        assert(strings_view(fields@)[19] == fields@[19]@);
    }
    if first.unicode_len() == 0 {
        return Err(malformed_stat());
    }
    let state = first.get_char(0);
    let birth = fields[19].clone();
    if state == 'T' || state == 't' {
        Ok((CutoverProcessStatus::Stopped, birth))
    } else if state == 'Z' {
        Err(CutoverError::ProcessEffect(owned("observer process became a zombie")))
    } else {
        Ok((CutoverProcessStatus::Running, birth))
    }
}

/// The bytes procfs records for a command line: each argument's UTF-8
/// bytes followed by a NUL byte.
pub open spec fn recorded_command_line(args: Seq<Seq<char>>) -> Seq<u8>
    decreases args.len(),
{
    if args.len() == 0 {
        Seq::empty()
    } else {
        recorded_command_line(args.drop_last()) + encode_utf8(args.last()) + seq![0u8]
    }
}

/// An argument procfs records faithfully: not empty, and without NUL.
pub open spec fn recordable_argument(a: Seq<char>) -> bool {
    a.len() > 0 && !seq_has_char(a, '\0')
}

proof fn lemma_scalar_bytes_nonzero(c: u32)
    by (bit_vector)
    requires
        c != 0,
    ensures
        has_width_1_encoding(c) ==> leading_byte_width_1(c) != 0,
        leading_byte_width_2(c) != 0,
        leading_byte_width_3(c) != 0,
        leading_byte_width_4(c) != 0,
        last_continuation_byte(c) != 0,
        second_last_continuation_byte(c) != 0,
        third_last_continuation_byte(c) != 0,
{
}

proof fn lemma_encoding_has_no_nul(a: Seq<char>)
    requires
        !seq_has_char(a, '\0'),
    ensures
        forall|i: int| 0 <= i < encode_utf8(a).len() ==> #[trigger] encode_utf8(a)[i] != 0,
    decreases a.len(),
{
    if a.len() > 0 {
        let c = a[0];
        assert(c != '\0');
        let v = c as u32;
        lemma_char_code(c);
        assert(v != 0);
        lemma_scalar_bytes_nonzero(v);
        let head = encode_scalar(v);
        assert forall|i: int| 0 <= i < head.len() implies #[trigger] head[i] != 0 by {
        }
        let rest = a.drop_first();
        assert(!seq_has_char(rest, '\0')) by {
            if seq_has_char(rest, '\0') {
                let k = choose|k: int| 0 <= k < rest.len() && #[trigger] rest[k] == '\0';
                assert(a[k + 1] == '\0');
            }
        }
        lemma_encoding_has_no_nul(rest);
        let e = encode_utf8(a);
        assert(e =~= head + encode_utf8(rest));
    }
}

proof fn lemma_encoding_not_empty(a: Seq<char>)
    requires
        a.len() > 0,
    ensures
        encode_utf8(a).len() > 0,
{
    let head = encode_scalar(a[0] as u32);
    assert(head.len() > 0);
}

proof fn lemma_pieces_extend(b: Seq<u8>, e: Seq<u8>)
    requires
        forall|i: int| 0 <= i < e.len() ==> #[trigger] e[i] != 0,
    ensures
        nul_pieces(b + e) == nul_pieces(b).update(
            nul_pieces(b).len() - 1,
            nul_pieces(b).last() + e,
        ),
    decreases e.len(),
{
    lemma_nul_pieces_nonempty(b);
    if e.len() == 0 {
        assert(b + e =~= b);
        assert(nul_pieces(b).last() + e =~= nul_pieces(b).last());
        assert(nul_pieces(b).update(nul_pieces(b).len() - 1, nul_pieces(b).last()) =~= nul_pieces(
            b,
        ));
    } else {
        let init = e.drop_last();
        lemma_pieces_extend(b, init);
        let be = b + e;
        assert(be.drop_last() =~= b + init);
        assert(be.last() == e.last());
        assert(e.last() != 0);
        let p = nul_pieces(b);
        let q = nul_pieces(b + init);
        lemma_nul_pieces_nonempty(b + init);
        assert(q.last() == p.last() + init);
        assert(q.last().push(e.last()) =~= p.last() + e);
        assert(q.update(q.len() - 1, q.last().push(e.last())) =~= p.update(
            p.len() - 1,
            p.last() + e,
        ));
    }
}

/// The UTF-8 bytes of each argument.
pub open spec fn argument_encodings(args: Seq<Seq<char>>) -> Seq<Seq<u8>> {
    args.map_values(|a: Seq<char>| encode_utf8(a))
}

proof fn lemma_recorded_pieces(args: Seq<Seq<char>>)
    requires
        forall|i: int| 0 <= i < args.len() ==> recordable_argument(#[trigger] args[i]),
    ensures
        nul_pieces(recorded_command_line(args)) == argument_encodings(args).push(Seq::<u8>::empty()),
    decreases args.len(),
{
    if args.len() == 0 {
        assert(recorded_command_line(args) =~= Seq::<u8>::empty());
        assert(argument_encodings(args).push(Seq::<u8>::empty()) =~= seq![Seq::<u8>::empty()]);
    } else {
        let init = args.drop_last();
        assert forall|i: int| 0 <= i < init.len() implies recordable_argument(#[trigger] init[i]) by {
            assert(recordable_argument(args[i]));
        }
        lemma_recorded_pieces(init);
        let b = recorded_command_line(init);
        let e = encode_utf8(args.last());
        assert(recordable_argument(args[args.len() - 1]));
        lemma_encoding_has_no_nul(args.last());
        lemma_pieces_extend(b, e);
        let whole = recorded_command_line(args);
        assert(whole =~= (b + e).push(0u8));
        assert(whole.drop_last() =~= b + e);
        assert(whole.last() == 0u8);
        let p = nul_pieces(b);
        assert(p == argument_encodings(init).push(Seq::<u8>::empty()));
        assert(p.last() + e =~= e);
        assert(p.update(p.len() - 1, e) =~= argument_encodings(args));
    }
}

proof fn lemma_encodings_read_back(args: Seq<Seq<char>>)
    requires
        args.len() <= MAX_CUTOVER_OBSERVER_ARGUMENTS,
        forall|i: int| 0 <= i < args.len() ==> recordable_argument(#[trigger] args[i]),
    ensures
        command_arguments(argument_encodings(args)) == Ok::<Seq<Seq<char>>, CommandLineFault>(args),
    decreases args.len(),
{
    if args.len() > 0 {
        let init = args.drop_last();
        assert forall|i: int| 0 <= i < init.len() implies recordable_argument(#[trigger] init[i]) by {
            assert(recordable_argument(args[i]));
        }
        lemma_encodings_read_back(init);
        let pieces = argument_encodings(args);
        assert(pieces.drop_last() =~= argument_encodings(init));
        let last = args.last();
        assert(recordable_argument(args[args.len() - 1]));
        lemma_encoding_not_empty(last);
        encode_utf8_valid_utf8(last);
        encode_utf8_decode_utf8(last);
        assert(pieces.last() == encode_utf8(last));
        assert(init.push(last) =~= args);
    } else {
        assert(argument_encodings(args).len() == 0);
        assert(args =~= Seq::<Seq<char>>::empty());
    }
}

/// A command line procfs recorded from arguments that are not empty and
/// hold no NUL reads back as exactly those arguments, when there are at most
/// `MAX_CUTOVER_OBSERVER_ARGUMENTS` of them.
pub proof fn lemma_recorded_command_line_reads_back(args: Seq<Seq<char>>)
    requires
        args.len() <= MAX_CUTOVER_OBSERVER_ARGUMENTS,
        forall|i: int| 0 <= i < args.len() ==> recordable_argument(#[trigger] args[i]),
    ensures
        command_arguments(nul_pieces(recorded_command_line(args))) == Ok::<
            Seq<Seq<char>>,
            CommandLineFault,
        >(args),
{
    lemma_recorded_pieces(args);
    lemma_encodings_read_back(args);
    let pieces = argument_encodings(args).push(Seq::<u8>::empty());
    assert(pieces.drop_last() =~= argument_encodings(args));
}

} // verus!
