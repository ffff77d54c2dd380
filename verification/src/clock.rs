//! Boot-scoped monotonic time and boot provenance for one-shot handoffs.

use nix::sys::time::TimeValLike;
use sha2::Digest;
use vstd::prelude::*;
use vstd::utf8::encode_utf8;

use crate::ids::{bytes_hex, hex_digit, uuid_parse, uuid_text_value};
use crate::text::{push_char, push_str, trim, trimmed};

verus! {

/// What SHA-256 computes for a byte sequence.
pub uninterp spec fn sha256_of(bytes: Seq<u8>) -> Seq<u8>;

/// `sha2::Sha256::digest`: the 32-byte SHA-256 digest of the bytes.
#[verifier::external_body]
fn sha256(bytes: &[u8]) -> (r: Vec<u8>)
    ensures
        r@ == sha256_of(bytes@),
        r@.len() == 32,
{
    sha2::Sha256::digest(bytes).to_vec()
}

/// `nix::time::clock_gettime(CLOCK_BOOTTIME)` in whole milliseconds, or
/// `None` when the clock cannot be read; the reading depends on the time.
#[verifier::external_body]
fn boottime_millis() -> (r: Option<i64>) {
    nix::time::clock_gettime(nix::time::ClockId::CLOCK_BOOTTIME).ok().map(|t| t.num_milliseconds())
}

/// Bounded clock or provenance failure that carries no host identifier.
#[derive(Clone, Copy, Debug, PartialEq, Eq, Structural)]
pub enum ClockError {
    Unavailable,
}

fn hex_char(n: u8) -> (r: char)
    requires
        n < 16,
    ensures
        r == hex_digit(n as int),
{
    if n < 10 {
        (n + 48) as char
    } else {
        (n - 10 + 97) as char
    }
}

/// Two lower-case hexadecimal digits per byte, in byte order.
pub fn hex_of_bytes(bytes: &[u8]) -> (r: String)
    ensures
        r@ == bytes_hex(bytes@),
{
    let mut out = String::new();
    let mut i: usize = 0;
    proof {
        assert(bytes@.subrange(0, 0) =~= Seq::<u8>::empty());
    }
    while i < bytes.len()
        invariant
            i <= bytes@.len(),
            out@ == bytes_hex(bytes@.subrange(0, i as int)),
        decreases bytes@.len() - i,
    {
        let b = bytes[i];
        push_char(&mut out, hex_char(b / 16));
        push_char(&mut out, hex_char(b % 16));
        proof {
            let p = bytes@.subrange(0, i + 1);
            assert(p.drop_last() =~= bytes@.subrange(0, i as int));
            assert(p.last() == b);
            assert(out@ =~= bytes_hex(p));
        }
        i = i + 1;
    }
    proof {
        assert(bytes@.subrange(0, i as int) =~= bytes@);
    }
    out
}

/// The prefix of every boot provenance.
pub open spec fn provenance_prefix() -> Seq<char> {
    "d17-boot-v1:sha256:"@
}

/// The provenance of a boot identifier: the version tag and the SHA-256 of
/// the trimmed identifier, when the trimmed text is a UUID.
pub open spec fn boot_provenance_of(boot_id: Seq<char>) -> Option<Seq<char>> {
    let id = trimmed(boot_id);
    if uuid_text_value(id) is Some {
        Some(provenance_prefix() + bytes_hex(sha256_of(encode_utf8(id))))
    } else {
        None
    }
}

/// Derives the boot provenance from the kernel's boot identifier text.
pub fn boot_provenance_from_boot_id(boot_id: &str) -> (r: Result<String, ClockError>)
    ensures
        boot_provenance_of(boot_id@) matches Some(p) ==> r matches Ok(s) && s@ == p,
        boot_provenance_of(boot_id@) is None ==> r == Err::<String, ClockError>(ClockError::Unavailable),
{
    let id = trim(boot_id);
    if uuid_parse(id).is_none() {
        return Err(ClockError::Unavailable);
    }
    let digest = sha256(id.as_bytes());
    let mut out = String::from_str("d17-boot-v1:sha256:");
    let hex = hex_of_bytes(digest.as_slice());
    push_str(&mut out, hex.as_str());
    Ok(out)
}

/// The broker's fixed bootstrap provenance: the digest of its bootstrap tag.
pub fn broker_boot_provenance() -> (r: String)
    ensures
        r@ == provenance_prefix() + bytes_hex(sha256_of("wsnav-d17-broker-bootstrap-v1"@.map_values(|c: char| c as u8))),
{
    let tag = "wsnav-d17-broker-bootstrap-v1";
    proof {
        reveal_strlit("wsnav-d17-broker-bootstrap-v1");
        assert(vstd::utf8::is_ascii_chars(tag@));
        vstd::utf8::is_ascii_chars_encode_utf8(tag@);
        assert(encode_utf8(tag@) =~= tag@.map_values(|c: char| c as u8));
    }
    let digest = sha256(tag.as_bytes());
    let mut out = String::from_str("d17-boot-v1:sha256:");
    let hex = hex_of_bytes(digest.as_slice());
    push_str(&mut out, hex.as_str());
    out
}

/// A monotonic reading is usable only when it is available and not negative.
pub fn monotonic_reading(raw: Option<i64>) -> (r: Result<i64, ClockError>)
    ensures
        r == (match raw {
            Some(m) => if m >= 0 {
                Ok::<i64, ClockError>(m)
            } else {
                Err(ClockError::Unavailable)
            },
            None => Err(ClockError::Unavailable),
        }),
{
    match raw {
        Some(m) => if m >= 0 {
            Ok(m)
        } else {
            Err(ClockError::Unavailable)
        },
        None => Err(ClockError::Unavailable),
    }
}

/// The Linux boot-time clock.
#[derive(Clone, Copy, Debug, Default)]
pub struct SystemD17Clock;

impl SystemD17Clock {
    /// Milliseconds on the boot-time clock; never negative.
    pub fn now_monotonic_millis(&self) -> (r: Result<i64, ClockError>)
        ensures
            r matches Ok(m) ==> m >= 0,
    {
        monotonic_reading(boottime_millis())
    }
}

} // verus!
