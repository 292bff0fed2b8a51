//! The per-package persisted state: the last applied upstream version.
//!
//! The record is stored as a small JSON object. Decoding a file that may have
//! been written by other tools is left to the unverified shell around the
//! library; encoding is done here, byte for byte.

use vstd::prelude::*;
use vstd::string::StringSliceAdditionalSpecFns;

verus! {

/// The persisted per-package record: the version applied by the most recent
/// successful pipeline run, empty when no run has been recorded.
pub struct VersionRecord {
    pub applied_version: Vec<u8>,
}

/// One lowercase hexadecimal digit.
pub open spec fn hex_digit(n: u8) -> u8 {
    if n < 10 {
        (48 + n) as u8
    } else {
        (87 + n) as u8
    }
}

/// The JSON string encoding of one byte: quote and backslash get a
/// backslash escape, control bytes a `\u00..` escape, all else passes
/// through.
pub open spec fn escape_byte(b: u8) -> Seq<u8> {
    if b == 34 {
        seq![92u8, 34u8]
    } else if b == 92 {
        seq![92u8, 92u8]
    } else if b < 32 {
        seq![92u8, 117u8, 48u8, 48u8, hex_digit(b / 16), hex_digit(b % 16)]
    } else {
        seq![b]
    }
}

/// The JSON string encoding of a byte sequence.
pub open spec fn json_escaped(s: Seq<u8>) -> Seq<u8>
    decreases s.len(),
{
    if s.len() == 0 {
        Seq::<u8>::empty()
    } else {
        escape_byte(s[0]) + json_escaped(s.drop_first())
    }
}

/// The exact serialized form of a record.
pub open spec fn spec_encode_record(tag: Seq<u8>) -> Seq<u8> {
    "{\n  \"appliedVersion\": \"".spec_bytes() + json_escaped(tag) + "\"\n}".spec_bytes()
}

pub proof fn lemma_json_escaped_push(s: Seq<u8>, b: u8)
    ensures
        json_escaped(s.push(b)) == json_escaped(s) + escape_byte(b),
    decreases s.len(),
{
    let p = s.push(b);
    if s.len() == 0 {
        assert(p[0] == b);
        assert(p.drop_first() =~= Seq::<u8>::empty());
        assert(json_escaped(p.drop_first()) =~= Seq::<u8>::empty());
        assert(json_escaped(p) =~= escape_byte(b));
        assert(json_escaped(s) + escape_byte(b) =~= escape_byte(b));
    } else {
        lemma_json_escaped_push(s.drop_first(), b);
        assert(p.drop_first() =~= s.drop_first().push(b));
        assert(p[0] == s[0]);
        assert(json_escaped(p) == escape_byte(s[0]) + json_escaped(s.drop_first().push(b)));
        assert(json_escaped(p) =~= json_escaped(s) + escape_byte(b));
    }
}

/// Appends the JSON string encoding of `src` to `dst`.
fn escape_into(dst: &mut Vec<u8>, src: &Vec<u8>)
    ensures
        final(dst)@ == old(dst)@ + json_escaped(src@),
{
    let n = src.len();
    let mut i: usize = 0;
    proof {
        assert(src@.subrange(0, 0) =~= Seq::<u8>::empty());
        assert(dst@ =~= old(dst)@ + json_escaped(src@.subrange(0, 0)));
    }
    while i < n
        invariant
            i <= n,
            n == src@.len(),
            dst@ == old(dst)@ + json_escaped(src@.subrange(0, i as int)),
        decreases n - i,
    {
        let b = src[i];
        if b == 34 {
            dst.push(92);
            dst.push(34);
        } else if b == 92 {
            dst.push(92);
            dst.push(92);
        } else if b < 32 {
            dst.push(92);
            dst.push(117);
            dst.push(48);
            dst.push(48);
            let hi = b / 16;
            let lo = b % 16;
            if hi < 10 {
                dst.push(48 + hi);
            } else {
                dst.push(87 + hi);
            }
            if lo < 10 {
                dst.push(48 + lo);
            } else {
                dst.push(87 + lo);
            }
        } else {
            dst.push(b);
        }
        proof {
            assert(src@.subrange(0, i as int + 1) =~= src@.subrange(0, i as int).push(
                src@[i as int],
            ));
            lemma_json_escaped_push(src@.subrange(0, i as int), src@[i as int]);
            assert(dst@ =~= old(dst)@ + json_escaped(src@.subrange(0, i as int + 1)));
        }
        i = i + 1;
    }
    proof {
        assert(src@.subrange(0, n as int) =~= src@);
    }
}

impl VersionRecord {
    /// The record used when no state has been persisted yet.
    pub fn absent() -> (r: VersionRecord)
        ensures
            r.applied_version@ == Seq::<u8>::empty(),
    {
        VersionRecord { applied_version: Vec::new() }
    }

    /// Serializes the record to the exact bytes written to the state file.
    pub fn encode_json(&self) -> (r: Vec<u8>)
        ensures
            r@ == spec_encode_record(self.applied_version@),
    {
        let mut out = crate::text::literal_bytes("{\n  \"appliedVersion\": \"");
        escape_into(&mut out, &self.applied_version);
        let tail = crate::text::literal_bytes("\"\n}");
        crate::text::push_bytes(&mut out, &tail);
        out
    }
}

} // verus!
