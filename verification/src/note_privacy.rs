//! Fixed-size note envelopes and sanitising of note metadata.
use vstd::prelude::*;

use crate::text::{chars_of, hex16, hex_digits, replace, replace_all, string_from_chars};
use vstd::string::StringSliceAdditionalSpecFns;

use std::collections::hash_map::DefaultHasher;
use std::hash::Hasher;
use vstd::std_specs::hash::DefaultHasherAdditionalSpecFns;

verus! {

/// `data` brought to exactly `target` bytes: longer data is cut, shorter data
/// is followed by the filler bytes 0, 1, 2, ... (wrapping at 256).
pub open spec fn padded(data: Seq<u8>, target: nat) -> Seq<u8> {
    if data.len() < target {
        data + Seq::new((target - data.len()) as nat, |i: int| (i % 256) as u8)
    } else {
        data.subrange(0, target as int)
    }
}

/// A note padded to a fixed size, so that its size reveals nothing.
pub struct NoteEnvelope {
    pub padded_data: Vec<u8>,
    pub fixed_size: usize,
}

impl NoteEnvelope {
    /// The payload in an envelope of `target_size` bytes.
    pub fn new(payload: &[u8], target_size: usize) -> (e: Self)
        ensures
            e.padded_data@ == padded(payload@, target_size as nat),
            e.fixed_size == target_size,
    {
        let padded = Self::pad_to_fixed_size(payload, target_size);
        NoteEnvelope { padded_data: padded, fixed_size: target_size }
    }

    /// The text's UTF-8 bytes in an envelope of `target_size` bytes.
    pub fn from_string(text: &str, target_size: usize) -> (e: Self)
        ensures
            e.padded_data@ == padded(text.spec_bytes(), target_size as nat),
            e.fixed_size == target_size,
    {
        Self::new(text.as_bytes(), target_size)
    }

    /// `data` cut or padded to exactly `target_size` bytes.
    pub fn pad_to_fixed_size(data: &[u8], target_size: usize) -> (r: Vec<u8>)
        ensures
            r@ == padded(data@, target_size as nat),
            r@.len() == target_size,
    {
        let mut padded: Vec<u8> = vstd::slice::slice_to_vec(data);
        if padded.len() < target_size {
            let padding_len = target_size - padded.len();
            let ghost base = padded@;
            let mut i: usize = 0;
            while i < padding_len
                invariant
                    base == data@,
                    padding_len == target_size - base.len(),
                    i <= padding_len,
                    padded@ == base + Seq::new(i as nat, |j: int| (j % 256) as u8),
                decreases padding_len - i,
            {
                padded.push((i % 256) as u8);
                i = i + 1;
                assert(padded@ =~= base + Seq::new(i as nat, |j: int| (j % 256) as u8));
            }
        } else {
            padded.truncate(target_size);
        }
        padded
    }

    /// The envelope size, which is all the envelope reveals.
    pub fn reveal_size_hint(&self) -> (n: usize)
        ensures
            n == self.fixed_size,
    {
        self.fixed_size
    }
}

/// Whether `c` is a control character (general category Cc).
pub open spec fn is_control_char(c: char) -> bool {
    (c as u32) <= 0x1f || (0x7f <= (c as u32) && (c as u32) <= 0x9f)
}

/// Whether sanitising keeps `c`: anything but a control character, except
/// newline and tab.
pub open spec fn kept_char(c: char) -> bool {
    !is_control_char(c) || c == '\n' || c == '\t'
}

/// Whether `c` is a control character: the general category Cc, the code
/// points 0-0x1F and 0x7F-0x9F (what `char::is_control` tests).
fn char_is_control(c: char) -> (r: bool)
    ensures
        r == is_control_char(c),
{
    let n = c as u32;
    n <= 0x1f || (0x7f <= n && n <= 0x9f)
}

/// The writes that hashing a text makes into a hasher (`Hash::hash` for
/// `str`). They depend on the text alone; std documents no more of them.
pub uninterp spec fn str_hash_writes(id: Seq<char>) -> Seq<Seq<u8>>;

/// The default hash of a text: what a fresh `DefaultHasher` (whose keys are
/// fixed, so every one made by `new` is the same) finishes with after the
/// text is hashed into it.
pub open spec fn default_hash_of(id: Seq<char>) -> u64 {
    DefaultHasher::spec_finish(str_hash_writes(id))
}

/// Feeds the identifier to the hasher (`Hash::hash` for `str`): the hasher
/// records the writes that hashing the text makes, which are named
/// `str_hash_writes`; std does not document their bytes.
#[verifier::external_body]
fn hash_str_into(id: &str, hasher: &mut DefaultHasher)
    ensures
        final(hasher)@ == old(hasher)@ + str_hash_writes(id@),
{
    std::hash::Hash::hash(id, hasher)
}

/// The identifier's hash under std's default hasher.
fn default_hash(id: &str) -> (h: u64)
    ensures
        h == default_hash_of(id@),
{
    let mut hasher = DefaultHasher::new();
    hash_str_into(id, &mut hasher);
    assert(hasher@ =~= str_hash_writes(id@));
    hasher.finish()
}

pub struct NoteSanitizer;

impl NoteSanitizer {
    /// The metadata without control characters other than newline and tab.
    pub fn sanitize_metadata(metadata: &str) -> (r: String)
        ensures
            r@ == metadata@.filter(|c: char| kept_char(c)),
    {
        let v = chars_of(metadata);
        let mut out: Vec<char> = Vec::new();
        let mut i: usize = 0;
        while i < v.len()
            invariant
                v@ == metadata@,
                i <= v.len(),
                out@ == v@.subrange(0, i as int).filter(|c: char| kept_char(c)),
            decreases v.len() - i,
        {
            proof {
                reveal_with_fuel(Seq::<_>::filter, 1);
                assert(v@.subrange(0, i + 1).drop_last() =~= v@.subrange(0, i as int));
            }
            let c = v[i];
            if !char_is_control(c) || c == '\n' || c == '\t' {
                out.push(c);
            }
            i = i + 1;
        }
        assert(v@.subrange(0, i as int) =~= v@);
        string_from_chars(&out)
    }

    /// The metadata with a redaction marker after each counterparty label.
    pub fn redact_counterparties(metadata: &str) -> (r: String)
        ensures
            r@ == replace_all(
                replace_all(
                    replace_all(metadata@, "from:"@, "from: [REDACTED]"@),
                    "to:"@,
                    "to: [REDACTED]"@,
                ),
                "counterparty:"@,
                "counterparty: [REDACTED]"@,
            ),
    {
        proof {
            reveal_strlit("from:");
            reveal_strlit("to:");
            reveal_strlit("counterparty:");
        }
        let a = replace(metadata, "from:", "from: [REDACTED]");
        let b = replace(a.as_str(), "to:", "to: [REDACTED]");
        replace(b.as_str(), "counterparty:", "counterparty: [REDACTED]")
    }

    /// A short hexadecimal digest of an identifier: the 16 zero-padded
    /// lowercase hex digits of its default hash.
    pub fn hash_identifier(id: &str) -> (r: String)
        ensures
            r@ == hex_digits(default_hash_of(id@) as nat, 16),
            r@.len() == 16,
    {
        let h = default_hash(id);
        hex16(h)
    }
}

} // verus!
