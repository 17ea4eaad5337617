//! Notes padded to one fixed envelope size, so that sizes reveal nothing.
use vstd::prelude::*;

verus! {

/// The size of every note envelope, in bytes.
pub const NOTE_ENVELOPE_SIZE: usize = 512;

/// A note followed by zero bytes up to the envelope size.
pub open spec fn padded(note: Seq<u8>) -> Seq<u8> {
    note + Seq::new((NOTE_ENVELOPE_SIZE - note.len()) as nat, |i: int| 0u8)
}

/// The note followed by zero bytes up to the envelope size; a note larger
/// than the envelope is refused.
pub fn pad_note(note: Vec<u8>) -> (r: Result<Vec<u8>, &'static str>)
    ensures
        r is Err <==> note@.len() > NOTE_ENVELOPE_SIZE,
        r matches Err(e) ==> e@ == "note exceeds fixed envelope size"@,
        r matches Ok(v) ==> v@ == padded(note@),
{
    if note.len() > NOTE_ENVELOPE_SIZE {
        return Err("note exceeds fixed envelope size");
    }
    let mut note = note;
    let ghost base = note@;
    let fill = NOTE_ENVELOPE_SIZE - note.len();
    let mut i: usize = 0;
    while i < fill
        invariant
            fill == NOTE_ENVELOPE_SIZE - base.len(),
            i <= fill,
            note@ == base + Seq::new(i as nat, |j: int| 0u8),
        decreases fill - i,
    {
        note.push(0u8);
        i = i + 1;
        assert(note@ =~= base + Seq::new(i as nat, |j: int| 0u8));
    }
    Ok(note)
}

/// Any two accepted notes come out the same size, the envelope's, so the
/// size tells nothing of the note; and each envelope begins with its note.
pub proof fn law_uniform_envelope(a: Seq<u8>, b: Seq<u8>)
    requires
        a.len() <= NOTE_ENVELOPE_SIZE,
        b.len() <= NOTE_ENVELOPE_SIZE,
    ensures
        padded(a).len() == padded(b).len(),
        padded(a).len() == NOTE_ENVELOPE_SIZE,
        padded(a).subrange(0, a.len() as int) == a,
{
    assert(padded(a).subrange(0, a.len() as int) =~= a);
}

} // verus!
