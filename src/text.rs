//! Text taken out of the engine's byte buffers.
use vstd::prelude::*;

verus! {

/// What `String::from_utf8_lossy` makes of a byte sequence: the decoded text,
/// with every invalid UTF-8 sequence replaced by U+FFFD.
pub uninterp spec fn lossy_of(b: Seq<u8>) -> Seq<char>;

/// True when every byte is in the ASCII range.
pub open spec fn is_ascii(b: Seq<u8>) -> bool {
    forall|i: int| 0 <= i < b.len() ==> b[i] < 128
}

/// The characters that ASCII bytes stand for, one for one.
pub open spec fn ascii_chars(b: Seq<u8>) -> Seq<char> {
    b.map_values(|x: u8| x as char)
}

/// Relies on `String::from_utf8_lossy`: valid UTF-8 (ASCII in particular)
/// decodes as itself, and nothing decodes to nothing.
#[verifier::external_body]
pub(crate) fn lossy(b: &[u8]) -> (r: String)
    ensures
        r@ == lossy_of(b@),
        b@.len() == 0 ==> r@.len() == 0,
        is_ascii(b@) ==> r@ == ascii_chars(b@),
{
    String::from_utf8_lossy(b).into_owned()
}

/// True when no byte of `b` is the terminator 0.
pub open spec fn nul_free(b: Seq<u8>) -> bool {
    forall|i: int| 0 <= i < b.len() ==> b[i] != 0
}

/// The bytes of `b` before its first terminator, or all of `b` when it holds none.
pub open spec fn until_nul(b: Seq<u8>) -> Seq<u8>
    decreases b.len(),
{
    if b.len() == 0 || b[0] == 0 {
        Seq::empty()
    } else {
        seq![b[0]].add(until_nul(b.subrange(1, b.len() as int)))
    }
}

/// Peeling one non-terminator byte off the front of a buffer.
proof fn lemma_until_nul_step(b: Seq<u8>, i: int)
    requires
        0 <= i < b.len(),
        b[i] != 0,
    ensures
        until_nul(b.subrange(i, b.len() as int)) == seq![b[i]].add(
            until_nul(b.subrange(i + 1, b.len() as int)),
        ),
{
    let s = b.subrange(i, b.len() as int);
    assert(s.subrange(1, s.len() as int) =~= b.subrange(i + 1, b.len() as int));
}

/// Cuts `b` at its first terminator byte.
pub fn bytes_until_nul(b: &[u8]) -> (r: Vec<u8>)
    ensures
        r@ == until_nul(b@),
        nul_free(r@),
        r@.len() <= b@.len(),
        r@ == b@.take(r@.len() as int),
        r@.len() < b@.len() ==> b@[r@.len() as int] == 0,
{
    let mut r: Vec<u8> = Vec::new();
    let mut i: usize = 0;
    proof {
        assert(b@.subrange(0, b@.len() as int) =~= b@);
        assert(r@.add(until_nul(b@)) =~= until_nul(b@));
    }
    while i < b.len() && b[i] != 0
        invariant
            0 <= i <= b@.len(),
            r@ == b@.take(i as int),
            nul_free(r@),
            until_nul(b@) == r@.add(until_nul(b@.subrange(i as int, b@.len() as int))),
        decreases b@.len() - i,
    {
        proof {
            lemma_until_nul_step(b@, i as int);
        }
        let ghost prev = r@;
        r.push(b[i]);
        i = i + 1;
        assert(r@ == b@.take(i as int));
        assert(prev.add(seq![b@[i - 1]]).add(until_nul(b@.subrange(i as int, b@.len() as int)))
            =~= prev.add(seq![b@[i - 1]].add(until_nul(b@.subrange(i as int, b@.len() as int)))));
    }
    proof {
        assert(b@.subrange(i as int, b@.len() as int).len() == 0 || b@.subrange(
            i as int,
            b@.len() as int,
        )[0] == 0);
        assert(r@.add(Seq::<u8>::empty()) =~= r@);
    }
    r
}

} // verus!
