use vstd::prelude::*;
use crate::errors::TraceError;

verus! {

/// Byte `i` of a machine word, counting from the least significant end: the
/// order in which the bytes of a little-endian word lie in the tracee's
/// memory.
pub open spec fn word_byte(w: u64, i: int) -> u8 {
    ((w >> ((8 * i) as u64)) & 0xff) as u8
}

/// The eight bytes of a machine word, in memory order.
pub open spec fn word_bytes(w: u64) -> Seq<u8> {
    Seq::new(8, |i: int| word_byte(w, i))
}

/// Does the byte sequence hold a NUL?
pub open spec fn has_nul(s: Seq<u8>) -> bool {
    exists|i: int| 0 <= i < s.len() && s[i] == 0
}

/// The prefix of a byte sequence that precedes its first NUL (all of it when
/// it has none).
pub open spec fn take_to_nul(s: Seq<u8>) -> Seq<u8>
    decreases s.len(),
{
    if s.len() == 0 {
        s
    } else if s[0] == 0 {
        Seq::empty()
    } else {
        seq![s[0]] + take_to_nul(s.drop_first())
    }
}

proof fn lemma_take_to_nul_split(s: Seq<u8>, i: int)
    requires
        0 <= i <= s.len(),
        forall|j: int| 0 <= j < i ==> s[j] != 0,
    ensures
        take_to_nul(s) == s.take(i) + take_to_nul(s.skip(i)),
    decreases i,
{
    if i == 0 {
        assert(s.skip(0) =~= s);
        assert(take_to_nul(s) =~= s.take(0) + take_to_nul(s.skip(0)));
    } else {
        let t = s.drop_first();
        lemma_take_to_nul_split(t, i - 1);
        assert(t.skip(i - 1) =~= s.skip(i));
        assert(take_to_nul(s) =~= seq![s[0]] + take_to_nul(t));
        assert(seq![s[0]] + (t.take(i - 1) + take_to_nul(t.skip(i - 1))) =~= s.take(i)
            + take_to_nul(s.skip(i)));
    }
}

/// Feed one word peeked out of the tracee into the path buffer: its bytes up
/// to the first NUL are appended, and the result says whether the NUL — the
/// end of the string — was seen.
pub fn push_word(buf: &mut Vec<u8>, word: u64) -> (found: bool)
    ensures
        final(buf)@ == old(buf)@ + take_to_nul(word_bytes(word)),
        found == has_nul(word_bytes(word)),
{
    let ghost wb = word_bytes(word);
    let mut i: usize = 0;
    while i < 8
        invariant
            0 <= i <= 8,
            wb == word_bytes(word),
            forall|j: int| 0 <= j < i ==> wb[j] != 0,
            buf@ == old(buf)@ + wb.take(i as int),
        decreases 8 - i,
    {
        let shift: u64 = 8 * (i as u64);
        assert((word >> shift) & 0xff < 256) by (bit_vector);
        let b: u8 = ((word >> shift) & 0xff) as u8;
        proof {
            assert(b == word_byte(word, i as int));
            assert(wb[i as int] == word_byte(word, i as int));
        }
        if b == 0 {
            proof {
                lemma_take_to_nul_split(wb, i as int);
                assert(wb.skip(i as int)[0] == 0);
                assert(take_to_nul(wb.skip(i as int)) =~= Seq::<u8>::empty());
                assert(buf@ =~= old(buf)@ + take_to_nul(wb));
                assert(has_nul(wb));
            }
            return true;
        }
        buf.push(b);
        proof {
            assert(wb.take(i + 1) =~= wb.take(i as int).push(wb[i as int]));
            assert(buf@ =~= old(buf)@ + wb.take(i + 1));
        }
        i = i + 1;
    }
    proof {
        lemma_take_to_nul_split(wb, 8);
        assert(wb.skip(8) =~= Seq::<u8>::empty());
        assert(take_to_nul(wb) =~= wb.take(8));
        assert(buf@ =~= old(buf)@ + take_to_nul(wb));
        assert(!has_nul(wb));
    }
    false
}

/// What decoding a byte sequence as UTF-8 yields, when it is valid.
pub uninterp spec fn utf8_decode(bytes: Seq<u8>) -> Option<Seq<char>>;

/// Relies on String::from_utf8: it succeeds exactly on valid UTF-8 input,
/// and the decoded characters depend on the bytes alone.
#[verifier::external_body]
fn decode_utf8(bytes: Vec<u8>) -> (r: Option<String>)
    ensures
        r is Some <==> utf8_decode(bytes@) is Some,
        r matches Some(s) ==> utf8_decode(bytes@) == Some(s@),
{
    match String::from_utf8(bytes) {
        Ok(s) => Some(s),
        Err(_) => None,
    }
}

/// Turn the bytes gathered before a NUL into the path they spell, or report
/// that they are not text.
pub fn finish_cstring(buf: Vec<u8>) -> (r: Result<String, TraceError>)
    ensures
        utf8_decode(buf@) matches Some(t) ==> (r matches Ok(s) && s@ == t),
        utf8_decode(buf@) is None ==> r == Err::<String, TraceError>(TraceError::InvalidUtf8),
{
    match decode_utf8(buf) {
        Some(s) => Ok(s),
        None => Err(TraceError::InvalidUtf8),
    }
}

} // verus!
