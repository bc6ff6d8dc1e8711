//! Rebuilding a stored payload the way a line-based read hands it back:
//! the lines are concatenated and the line breaks between them are dropped.

use vstd::prelude::*;
use vstd::string::StrSliceExecFns;

verus! {

/// What reading a file line by line and concatenating the lines yields:
/// the text with every `'\n'` removed, and every `'\r'` that immediately
/// precedes a `'\n'` removed with it. A `'\r'` standing on its own is kept.
pub open spec fn strip_newlines(s: Seq<char>) -> Seq<char>
    decreases s.len(),
{
    if s.len() == 0 {
        Seq::empty()
    } else if s[0] == '\n' || (s[0] == '\r' && s.len() >= 2 && s[1] == '\n') {
        strip_newlines(s.skip(1))
    } else {
        seq![s[0]] + strip_newlines(s.skip(1))
    }
}

/// Relies on `String::push`: appends the given character to the end of the
/// string.
#[verifier::external_body]
fn push_char(s: &mut String, c: char)
    ensures
        final(s)@ == old(s)@.push(c),
{
    s.push(c)
}

/// Joins the lines of `text` with their line breaks dropped, exactly as a
/// line-by-line read of a stored file reconstructs its payload.
pub fn reconstruct_payload(text: &str) -> (r: String)
    ensures
        r@ == strip_newlines(text@),
{
    let n: usize = text.unicode_len();
    let mut r = String::new();
    let mut i: usize = 0;
    proof {
        assert(text@.skip(0) =~= text@);
        assert(r@ + strip_newlines(text@) =~= strip_newlines(text@));
    }
    while i < n
        invariant
            i <= n,
            n == text@.len(),
            strip_newlines(text@) == r@ + strip_newlines(text@.skip(i as int)),
        decreases n - i,
    {
        let c = text.get_char(i);
        let is_break = c == '\n' || (c == '\r' && i + 1 < n && text.get_char(i + 1) == '\n');
        proof {
            let rest = text@.skip(i as int);
            assert(rest[0] == text@[i as int]);
            if i + 1 < n {
                assert(rest[1] == text@[i as int + 1]);
            }
            assert(rest.skip(1) =~= text@.skip(i as int + 1));
        }
        let ghost r0 = r@;
        if !is_break {
            push_char(&mut r, c);
            proof {
                let tail = strip_newlines(text@.skip(i as int + 1));
                assert(r@ =~= r0 + seq![c]);
                assert((r0 + seq![c]) + tail =~= r0 + (seq![c] + tail));
            }
        }
        i = i + 1;
    }
    proof {
        assert(text@.skip(n as int) =~= Seq::<char>::empty());
        assert(r@ + Seq::<char>::empty() =~= r@);
    }
    r
}

/// Law: a payload without a newline character is rebuilt unchanged; storing
/// and reading such a payload round-trips exactly.
pub proof fn lemma_round_trip_exact(s: Seq<char>)
    requires
        forall|i: int| 0 <= i < s.len() ==> s[i] != '\n',
    ensures
        strip_newlines(s) == s,
    decreases s.len(),
{
    if s.len() == 0 {
        assert(strip_newlines(s) =~= s);
    } else {
        assert(forall|i: int| 0 <= i < s.skip(1).len() ==> s.skip(1)[i] == s[i + 1]);
        lemma_round_trip_exact(s.skip(1));
        assert(seq![s[0]] + s.skip(1) =~= s);
    }
}

/// The rebuilt payload is never longer than the stored text.
pub proof fn lemma_strip_newlines_len(s: Seq<char>)
    ensures
        strip_newlines(s).len() <= s.len(),
    decreases s.len(),
{
    if s.len() > 0 {
        lemma_strip_newlines_len(s.skip(1));
    }
}

/// Law: a payload with an embedded newline is not round-tripped: the rebuilt
/// payload is strictly shorter than the stored text, so it differs from it.
pub proof fn lemma_round_trip_lossy(s: Seq<char>)
    requires
        exists|i: int| 0 <= i < s.len() && s[i] == '\n',
    ensures
        strip_newlines(s).len() < s.len(),
        strip_newlines(s) != s,
    decreases s.len(),
{
    let j: int = choose|i: int| 0 <= i < s.len() && s[i] == '\n';
    if s[0] == '\n' || (s[0] == '\r' && s.len() >= 2 && s[1] == '\n') {
        lemma_strip_newlines_len(s.skip(1));
    } else {
        assert(s.skip(1)[j - 1] == '\n');
        lemma_round_trip_lossy(s.skip(1));
    }
}

} // verus!
