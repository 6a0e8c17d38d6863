//! A string of bounded capacity, counted in UTF-8 bytes, for values that
//! are persisted in fixed-size slots.

use vstd::prelude::*;
use vstd::utf8::{encode_utf8, is_ascii_chars, is_ascii_chars_encode_utf8};

verus! {

/// Number of UTF-8 bytes of a character sequence.
pub open spec fn byte_len(s: Seq<char>) -> nat {
    encode_utf8(s).len()
}

/// Whether a character survives sanitizing: printable ASCII or ASCII
/// whitespace.
pub open spec fn is_clean_char(c: char) -> bool {
    ('!' <= c && c <= '~') || c == ' ' || c == '\t' || c == '\n' || c == '\x0C' || c == '\r'
}

/// The characters of `s` that survive sanitizing, in order.
pub open spec fn clean(s: Seq<char>) -> Seq<char>
    decreases s.len(),
{
    if s.len() == 0 {
        Seq::empty()
    } else if is_clean_char(s.last()) {
        clean(s.drop_last()).push(s.last())
    } else {
        clean(s.drop_last())
    }
}

proof fn lemma_encode_concat(a: Seq<char>, b: Seq<char>)
    ensures
        encode_utf8(a + b) == encode_utf8(a) + encode_utf8(b),
    decreases a.len(),
{
    if a.len() > 0 {
        assert((a + b).drop_first() =~= a.drop_first() + b);
        assert((a + b)[0] == a[0]);
        lemma_encode_concat(a.drop_first(), b);
    } else {
        assert(a + b =~= b);
    }
}

proof fn lemma_encode_len(a: Seq<char>)
    ensures
        encode_utf8(a).len() >= a.len(),
    decreases a.len(),
{
    if a.len() > 0 {
        lemma_encode_len(a.drop_first());
    }
}

proof fn lemma_clean_ascii(s: Seq<char>)
    ensures
        is_ascii_chars(clean(s)),
        clean(s).len() <= s.len(),
    decreases s.len(),
{
    if s.len() > 0 {
        lemma_clean_ascii(s.drop_last());
    }
}

/// The text is too long for the capacity.
#[derive(Clone, Copy, Debug, PartialEq, Eq, Structural)]
pub struct TooLong;

/// A string that never holds more than `N` UTF-8 bytes.
pub struct HeaplessString<const N: usize> {
    s: String,
}

impl<const N: usize> View for HeaplessString<N> {
    type V = Seq<char>;

    closed spec fn view(&self) -> Seq<char> {
        self.s@
    }
}

impl<const N: usize> HeaplessString<N> {
    #[verifier::type_invariant]
    spec fn within_capacity(&self) -> bool {
        byte_len(self.s@) <= N
    }

    /// The empty string.
    pub fn new() -> (r: Self)
        ensures
            r@ == Seq::<char>::empty(),
    {
        HeaplessString { s: String::new() }
    }

    /// Appends `s`. Text longer than the capacity is refused; text that only
    /// overflows what is left is dropped, leaving the string as it was.
    pub fn push_str(&mut self, s: &str) -> (r: Result<(), TooLong>)
        ensures
            byte_len(s@) > N ==> r == Err::<(), TooLong>(TooLong) && final(self)@ == old(self)@,
            byte_len(s@) <= N ==> r == Ok::<(), TooLong>(()),
            byte_len(s@) <= N && byte_len(old(self)@) + byte_len(s@) <= N ==> final(self)@ == old(
                self,
            )@ + s@,
            byte_len(s@) <= N && byte_len(old(self)@) + byte_len(s@) > N ==> final(self)@ == old(
                self,
            )@,
    {
        proof {
            use_type_invariant(&*self);
        }
        let add = s.as_bytes().len();
        if add > N {
            return Err(TooLong);
        }
        let cur = self.s.as_str().as_bytes().len();
        if add <= N - cur {
            let mut grown = self.s.clone();
            grown.append(s);
            proof {
                lemma_encode_concat(self.s@, s@);
            }
            *self = HeaplessString { s: grown };
        }
        Ok(())
    }

    /// A string holding `s`, refused when `s` exceeds the capacity.
    pub fn from_text(s: &str) -> (r: Result<Self, TooLong>)
        ensures
            byte_len(s@) > N ==> r is Err,
            byte_len(s@) <= N ==> r is Ok && r.unwrap()@ == s@,
    {
        let mut h = HeaplessString::new();
        match h.push_str(s) {
            Ok(()) => {
                proof {
                    assert(Seq::<char>::empty() + s@ =~= s@);
                    lemma_encode_len(Seq::<char>::empty());
                }
                Ok(h)
            },
            Err(e) => Err(e),
        }
    }

    /// The text.
    pub fn as_str(&self) -> (r: &str)
        ensures
            r@ == self@,
    {
        self.s.as_str()
    }

    /// Whether the string is empty.
    pub fn is_empty(&self) -> (r: bool)
        ensures
            r == (self@.len() == 0),
    {
        self.s.as_str().is_empty()
    }

    /// The UTF-8 bytes of the text.
    pub fn as_bytes(&self) -> (r: &[u8])
        ensures
            r@ == encode_utf8(self@),
    {
        self.s.as_str().as_bytes()
    }

    /// The string with every character removed that is neither printable
    /// ASCII nor ASCII whitespace.
    pub fn clean_string(&self) -> (r: HeaplessString<N>)
        ensures
            r@ == clean(self@),
    {
        proof {
            use_type_invariant(self);
        }
        let text = self.s.as_str();
        let n = text.unicode_len();
        let mut out = String::new();
        let mut i: usize = 0;
        while i < n
            invariant
                n == text@.len(),
                text@ == self@,
                i <= n,
                out@ == clean(text@.take(i as int)),
            decreases n - i,
        {
            let c = text.get_char(i);
            proof {
                assert(text@.take(i + 1).drop_last() =~= text@.take(i as int));
                assert(text@.take(i + 1).last() == c);
            }
            if ('!' <= c && c <= '~') || c == ' ' || c == '\t' || c == '\n' || c == '\x0C' || c == '\r' {
                let one = text.substring_char(i, i + 1);
                proof {
                    assert(one@ =~= seq![c]);
                }
                out.append(one);
                proof {
                    assert(out@ =~= clean(text@.take(i as int)).push(c));
                }
            }
            i = i + 1;
        }
        proof {
            assert(text@.take(n as int) =~= text@);
            lemma_clean_ascii(text@);
            is_ascii_chars_encode_utf8(clean(text@));
            lemma_encode_len(text@);
        }
        HeaplessString { s: out }
    }
}

} // verus!
