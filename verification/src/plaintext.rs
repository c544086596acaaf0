//! An owned, already-decrypted secret value.
//!
//! The surrounding secret store hands this subsystem a plain decrypted byte
//! buffer and nothing more; this type carries it, and offers the small
//! amount of line-level trimming the delivery paths need.

use vstd::prelude::*;

verus! {

/// First index of a line-feed byte in `s`, or `s.len()` if there is none.
pub open spec fn spec_line_end(s: Seq<u8>) -> int
    decreases s.len(),
{
    if s.len() == 0 {
        0
    } else if s[0] == 10 {
        0
    } else {
        1 + spec_line_end(s.skip(1))
    }
}

proof fn lemma_line_end(s: Seq<u8>)
    ensures
        0 <= spec_line_end(s) <= s.len(),
        forall|m: int| 0 <= m < spec_line_end(s) ==> s[m] != 10,
        spec_line_end(s) < s.len() ==> s[spec_line_end(s)] == 10,
    decreases s.len(),
{
    if s.len() == 0 || s[0] == 10 {
    } else {
        lemma_line_end(s.skip(1));
        assert forall|m: int| 0 <= m < spec_line_end(s) implies s[m] != 10 by {
            if m > 0 {
                assert(s.skip(1)[m - 1] == s[m]);
            }
        }
        if spec_line_end(s) < s.len() {
            assert(s.skip(1)[spec_line_end(s) - 1] == s[spec_line_end(s)]);
        }
    }
}

/// A decrypted plaintext secret: an opaque byte buffer, never logged.
pub struct Plaintext {
    bytes: Vec<u8>,
}

impl View for Plaintext {
    type V = Seq<u8>;

    closed spec fn view(&self) -> Seq<u8> {
        self.bytes@
    }
}

impl Plaintext {
    /// Wrap an already-decrypted byte buffer.
    pub fn from_bytes(bytes: Vec<u8>) -> (r: Plaintext)
        ensures
            r@ == bytes@,
    {
        Plaintext { bytes }
    }

    /// Whether the secret holds no bytes at all.
    pub fn is_empty(&self) -> (r: bool)
        ensures
            r == (self@.len() == 0),
    {
        self.bytes.len() == 0
    }

    /// Borrow the raw secret bytes.
    pub fn unsecure_ref(&self) -> (r: &[u8])
        ensures
            r@ == self@,
    {
        self.bytes.as_slice()
    }

    /// The secret up to, and not including, its first line feed.
    pub fn first_line(&self) -> (r: Plaintext)
        ensures
            r@ == self@.take(spec_line_end(self@)),
    {
        proof {
            lemma_line_end(self@);
        }
        let mut out: Vec<u8> = Vec::new();
        let mut i: usize = 0;
        while i < self.bytes.len() && self.bytes[i] != 10
            invariant
                i <= self.bytes@.len(),
                forall|m: int| 0 <= m < i ==> self.bytes@[m] != 10,
                out@ == self.bytes@.take(i as int),
            decreases self.bytes@.len() - i,
        {
            let b = self.bytes[i];
            out.push(b);
            proof {
                assert(self.bytes@.take(i + 1) =~= self.bytes@.take(i as int).push(
                    self.bytes@[i as int],
                ));
            }
            i = i + 1;
        }
        proof {
            lemma_line_end_is(self@, i as int);
        }
        Plaintext { bytes: out }
    }

    /// The secret after its first line feed; empty if there is none.
    pub fn except_first_line(&self) -> (r: Plaintext)
        ensures
            r@ == self@.skip(
                if spec_line_end(self@) < self@.len() {
                    spec_line_end(self@) + 1
                } else {
                    self@.len() as int
                },
            ),
    {
        proof {
            lemma_line_end(self@);
        }
        let mut i: usize = 0;
        while i < self.bytes.len() && self.bytes[i] != 10
            invariant
                i <= self.bytes@.len(),
                forall|m: int| 0 <= m < i ==> self.bytes@[m] != 10,
            decreases self.bytes@.len() - i,
        {
            i = i + 1;
        }
        proof {
            lemma_line_end_is(self@, i as int);
        }
        let start = if i < self.bytes.len() {
            i + 1
        } else {
            i
        };
        let mut out: Vec<u8> = Vec::new();
        let mut k: usize = start;
        while k < self.bytes.len()
            invariant
                start <= k <= self.bytes@.len(),
                out@ == self.bytes@.subrange(start as int, k as int),
            decreases self.bytes@.len() - k,
        {
            let b = self.bytes[k];
            out.push(b);
            proof {
                assert(self.bytes@.subrange(start as int, k + 1) =~= self.bytes@.subrange(
                    start as int,
                    k as int,
                ).push(self.bytes@[k as int]));
            }
            k = k + 1;
        }
        proof {
            assert(out@ =~= self@.skip(start as int));
        }
        Plaintext { bytes: out }
    }

    /// Append another secret, with a separating line feed if asked for.
    pub fn append(&mut self, other: &Plaintext, newline: bool)
        ensures
            newline ==> final(self)@ == old(self)@ + seq![10u8] + other@,
            !newline ==> final(self)@ == old(self)@ + other@,
    {
        if newline {
            self.bytes.push(10);
        }
        let mut k: usize = 0;
        let ghost base = self.bytes@;
        while k < other.bytes.len()
            invariant
                k <= other.bytes@.len(),
                self.bytes@ == base + other.bytes@.take(k as int),
            decreases other.bytes@.len() - k,
        {
            let b = other.bytes[k];
            self.bytes.push(b);
            proof {
                assert(base + other.bytes@.take(k + 1) =~= (base + other.bytes@.take(
                    k as int,
                )).push(other.bytes@[k as int]));
            }
            k = k + 1;
        }
        proof {
            assert(other.bytes@.take(other.bytes@.len() as int) =~= other.bytes@);
            if newline {
                assert(old(self)@ + seq![10u8] + other@ =~= base + other.bytes@);
            } else {
                assert(old(self)@ + other@ =~= base + other.bytes@);
            }
        }
    }
}

/// `spec_line_end` is the unique cut characterized by "no line feed
/// before, line feed (or end) at".
proof fn lemma_line_end_is(s: Seq<u8>, k: int)
    requires
        0 <= k <= s.len(),
        forall|m: int| 0 <= m < k ==> s[m] != 10,
        k < s.len() ==> s[k] == 10,
    ensures
        spec_line_end(s) == k,
    decreases s.len(),
{
    if k == 0 {
    } else {
        lemma_line_end_is(s.skip(1), k - 1);
    }
}

} // verus!
