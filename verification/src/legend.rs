//! Whether a series has a name to show. The name is written into a sink
//! that only counts, and the series has a name where anything was counted.

use vstd::prelude::*;
use vstd::slice::spec_slice_len;
use vstd::string::StringSliceAdditionalSpecFns;
use vstd::utf8::encode_utf8;

verus! {

/// A sink that counts the bytes written to it.
pub struct WriteCounter {
    counter: usize,
}

impl WriteCounter {
    /// How many bytes were written.
    pub closed spec fn count(self) -> nat {
        self.counter as nat
    }

    /// A sink to which nothing was written yet.
    pub fn new() -> (c: WriteCounter)
        ensures
            c.count() == 0,
    {
        WriteCounter { counter: 0 }
    }

    /// How many bytes were written.
    pub fn get_counter(&self) -> (n: usize)
        ensures
            n == self.count(),
    {
        self.counter
    }

    /// Counts the bytes of `s`.
    pub fn write_str(&mut self, s: &str)
        requires
            old(self).count() + s.spec_bytes().len() <= usize::MAX,
        ensures
            final(self).count() == old(self).count() + s.spec_bytes().len(),
    {
        self.counter = self.counter + s.len();
    }
}

/// A text takes up bytes exactly where it holds a character.
pub proof fn lemma_bytes_of_text(chars: Seq<char>)
    ensures
        encode_utf8(chars).len() > 0 <==> chars.len() > 0,
{
    if chars.len() > 0 {
        assert(encode_utf8(chars).len() >= 1);
    }
}

/// Whether the name of a series shows: whether writing it writes anything.
pub fn has_visible_name(name: &str) -> (r: bool)
    ensures
        r == (name@.len() > 0),
{
    let mut sink = WriteCounter::new();
    let _bytes = name.as_bytes();
    proof {
        // the length of a slice is a number of the machine
        assert(spec_slice_len(_bytes) == name.spec_bytes().len());
        lemma_bytes_of_text(name@);
    }
    sink.write_str(name);
    sink.get_counter() > 0
}

} // verus!
