//! The text store: the bytes of one buffer, edited by replacing a range.

use vstd::prelude::*;

verus! {

/// What `text` becomes when the bytes in `start..end` give way to `insert`.
pub open spec fn splice(text: Seq<u8>, start: int, end: int, insert: Seq<u8>) -> Seq<u8>
    recommends
        0 <= start <= end <= text.len(),
{
    text.subrange(0, start) + insert + text.subrange(end, text.len() as int)
}

/// Why a replacement was refused.
#[derive(Clone, Copy, Debug, PartialEq, Eq, Structural)]
pub enum SpliceError {
    /// The range does not lie within the text, or it ends before it starts.
    OutOfRange,
    /// The text after the replacement would be longer than a length can say.
    TooLong,
}

/// The editable text of a buffer.
#[derive(Debug, PartialEq, Eq)]
pub struct TextStore {
    bytes: Vec<u8>,
}

impl View for TextStore {
    type V = Seq<u8>;

    closed spec fn view(&self) -> Seq<u8> {
        self.bytes@
    }
}

impl TextStore {
    /// The empty text.
    pub fn new() -> (store: TextStore)
        ensures
            store@ == Seq::<u8>::empty(),
    {
        TextStore { bytes: Vec::new() }
    }

    /// The text made of `bytes`.
    pub fn from_bytes(bytes: Vec<u8>) -> (store: TextStore)
        ensures
            store@ == bytes@,
    {
        TextStore { bytes }
    }

    pub fn len(&self) -> (n: usize)
        ensures
            n == self@.len(),
    {
        self.bytes.len()
    }

    pub fn is_empty(&self) -> (empty: bool)
        ensures
            empty == (self@.len() == 0),
    {
        self.bytes.len() == 0
    }

    /// The byte at `index`, if the text is that long.
    pub fn byte_at(&self, index: usize) -> (byte: Option<u8>)
        ensures
            byte == if index < self@.len() {
                Some(self@[index as int])
            } else {
                None
            },
    {
        if index < self.bytes.len() {
            Some(self.bytes[index])
        } else {
            None
        }
    }

    /// A copy of the whole text.
    pub fn to_bytes(&self) -> (bytes: Vec<u8>)
        ensures
            bytes@ == self@,
    {
        let mut out: Vec<u8> = Vec::new();
        let mut i: usize = 0;
        while i < self.bytes.len()
            invariant
                i <= self.bytes.len(),
                out@ == self.bytes@.subrange(0, i as int),
            decreases self.bytes.len() - i,
        {
            out.push(self.bytes[i]);
            i += 1;
            assert(out@ =~= self.bytes@.subrange(0, i as int));
        }
        assert(self.bytes@.subrange(0, i as int) =~= self.bytes@);
        out
    }

    /// An independent store with the same text.
    pub fn snapshot(&self) -> (copy: TextStore)
        ensures
            copy@ == self@,
    {
        TextStore { bytes: self.to_bytes() }
    }

    /// Replaces the whole text.
    pub fn set(&mut self, bytes: Vec<u8>)
        ensures
            final(self)@ == bytes@,
    {
        self.bytes = bytes;
    }

    /// Replaces the bytes in `start..end` by `insert`. A range outside the
    /// text, or a result too long to hold, is refused and the text is left
    /// as it was.
    pub fn replace(&mut self, start: usize, end: usize, insert: &[u8]) -> (done: Result<
        (),
        SpliceError,
    >)
        ensures
            done == splice_outcome(old(self)@, start, end, insert@),
            done is Ok ==> final(self)@ == splice(
                old(self)@,
                start as int,
                end as int,
                insert@,
            ),
            done is Err ==> final(self)@ == old(self)@,
    {
        let len = self.bytes.len();
        if start > end || end > len {
            return Err(SpliceError::OutOfRange);
        }
        let kept: usize = len - (end - start);
        if insert.len() > usize::MAX - kept {
            return Err(SpliceError::TooLong);
        }
        let mut out: Vec<u8> = Vec::new();
        let mut i: usize = 0;
        while i < start
            invariant
                i <= start <= end <= len,
                len == self.bytes@.len(),
                out@ == self.bytes@.subrange(0, i as int),
            decreases start - i,
        {
            out.push(self.bytes[i]);
            i += 1;
            assert(out@ =~= self.bytes@.subrange(0, i as int));
        }
        let mut j: usize = 0;
        while j < insert.len()
            invariant
                j <= insert@.len(),
                start <= end <= len,
                len == self.bytes@.len(),
                out@ == self.bytes@.subrange(0, start as int) + insert@.subrange(0, j as int),
            decreases insert.len() - j,
        {
            out.push(insert[j]);
            j += 1;
            assert(out@ =~= self.bytes@.subrange(0, start as int) + insert@.subrange(
                0,
                j as int,
            ));
        }
        assert(insert@.subrange(0, j as int) =~= insert@);
        let mut k: usize = end;
        while k < len
            invariant
                start <= end <= k <= len,
                len == self.bytes@.len(),
                out@ == self.bytes@.subrange(0, start as int) + insert@ + self.bytes@.subrange(
                    end as int,
                    k as int,
                ),
            decreases len - k,
        {
            out.push(self.bytes[k]);
            k += 1;
            assert(out@ =~= self.bytes@.subrange(0, start as int) + insert@
                + self.bytes@.subrange(end as int, k as int));
        }
        self.bytes = out;
        Ok(())
    }
}

/// Whether a replacement is carried out, and if not, why.
pub open spec fn splice_outcome(text: Seq<u8>, start: usize, end: usize, insert: Seq<u8>) -> Result<
    (),
    SpliceError,
> {
    if start > end || end > text.len() {
        Err(SpliceError::OutOfRange)
    } else if text.len() - (end - start) + insert.len() > usize::MAX {
        Err(SpliceError::TooLong)
    } else {
        Ok(())
    }
}

} // verus!
