//! A 32-bit register cell and the readers of its word and fields.
use crate::field::{extract, extract_bit, extract_spec, insert, insert_spec, valid_field};
use vstd::prelude::*;

verus! {

/// One register: a 32-bit word at a fixed address. Whole-word reads and writes
/// are single accesses; `modify` and `write_field` are a read followed by a
/// write, and need a critical section where another context touches the same word.
pub struct RegisterCell {
    address: usize,
    word: u32,
}

impl RegisterCell {
    /// The address the register lives at.
    pub closed spec fn address_spec(&self) -> usize {
        self.address
    }

    /// The word the register currently holds.
    pub closed spec fn view(&self) -> u32 {
        self.word
    }

    /// A register at `address` whose word is `reset` (its value after reset).
    pub fn new(address: usize, reset: u32) -> (r: RegisterCell)
        ensures
            r.address_spec() == address,
            r@ == reset,
    {
        RegisterCell { address, word: reset }
    }

    pub fn address(&self) -> (r: usize)
        ensures
            r == self.address_spec(),
    {
        self.address
    }

    /// Loads the whole word.
    pub fn read(&self) -> (r: u32)
        ensures
            r == self@,
    {
        self.word
    }

    /// Stores the whole word.
    pub fn write(&mut self, word: u32)
        ensures
            final(self)@ == word,
            final(self).address_spec() == old(self).address_spec(),
    {
        self.word = word;
    }

    /// Reads the word, hands it to `transform`, and stores what comes back.
    pub fn modify<F: FnOnce(u32) -> u32>(&mut self, transform: F)
        requires
            transform.requires((old(self)@,)),
        ensures
            transform.ensures((old(self)@,), final(self)@),
            final(self).address_spec() == old(self).address_spec(),
    {
        let w = self.read();
        let n = transform(w);
        self.write(n);
    }

    /// A reader over the word as it is now.
    pub fn reader(&self) -> (r: R)
        ensures
            r.bits_spec() == self@,
    {
        R::new(self.read())
    }

    /// Reads the field of `width` bits at `offset`.
    pub fn read_field(&self, offset: u32, width: u32) -> (r: u32)
        requires
            valid_field(offset, width),
        ensures
            r == extract_spec(self@, offset, width),
    {
        extract(self.read(), offset, width)
    }

    /// Writes `value` into the field of `width` bits at `offset`, truncated to
    /// that width, and keeps every other bit of the word.
    pub fn write_field(&mut self, offset: u32, width: u32, value: u32)
        requires
            valid_field(offset, width),
        ensures
            final(self)@ == insert_spec(old(self)@, value, offset, width),
            final(self).address_spec() == old(self).address_spec(),
    {
        let w = self.read();
        self.write(insert(w, value, offset, width));
    }
}

/// A captured register word, from which fields are read.
pub struct R {
    bits: u32,
}

impl R {
    /// The captured word.
    pub closed spec fn bits_spec(&self) -> u32 {
        self.bits
    }

    pub fn new(bits: u32) -> (r: R)
        ensures
            r.bits_spec() == bits,
    {
        R { bits }
    }

    /// The whole captured word.
    pub fn bits(&self) -> (r: u32)
        ensures
            r == self.bits_spec(),
    {
        self.bits
    }

    /// The field of `width` bits at `offset` of the captured word.
    pub fn field(&self, offset: u32, width: u32) -> (r: FieldReader)
        requires
            valid_field(offset, width),
        ensures
            r.bits_spec() == extract_spec(self.bits_spec(), offset, width),
    {
        FieldReader::new(extract(self.bits, offset, width))
    }

    /// The one-bit field at `offset` of the captured word, as a flag.
    pub fn bit(&self, offset: u32) -> (r: bool)
        requires
            offset < 32,
        ensures
            r == (extract_spec(self.bits_spec(), offset, 1) == 1),
    {
        extract_bit(self.bits, offset)
    }
}

/// The value of one field, read out of a captured word.
pub struct FieldReader {
    bits: u32,
}

impl FieldReader {
    /// The field's value.
    pub closed spec fn bits_spec(&self) -> u32 {
        self.bits
    }

    pub fn new(bits: u32) -> (r: FieldReader)
        ensures
            r.bits_spec() == bits,
    {
        FieldReader { bits }
    }

    /// The field's value.
    pub fn bits(&self) -> (r: u32)
        ensures
            r == self.bits_spec(),
    {
        self.bits
    }
}

} // verus!
