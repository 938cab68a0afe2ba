use byteorder::{BigEndian, ByteOrder};
use vstd::prelude::*;
use vstd::string::StringExecFns;

use super::{CodeGen, Instruction};
use crate::error::{BinaryError, BinaryErrorType};

verus! {

/// The most bytes that a binary holds. Its length is counted in sixteen bits,
/// and the zero byte that flushing may append must still be counted.
pub const CAPACITY: u16 = 0xFFFE;

/// The two bytes of a word, most significant first.
pub open spec fn word_bytes(w: u16) -> Seq<u8> {
    seq![(w / 0x100) as u8, (w % 0x100) as u8]
}

/// An image brought to an even length: one zero byte is appended to an image
/// of odd length.
pub open spec fn padded(d: Seq<u8>) -> Seq<u8> {
    if d.len() % 2 == 1 {
        d.push(0)
    } else {
        d
    }
}

/// Relies on byteorder's `BigEndian::write_u16`, which stores a word in the
/// first two bytes of a buffer, most significant byte first.
#[verifier::external_body]
fn big_endian_bytes(w: u16) -> (r: [u8; 2])
    ensures
        r@ == word_bytes(w),
{
    let mut buf = [0u8; 2];
    BigEndian::write_u16(&mut buf, w);
    buf
}

/// A CHIP-8 binary image being assembled: the bytes added so far, in the
/// order they were added, and the name of the destination they are flushed
/// to.
#[derive(Debug)]
pub struct Binary {
    /// The bytes of the image
    data: Vec<u8>,
    /// The name of the destination
    name: String,
    /// The number of bytes in the image
    length: u16,
}

impl View for Binary {
    type V = Seq<u8>;

    /// The bytes of the image.
    closed spec fn view(&self) -> Seq<u8> {
        self.data@
    }
}

impl Binary {
    /// The length counter matches the bytes held, which are within capacity.
    pub closed spec fn wf(self) -> bool {
        self.length == self.data.len() && self.length <= CAPACITY
    }

    /// The name of the destination.
    pub closed spec fn name(self) -> Seq<char> {
        self.name@
    }

    /// Constructs an empty binary for the named destination, which must not
    /// exist yet: `destination_exists` tells whether it does, and then the
    /// binary is refused with `FileExists`. Nothing is written either way.
    pub fn new(new_name: &str, destination_exists: bool) -> (r: Result<Binary, BinaryError>)
        ensures
            match r {
                Ok(b) => !destination_exists && b.wf() && b@ == Seq::<u8>::empty() && b.name() == new_name@,
                Err(e) => destination_exists && e.kind() == BinaryErrorType::FileExists && e.name()
                    == new_name@,
            },
    {
        if destination_exists {
            Err(BinaryError::new(BinaryErrorType::FileExists, new_name))
        } else {
            Ok(Binary { data: Vec::new(), name: String::from_str(new_name), length: 0 })
        }
    }

    /// Gets the length of the binary, in bytes.
    pub fn len(&self) -> (r: u16)
        requires
            self.wf(),
        ensures
            r == self@.len(),
    {
        self.length
    }

    /// Gets the name of the destination.
    pub fn get_name(&self) -> (r: &str)
        ensures
            r@ == self.name(),
    {
        self.name.as_str()
    }

    /// Gets the bytes of the image.
    pub fn as_bytes(&self) -> (r: &[u8])
        ensures
            r@ == self@,
    {
        self.data.as_slice()
    }

    /// Adds the opcode of an instruction to the binary, most significant byte
    /// first; fails with `DataError`, adding nothing, when the binary has no
    /// room for two more bytes.
    pub fn add_instruction(&mut self, instr: &Instruction) -> (r: Result<(), BinaryError>)
        requires
            old(self).wf(),
        ensures
            final(self).wf(),
            final(self).name() == old(self).name(),
            match r {
                Ok(_) => old(self)@.len() + 2 <= CAPACITY && final(self)@ == old(self)@ + word_bytes(
                    instr.opcode(),
                ),
                Err(e) => old(self)@.len() + 2 > CAPACITY && final(self)@ == old(self)@ && e.kind()
                    == BinaryErrorType::DataError && e.name() == old(self).name(),
            },
    {
        let word = instr.gen_opcode();
        self.add_word(word)
    }

    /// Adds a 16-bit word to the binary, most significant byte first; fails
    /// with `DataError`, adding nothing, when the binary has no room for two
    /// more bytes.
    pub fn add_word(&mut self, word: u16) -> (r: Result<(), BinaryError>)
        requires
            old(self).wf(),
        ensures
            final(self).wf(),
            final(self).name() == old(self).name(),
            match r {
                Ok(_) => old(self)@.len() + 2 <= CAPACITY && final(self)@ == old(self)@ + word_bytes(
                    word,
                ),
                Err(e) => old(self)@.len() + 2 > CAPACITY && final(self)@ == old(self)@ && e.kind()
                    == BinaryErrorType::DataError && e.name() == old(self).name(),
            },
    {
        if self.length > CAPACITY - 2 {
            return Err(BinaryError::new(BinaryErrorType::DataError, self.name.as_str()));
        }
        let bytes = big_endian_bytes(word);
        self.data.push(bytes[0]);
        self.data.push(bytes[1]);
        self.length = self.length + 2;
        assert(self.data@ =~= old(self).data@ + word_bytes(word));
        Ok(())
    }

    /// Adds a byte to the binary; fails with `DataError`, adding nothing, when
    /// the binary is full.
    pub fn add_byte(&mut self, byte: u8) -> (r: Result<(), BinaryError>)
        requires
            old(self).wf(),
        ensures
            final(self).wf(),
            final(self).name() == old(self).name(),
            match r {
                Ok(_) => old(self)@.len() + 1 <= CAPACITY && final(self)@ == old(self)@.push(byte),
                Err(e) => old(self)@.len() + 1 > CAPACITY && final(self)@ == old(self)@ && e.kind()
                    == BinaryErrorType::DataError && e.name() == old(self).name(),
            },
    {
        if self.length > CAPACITY - 1 {
            return Err(BinaryError::new(BinaryErrorType::DataError, self.name.as_str()));
        }
        self.data.push(byte);
        self.length = self.length + 1;
        Ok(())
    }

    /// Brings the image to an even length before it is flushed: when its
    /// length is odd, one zero byte is appended.
    pub fn pad_to_even(&mut self)
        requires
            old(self).wf(),
        ensures
            final(self).wf(),
            final(self).name() == old(self).name(),
            final(self)@ == padded(old(self)@),
            final(self)@.len() % 2 == 0,
    {
        if self.length % 2 != 0 {
            self.data.push(0);
            self.length = self.length + 1;
        }
    }

    /// The result of flushing the image: the number of bytes in the image when
    /// the destination received all of them, and `FileError` otherwise.
    pub fn write_outcome(&self, written: bool) -> (r: Result<usize, BinaryError>)
        requires
            self.wf(),
        ensures
            match r {
                Ok(n) => written && n == self@.len(),
                Err(e) => !written && e.kind() == BinaryErrorType::FileError && e.name()
                    == self.name(),
            },
    {
        if written {
            Ok(self.length as usize)
        } else {
            Err(BinaryError::new(BinaryErrorType::FileError, self.name.as_str()))
        }
    }
}

/// Adding instructions one after another to an empty binary, each addition
/// appending the instruction's two opcode bytes, builds the concatenation of
/// the opcodes in the order they were added, each most significant byte
/// first. The image has an even length, so flushing pads nothing and reports
/// two bytes per instruction.
pub proof fn lemma_instructions_image(instrs: Seq<Instruction>, images: Seq<Seq<u8>>)
    requires
        images.len() == instrs.len() + 1,
        images[0] == Seq::<u8>::empty(),
        forall|k: int|
            0 <= k < instrs.len() ==> #[trigger] images[k + 1] == images[k] + word_bytes(
                instrs[k].opcode(),
            ),
    ensures
        images.last().len() == 2 * instrs.len(),
        padded(images.last()) == images.last(),
        forall|k: int|
            0 <= k < instrs.len() ==> #[trigger] images.last().subrange(2 * k, 2 * k + 2)
                == word_bytes(instrs[k].opcode()),
    decreases instrs.len(),
{
    if instrs.len() > 0 {
        let n = instrs.len() - 1;
        let front = instrs.take(n);
        let front_images = images.take(n + 1);
        assert forall|k: int| 0 <= k < front.len() implies #[trigger] front_images[k + 1]
            == front_images[k] + word_bytes(front[k].opcode()) by {
            assert(images[k + 1] == images[k] + word_bytes(instrs[k].opcode()));
        }
        lemma_instructions_image(front, front_images);
        let prev = images[n];
        assert(images[n + 1] == prev + word_bytes(instrs[n].opcode()));
        assert(images.last() == images[n + 1]);
        assert forall|k: int| 0 <= k < instrs.len() implies #[trigger] images.last().subrange(
            2 * k,
            2 * k + 2,
        ) == word_bytes(instrs[k].opcode()) by {
            if k < n {
                assert(front_images.last() == prev);
                assert(prev.subrange(2 * k, 2 * k + 2) == word_bytes(front[k].opcode()));
                assert(images.last().subrange(2 * k, 2 * k + 2) =~= prev.subrange(2 * k, 2 * k + 2));
            } else {
                assert(images.last().subrange(2 * k, 2 * k + 2) =~= word_bytes(instrs[k].opcode()));
            }
        }
    }
}

} // verus!
