use vstd::prelude::*;
use vstd::string::*;
use crate::text::{parse_hex_byte, parse_hex_byte_text};

verus! {

/// The label a buffer carries while no file is loaded.
pub open spec fn no_file_label() -> Seq<char> {
    "no file loaded"@
}

/// Why a read or an edit of the buffer did not happen.
#[derive(Clone, Copy, Debug, PartialEq, Eq, Structural)]
pub enum BufferError {
    /// The index is not below the buffer's length.
    IndexOutOfRange,
    /// The edit text is not a base-16 number in `[0, 255]`.
    InvalidByteLiteral,
}

/// The loaded file: its bytes, indexed from zero, and its display name.
pub struct ByteBuffer {
    bytes: Vec<u8>,
    name: String,
}

impl View for ByteBuffer {
    type V = Seq<u8>;

    closed spec fn view(&self) -> Seq<u8> {
        self.bytes@
    }
}

impl ByteBuffer {
    /// The buffer's display name.
    pub closed spec fn label(&self) -> Seq<char> {
        self.name@
    }

    fn unloaded_name() -> (r: String)
        ensures
            r@ == no_file_label(),
    {
        proof {
            reveal_strlit("no file loaded");
        }
        String::from_str("no file loaded")
    }

    /// An empty buffer with no file loaded.
    pub fn new() -> (r: ByteBuffer)
        ensures
            r@ == Seq::<u8>::empty(),
            r.label() == no_file_label(),
    {
        ByteBuffer { bytes: Vec::new(), name: Self::unloaded_name() }
    }

    /// Replaces the contents and the name wholesale.
    pub fn load(&mut self, bytes: Vec<u8>, name: String)
        ensures
            final(self)@ == bytes@,
            final(self).label() == name@,
    {
        self.bytes = bytes;
        self.name = name;
    }

    /// Empties the buffer and puts the unloaded name back.
    pub fn clear(&mut self)
        ensures
            final(self)@ == Seq::<u8>::empty(),
            final(self).label() == no_file_label(),
    {
        self.bytes = Vec::new();
        self.name = Self::unloaded_name();
    }

    pub fn len(&self) -> (r: usize)
        ensures
            r == self@.len(),
    {
        self.bytes.len()
    }

    pub fn is_empty(&self) -> (r: bool)
        ensures
            r <==> self@.len() == 0,
    {
        self.bytes.len() == 0
    }

    /// The display name.
    pub fn name(&self) -> (r: &String)
        ensures
            r@ == self.label(),
    {
        &self.name
    }

    /// Read access to all the bytes.
    pub fn bytes(&self) -> (r: &Vec<u8>)
        ensures
            r@ == self@,
    {
        &self.bytes
    }

    /// The byte at `index`.
    pub fn get(&self, index: usize) -> (r: Result<u8, BufferError>)
        ensures
            index < self@.len() ==> r == Ok::<u8, BufferError>(self@[index as int]),
            index >= self@.len() ==> r == Err::<u8, BufferError>(BufferError::IndexOutOfRange),
    {
        if index < self.bytes.len() {
            Ok(self.bytes[index])
        } else {
            Err(BufferError::IndexOutOfRange)
        }
    }

    /// Writes the byte that `hex_text` denotes at `index`. A malformed text or
    /// an index out of range leaves the buffer as it was.
    pub fn set(&mut self, index: usize, hex_text: &str) -> (r: Result<(), BufferError>)
        ensures
            final(self).label() == old(self).label(),
            index >= old(self)@.len() ==> r == Err::<(), BufferError>(BufferError::IndexOutOfRange)
                && final(self)@ == old(self)@,
            index < old(self)@.len() && parse_hex_byte(hex_text@) is None ==> r == Err::<
                (),
                BufferError,
            >(BufferError::InvalidByteLiteral) && final(self)@ == old(self)@,
            index < old(self)@.len() && parse_hex_byte(hex_text@) is Some ==> r == Ok::<
                (),
                BufferError,
            >(()) && final(self)@ == old(self)@.update(
                index as int,
                parse_hex_byte(hex_text@)->Some_0,
            ),
    {
        if index >= self.bytes.len() {
            return Err(BufferError::IndexOutOfRange);
        }
        match parse_hex_byte_text(hex_text) {
            None => Err(BufferError::InvalidByteLiteral),
            Some(b) => {
                self.bytes.set(index, b);
                Ok(())
            },
        }
    }

    /// A copy of the bytes and the name, for saving; the buffer is not changed.
    pub fn export(&self) -> (r: (Vec<u8>, String))
        ensures
            (r.0@, r.1@) == export_view(*self),
    {
        let bytes = self.bytes.clone();
        assert(bytes@ =~= self.bytes@);
        (bytes, self.name.clone())
    }
}

/// What an export hands out: the bytes and the name.
pub open spec fn export_view(b: ByteBuffer) -> (Seq<u8>, Seq<char>) {
    (b@, b.label())
}

} // verus!
