use vstd::prelude::*;
use vstd::slice::{slice_subrange, slice_to_vec};
use crate::error::Error;

verus! {

/// Length of the identifier, newline included.
pub const ID_LEN: usize = 13;

/// The identifier: the digits `123456789012` and a newline.
pub open spec fn assigned_id() -> Seq<u8> {
    seq![49u8, 50u8, 51u8, 52u8, 53u8, 54u8, 55u8, 56u8, 57u8, 48u8, 49u8, 50u8, 10u8]
}

/// The bytes that a read at `offset` hands out: the identifier from
/// `min(offset, 13)` on.
pub open spec fn read_window(offset: u64) -> Seq<u8> {
    let start = if offset < ID_LEN { offset as int } else { ID_LEN as int };
    assigned_id().subrange(start, ID_LEN as int)
}

/// What a write of the 13 bytes `b` returns.
pub open spec fn write_outcome(b: Seq<u8>) -> Result<usize, Error> {
    if b == assigned_id() {
        Ok(ID_LEN)
    } else {
        Err(Error::InvalidArgument)
    }
}

/// The identifier as a vector.
fn assigned_id_bytes() -> (r: Vec<u8>)
    ensures
        r@ == assigned_id(),
{
    let r = vec![49u8, 50u8, 51u8, 52u8, 53u8, 54u8, 55u8, 56u8, 57u8, 48u8, 49u8, 50u8, 10u8];
    assert(r@ =~= assigned_id());
    r
}

/// The caller's destination buffer of a read: the bytes copied into it so far
/// and the room left in it.
pub struct UserWriter {
    written: Vec<u8>,
    room: usize,
}

impl UserWriter {
    /// The bytes copied in so far.
    pub closed spec fn bytes(&self) -> Seq<u8> {
        self.written@
    }

    /// How many more bytes the buffer can take.
    pub closed spec fn room(&self) -> nat {
        self.room as nat
    }

    /// An empty buffer with room for `room` bytes.
    pub fn new(room: usize) -> (r: UserWriter)
        ensures
            r.bytes() == Seq::<u8>::empty(),
            r.room() == room,
    {
        UserWriter { written: Vec::new(), room }
    }

    /// Copies all of `data` into the buffer, or fails with `BadAddress` and
    /// copies nothing where the buffer has not the room.
    pub fn write_slice(&mut self, data: &[u8]) -> (r: Result<(), Error>)
        ensures
            data@.len() <= old(self).room() ==> r == Ok::<(), Error>(()) && final(self).bytes()
                == old(self).bytes() + data@ && final(self).room() == old(self).room()
                - data@.len(),
            data@.len() > old(self).room() ==> r == Err::<(), Error>(Error::BadAddress)
                && final(self).bytes() == old(self).bytes() && final(self).room() == old(
                self,
            ).room(),
    {
        if data.len() > self.room {
            return Err(Error::BadAddress);
        }
        let ghost start = self.written@;
        let mut i: usize = 0;
        while i < data.len()
            invariant
                i <= data@.len(),
                self.written@ == start + data@.subrange(0, i as int),
                self.room == old(self).room,
            decreases data@.len() - i,
        {
            self.written.push(data[i]);
            i = i + 1;
            assert(self.written@ =~= start + data@.subrange(0, i as int));
        }
        assert(data@.subrange(0, data@.len() as int) =~= data@);
        self.room = self.room - data.len();
        Ok(())
    }

    /// The bytes copied in so far.
    pub fn data(&self) -> (r: Vec<u8>)
        ensures
            r@ == self.bytes(),
    {
        self.written.clone()
    }
}

/// The caller's source buffer of a write: its bytes and how many of them have
/// been taken.
pub struct UserReader {
    data: Vec<u8>,
    pos: usize,
}

impl UserReader {
    /// Well-formed: the position lies within the data.
    pub closed spec fn wf(&self) -> bool {
        self.pos <= self.data@.len()
    }

    /// The bytes not taken yet.
    pub closed spec fn remaining(&self) -> Seq<u8> {
        self.data@.subrange(self.pos as int, self.data@.len() as int)
    }

    /// A buffer that offers the bytes of `data`.
    pub fn new(data: Vec<u8>) -> (r: UserReader)
        ensures
            r.wf(),
            r.remaining() == data@,
    {
        let r = UserReader { data, pos: 0 };
        assert(r.remaining() =~= data@);
        r
    }

    /// Takes the next `len` bytes, or fails with `BadAddress` and takes
    /// nothing where fewer are left.
    pub fn read_slice(&mut self, len: usize) -> (r: Result<Vec<u8>, Error>)
        requires
            old(self).wf(),
        ensures
            final(self).wf(),
            len <= old(self).remaining().len() ==> r is Ok && r->Ok_0@ == old(
                self,
            ).remaining().subrange(0, len as int) && final(self).remaining() == old(
                self,
            ).remaining().subrange(len as int, old(self).remaining().len() as int),
            len > old(self).remaining().len() ==> r == Err::<Vec<u8>, Error>(Error::BadAddress)
                && final(self).remaining() == old(self).remaining(),
    {
        if len > self.data.len() - self.pos {
            return Err(Error::BadAddress);
        }
        let ghost rem = self.remaining();
        let out = slice_to_vec(slice_subrange(self.data.as_slice(), self.pos, self.pos + len));
        self.pos = self.pos + len;
        assert(out@ =~= rem.subrange(0, len as int));
        assert(self.remaining() =~= rem.subrange(len as int, rem.len() as int));
        Ok(out)
    }

    /// The number of bytes not taken yet.
    pub fn remaining_len(&self) -> (r: usize)
        requires
            self.wf(),
        ensures
            r == self.remaining().len(),
    {
        self.data.len() - self.pos
    }
}

/// What a read at `offset` does to the caller's buffer and returns.
pub open spec fn read_post(
    before: UserWriter,
    after: UserWriter,
    offset: u64,
    r: Result<usize, Error>,
) -> bool {
    let w = read_window(offset);
    if w.len() <= before.room() {
        r == Ok::<usize, Error>(w.len() as usize) && after.bytes() == before.bytes() + w
            && after.room() == before.room() - w.len()
    } else {
        r == Err::<usize, Error>(Error::BadAddress) && after.bytes() == before.bytes()
            && after.room() == before.room()
    }
}

/// The character device `eudyptula`. It keeps no state: reads hand out the
/// identifier and writes compare against it.
pub struct Task06;

impl Task06 {
    /// Opening always succeeds and keeps nothing per open file.
    pub fn open() -> (r: Result<(), Error>)
        ensures
            r == Ok::<(), Error>(()),
    {
        Ok(())
    }

    /// Copies the identifier from `min(offset, 13)` on into `writer` and
    /// returns how many bytes that was; past the end that is zero bytes.
    pub fn read(_data: (), writer: &mut UserWriter, offset: u64) -> (r: Result<usize, Error>)
        ensures
            read_post(*old(writer), *final(writer), offset, r),
    {
        let id = assigned_id_bytes();
        let start: usize = if offset < ID_LEN as u64 {
            offset as usize
        } else {
            ID_LEN
        };
        let s = slice_subrange(id.as_slice(), start, ID_LEN);
        assert(s@ =~= read_window(offset));
        match writer.write_slice(s) {
            Ok(()) => Ok(s.len()),
            Err(e) => Err(e),
        }
    }

    /// Takes 13 bytes from `reader` and accepts them (returning 13) only where
    /// they are the identifier; otherwise fails with `InvalidArgument`. Where
    /// fewer than 13 bytes are offered, the copy's `BadAddress` comes back.
    /// The offset plays no part.
    pub fn write(_data: (), reader: &mut UserReader, _off: u64) -> (r: Result<usize, Error>)
        requires
            old(reader).wf(),
        ensures
            final(reader).wf(),
            old(reader).remaining().len() < ID_LEN ==> r == Err::<usize, Error>(
                Error::BadAddress,
            ) && final(reader).remaining() == old(reader).remaining(),
            old(reader).remaining().len() >= ID_LEN ==> r == write_outcome(
                old(reader).remaining().subrange(0, ID_LEN as int),
            ) && final(reader).remaining() == old(reader).remaining().subrange(
                ID_LEN as int,
                old(reader).remaining().len() as int,
            ),
    {
        let buf = match reader.read_slice(ID_LEN) {
            Ok(b) => b,
            Err(e) => return Err(e),
        };
        if is_assigned_id(&buf) {
            Ok(ID_LEN)
        } else {
            Err(Error::InvalidArgument)
        }
    }
}

/// Whether `buf` is byte for byte the identifier.
fn is_assigned_id(buf: &Vec<u8>) -> (r: bool)
    ensures
        r == (buf@ == assigned_id()),
{
    let id = assigned_id_bytes();
    if buf.len() != ID_LEN {
        return false;
    }
    let mut i: usize = 0;
    while i < ID_LEN
        invariant
            i <= ID_LEN,
            buf@.len() == ID_LEN,
            id@ == assigned_id(),
            buf@.subrange(0, i as int) == id@.subrange(0, i as int),
        decreases ID_LEN - i,
    {
        if buf[i] != id[i] {
            assert(buf@[i as int] != assigned_id()[i as int]);
            return false;
        }
        i = i + 1;
        assert(buf@.subrange(0, i as int) =~= id@.subrange(0, i as int));
    }
    assert(buf@ =~= buf@.subrange(0, ID_LEN as int));
    assert(id@ =~= id@.subrange(0, ID_LEN as int));
    true
}


/// A read at offset `o` hands out the identifier from `min(o, 13)` to its
/// end: `13 - min(o, 13)` bytes, which follow the bytes before `min(o, 13)`
/// to make up the whole identifier.
pub proof fn lemma_read_is_suffix(o: u64)
    ensures
        ({
            let start = if o < 13 { o as int } else { 13 };
            &&& read_window(o).len() == 13 - start
            &&& read_window(o) == assigned_id().subrange(start, 13)
            &&& assigned_id() == assigned_id().subrange(0, start) + read_window(o)
        }),
{
    let start = if o < 13 { o as int } else { 13 };
    assert(assigned_id() =~= assigned_id().subrange(0, start) + read_window(o));
}

/// A write of 13 bytes returns 13 exactly when they are the identifier, and
/// fails with `InvalidArgument` otherwise.
pub proof fn lemma_write_accepts_only_identifier(b: Seq<u8>)
    requires
        b.len() == 13,
    ensures
        write_outcome(b) == Ok::<usize, Error>(13) <==> b == assigned_id(),
        b != assigned_id() ==> write_outcome(b) == Err::<usize, Error>(Error::InvalidArgument),
{
}

/// Two successful reads at the same offset return the same count and copy
/// the same bytes, whatever buffers they copy into.
pub proof fn lemma_repeated_reads_agree(
    w0: UserWriter,
    w1: UserWriter,
    r1: Result<usize, Error>,
    v0: UserWriter,
    v1: UserWriter,
    r2: Result<usize, Error>,
    o: u64,
)
    requires
        read_post(w0, w1, o, r1),
        read_post(v0, v1, o, r2),
        r1 is Ok,
        r2 is Ok,
    ensures
        r1 == r2,
        w1.bytes().subrange(w0.bytes().len() as int, w1.bytes().len() as int) == v1.bytes().subrange(
            v0.bytes().len() as int,
            v1.bytes().len() as int,
        ),
{
    assert(w1.bytes().subrange(w0.bytes().len() as int, w1.bytes().len() as int) =~= read_window(
        o,
    ));
    assert(v1.bytes().subrange(v0.bytes().len() as int, v1.bytes().len() as int) =~= read_window(
        o,
    ));
}

} // verus!
