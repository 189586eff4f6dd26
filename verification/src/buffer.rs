//! The byte buffers of a buffer event, kept in a `bytes::BytesMut` behind a
//! `bytes::buf::Writer`.
use bytes::buf::Writer;
use bytes::BytesMut;
use vstd::prelude::*;

verus! {

#[verifier::external_type_specification]
#[verifier::external_body]
pub struct ExBytesMut(BytesMut);

#[verifier::external_type_specification]
#[verifier::external_body]
#[verifier::reject_recursive_types(B)]
pub struct ExWriter<B>(Writer<B>);

#[verifier::external_type_specification]
#[verifier::external_body]
pub struct ExIoError(std::io::Error);

/// The bytes that a `BytesMut` holds, in order.
pub uninterp spec fn bytes_contents(b: BytesMut) -> Seq<u8>;

/// The bytes that the `BytesMut` inside a `Writer` holds, in order.
pub uninterp spec fn writer_contents(w: Writer<BytesMut>) -> Seq<u8>;

/// The room that `BufMut::remaining_mut` reports for a `BytesMut` holding
/// `len` bytes: its allocation is capped at `isize::MAX` bytes.
pub open spec fn room_after(len: nat) -> int {
    isize::MAX - len
}

/// How many bytes of `data` a write into a buffer holding `len` bytes takes:
/// all of them, or as many as there is room for.
pub open spec fn write_count(len: nat, data_len: nat) -> int {
    if data_len <= room_after(len) {
        data_len as int
    } else {
        room_after(len)
    }
}

/// `BytesMut::new`: an empty buffer.
#[verifier::external_body]
fn bytes_new() -> (b: BytesMut)
    ensures
        bytes_contents(b) == Seq::<u8>::empty(),
{
    BytesMut::new()
}

/// `BufMut::writer`: a writer over the buffer, which holds the same bytes.
#[verifier::external_body]
fn bytes_writer(b: BytesMut) -> (w: Writer<BytesMut>)
    ensures
        writer_contents(w) == bytes_contents(b),
{
    bytes::BufMut::writer(b)
}

/// `BytesMut::len`, read through `Writer::get_ref`: the number of bytes held.
#[verifier::external_body]
fn writer_len(w: &Writer<BytesMut>) -> (n: usize)
    ensures
        n == writer_contents(*w).len(),
{
    w.get_ref().len()
}

/// `io::Write::write` on a `Writer<BytesMut>`: appends as many bytes of
/// `data` as `remaining_mut` leaves room for (`isize::MAX` less the bytes
/// held) and returns `Ok` with their number. With the bytes held within that
/// cap it neither panics nor unwinds (a failed allocation aborts).
#[verifier::external_body]
fn writer_write(w: &mut Writer<BytesMut>, data: &[u8]) -> (r: std::io::Result<usize>)
    requires
        writer_contents(*old(w)).len() <= isize::MAX,
    ensures
        r matches Ok(n) && n == write_count(writer_contents(*old(w)).len(), data@.len()),
        writer_contents(*final(w)) == writer_contents(*old(w)) + data@.subrange(
            0,
            write_count(writer_contents(*old(w)).len(), data@.len()),
        ),
    no_unwind
{
    std::io::Write::write(w, data)
}

/// `BytesMut::split`, reached through `Writer::get_mut`: moves every byte
/// held into the returned buffer and leaves the writer's buffer empty. It
/// does not unwind.
#[verifier::external_body]
fn writer_split(w: &mut Writer<BytesMut>) -> (taken: BytesMut)
    ensures
        bytes_contents(taken) == writer_contents(*old(w)),
        writer_contents(*final(w)) == Seq::<u8>::empty(),
    no_unwind
{
    w.get_mut().split()
}

/// `BytesMut::unsplit`, reached through `Writer::get_mut`: appends the bytes
/// of `other` after the bytes held. Where the two together stay within
/// `isize::MAX` bytes it neither panics nor unwinds (a failed allocation
/// aborts).
#[verifier::external_body]
fn writer_unsplit(w: &mut Writer<BytesMut>, other: BytesMut)
    requires
        writer_contents(*old(w)).len() + bytes_contents(other).len() <= isize::MAX,
    ensures
        writer_contents(*final(w)) == writer_contents(*old(w)) + bytes_contents(other),
    no_unwind
{
    w.get_mut().unsplit(other)
}

/// A byte buffer of a buffer event.
pub struct Buffer {
    writer: Writer<BytesMut>,
}

impl View for Buffer {
    type V = Seq<u8>;

    closed spec fn view(&self) -> Seq<u8> {
        writer_contents(self.writer)
    }
}

impl Buffer {
    #[verifier::type_invariant]
    closed spec fn fits(self) -> bool {
        writer_contents(self.writer).len() <= isize::MAX
    }

    /// An empty buffer.
    pub fn new() -> (b: Buffer)
        ensures
            b@ == Seq::<u8>::empty(),
    {
        Buffer { writer: bytes_writer(bytes_new()) }
    }

    /// The number of bytes held.
    pub fn len(&self) -> (n: usize)
        ensures
            n == self@.len(),
    {
        writer_len(&self.writer)
    }

    /// Appends `data`, or as much of it as the buffer has room for, and
    /// returns how many bytes were taken. Never fails.
    pub fn write(&mut self, data: &[u8]) -> (r: std::io::Result<usize>)
        ensures
            r matches Ok(n) && n == write_count(old(self)@.len(), data@.len()),
            final(self)@ == old(self)@ + data@.subrange(
                0,
                write_count(old(self)@.len(), data@.len()),
            ),
            final(self)@.len() <= isize::MAX,
            r matches Ok(n) && n <= data@.len() && final(self)@.len() == old(self)@.len() + n
                && final(self)@ == old(self)@ + data@.take(n as int),
            old(self)@.len() + data@.len() <= isize::MAX ==> (r matches Ok(n) && n == data@.len()
                && final(self)@ == old(self)@ + data@),
    {
        proof {
            use_type_invariant(&*self);
        }
        let r = writer_write(&mut self.writer, data);
        proof {
            if old(self)@.len() + data@.len() <= isize::MAX {
                assert(data@.subrange(0, data@.len() as int) =~= data@);
            }
        }
        r
    }

    /// Takes out every byte held, to be written to the connection; the
    /// buffer is left empty.
    pub fn split_pending(&mut self) -> (taken: BytesMut)
        ensures
            bytes_contents(taken) == old(self)@,
            final(self)@ == Seq::<u8>::empty(),
    {
        writer_split(&mut self.writer)
    }

    /// Puts bytes that were taken out back after the bytes held now.
    pub fn unsplit(&mut self, taken: BytesMut)
        requires
            old(self)@.len() + bytes_contents(taken).len() <= isize::MAX,
        ensures
            final(self)@ == old(self)@ + bytes_contents(taken),
    {
        writer_unsplit(&mut self.writer, taken)
    }
}

/// `evbuffer_get_length`: the number of bytes a buffer holds, 0 where there
/// is no buffer.
pub fn evbuffer_get_length(buf: Option<&Buffer>) -> (n: usize)
    ensures
        n == (match buf {
            Some(b) => b@.len(),
            None => 0,
        }),
{
    match buf {
        Some(buf) => buf.len(),
        None => 0,
    }
}

/// Taking the bytes out of a buffer for writing (`split_pending`) and putting
/// them back (`unsplit`) leaves the buffer as it was when nothing was written
/// in between; bytes written in between end up before the bytes put back.
pub proof fn lemma_split_unsplit_keeps_bytes(
    before: Seq<u8>,
    taken: BytesMut,
    emptied: Seq<u8>,
    between: Seq<u8>,
    after: Seq<u8>,
)
    requires
        bytes_contents(taken) == before,
        emptied == Seq::<u8>::empty(),
        after == emptied + between + bytes_contents(taken),
    ensures
        after == between + before,
        between.len() == 0 ==> after == before,
{
    assert(emptied + between =~= between);
    if between.len() == 0 {
        assert(between + before =~= before);
    }
}

/// A write into a buffer with room for all of `data` takes all of it: the
/// buffer then holds its old bytes followed by `data`.
pub proof fn lemma_write_appends(old_bytes: Seq<u8>, data: Seq<u8>)
    requires
        old_bytes.len() + data.len() <= isize::MAX,
    ensures
        write_count(old_bytes.len(), data.len()) == data.len(),
        old_bytes + data.subrange(0, write_count(old_bytes.len(), data.len())) == old_bytes + data,
{
    assert(data.subrange(0, data.len() as int) =~= data);
}

} // verus!
