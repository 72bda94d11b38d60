//! Frames on a byte stream.
//!
//! Every value crosses a connection as one frame: a header of fixed length,
//! then a data segment whose length the header announces. There is no
//! delimiter and no checksum. [`FrameReader`] tells the task that owns the
//! socket how many bytes to read next and turns what was read into values;
//! [`writer_turn`] tells the writing task what to do with what its two
//! queues yield. Neither touches a socket.

use crate::network::trait_knet::{
    conforming, data_size, decodes, encodes, header_size, KnetTransform,
};
use core::marker::PhantomData;
use vstd::prelude::*;

verus! {

/// How a request for an exact number of bytes ended.
pub enum ReadOutcome {
    /// The bytes that were read.
    Filled(Vec<u8>),
    /// The socket failed or the peer closed it before the request was met.
    Failed,
}

/// Where a reader stands within a frame.
enum Stage {
    /// Between frames: the next bytes are a header.
    Header,
    /// Inside a frame: `header` was read and announces `data_len` more bytes.
    Data { header: Vec<u8>, data_len: usize },
    /// The connection is down; nothing more is read.
    Closed,
}

/// What a [`Stage`] stands for.
pub enum StageView {
    Header,
    Data { header: Seq<u8>, data_len: nat },
    Closed,
}

/// What a [`FrameReader`] stands for.
pub struct ReaderView {
    /// Length of every header.
    pub header_len: nat,
    pub stage: StageView,
}

impl View for Stage {
    type V = StageView;

    closed spec fn view(&self) -> StageView {
        match *self {
            Stage::Header => StageView::Header,
            Stage::Data { header, data_len } => StageView::Data {
                header: header@,
                data_len: data_len as nat,
            },
            Stage::Closed => StageView::Closed,
        }
    }
}

/// The number of bytes that a reader in state `reader` asks for, if it asks
/// for any.
pub open spec fn wanted_bytes(reader: ReaderView) -> Option<nat> {
    match reader.stage {
        StageView::Header => Some(reader.header_len),
        StageView::Data { header, data_len } => Some(data_len),
        StageView::Closed => None,
    }
}

/// One step of a reader of values of type `T`: in state `pre` it is handed
/// `outcome`, moves to `post` and hands out `emitted`.
///
/// A request that was met in full moves the reader on: a header is kept and
/// the codec is asked for the length of the data; a data segment completes
/// the frame, which the codec decodes. Anything else (a failure, a read of
/// another length than asked for) closes the reader, and a closed reader
/// stays closed.
pub open spec fn supplied<T: KnetTransform>(
    pre: ReaderView,
    outcome: ReadOutcome,
    post: ReaderView,
    emitted: Option<T>,
) -> bool {
    &&& post.header_len == pre.header_len
    &&& match (pre.stage, outcome) {
        (StageView::Header, ReadOutcome::Filled(bytes)) => if bytes@.len() == pre.header_len {
            &&& emitted is None
            &&& post.stage matches StageView::Data { header, data_len }
            &&& header == bytes@
            &&& data_len <= usize::MAX
            &&& data_size::<T>(bytes@, data_len as usize)
        } else {
            emitted is None && post.stage is Closed
        },
        (StageView::Data { header, data_len }, ReadOutcome::Filled(bytes)) => if bytes@.len()
            == data_len {
            &&& post.stage is Header
            &&& emitted matches Some(value)
            &&& decodes(header + bytes@, value)
        } else {
            emitted is None && post.stage is Closed
        },
        _ => emitted is None && post.stage is Closed,
    }
}

/// Splits a byte stream into frames and decodes them, one request at a time.
///
/// The task that owns the socket asks [`FrameReader::wanted`] how many bytes
/// to read, reads exactly that many, and hands the result to
/// [`FrameReader::supply`], until `wanted` says `None`.
pub struct FrameReader<T> {
    header_len: usize,
    stage: Stage,
    codec: PhantomData<T>,
}

impl<T> View for FrameReader<T> {
    type V = ReaderView;

    closed spec fn view(&self) -> ReaderView {
        ReaderView { header_len: self.header_len as nat, stage: self.stage@ }
    }
}

impl<T: KnetTransform> FrameReader<T> {
    /// A reader between frames. The header length is asked of the codec
    /// once, here.
    pub fn new() -> (reader: Self)
        ensures
            reader@.stage is Header,
            reader@.header_len <= usize::MAX,
            header_size::<T>(reader@.header_len as usize),
    {
        FrameReader {
            header_len: T::get_size_of_payload(),
            stage: Stage::Header,
            codec: PhantomData,
        }
    }

    /// How many bytes to read next; `None` once the connection is down.
    pub fn wanted(&self) -> (count: Option<usize>)
        ensures
            count is Some <==> wanted_bytes(self@) is Some,
            count matches Some(n) ==> wanted_bytes(self@) == Some(n as nat),
    {
        match &self.stage {
            Stage::Header => Some(self.header_len),
            Stage::Data { header: _, data_len } => Some(*data_len),
            Stage::Closed => None,
        }
    }

    /// Takes the outcome of the read that [`FrameReader::wanted`] asked for.
    /// Returns the value of the frame that this read completed, if it
    /// completed one.
    pub fn supply(&mut self, outcome: ReadOutcome) -> (emitted: Option<T>)
        ensures
            supplied(old(self)@, outcome, final(self)@, emitted),
    {
        let mut stage = Stage::Closed;
        core::mem::swap(&mut self.stage, &mut stage);
        match (stage, outcome) {
            (Stage::Header, ReadOutcome::Filled(bytes)) => {
                if bytes.len() == self.header_len {
                    let data_len = T::get_size_of_data(bytes.as_slice());
                    self.stage = Stage::Data { header: bytes, data_len };
                }
                None
            },
            (Stage::Data { header, data_len }, ReadOutcome::Filled(bytes)) => {
                if bytes.len() == data_len {
                    let mut frame = header;
                    let mut rest = bytes;
                    frame.append(&mut rest);
                    let value = T::from_raw(frame.as_slice());
                    self.stage = Stage::Header;
                    Some(value)
                } else {
                    None
                }
            },
            _ => None,
        }
    }
}

/// What the two queues of a writing task can yield.
pub enum WriterInput<M> {
    /// The outbound queue yielded a message, or `None` because every sender
    /// is gone.
    Message(Option<M>),
    /// The shutdown queue yielded a token, or `None` because it was closed.
    Shutdown(Option<()>),
}

/// What a writing task does next.
pub enum WriterAction {
    /// Write these bytes to the socket in one call, then wait again.
    Write(Vec<u8>),
    /// Nothing to write: wait again.
    Wait,
    /// Leave the loop.
    Stop,
}

/// The frame to write for a value taken off an outbound queue.
pub fn encode<T: KnetTransform>(value: &T) -> (bytes: Vec<u8>)
    ensures
        encodes(*value, bytes@),
{
    value.serialize()
}

/// What a writing task does with what one of its queues yielded, where the
/// outbound queue carries values: a value is written as its frame; a token
/// on the shutdown queue changes nothing; either queue closing ends the
/// task.
pub fn writer_turn<T: KnetTransform>(input: WriterInput<T>) -> (action: WriterAction)
    ensures
        match input {
            WriterInput::Message(Some(value)) => action matches WriterAction::Write(bytes)
                && encodes(value, bytes@),
            WriterInput::Message(None) => action is Stop,
            WriterInput::Shutdown(Some(_)) => action is Wait,
            WriterInput::Shutdown(None) => action is Stop,
        },
{
    match input {
        WriterInput::Message(Some(value)) => WriterAction::Write(encode(&value)),
        WriterInput::Message(None) => WriterAction::Stop,
        WriterInput::Shutdown(Some(_)) => WriterAction::Wait,
        WriterInput::Shutdown(None) => WriterAction::Stop,
    }
}

/// A connection that is down yields nothing more: a failed read closes the
/// reader, and a closed reader stays closed, asks for no bytes and hands out
/// no value, whatever it is given.
pub proof fn reader_ends_with_the_connection<T: KnetTransform>(
    pre: ReaderView,
    outcome: ReadOutcome,
    post: ReaderView,
    emitted: Option<T>,
)
    requires
        supplied(pre, outcome, post, emitted),
        outcome is Failed || pre.stage is Closed,
    ensures
        emitted is None,
        post.stage is Closed,
        wanted_bytes(post) is None,
{
}

/// What one end writes, the other end reads: with a conforming codec, a
/// reader that stands between frames and is given a frame of `value` in the
/// two pieces it asks for, the header and then the rest, hands out nothing
/// for the first piece, asks for exactly the rest, hands out `value` for the
/// second piece and stands between frames again.
pub proof fn frame_crosses_the_wire<T: KnetTransform>(
    value: T,
    bytes: Seq<u8>,
    start: ReaderView,
    header: Vec<u8>,
    middle: ReaderView,
    first: Option<T>,
    data: Vec<u8>,
    end: ReaderView,
    second: Option<T>,
)
    requires
        conforming::<T>(),
        encodes(value, bytes),
        start.stage is Header,
        start.header_len <= usize::MAX,
        header_size::<T>(start.header_len as usize),
        header@ == bytes.take(start.header_len as int),
        data@ == bytes.skip(start.header_len as int),
        supplied(start, ReadOutcome::Filled(header), middle, first),
        supplied(middle, ReadOutcome::Filled(data), end, second),
    ensures
        first is None,
        wanted_bytes(middle) == Some(data@.len()),
        second == Some(value),
        end.stage is Header,
{
    assert(header@ + data@ =~= bytes);
}

} // verus!
