//! The codec that a value type brings to the transport.
//!
//! The transport never looks inside a frame. Everything it knows about the
//! wire format it learns by calling the four functions of [`KnetTransform`],
//! and the contracts of this crate speak of those calls through the relations
//! below: each one holds of an argument and a result exactly when the codec
//! can give that result for that argument.

use vstd::prelude::*;

verus! {

/// What a value type must offer to travel over a connection.
///
/// A frame is a header of `get_size_of_payload()` bytes followed by a data
/// segment of `get_size_of_data(header)` bytes. Nothing is assumed of an
/// implementation here; what a well-behaved one satisfies is written down by
/// [`conforming`].
pub trait KnetTransform: Copy + Sized {
    /// The whole frame of `self`: header, then data.
    fn serialize(&self) -> Vec<u8>;

    /// Replaces `self` by the value that the frame `data` holds.
    fn deserialize(&mut self, data: &[u8]);

    /// Length of the header of every frame of this type.
    fn get_size_of_payload() -> usize;

    /// Length of the data segment that follows the header `data`, which is
    /// `get_size_of_payload()` bytes long.
    fn get_size_of_data(data: &[u8]) -> usize;

    /// The value that the complete frame `data` holds.
    fn from_raw(data: &[u8]) -> Self;
}

/// `serialize` can give `bytes` for `value`.
pub open spec fn encodes<T: KnetTransform>(value: T, bytes: Seq<u8>) -> bool {
    exists|out: Vec<u8>| out@ == bytes && call_ensures(T::serialize, (&value,), out)
}

/// `get_size_of_payload` can give `size`.
pub open spec fn header_size<T: KnetTransform>(size: usize) -> bool {
    call_ensures(T::get_size_of_payload, (), size)
}

/// `get_size_of_data` can give `size` for the header `header`.
pub open spec fn data_size<T: KnetTransform>(header: Seq<u8>, size: usize) -> bool {
    exists|input: &[u8]| input@ == header && call_ensures(T::get_size_of_data, (input,), size)
}

/// `from_raw` can give `value` for the frame `frame`.
pub open spec fn decodes<T: KnetTransform>(frame: Seq<u8>, value: T) -> bool {
    exists|input: &[u8]| input@ == frame && call_ensures(T::from_raw, (input,), value)
}

/// Decoding a frame of a value gives that value back, whatever
/// `serialize` and `from_raw` return along the way.
pub open spec fn round_trips<T: KnetTransform>() -> bool {
    forall|value: T, bytes: Seq<u8>, back: T|
        #![trigger encodes(value, bytes), decodes(bytes, back)]
        encodes(value, bytes) && decodes(bytes, back) ==> back == value
}

/// A frame of a value is at least a header long, and its header announces
/// exactly the bytes that follow it.
pub open spec fn self_delimiting<T: KnetTransform>() -> bool {
    forall|value: T, bytes: Seq<u8>, header: usize|
        #![trigger encodes(value, bytes), header_size::<T>(header)]
        encodes(value, bytes) && header_size::<T>(header) ==> {
            &&& header <= bytes.len()
            &&& forall|data: usize| #[trigger]
                data_size::<T>(bytes.take(header as int), data) ==> bytes.len() == header + data
        }
}

/// The two laws that both ends of a connection rely on.
pub open spec fn conforming<T: KnetTransform>() -> bool {
    round_trips::<T>() && self_delimiting::<T>()
}

/// For a conforming codec, `from_raw(serialize(v)) == v`.
pub proof fn round_trip<T: KnetTransform>(value: T, bytes: Seq<u8>, back: T)
    requires
        conforming::<T>(),
        encodes(value, bytes),
        decodes(bytes, back),
    ensures
        back == value,
{
}

/// For a conforming codec, `serialize(v)` is exactly
/// `get_size_of_payload() + get_size_of_data(header of serialize(v))` bytes
/// long.
pub proof fn frame_length<T: KnetTransform>(value: T, bytes: Seq<u8>, header: usize, data: usize)
    requires
        conforming::<T>(),
        encodes(value, bytes),
        header_size::<T>(header),
        data_size::<T>(bytes.take(header as int), data),
    ensures
        header <= bytes.len(),
        bytes.len() == header + data,
{
}

} // verus!
