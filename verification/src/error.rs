//! The error taxonomy of the messaging layer.

use vstd::prelude::*;

verus! {

/// Every way an operation of this layer can fail.
///
/// - `ConnectionError`: the broker was unreachable, refused authentication,
///   or the URI was malformed; fatal to the instance attempting to connect.
/// - `ChannelError`: a channel-level protocol violation; fatal to the owning
///   instance.
/// - `PublishError`: creating the channel for a publish, declaring the
///   correlation queue, or the publish round trip itself failed.
/// - `AckError`: a positive acknowledgement failed; the consumer loop stops,
///   since a failed ack indicates a broken channel.
/// - `DecodeError`: a delivery carried a malformed envelope; the delivery is
///   still acknowledged so the broker does not redeliver it forever.
/// - `RpcTimeout`: no reply arrived on the correlation queue within the
///   configured bound.
#[derive(Clone, Copy, Debug, PartialEq, Eq, Structural)]
pub enum Error {
    ConnectionError,
    ChannelError,
    PublishError,
    AckError,
    DecodeError,
    RpcTimeout,
}

} // verus!
