use vstd::prelude::*;

use crate::error::PlotError;

verus! {

/// A node of the figure tree that writes itself into a MessagePack buffer.
pub trait Encodable {
    /// The exact bytes that this node encodes to.
    spec fn wire(&self) -> Seq<u8>;

    /// Every array and string inside the node has a length that MessagePack can frame.
    spec fn fits(&self) -> bool;

    /// Appends the node's encoding. It succeeds exactly when every length fits,
    /// and then leaves exactly `wire()` appended.
    fn encode(&self, buf: &mut Vec<u8>) -> (r: Result<(), PlotError>)
        ensures
            r is Ok <==> self.fits(),
            r is Ok ==> final(buf)@ == old(buf)@ + self.wire(),
            r matches Err(e) ==> e == PlotError::EncodingFailure,
    ;
}

} // verus!
