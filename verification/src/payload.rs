use vstd::prelude::*;

verus! {

/// A pending-transaction packet, the unit of the outbound stream. Opaque to
/// this core: the payload bytes are forwarded, never interpreted.
pub struct MempoolPacket {
    /// The packet's payload bytes.
    pub data: Vec<u8>,
}

impl View for MempoolPacket {
    type V = Seq<u8>;

    open spec fn view(&self) -> Seq<u8> {
        self.data@
    }
}

/// A group of transactions received from the block engine, the unit of the
/// inbound stream. Opaque to this core: the payload bytes are handed to the
/// caller's handler unchanged.
pub struct Bundle {
    /// The bundle's payload bytes.
    pub data: Vec<u8>,
}

impl View for Bundle {
    type V = Seq<u8>;

    open spec fn view(&self) -> Seq<u8> {
        self.data@
    }
}

} // verus!
