use vstd::prelude::*;

use crate::errors::StreamError;
use crate::payload::MempoolPacket;

verus! {

/// What an outbound client-streaming call left at the remote side: the
/// packets handed to the transport, in order, and the call's overall result.
pub struct PublishOutcome {
    /// The packets the transport accepted, in the order the caller's
    /// sequence yielded them.
    pub sent: Vec<MempoolPacket>,
    /// The call's all-or-nothing result: packets already transmitted before
    /// a failure are not rolled back.
    pub result: Result<(), StreamError>,
}

/// The outbound publish path: the caller's packets are handed to the
/// transport strictly in sequence order, with no reordering, duplication or
/// retry, until the sequence is exhausted or the remote call fails.
///
/// `accepted_before_failure` is the transport's behaviour, which this core
/// does not control: the number of packets the remote call accepts before it
/// fails (`packets.len()` means every packet went out but the final
/// acknowledgment failed), or `None` when the call completes cleanly.
pub fn deliver_outbound(packets: Vec<MempoolPacket>, accepted_before_failure: Option<usize>) -> (o:
    PublishOutcome)
    requires
        accepted_before_failure matches Some(i) ==> i <= packets.len(),
    ensures
        accepted_before_failure is None ==> o.sent@ == packets@ && o.result is Ok,
        accepted_before_failure matches Some(i) ==> o.sent@ == packets@.take(i as int) && o.result
            == Err::<(), StreamError>(StreamError::Transport),
{
    let mut sent = packets;
    match accepted_before_failure {
        None => PublishOutcome { sent, result: Ok(()) },
        Some(i) => {
            sent.truncate(i);
            PublishOutcome { sent, result: Err(StreamError::Transport) }
        },
    }
}

} // verus!
