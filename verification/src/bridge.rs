//! The protocol of a callback bridge.
//!
//! Native code reports back by calling a bridge with a buffer and its
//! length, and reads the bridge's answer as the number of bytes accepted. A
//! bridge decodes exactly the bytes it was given, hands the text on, and
//! answers with the full length if that worked and with zero if it did not.
//! A failure never leaves the bridge in any other form.

use vstd::prelude::*;
use vstd::utf8::{decode_utf8, valid_utf8};
use std::sync::mpsc::{SyncSender, TrySendError};
use crate::error::LibraryError;

verus! {

/// The text that `String::from_utf8_lossy` makes of `bytes`: the text they
/// encode, with each malformed stretch replaced by U+FFFD.
pub uninterp spec fn lossy_text(bytes: Seq<u8>) -> Seq<char>;

/// The number of bytes that a bridge reports as accepted, for a payload of
/// `len` bytes whose handoff ended in `handoff`.
pub open spec fn accepted_bytes(len: nat, handoff: Result<(), LibraryError>) -> nat {
    if handoff is Ok {
        len
    } else {
        0
    }
}

/// What a bridge answers for `payload` when handing it on goes through
/// `handoff`: `handoff` is given the payload's text, which for well-formed
/// UTF-8 is the text that the bytes encode, and its verdict decides the
/// count.
pub open spec fn relays<F>(payload: Seq<u8>, handoff: F, accepted: usize) -> bool where
    F: FnOnce(String) -> Result<(), LibraryError>,
 {
    exists|text: String, verdict: Result<(), LibraryError>|
        {
            &&& text@ == lossy_text(payload)
            &&& valid_utf8(payload) ==> text@ == decode_utf8(payload)
            &&& #[trigger] handoff.ensures((text,), verdict)
            &&& accepted == accepted_bytes(payload.len(), verdict)
        }
}

/// `String::from_utf8_lossy`, made into an owned string. The result is a
/// function of the bytes alone; where they are well-formed UTF-8 it is the
/// text that they encode.
#[verifier::external_body]
fn decode_lossy(bytes: &[u8]) -> (text: String)
    ensures
        text@ == lossy_text(bytes@),
        valid_utf8(bytes@) ==> text@ == decode_utf8(bytes@),
{
    String::from_utf8_lossy(bytes).into_owned()
}

/// The bridge's answer for a payload of `len` bytes whose handoff ended in
/// `handoff`.
pub fn acknowledge(len: usize, handoff: &Result<(), LibraryError>) -> (accepted: usize)
    ensures
        accepted == accepted_bytes(len as nat, *handoff),
{
    match handoff {
        Ok(_) => len,
        Err(_) => 0,
    }
}

/// Decodes `payload`, hands its text to `handoff`, and answers with the
/// number of bytes accepted.
pub fn relay<F>(payload: &[u8], handoff: F) -> (accepted: usize) where
    F: FnOnce(String) -> Result<(), LibraryError>,

    requires
        forall|text: String|
            text@ == lossy_text(payload@) ==> #[trigger] handoff.requires((text,)),
    ensures
        relays(payload@, handoff, accepted),
{
    let text = decode_lossy(payload);
    let verdict = handoff(text);
    acknowledge(payload.len(), &verdict)
}

/// What a bridge makes of a bounded channel's answer to an attempt to put
/// the text into it: a text that was taken is handed on, and a channel that
/// is full or has lost its receiver is a failed handoff.
pub open spec fn channel_report(
    sent: Result<(), TrySendError<String>>,
    verdict: Result<(), LibraryError>,
) -> bool {
    match sent {
        Ok(_) => verdict is Ok,
        Err(_) => verdict == Err::<(), LibraryError>(LibraryError::CallbackChannel),
    }
}

/// Turns a bounded channel's answer into the verdict on the handoff.
pub fn handed_on(sent: Result<(), TrySendError<String>>) -> (verdict: Result<(), LibraryError>)
    ensures
        channel_report(sent, verdict),
{
    match sent {
        Ok(_) => Ok(()),
        Err(_) => Err(LibraryError::CallbackChannel),
    }
}

/// The bridge over a bounded channel: decodes `payload`, offers its text to
/// the channel without waiting, and answers with the full length if the
/// channel took it and with zero if the channel is full or its receiver is
/// gone.
pub fn relay_to_channel(payload: &[u8], sender: &SyncSender<String>) -> (accepted: usize)
    ensures
        exists|sent: Result<(), TrySendError<String>>, verdict: Result<(), LibraryError>|
            #[trigger] channel_report(sent, verdict) && accepted == accepted_bytes(
                payload@.len(),
                verdict,
            ),
{
    let handoff = |text: String| -> (verdict: Result<(), LibraryError>)
        ensures
            exists|sent: Result<(), TrySendError<String>>| #[trigger] channel_report(sent, verdict),
        { handed_on(sender.try_send(text)) };
    relay(payload, handoff)
}

/// A failed handoff is answered with zero, whatever the payload.
pub proof fn rejection_is_zero(len: nat, error: LibraryError)
    ensures
        accepted_bytes(len, Err(error)) == 0,
{
}

/// For a payload that is not empty, the answer to a failed handoff differs
/// from the answer to one that succeeded.
pub proof fn rejection_is_distinct(len: nat, error: LibraryError)
    requires
        len > 0,
    ensures
        accepted_bytes(len, Err(error)) != accepted_bytes(len, Ok(())),
{
}

} // verus!
