use crate::errors::TransferError;
use crate::receiver::conflicts;
use crate::receiver::receive_post;
use crate::sender::send_post;
use vstd::prelude::*;

verus! {

/// Round trip: a sender run over files that all open, composed with a
/// receiver run whose connections carry exactly what the sender put on
/// them and whose destinations raise no conflict, reproduces every file
/// byte for byte — destination `i` ends up holding exactly source file
/// `i`, for arbitrary binary contents, empty files included, and both
/// runs succeed.
pub proof fn lemma_round_trip(
    contents: Seq<Vec<u8>>,
    sent: Seq<Vec<u8>>,
    send_error: Option<TransferError>,
    existing: Seq<Option<Vec<u8>>>,
    overwrite: bool,
    finals: Seq<Option<Vec<u8>>>,
    transferred: int,
    receive_error: Option<TransferError>,
)
    requires
        contents.len() > 0,
        existing.len() == contents.len(),
        forall|i: int| 0 <= i < existing.len() ==> !conflicts(#[trigger] existing[i], overwrite),
        send_post(contents.map_values(|c: Vec<u8>| Some(c)), sent, send_error),
        receive_post(sent, existing, overwrite, finals, transferred, receive_error),
    ensures
        send_error is None,
        receive_error is None,
        transferred == contents.len(),
        forall|i: int|
            0 <= i < contents.len() ==> (#[trigger] finals[i]) is Some && finals[i].unwrap()@
                == contents[i]@,
{
    let opened = contents.map_values(|c: Vec<u8>| Some(c));
    assert(opened.len() == contents.len());
    // Every file opens, so the sender finishes the whole list.
    if sent.len() < opened.len() {
        assert(opened[sent.len() as int] is Some);
        assert(false);
    }
    // No destination conflicts, so the receiver consumes every connection.
    if transferred < existing.len() {
        assert(conflicts(existing[transferred], overwrite));
        assert(false);
    }
    assert forall|i: int|
        0 <= i < contents.len() implies (#[trigger] finals[i]) is Some && finals[i].unwrap()@
        == contents[i]@ by {
        assert(opened[i] == Some(contents[i]));
        assert(sent[i]@ == opened[i].unwrap()@);
        assert(finals[i].unwrap()@ == sent[i]@);
    }
}

} // verus!
