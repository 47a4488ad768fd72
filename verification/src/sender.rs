use crate::copier::copy_stream;
use crate::errors::TransferError;
use vstd::prelude::*;

verus! {

/// The sending role's long-lived state: the ordered list of local files to
/// stream out, and the cursor of the next one, advancing sequentially.
pub struct Sender {
    /// Paths of the files to send, in order; each one gets its own fresh
    /// connection to the remote endpoint.
    pub files: Vec<Vec<u8>>,
    /// Index of the next file to send; equals `files.len()` once every
    /// file has gone out.
    pub cursor: usize,
}

impl Sender {
    /// Well-formedness: the file list is non-empty and the cursor never
    /// runs past its end.
    pub open spec fn wf(self) -> bool {
        0 < self.files@.len() && self.cursor <= self.files@.len()
    }

    /// Checks the file list and takes ownership of it. An empty list is a
    /// usage error, reported before any network operation is attempted.
    pub fn new(files: Vec<Vec<u8>>) -> (r: Result<Sender, TransferError>)
        ensures
            files@.len() == 0 ==> r == Err::<Sender, TransferError>(TransferError::Usage),
            files@.len() > 0 ==> r is Ok && r.unwrap() == (Sender { files, cursor: 0 }),
            r is Ok ==> r.unwrap().wf(),
    {
        if files.len() == 0 {
            return Err(TransferError::Usage);
        }
        Ok(Sender { files, cursor: 0 })
    }

    /// True once every file has been sent and the run is complete.
    pub fn done(&self) -> (b: bool)
        ensures
            b == (self.cursor == self.files@.len()),
    {
        self.cursor == self.files.len()
    }

    /// The path of the next file to stream out.
    pub fn current(&self) -> (p: &Vec<u8>)
        requires
            self.cursor < self.files@.len(),
        ensures
            *p == self.files@[self.cursor as int],
    {
        &self.files[self.cursor]
    }

    /// Advances the cursor past a completed transfer. Nothing else about
    /// the sender changes.
    pub fn advance(&mut self)
        requires
            old(self).wf(),
            old(self).cursor < old(self).files@.len(),
        ensures
            final(self).cursor == old(self).cursor + 1,
            final(self).files == old(self).files,
            final(self).wf(),
    {
        let len = self.files.len();
        assert(self.cursor < len);
        self.cursor = self.cursor + 1;
    }
}

/// The outcome of a sender run: the payload handed to each connection that
/// was opened, and the error that stopped the run, if any.
pub struct SendOutcome {
    /// One entry per completed transfer, in order: the exact bytes
    /// streamed into that connection before its write side was closed.
    pub sent: Vec<Vec<u8>>,
    /// `None` after a successful run, the first fatal error otherwise.
    pub error: Option<TransferError>,
}

/// Everything a sender run guarantees, given what each local file holds
/// (`None` where the file cannot be opened).
///
/// The run stops at the first unopenable file: every earlier file is sent
/// verbatim on its own connection, in list order, and nothing is sent for
/// the failed file or any later one. An empty file list is refused
/// outright as a usage error; a run past every file succeeds.
pub open spec fn send_post(
    contents: Seq<Option<Vec<u8>>>,
    sent: Seq<Vec<u8>>,
    error: Option<TransferError>,
) -> bool {
    let n = contents.len() as int;
    &&& 0 <= sent.len() <= n
    &&& (forall|i: int|
        0 <= i < sent.len() ==> (#[trigger] contents[i]) is Some && sent[i]@
            == contents[i].unwrap()@)
    &&& (n == 0 ==> sent.len() == 0 && error == Some(TransferError::Usage))
    &&& (n > 0 && sent.len() < n ==> contents[sent.len() as int] is None && error
        == Some(TransferError::FileOpen))
    &&& (n > 0 && sent.len() == n ==> error is None)
}

/// A whole sender run over its inputs: `contents` holds, for each path in
/// the file list, the bytes the file can deliver, or `None` where opening
/// it fails.
///
/// This is the sequencing core of the sending role: it drives the `Sender`
/// state machine over the file list and, for each file in order, opens it,
/// dials a fresh connection, and moves the file's bytes into it with the
/// stream copier, half-closing the connection afterwards so that the whole
/// payload of one connection is exactly one file.
pub fn send_all(paths: Vec<Vec<u8>>, contents: &Vec<Option<Vec<u8>>>) -> (out: SendOutcome)
    requires
        contents@.len() == paths@.len(),
    ensures
        send_post(contents@, out.sent@, out.error),
{
    let n = paths.len();
    let mut tx = match Sender::new(paths) {
        Ok(tx) => tx,
        Err(e) => {
            return SendOutcome { sent: Vec::new(), error: Some(e) };
        },
    };
    let mut sent: Vec<Vec<u8>> = Vec::new();
    let mut i: usize = 0;
    while i < n
        invariant
            tx.wf(),
            tx.cursor == i,
            tx.files@.len() == n,
            n == contents@.len(),
            sent@.len() == i,
            forall|k: int|
                0 <= k < i ==> (#[trigger] contents@[k]) is Some && sent@[k]@
                    == contents@[k].unwrap()@,
        decreases n - i,
    {
        // Open the next file; a file that cannot be opened aborts the
        // whole run before any connection is dialed for it.
        match &contents[i] {
            None => {
                return SendOutcome { sent, error: Some(TransferError::FileOpen) };
            },
            Some(data) => {
                // Dial a fresh connection and stream the whole file into
                // it; the half-close afterwards makes the connection's
                // payload exactly this file.
                let mut connection: Vec<u8> = Vec::new();
                copy_stream(data, &mut connection);
                assert(connection@ =~= contents@[i as int].unwrap()@);
                sent.push(connection);
            },
        }
        tx.advance();
        i = i + 1;
    }
    SendOutcome { sent, error: None }
}

} // verus!
