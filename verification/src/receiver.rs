use crate::copier::copy_stream;
use crate::errors::TransferError;
use vstd::pervasive::VecAdditionalExecFns;
use vstd::prelude::*;

verus! {

/// The receiving role's long-lived state: the ordered target list, the
/// transfer cursor, and the overwrite policy, all fixed at startup except
/// for the cursor's sequential advancement.
pub struct Receiver {
    /// Destination paths, one per expected connection, in arrival order:
    /// the bytes of the Nth accepted connection land in the Nth path.
    pub targets: Vec<Vec<u8>>,
    /// Index of the next target to fill; equals `targets.len()` once every
    /// file has been received.
    pub cursor: usize,
    /// Whether a pre-existing destination file may be replaced.
    pub overwrite: bool,
}

impl Receiver {
    /// Well-formedness: the target list is non-empty and the cursor never
    /// runs past its end.
    pub open spec fn wf(self) -> bool {
        0 < self.targets@.len() && self.cursor <= self.targets@.len()
    }

    /// Checks the target list and takes ownership of it. An empty list is
    /// a usage error, reported before any network operation is attempted.
    pub fn new(targets: Vec<Vec<u8>>, overwrite: bool) -> (r: Result<Receiver, TransferError>)
        ensures
            targets@.len() == 0 ==> r == Err::<Receiver, TransferError>(TransferError::Usage),
            targets@.len() > 0 ==> r is Ok && r.unwrap() == (Receiver {
                targets,
                cursor: 0,
                overwrite,
            }),
            r is Ok ==> r.unwrap().wf(),
    {
        if targets.len() == 0 {
            return Err(TransferError::Usage);
        }
        Ok(Receiver { targets, cursor: 0, overwrite })
    }

    /// True once every target has been filled and the run is complete.
    pub fn done(&self) -> (b: bool)
        ensures
            b == (self.cursor == self.targets@.len()),
    {
        self.cursor == self.targets.len()
    }

    /// The path the next accepted connection will be written to.
    pub fn current(&self) -> (p: &Vec<u8>)
        requires
            self.cursor < self.targets@.len(),
        ensures
            *p == self.targets@[self.cursor as int],
    {
        &self.targets[self.cursor]
    }

    /// The overwrite-policy decision made for each accepted connection,
    /// before any of its bytes are consumed: given whether the current
    /// destination already exists, either clear it for writing or refuse
    /// the whole run with a conflict.
    pub fn check_conflict(&self, exists: bool) -> (r: Result<(), TransferError>)
        ensures
            r is Ok <==> (self.overwrite || !exists),
            r is Err ==> r->Err_0 == TransferError::Conflict,
    {
        if !self.overwrite && exists {
            Err(TransferError::Conflict)
        } else {
            Ok(())
        }
    }

    /// Advances the cursor past a completed transfer. Nothing else about
    /// the receiver changes.
    pub fn advance(&mut self)
        requires
            old(self).wf(),
            old(self).cursor < old(self).targets@.len(),
        ensures
            final(self).cursor == old(self).cursor + 1,
            final(self).targets == old(self).targets,
            final(self).overwrite == old(self).overwrite,
            final(self).wf(),
    {
        let len = self.targets.len();
        assert(self.cursor < len);
        self.cursor = self.cursor + 1;
    }
}

/// True when a destination in state `existing` must not be written:
/// it already exists and overwriting is disabled.
pub open spec fn conflicts(existing: Option<Vec<u8>>, overwrite: bool) -> bool {
    !overwrite && existing is Some
}

/// The outcome of a receiver run: the final contents of every destination,
/// how many transfers completed, and the error that stopped the run, if
/// any.
pub struct ReceiveOutcome {
    /// Final contents of each target path: `Some` bytes where a file ends
    /// up existing, `None` where none does.
    pub finals: Vec<Option<Vec<u8>>>,
    /// Number of completed transfers, which is also the number of
    /// connection payloads consumed: payloads from `transferred` on were
    /// never read.
    pub transferred: usize,
    /// `None` after a successful run, the first fatal error otherwise.
    pub error: Option<TransferError>,
}

/// Everything a receiver run guarantees, given the payload of each
/// arriving connection and the pre-existing state of each destination.
///
/// The run stops at the first conflicting destination: every earlier
/// target holds exactly its connection's bytes, every later one (the
/// conflicting one included) is left byte-for-byte as it was, and the
/// conflicting connection's payload is not consumed. An empty target list
/// is refused outright as a usage error; a run past every target succeeds.
pub open spec fn receive_post(
    payloads: Seq<Vec<u8>>,
    existing: Seq<Option<Vec<u8>>>,
    overwrite: bool,
    finals: Seq<Option<Vec<u8>>>,
    transferred: int,
    error: Option<TransferError>,
) -> bool {
    let n = existing.len() as int;
    &&& finals.len() == n
    &&& 0 <= transferred <= n
    &&& (forall|i: int| 0 <= i < transferred ==> !conflicts(#[trigger] existing[i], overwrite))
    &&& (forall|i: int|
        0 <= i < transferred ==> (#[trigger] finals[i]) is Some && finals[i].unwrap()@
            == payloads[i]@)
    &&& (forall|i: int| transferred <= i < n ==> #[trigger] finals[i] == existing[i])
    &&& (n == 0 ==> transferred == 0 && error == Some(TransferError::Usage))
    &&& (n > 0 && transferred < n ==> conflicts(existing[transferred], overwrite) && error
        == Some(TransferError::Conflict))
    &&& (n > 0 && transferred == n ==> error is None)
}

/// A whole receiver run over its inputs: `payloads` holds the byte stream
/// of each arriving connection, in arrival order, and `existing` the
/// pre-existing contents of each destination path.
///
/// This is the sequencing core of the receiving role: it drives the
/// `Receiver` state machine over the target list, checks the overwrite
/// policy before consuming a connection, truncates the destination, and
/// moves the connection's bytes into it with the stream copier, one
/// connection per target, strictly in order.
pub fn receive_all(
    targets: Vec<Vec<u8>>,
    payloads: &Vec<Vec<u8>>,
    existing: Vec<Option<Vec<u8>>>,
    overwrite: bool,
) -> (out: ReceiveOutcome)
    requires
        payloads@.len() == targets@.len(),
        existing@.len() == targets@.len(),
    ensures
        receive_post(payloads@, existing@, overwrite, out.finals@, out.transferred as int, out.error),
{
    let n = targets.len();
    let mut rx = match Receiver::new(targets, overwrite) {
        Ok(rx) => rx,
        Err(e) => {
            return ReceiveOutcome { finals: existing, transferred: 0, error: Some(e) };
        },
    };
    let mut finals = existing;
    let mut i: usize = 0;
    while i < n
        invariant
            rx.wf(),
            rx.cursor == i,
            rx.targets@.len() == n,
            rx.overwrite == overwrite,
            n == payloads@.len(),
            n == existing@.len(),
            finals@.len() == n,
            forall|k: int| 0 <= k < i ==> !conflicts(#[trigger] existing@[k], overwrite),
            forall|k: int|
                0 <= k < i ==> (#[trigger] finals@[k]) is Some && finals@[k].unwrap()@
                    == payloads@[k]@,
            forall|k: int| i <= k < n ==> #[trigger] finals@[k] == existing@[k],
        decreases n - i,
    {
        // A connection has arrived for target `i`; apply the overwrite
        // policy before touching any of its bytes.
        let exists_already = finals[i].is_some();
        match rx.check_conflict(exists_already) {
            Ok(()) => {},
            Err(e) => {
                return ReceiveOutcome { finals, transferred: i, error: Some(e) };
            },
        }
        // Create (or truncate) the destination, then stream the whole
        // connection into it.
        let mut file: Vec<u8> = Vec::new();
        copy_stream(&payloads[i], &mut file);
        assert(file@ =~= payloads@[i as int]@);
        finals.set(i, Some(file));
        rx.advance();
        i = i + 1;
    }
    ReceiveOutcome { finals, transferred: n, error: None }
}

} // verus!
