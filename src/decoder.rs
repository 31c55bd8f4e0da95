use vstd::prelude::*;
use crate::assembler::{AssemblyState, empty_state, run};
use crate::types::{Anomaly, CellChunk, RowCell, RowKey, TimeSpan, rows_view};

verus! {

/// Declares `tonic::Status`, the error that `tonic::Streaming::message` returns
/// when a read fails, so that such an error can be carried through unchanged.
/// Nothing inside it is read here.
#[verifier::external_type_specification]
#[verifier::external_body]
pub struct ExStatus(tonic::Status);

/// Why decoding a stream stopped without a result.
pub enum DecodeError {
    /// The stream took longer than the deadline; holds the deadline's whole seconds.
    Timeout(u64),
    /// Reading from the stream failed.
    Transport(tonic::Status),
}

/// Decodes one `ReadRows` stream, one message at a time.
///
/// The caller reads each message of the stream and hands it over with the time
/// elapsed since decoding began; the decoder answers whether to read on or what
/// the result of the whole stream is.
pub struct Decoder {
    pub timeout: Option<TimeSpan>,
    pub state: AssemblyState,
    pub rows: Vec<(RowKey, Vec<RowCell>)>,
    pub found: Vec<Anomaly>,
}

impl Decoder {
    pub open spec fn wf(&self) -> bool {
        match self.timeout {
            Some(t) => t.wf(),
            None => true,
        }
    }

    /// Whether a message that arrives `elapsed` after the start is too late.
    pub open spec fn overdue(&self, elapsed: TimeSpan) -> bool {
        match self.timeout {
            Some(t) => elapsed.nanos() > t.nanos(),
            None => false,
        }
    }

    pub fn new(timeout: Option<TimeSpan>) -> (r: Decoder)
        requires
            match timeout {
                Some(t) => t.wf(),
                None => true,
            },
        ensures
            r.wf(),
            r.timeout == timeout,
            r.state@ == empty_state(),
            r.rows@.len() == 0,
            r.found@.len() == 0,
    {
        Decoder { timeout, state: AssemblyState::new(), rows: Vec::new(), found: Vec::new() }
    }

    /// Takes the outcome of one read from the stream: a message's chunks, the
    /// end of the stream (`Ok(None)`), or a failed read. `None` asks for the
    /// next read; `Some` is the result of the whole stream.
    ///
    /// A failed read is passed on as it came. At the end of the stream the rows
    /// committed so far are the result. A message that arrives after the
    /// deadline ends decoding with a timeout, and what was assembled is dropped;
    /// else its chunks are folded into the state.
    pub fn on_message(&mut self, message: Result<Option<Vec<CellChunk>>, tonic::Status>, elapsed: TimeSpan) -> (r: Option<Result<Vec<(RowKey, Vec<RowCell>)>, DecodeError>>)
        requires
            old(self).wf(),
            elapsed.wf(),
        ensures
            final(self).wf(),
            final(self).timeout == old(self).timeout,
            match message {
                Err(e) => r == Some(Err::<Vec<(RowKey, Vec<RowCell>)>, DecodeError>(DecodeError::Transport(e))),
                Ok(None) => match r {
                    Some(Ok(rows)) => rows_view(rows@) == rows_view(old(self).rows@),
                    _ => false,
                },
                Ok(Some(chunks)) => if old(self).overdue(elapsed) {
                    r == Some(Err::<Vec<(RowKey, Vec<RowCell>)>, DecodeError>(DecodeError::Timeout(old(self).timeout.unwrap().secs)))
                } else {
                    &&& r is None
                    &&& final(self).state@ == run(old(self).state@, chunks@).0
                    &&& rows_view(final(self).rows@) == rows_view(old(self).rows@) + run(old(self).state@, chunks@).1
                    &&& final(self).found@ == old(self).found@ + run(old(self).state@, chunks@).2
                },
            },
    {
        match message {
            Err(e) => Some(Err(DecodeError::Transport(e))),
            Ok(None) => {
                let mut rows = Vec::new();
                std::mem::swap(&mut rows, &mut self.rows);
                Some(Ok(rows))
            },
            Ok(Some(chunks)) => {
                if let Some(t) = &self.timeout {
                    if elapsed.exceeds(t) {
                        return Some(Err(DecodeError::Timeout(t.secs)));
                    }
                }
                self.state.push_batch(chunks, &mut self.rows, &mut self.found);
                None
            },
        }
    }

    /// Hands out the irregularities met so far and forgets them.
    pub fn take_found(&mut self) -> (r: Vec<Anomaly>)
        ensures
            r@ == old(self).found@,
            final(self).found@.len() == 0,
            final(self).timeout == old(self).timeout,
            final(self).state == old(self).state,
            final(self).rows == old(self).rows,
    {
        let mut r = Vec::new();
        std::mem::swap(&mut r, &mut self.found);
        r
    }
}

} // verus!
