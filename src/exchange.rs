use vstd::prelude::*;

use crate::error::Error;
use crate::frame::{status_bits, Frame};
use crate::operation::{frame_of, Operation};

verus! {

/// How far a response frame is validated.
#[derive(Debug, Clone, Copy, PartialEq, Eq, Structural)]
pub enum Check {
    /// Only the checksum; the return status is not looked at.
    Crc,
    /// The checksum, then the return status, which must be normal operation.
    CrcAndStatus,
}

/// One planned SPI transaction: the operation to send, how long to wait
/// afterwards, and how to validate the response.
#[derive(Debug, Clone, Copy, PartialEq, Eq, Structural)]
pub struct Transfer {
    pub operation: Operation,
    pub wait_ns: u32,
    pub check: Check,
}

/// The error that a response raises under a check, if any: a transport
/// failure, then a checksum mismatch, then a return status other than
/// normal operation (where the check looks at it).
pub open spec fn response_error<E>(check: Check, response: Result<Frame, E>) -> Option<Error<E>> {
    match response {
        Err(e) => Some(Error::Spi(e)),
        Ok(f) => {
            if !f.crc_ok() {
                Some(Error::Crc)
            } else if check == Check::Crc {
                None
            } else if status_bits(f.bytes[0]) == 1 {
                None
            } else if status_bits(f.bytes[0]) == 0 {
                Some(Error::Startup)
            } else {
                Some(Error::ReturnStatus)
            }
        },
    }
}

/// The payload of a response, zero for a transport failure.
pub open spec fn response_word<E>(response: Result<Frame, E>) -> u16 {
    match response {
        Ok(f) => f.payload(),
        Err(_) => 0,
    }
}

/// What an exchange has planned and what has come back so far.
pub struct ExchangeView<E> {
    pub transfers: Seq<Transfer>,
    pub responses: Seq<Result<Frame, E>>,
}

impl<E> ExchangeView<E> {
    /// The first `n` responses all passed their checks.
    pub open spec fn accepted(self, n: int) -> bool {
        forall|i: int| 0 <= i < n ==> response_error(#[trigger] self.transfers[i].check, self.responses[i]) is None
    }

    /// The error raised by the latest response, if it raised one.
    pub open spec fn failure(self) -> Option<Error<E>> {
        if self.responses.len() == 0 {
            None
        } else {
            response_error(self.transfers[self.responses.len() - 1].check, self.responses.last())
        }
    }

    /// No further transfer is due: one failed or all were answered.
    pub open spec fn is_done(self) -> bool {
        self.failure() is Some || self.responses.len() == self.transfers.len()
    }

    /// All transfers were answered and every response passed.
    pub open spec fn succeeded(self) -> bool {
        self.responses.len() == self.transfers.len() && self.accepted(self.responses.len() as int)
    }

    /// The payloads of the responses, in order.
    pub open spec fn words(self) -> Seq<u16> {
        self.responses.map_values(|r: Result<Frame, E>| response_word(r))
    }

    /// Well-formed: no more responses than transfers, and every response
    /// before the latest one passed.
    pub open spec fn wf(self) -> bool {
        &&& self.responses.len() <= self.transfers.len()
        &&& self.accepted(self.responses.len() - 1)
    }
}

/// A planned sequence of SPI transactions, run one response at a time.
///
/// The caller asks for the next frame to send, exchanges it on the bus,
/// and hands the received frame (or the transport error) back. The first
/// failure ends the exchange; no later transfer is issued.
pub struct Exchange<E> {
    transfers: Vec<Transfer>,
    words: Vec<u16>,
    error: Option<Error<E>>,
    responses: Ghost<Seq<Result<Frame, E>>>,
}

impl<E> View for Exchange<E> {
    type V = ExchangeView<E>;

    closed spec fn view(&self) -> ExchangeView<E> {
        ExchangeView { transfers: self.transfers@, responses: self.responses@ }
    }
}

impl<E> Exchange<E> {
    /// The internal invariant: the view is well-formed, and the stored
    /// words and error are those the responses give.
    #[verifier::type_invariant]
    spec fn inv(self) -> bool {
        &&& self@.wf()
        &&& self.error == self@.failure()
        &&& self.words@.len() == if self.error is Some {
            self@.responses.len() - 1
        } else {
            self@.responses.len() as int
        }
        &&& forall|i: int| 0 <= i < self.words@.len() ==> self.words@[i] == #[trigger] self@.words()[i]
    }

    /// Starts an exchange of the given transfers, none answered yet.
    pub fn new(transfers: Vec<Transfer>) -> (r: Self)
        ensures
            r@.transfers == transfers@,
            r@.responses.len() == 0,
    {
        Exchange { transfers, words: Vec::new(), error: None, responses: Ghost(Seq::empty()) }
    }

    /// The frame to send next and the time to wait after it, if a transfer
    /// is still due.
    pub fn next_transfer(&self) -> (r: Option<(Frame, u32)>)
        ensures
            r is None <==> self@.is_done(),
            r is Some ==> ({
                let t = self@.transfers[self@.responses.len() as int];
                r == Some((frame_of(t.operation), t.wait_ns))
            }),
    {
        proof {
            use_type_invariant(self);
        }
        if self.error.is_some() || self.words.len() == self.transfers.len() {
            None
        } else {
            let t = self.transfers[self.words.len()];
            Some((t.operation.to_frame(), t.wait_ns))
        }
    }

    /// Records the response to the transfer that was due: the received
    /// frame, or the error of the transport.
    pub fn complete(self, response: Result<Frame, E>) -> (r: Self)
        requires
            !self@.is_done(),
        ensures
            r@.transfers == self@.transfers,
            r@.responses == self@.responses.push(response),
    {
        proof {
            use_type_invariant(&self);
        }
        let ghost old_view = self@;
        let Exchange { transfers, mut words, error: _, responses } = self;
        let n = words.len();
        let check = transfers[n].check;
        let ghost view = ExchangeView { transfers: transfers@, responses: responses@.push(response) };
        assert(view.accepted(view.responses.len() - 1)) by {
            assert forall|i: int| 0 <= i < view.responses.len() - 1 implies response_error(
                #[trigger] view.transfers[i].check,
                view.responses[i],
            ) is None by {
                assert(view.responses[i] == old_view.responses[i]);
            }
        }
        let error = match verdict(check, response) {
            Ok(word) => {
                words.push(word);
                None
            },
            Err(e) => Some(e),
        };
        assert forall|i: int| 0 <= i < words@.len() implies words@[i] == #[trigger] view.words()[i] by {
            assert(view.words()[i] == response_word(view.responses[i]));
            if i < n {
                assert(view.responses[i] == old_view.responses[i]);
                assert(old_view.words()[i] == response_word(old_view.responses[i]));
            }
        }
        Exchange { transfers, words, error, responses: Ghost(view.responses) }
    }

    /// How the exchange ended: the payloads of all responses, or the error
    /// that ended it.
    pub fn into_result(self) -> (r: Result<Vec<u16>, Error<E>>)
        requires
            self@.is_done(),
        ensures
            self@.succeeded() <==> r is Ok,
            r is Ok ==> r->Ok_0@ == self@.words(),
            r is Err ==> self@.failure() == Some(r->Err_0),
    {
        proof {
            use_type_invariant(&self);
        }
        match self.error {
            Some(e) => Err(e),
            None => {
                assert(self.words@ =~= self@.words());
                Ok(self.words)
            },
        }
    }
}

/// Validates one response under a check: its payload, or the error it raises.
fn verdict<E>(check: Check, response: Result<Frame, E>) -> (r: Result<u16, Error<E>>)
    ensures
        r is Ok <==> response_error(check, response) is None,
        r is Ok ==> r->Ok_0 == response_word(response),
        r is Err ==> response_error(check, response) == Some(r->Err_0),
{
    match response {
        Err(e) => Err(Error::Spi(e)),
        Ok(frame) => {
            if frame.check_crc::<E>().is_err() {
                return Err(Error::Crc);
            }
            let word = frame.data();
            match check {
                Check::Crc => Ok(word),
                Check::CrcAndStatus => {
                    let b0 = frame.bytes[0];
                    let bits = b0 & 3;
                    if bits == 1 {
                        Ok(word)
                    } else if bits == 0 {
                        Err(Error::Startup)
                    } else {
                        Err(Error::ReturnStatus)
                    }
                },
            }
        },
    }
}

} // verus!
