//! The decode entry point, as the decisions taken around the engine's calls.
//!
//! A decode runs in steps. [`check_input`] vets the caller's bytes; only what
//! it lets through is handed to the engine. [`on_reply`] takes what the engine
//! reported and either finishes or asks for the engine's explanation of an
//! error code, which [`on_explanation`] turns into the error returned.
use vstd::prelude::*;
use crate::packet::{Packet, RawPacket};
use crate::text::{ascii_chars, bytes_until_nul, is_ascii, lossy, lossy_of, nul_free, until_nul};

verus! {

/// Why a decode failed.
#[derive(Debug, PartialEq, Eq)]
pub enum Error {
    /// The input held a terminator byte (0), at the position given: the first
    /// one. The engine was not called.
    NulInInputData(usize),
    /// The engine gave no result, or reported a decode error, described here.
    Other(String),
}

/// Text of the error given when the engine returns no result.
pub const NO_RESULT_MESSAGE: &'static str = "libfap returned null value - allocation failure?";

/// Text describing an input that held a terminator byte.
pub const NUL_MESSAGE: &'static str = "input data must not contain any nulls";

/// Longest explanation taken from the engine's 64-byte buffer, which keeps
/// room for the terminator.
pub const EXPLANATION_MAX: usize = 63;

impl Error {
    /// A short description of the failure.
    pub fn description(&self) -> (r: &str)
        ensures
            match self {
                Error::NulInInputData(_) => r@ == NUL_MESSAGE@,
                Error::Other(m) => r@ == m@,
            },
    {
        match self {
            Error::NulInInputData(_) => NUL_MESSAGE,
            Error::Other(m) => m.as_str(),
        }
    }
}

/// Lets the input through unchanged where it holds no terminator byte, and
/// otherwise rejects it, naming the position of the first such byte, before
/// any engine call.
pub fn check_input(data: Vec<u8>) -> (r: Result<Vec<u8>, Error>)
    ensures
        nul_free(data@) ==> r == Ok::<Vec<u8>, Error>(data),
        !nul_free(data@) ==> (r matches Err(Error::NulInInputData(i)) && i < data@.len()
            && data@[i as int] == 0 && nul_free(data@.take(i as int))),
{
    let cut = bytes_until_nul(data.as_slice());
    if cut.len() < data.len() {
        assert(!nul_free(data@));
        Err(Error::NulInInputData(cut.len()))
    } else {
        assert(cut@ =~= data@);
        Ok(data)
    }
}

/// What the engine reported for one decode call.
pub enum Reply {
    /// No result at all (an allocation failure).
    NoResult,
    /// A result carrying this error code. The result has already been released.
    Failed(u32),
    /// A result with no error, its fields copied out.
    Parsed(RawPacket),
}

/// What follows an engine reply.
pub enum Next {
    /// The decode is over, with this outcome.
    Done(Result<Packet, Error>),
    /// The engine's explanation of this error code is wanted; hand it to
    /// [`on_explanation`].
    Explain(u32),
}

/// Decides what an engine reply leads to: a packet, the allocation-failure
/// error, or a request for the explanation of the reported error code.
pub fn on_reply(reply: Reply) -> (r: Next)
    ensures
        match reply {
            Reply::NoResult => r matches Next::Done(Err(Error::Other(m))) && m@
                == NO_RESULT_MESSAGE@,
            Reply::Failed(code) => r == Next::Explain(code),
            Reply::Parsed(raw) => r matches Next::Done(Ok(p)) && p.fields() == raw,
        },
{
    match reply {
        Reply::NoResult => Next::Done(Err(Error::Other(NO_RESULT_MESSAGE.to_owned()))),
        Reply::Failed(code) => Next::Explain(code),
        Reply::Parsed(raw) => Next::Done(Ok(Packet::from_raw(raw))),
    }
}

/// The bytes that the explanation is read from: at most the first
/// [`EXPLANATION_MAX`] bytes of the buffer.
pub open spec fn explanation_window(buf: Seq<u8>) -> Seq<u8> {
    if buf.len() <= EXPLANATION_MAX {
        buf
    } else {
        buf.take(EXPLANATION_MAX as int)
    }
}

/// The explanation written by the engine into `buf`: its text before the first
/// terminator, at most [`EXPLANATION_MAX`] bytes, decoded leniently.
pub fn explanation(buf: &[u8]) -> (r: String)
    ensures
        r@ == lossy_of(until_nul(explanation_window(buf@))),
        is_ascii(until_nul(explanation_window(buf@))) ==> r@ == ascii_chars(
            until_nul(explanation_window(buf@)),
        ),
{
    let mut window: Vec<u8> = Vec::new();
    let mut i: usize = 0;
    while i < buf.len() && i < EXPLANATION_MAX
        invariant
            i <= buf@.len(),
            i <= EXPLANATION_MAX,
            window@ == buf@.take(i as int),
        decreases buf@.len() - i,
    {
        window.push(buf[i]);
        i = i + 1;
        assert(window@ =~= buf@.take(i as int));
    }
    assert(window@ =~= explanation_window(buf@));
    let cut = bytes_until_nul(window.as_slice());
    lossy(cut.as_slice())
}

/// The error that ends a decode the engine failed, from the explanation
/// buffer it filled.
pub fn on_explanation(buf: &[u8]) -> (r: Error)
    ensures
        r matches Error::Other(m) && m@ == lossy_of(until_nul(explanation_window(buf@))),
        r matches Error::Other(m) && (is_ascii(until_nul(explanation_window(buf@)))
            ==> m@ == ascii_chars(until_nul(explanation_window(buf@)))),
{
    Error::Other(explanation(buf))
}

} // verus!
