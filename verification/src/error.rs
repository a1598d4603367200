//! The three tiers of failure, and the call stack captured when a fault of
//! the local machine or of the exchange is turned into an [`Error`].

#![allow(deprecated)]

use crate::limits::check;
use crate::value::json_value;
use crate::value::parsed;
use rustc_serialize::json::DecoderError;
use rustc_serialize::json::EncoderError;
use rustc_serialize::json::Json;
use std::error::Error as StdError;
use vstd::prelude::*;
use vstd::std_specs::convert::FromSpecImpl;

verus! {

/// What a resolved call frame is known as. Each part may be missing.
#[derive(Debug, Clone, PartialEq, Eq)]
pub struct Sym {
    pub name: Option<String>,
    pub addr: Option<usize>,
    pub filename: Option<String>,
    pub lineno: Option<u32>,
}

/// One call frame: its instruction pointer and, where resolution gave one,
/// its symbol.
#[derive(Debug, Clone, PartialEq, Eq)]
pub struct StackFrame {
    pub ip: usize,
    pub sym: Option<Sym>,
}

/// The call frames that were active at one moment, innermost first.
#[derive(Debug, Clone, PartialEq, Eq)]
pub struct StackTrace {
    pub frames: Vec<StackFrame>,
}

/// The collaborator in which a transport fault arose.
#[derive(Debug, Clone, Copy, PartialEq, Eq, Structural)]
pub enum FaultKind {
    /// Reading or writing a file or a stream.
    Io,
    /// The HTTP exchange itself.
    Http,
    /// Printing a request as JSON.
    Encode,
    /// Reading JSON, or finding the expected shape in it.
    Decode,
    /// Setting up the logger.
    Logger,
}

/// The cause under a transport error: where it arose and what it said.
#[derive(Debug, Clone, PartialEq, Eq)]
pub struct Fault {
    pub kind: FaultKind,
    pub message: String,
}

/// Why an invocation did not end in the service's answer.
#[derive(Debug)]
pub enum Error {
    /// The command line was malformed. Nothing was sent.
    OptParse,
    /// Building, sending, receiving or decoding the exchange failed.
    TransportError(Fault, StackTrace),
    /// The exchange succeeded and reported that the remote command failed;
    /// the text is what the remote command wrote to its standard error.
    RemoteProcessFailure(String, StackTrace),
}

/// `backtrace::trace` walks the call stack and hands each frame to a
/// callback, innermost first; this collects the instruction pointers.
/// Which frames there are depends on the machine and the moment.
#[verifier::external_body]
fn trace() -> (ips: Vec<usize>) {
    let mut ips = Vec::new();
    backtrace::trace(|frame| {
        ips.push(frame.ip() as usize);
        true
    });
    ips
}

/// `backtrace::resolve` looks an address up in the symbol tables and hands
/// each symbol found to a callback; this collects them in that order. It may
/// find none, and for inlined code more than one.
#[verifier::external_body]
fn resolve(ip: usize) -> (syms: Vec<Sym>) {
    let mut syms = Vec::new();
    backtrace::resolve(ip as _, |symbol| {
        syms.push(Sym {
            name: symbol.name().map(|n| String::from_utf8_lossy(n.as_bytes()).into_owned()),
            addr: symbol.addr().map(|a| a as usize),
            filename: symbol.filename().map(|p| p.to_string_lossy().into_owned()),
            lineno: symbol.lineno(),
        });
    });
    syms
}

/// The frame that an instruction pointer and the symbols it resolved to
/// stand for: the last symbol reported stands for the frame, and a frame
/// without symbols is kept with none.
pub open spec fn frame_of(ip: usize, syms: Seq<Sym>) -> StackFrame {
    StackFrame {
        ip,
        sym: if syms.len() == 0 {
            None
        } else {
            Some(syms.last())
        },
    }
}

impl StackFrame {
    /// The frame at `ip`, given the symbols that the address resolved to in
    /// the order they were reported.
    pub fn resolved(ip: usize, syms: Vec<Sym>) -> (f: StackFrame)
        ensures
            f == frame_of(ip, syms@),
    {
        let mut syms = syms;
        let sym = syms.pop();
        StackFrame { ip, sym }
    }
}

impl StackTrace {
    /// The trace for what a walk of the stack drew: for each frame its
    /// instruction pointer and the symbols that it resolved to. Every frame
    /// is kept, in the order given and under its own pointer, with the last
    /// of its symbols or with none.
    pub fn assembled(walked: Vec<(usize, Vec<Sym>)>) -> (t: StackTrace)
        ensures
            t.frames@.len() == walked@.len(),
            forall|i: int|
                0 <= i < walked@.len() ==> #[trigger] t.frames@[i] == frame_of(
                    walked@[i].0,
                    walked@[i].1@,
                ),
    {
        let ghost all = walked@;
        let mut frames: Vec<StackFrame> = Vec::new();
        for item in iter: walked.into_iter()
            invariant
                iter.seq() == all,
                frames@.len() == iter.index(),
                forall|k: int|
                    0 <= k < frames@.len() ==> #[trigger] frames@[k] == frame_of(
                        all[k].0,
                        all[k].1@,
                    ),
        {
            let (ip, syms) = item;
            frames.push(StackFrame::resolved(ip, syms));
        }
        StackTrace { frames }
    }

    /// The trace for the instruction pointers that a walk of the stack
    /// reported. A walk that reported none still happened somewhere: the
    /// trace then holds one frame without address or symbol for that place.
    /// Any other walk gives its frames, resolved.
    pub fn walked(ips: Vec<usize>) -> (t: StackTrace)
        ensures
            t.frames@.len() > 0,
            ips@.len() == 0 ==> t.frames@ == seq![frame_of(0, Seq::empty())],
            ips@.len() > 0 ==> t.frames@.len() == ips@.len(),
            forall|i: int| 0 <= i < ips@.len() ==> (#[trigger] t.frames@[i]).ip == ips@[i],
    {
        if ips.len() > 0 {
            StackTrace::resolving(ips)
        } else {
            let mut bare: Vec<(usize, Vec<Sym>)> = Vec::new();
            bare.push((0, Vec::new()));
            let t = StackTrace::assembled(bare);
            assert(t.frames@ =~= seq![frame_of(0, Seq::empty())]);
            t
        }
    }

    /// The trace for the frames at the given instruction pointers: every
    /// one is kept, in the order given and under its own pointer, and
    /// resolved as far as the symbol tables allow.
    pub fn resolving(ips: Vec<usize>) -> (t: StackTrace)
        ensures
            t.frames@.len() == ips@.len(),
            forall|i: int| 0 <= i < ips@.len() ==> (#[trigger] t.frames@[i]).ip == ips@[i],
    {
        let mut walked: Vec<(usize, Vec<Sym>)> = Vec::new();
        let mut i: usize = 0;
        while i < ips.len()
            invariant
                i <= ips.len(),
                walked@.len() == i,
                forall|k: int| 0 <= k < i ==> (#[trigger] walked@[k]).0 == ips@[k],
            decreases ips.len() - i,
        {
            let ip: usize = ips[i];
            walked.push((ip, resolve(ip)));
            i += 1;
        }
        StackTrace::assembled(walked)
    }
}

/// Captures the call stack of the caller: every active frame in order,
/// each resolved as far as the symbol tables allow. The trace always has a
/// frame: where the walk of the stack reports none, the place of capture
/// itself stands in the trace as one frame without address or symbol.
pub fn capture_stacktrace() -> (t: StackTrace)
    ensures
        t.frames@.len() > 0,
{
    StackTrace::walked(trace())
}

impl Error {
    /// The short text that describes an error.
    pub open spec fn description_of(self) -> Seq<char> {
        match self {
            Error::OptParse => "bad arguments"@,
            Error::TransportError(fault, _) => fault.message@,
            Error::RemoteProcessFailure(stderr, _) => stderr@,
        }
    }

    /// The cause under an error, which only a transport error has.
    pub open spec fn cause_of(self) -> Option<Fault> {
        match self {
            Error::TransportError(fault, _) => Some(fault),
            _ => None,
        }
    }

    /// The call stack attached to an error. A malformed command line
    /// carries none.
    pub open spec fn trace_of(self) -> Option<StackTrace> {
        match self {
            Error::OptParse => None,
            Error::TransportError(_, trace) => Some(trace),
            Error::RemoteProcessFailure(_, trace) => Some(trace),
        }
    }

    /// Whether this is a transport error whose cause is of the given kind
    /// and says the given text, with a call stack of at least one frame.
    pub open spec fn is_transport(self, kind: FaultKind, message: Seq<char>) -> bool {
        &&& self matches Error::TransportError(fault, trace)
        &&& fault.kind == kind
        &&& fault.message@ == message
        &&& trace.frames@.len() > 0
    }

    /// Whether this is the error of a remote command that failed and wrote
    /// the given text to its standard error, with a call stack of at least
    /// one frame.
    pub open spec fn is_remote_failure(self, stderr: Seq<char>) -> bool {
        &&& self matches Error::RemoteProcessFailure(text, trace)
        &&& text@ == stderr
        &&& trace.frames@.len() > 0
    }

    /// The short text that describes this error.
    pub fn description(&self) -> (r: &str)
        ensures
            r@ == self.description_of(),
    {
        match self {
            Error::OptParse => "bad arguments",
            Error::TransportError(fault, _) => fault.message.as_str(),
            Error::RemoteProcessFailure(stderr, _) => stderr.as_str(),
        }
    }

    /// The cause under this error, if it has one.
    pub fn cause(&self) -> (r: Option<&Fault>)
        ensures
            match r {
                Some(fault) => self.cause_of() == Some(*fault),
                None => self.cause_of() is None,
            },
    {
        match self {
            Error::TransportError(fault, _) => Some(fault),
            _ => None,
        }
    }

    /// A transport error for a fault of the given kind, with the call stack
    /// of the caller attached.
    pub fn transport(kind: FaultKind, message: String) -> (e: Error)
        ensures
            e.is_transport(kind, message@),
    {
        Error::TransportError(Fault { kind, message }, capture_stacktrace())
    }

    /// The error for a remote command that failed and wrote `stderr`, with
    /// the call stack of the caller attached.
    pub fn remote_failure(stderr: String) -> (e: Error)
        ensures
            e.is_remote_failure(stderr@),
    {
        Error::RemoteProcessFailure(stderr, capture_stacktrace())
    }

    /// The call stack attached to this error. A malformed command line
    /// carries none.
    pub fn trace(&self) -> (r: Option<&StackTrace>)
        ensures
            match r {
                Some(trace) => self.trace_of() == Some(*trace),
                None => self.trace_of() is None,
            },
    {
        match self {
            Error::OptParse => None,
            Error::TransportError(_, t) => Some(t),
            Error::RemoteProcessFailure(_, t) => Some(t),
        }
    }

    /// This error as it is shown: its description.
    pub fn to_string(&self) -> (r: String)
        ensures
            r@ == self.description_of(),
    {
        self.description().to_owned()
    }
}

/// The conversion attaches the call stack of the moment, so its result is
/// not a function of the error converted.
impl FromSpecImpl<DecoderError> for Error {
    open spec fn obeys_from_spec() -> bool {
        false
    }

    open spec fn from_spec(e: DecoderError) -> Error {
        arbitrary()
    }
}

impl From<DecoderError> for Error {
    /// A text that could not be decoded: a transport error of kind
    /// `Decode` that carries the decoder's description of itself.
    fn from(e: DecoderError) -> (r: Error)
        ensures
            r.is_transport(FaultKind::Decode, decoder_message()),
    {
        Error::transport(FaultKind::Decode, e.description().to_owned())
    }
}

/// The conversion attaches the call stack of the moment, so its result is
/// not a function of the error converted.
impl FromSpecImpl<EncoderError> for Error {
    open spec fn obeys_from_spec() -> bool {
        false
    }

    open spec fn from_spec(e: EncoderError) -> Error {
        arbitrary()
    }
}

impl From<EncoderError> for Error {
    /// A request that could not be printed: a transport error of kind
    /// `Encode` that carries the encoder's description of itself.
    fn from(e: EncoderError) -> (r: Error)
        ensures
            r.is_transport(FaultKind::Encode, "encoder error"@),
    {
        Error::transport(FaultKind::Encode, e.description().to_owned())
    }
}

/// The message of the fault raised for a text that cannot be decoded,
/// whether it is no JSON or JSON of another shape than the one expected.
pub open spec fn decoder_message() -> Seq<char> {
    "decoder error"@
}

/// The transport error for a text that the library itself finds it cannot
/// decode: one outside the parser's limits, or JSON of another shape than
/// the one expected.
pub fn decode_error() -> (e: Error)
    ensures
        e.is_transport(FaultKind::Decode, decoder_message()),
{
    Error::transport(FaultKind::Decode, "decoder error".to_owned())
}

/// Reads a text as JSON. A text outside the parser's limits is not handed
/// to the parser. It, and a text that is not JSON, is a transport error of
/// kind `Decode`.
pub fn decode(text: &str) -> (r: Result<Json, Error>)
    ensures
        match r {
            Ok(j) => parsed(text@) == Some(json_value(j)),
            Err(e) => parsed(text@) is None && e.is_transport(
                FaultKind::Decode,
                decoder_message(),
            ),
        },
{
    if !check(text) {
        return Err(decode_error());
    }
    match Json::from_str(text) {
        Ok(j) => Ok(j),
        Err(e) => Err(Error::from(DecoderError::from(e))),
    }
}

} // verus!
