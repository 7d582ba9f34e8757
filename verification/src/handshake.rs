//! The opening handshake as a state machine: the caller reads lines and writes
//! bytes, and tells the machine what happened; the machine says what to do
//! next.

use vstd::prelude::*;
use crate::accept::{response_for_key, spec_accept_token, spec_upgrade_response};
use crate::ascii::append;
use crate::header::{find_key, line_views, request_key};

verus! {

/// Why a handshake failed.
#[derive(Clone, Copy, Debug, PartialEq, Eq, Structural)]
pub enum HandshakeError {
    /// The input ended before the empty line that closes the request.
    IncompleteRequest,
    /// The request holds no key header.
    MissingKey,
    /// The response could not be written.
    WriteFailed,
}

/// How far a handshake has come.
#[derive(Clone, Copy, Debug, PartialEq, Eq, Structural)]
pub enum Phase {
    /// Lines of the request are still being read.
    Reading,
    /// The response was handed out and its write is awaited.
    Responding,
    /// The response was written: the connection is upgraded.
    Established,
    /// The handshake failed.
    Failed,
}

/// What the caller is to do next.
#[derive(Debug, PartialEq, Eq)]
pub enum Action {
    /// Read one more line and report it.
    ReadLine,
    /// Write these bytes and report whether the write succeeded.
    Send(Vec<u8>),
    /// The handshake is complete: go on to relay.
    Finish,
    /// The handshake failed: close the connection.
    Abort(HandshakeError),
    /// The event does not belong to the current phase and was ignored.
    Nothing,
}

/// The handshake of one connection.
pub struct Handshake {
    /// The lines read so far, the closing empty line not among them.
    pub lines: Vec<Vec<u8>>,
    pub phase: Phase,
}

/// Whether `line` is the empty line that closes a request: a line terminator
/// alone, CR LF or a bare LF.
pub open spec fn is_blank_line(line: Seq<u8>) -> bool {
    line == seq![0x0du8, 0x0au8] || line == seq![0x0au8]
}

/// The answer to a complete request: the upgrade response for its key, or
/// `MissingKey` where it has none.
pub open spec fn spec_answer(lines: Seq<Seq<u8>>) -> Result<Seq<u8>, HandshakeError> {
    match request_key(lines) {
        Some(key) => Ok(spec_upgrade_response(spec_accept_token(key))),
        None => Err(HandshakeError::MissingKey),
    }
}

/// Tests for the empty line that closes a request.
pub fn is_blank(line: &[u8]) -> (r: bool)
    ensures
        r == is_blank_line(line@),
{
    if line.len() == 1 {
        let r = line[0] == 0x0a;
        assert(r == (line@ =~= seq![0x0au8]));
        r
    } else if line.len() == 2 {
        let r = line[0] == 0x0d && line[1] == 0x0a;
        assert(r == (line@ =~= seq![0x0du8, 0x0au8]));
        r
    } else {
        assert(seq![0x0du8, 0x0au8].len() == 2 && seq![0x0au8].len() == 1);
        false
    }
}

/// Answers a complete request: the bytes of the upgrade response, or
/// `MissingKey` exactly when no line is a key header.
pub fn answer(lines: &Vec<Vec<u8>>) -> (r: Result<Vec<u8>, HandshakeError>)
    ensures
        match r {
            Ok(bytes) => spec_answer(line_views(lines@)) == Ok::<Seq<u8>, HandshakeError>(bytes@),
            Err(e) => spec_answer(line_views(lines@)) == Err::<Seq<u8>, HandshakeError>(e),
        },
{
    match find_key(lines) {
        Some(key) => Ok(response_for_key(key.as_slice())),
        None => Err(HandshakeError::MissingKey),
    }
}

impl Handshake {
    /// The request read so far, line by line.
    pub open spec fn request(&self) -> Seq<Seq<u8>> {
        line_views(self.lines@)
    }

    /// A handshake that has read nothing yet.
    pub fn new() -> (h: Handshake)
        ensures
            h.phase == Phase::Reading,
            h.lines@.len() == 0,
            h.request() == Seq::<Seq<u8>>::empty(),
    {
        Handshake { lines: Vec::new(), phase: Phase::Reading }
    }

    /// The phase the handshake is in.
    pub fn phase(&self) -> (p: Phase)
        ensures
            p == self.phase,
    {
        self.phase
    }

    /// Whether the handshake has ended, well or badly.
    pub fn is_over(&self) -> (r: bool)
        ensures
            r == (self.phase == Phase::Established || self.phase == Phase::Failed),
    {
        match self.phase {
            Phase::Established => true,
            Phase::Failed => true,
            _ => false,
        }
    }

    /// Takes one line of the request, terminator included.
    ///
    /// While reading, a line that is not empty is kept and another is asked
    /// for. The empty line ends the request: with a key among the lines kept,
    /// the response is handed out to be sent; without one the handshake fails
    /// with `MissingKey` and nothing is to be sent. In any other phase the line
    /// is ignored.
    pub fn on_line(&mut self, line: Vec<u8>) -> (action: Action)
        ensures
            old(self).phase != Phase::Reading ==> {
                &&& *final(self) == *old(self)
                &&& action == Action::Nothing
            },
            old(self).phase == Phase::Reading && !is_blank_line(line@) ==> {
                &&& final(self).phase == Phase::Reading
                &&& final(self).lines@ == old(self).lines@.push(line)
                &&& final(self).request() == old(self).request().push(line@)
                &&& action == Action::ReadLine
            },
            old(self).phase == Phase::Reading && is_blank_line(line@) ==> {
                &&& final(self).lines@ == old(self).lines@
                &&& match spec_answer(old(self).request()) {
                    Ok(bytes) => {
                        &&& final(self).phase == Phase::Responding
                        &&& action matches Action::Send(sent)
                        &&& sent@ == bytes
                    },
                    Err(e) => final(self).phase == Phase::Failed && action == Action::Abort(e),
                }
            },
    {
        match self.phase {
            Phase::Reading => {
                if is_blank(line.as_slice()) {
                    match answer(&self.lines) {
                        Ok(bytes) => {
                            self.phase = Phase::Responding;
                            Action::Send(bytes)
                        },
                        Err(e) => {
                            self.phase = Phase::Failed;
                            Action::Abort(e)
                        },
                    }
                } else {
                    self.lines.push(line);
                    assert(self.request() =~= old(self).request().push(line@));
                    Action::ReadLine
                }
            },
            _ => Action::Nothing,
        }
    }

    /// Takes the end of the input. While reading, the request is incomplete
    /// and the handshake fails; in any other phase the event is ignored.
    pub fn on_end_of_input(&mut self) -> (action: Action)
        ensures
            final(self).lines == old(self).lines,
            old(self).phase == Phase::Reading ==> final(self).phase == Phase::Failed && action
                == Action::Abort(HandshakeError::IncompleteRequest),
            old(self).phase != Phase::Reading ==> final(self).phase == old(self).phase && action
                == Action::Nothing,
    {
        match self.phase {
            Phase::Reading => {
                self.phase = Phase::Failed;
                Action::Abort(HandshakeError::IncompleteRequest)
            },
            _ => Action::Nothing,
        }
    }

    /// Takes the outcome of writing the response. A write that succeeded
    /// completes the handshake; one that failed fails it with `WriteFailed`.
    /// In any phase but `Responding` the event is ignored.
    pub fn on_write_result(&mut self, written: bool) -> (action: Action)
        ensures
            final(self).lines == old(self).lines,
            old(self).phase == Phase::Responding && written ==> final(self).phase
                == Phase::Established && action == Action::Finish,
            old(self).phase == Phase::Responding && !written ==> final(self).phase == Phase::Failed
                && action == Action::Abort(HandshakeError::WriteFailed),
            old(self).phase != Phase::Responding ==> final(self).phase == old(self).phase && action
                == Action::Nothing,
    {
        match self.phase {
            Phase::Responding => {
                if written {
                    self.phase = Phase::Established;
                    Action::Finish
                } else {
                    self.phase = Phase::Failed;
                    Action::Abort(HandshakeError::WriteFailed)
                }
            },
            _ => Action::Nothing,
        }
    }
}

/// The result of a handshake that has ended: `Ok` once established, the error
/// of the action that aborted it otherwise.
pub fn outcome(last: &Action) -> (r: Option<Result<(), HandshakeError>>)
    ensures
        r == match *last {
            Action::Finish => Some(Ok::<(), HandshakeError>(())),
            Action::Abort(e) => Some(Err::<(), HandshakeError>(e)),
            _ => None,
        },
{
    match last {
        Action::Finish => Some(Ok(())),
        Action::Abort(e) => Some(Err(*e)),
        _ => None,
    }
}

/// Where the first empty line of a stream of lines stands: its index, or the
/// number of lines where none is empty.
pub open spec fn first_blank(stream: Seq<Seq<u8>>) -> int
    decreases stream.len(),
{
    if stream.len() == 0 || is_blank_line(stream[0]) {
        0
    } else {
        1 + first_blank(stream.skip(1))
    }
}

/// What a handshake comes to on a stream of lines that then ends: the answer to
/// the lines before the first empty line or, where no line is empty,
/// `IncompleteRequest`. Lines after the first empty line are not read.
pub open spec fn spec_decide(stream: Seq<Seq<u8>>) -> Result<Seq<u8>, HandshakeError> {
    let n = first_blank(stream);
    if n >= stream.len() {
        Err(HandshakeError::IncompleteRequest)
    } else {
        spec_answer(stream.take(n))
    }
}

/// The first empty line of a stream stands within it, no line before it is
/// empty, and it is empty itself.
pub proof fn first_blank_is_first(stream: Seq<Seq<u8>>)
    ensures
        0 <= first_blank(stream) <= stream.len(),
        forall|j: int| 0 <= j < first_blank(stream) ==> !is_blank_line(#[trigger] stream[j]),
        first_blank(stream) < stream.len() ==> is_blank_line(stream[first_blank(stream)]),
    decreases stream.len(),
{
    if stream.len() == 0 || is_blank_line(stream[0]) {
    } else {
        let rest = stream.skip(1);
        first_blank_is_first(rest);
        assert forall|j: int| 0 <= j < first_blank(stream) implies !is_blank_line(
            #[trigger] stream[j],
        ) by {
            if j > 0 {
                assert(stream[j] == rest[j - 1]);
            }
        }
        if first_blank(stream) < stream.len() {
            assert(stream[first_blank(stream)] == rest[first_blank(rest)]);
        }
    }
}

/// The index of the first empty line is the only one with nothing empty before
/// it that is empty itself or the end of the stream.
pub proof fn first_blank_is_unique(stream: Seq<Seq<u8>>, n: int)
    requires
        0 <= n <= stream.len(),
        forall|j: int| 0 <= j < n ==> !is_blank_line(#[trigger] stream[j]),
        n < stream.len() ==> is_blank_line(stream[n]),
    ensures
        first_blank(stream) == n,
{
    first_blank_is_first(stream);
    let m = first_blank(stream);
    if m < n {
        assert(!is_blank_line(stream[m]));
    } else if n < m {
        assert(!is_blank_line(stream[n]));
    }
}

/// Runs a handshake over a stream of lines that then ends, and gives what it
/// comes to: the bytes of the response that is to be sent, or the error.
pub fn decide(stream: &Vec<Vec<u8>>) -> (r: Result<Vec<u8>, HandshakeError>)
    ensures
        match r {
            Ok(bytes) => spec_decide(line_views(stream@)) == Ok::<Seq<u8>, HandshakeError>(bytes@),
            Err(e) => spec_decide(line_views(stream@)) == Err::<Seq<u8>, HandshakeError>(e),
        },
{
    let ghost all = line_views(stream@);
    let mut machine = Handshake::new();
    let mut i: usize = 0;
    assert(all.take(0) =~= machine.request());
    while i < stream.len()
        invariant
            i <= stream.len(),
            all == line_views(stream@),
            machine.phase == Phase::Reading,
            machine.request() == all.take(i as int),
            forall|j: int| 0 <= j < i ==> !is_blank_line(#[trigger] all[j]),
        decreases stream.len() - i,
    {
        let mut line: Vec<u8> = Vec::new();
        append(&mut line, stream[i].as_slice());
        assert(line@ =~= all[i as int]);
        let action = machine.on_line(line);
        match action {
            Action::Send(bytes) => {
                proof {
                    first_blank_is_unique(all, i as int);
                }
                return Ok(bytes);
            },
            Action::Abort(e) => {
                proof {
                    first_blank_is_unique(all, i as int);
                }
                return Err(e);
            },
            _ => {
                assert(all.take(i as int).push(all[i as int]) =~= all.take(i + 1));
            },
        }
        i += 1;
    }
    proof {
        first_blank_is_unique(all, all.len() as int);
    }
    match machine.on_end_of_input() {
        Action::Abort(e) => Err(e),
        _ => Err(HandshakeError::IncompleteRequest),
    }
}

/// A stream that ends before any empty line fails as incomplete, whatever its
/// lines hold.
pub proof fn no_blank_line_is_incomplete(stream: Seq<Seq<u8>>)
    requires
        forall|j: int| 0 <= j < stream.len() ==> !is_blank_line(#[trigger] stream[j]),
    ensures
        spec_decide(stream) == Err::<Seq<u8>, HandshakeError>(HandshakeError::IncompleteRequest),
{
    first_blank_is_unique(stream, stream.len() as int);
}

/// A stream with an empty line and no key header before it fails with
/// `MissingKey`: there is nothing to send.
pub proof fn no_key_is_missing_key(stream: Seq<Seq<u8>>)
    requires
        first_blank(stream) < stream.len(),
        crate::header::has_no_key(stream.take(first_blank(stream))),
    ensures
        spec_decide(stream) == Err::<Seq<u8>, HandshakeError>(HandshakeError::MissingKey),
{
    no_key_no_response(stream.take(first_blank(stream)));
}

/// A request without a key header is never answered: its answer is
/// `MissingKey`, whatever else its lines hold.
pub proof fn no_key_no_response(lines: Seq<Seq<u8>>)
    requires
        crate::header::has_no_key(lines),
    ensures
        spec_answer(lines) == Err::<Seq<u8>, HandshakeError>(HandshakeError::MissingKey),
{
    crate::header::request_key_is_first(lines);
    match request_key(lines) {
        Some(key) => {
            let i = choose|i: int|
                0 <= i < lines.len() && crate::header::is_key_line(#[trigger] lines[i]);
            assert(false);
        },
        None => {},
    }
}

/// A request with a key header is answered with the upgrade response for the
/// key of the first such line, however the header's name is cased.
pub proof fn key_gives_response(lines: Seq<Seq<u8>>, i: int)
    requires
        0 <= i < lines.len(),
        crate::header::is_key_line(lines[i]),
        forall|j: int| 0 <= j < i ==> !crate::header::is_key_line(#[trigger] lines[j]),
    ensures
        spec_answer(lines) == Ok::<Seq<u8>, HandshakeError>(
            spec_upgrade_response(spec_accept_token(crate::header::key_value(lines[i]))),
        ),
{
    crate::header::request_key_is_first(lines);
    match request_key(lines) {
        Some(key) => {
            let k = choose|k: int|
                0 <= k < lines.len() && crate::header::is_key_line(#[trigger] lines[k]) && key
                    == crate::header::key_value(lines[k]) && forall|j: int|
                    0 <= j < k ==> !crate::header::is_key_line(#[trigger] lines[j]);
            assert(k == i);
        },
        None => {
            assert(false);
        },
    }
}

} // verus!
