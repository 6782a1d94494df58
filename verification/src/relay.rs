//! The command relay's decision logic. A relay attempt opens a transient
//! connection, writes the command's raw bytes, and then repeats one step:
//! wait until the socket is readable and try a non-blocking read. What each
//! read outcome means — first chunk wins, a silent close yields the literal
//! fallback `"OK"`, a would-block spins, any other failure is an error — is
//! decided here, as pure functions over recorded outcomes; the I/O shell
//! around them performs the connect, write, and reads and is torn down on
//! every path.

use vstd::prelude::*;
use vstd::string::StringExecFns;

verus! {

/// The command payload a caller hands to the relay: the text to forward to
/// a node's raw command port.
pub struct Command {
    pub name: String,
}

/// A failed relay attempt, with the underlying transport cause as text
/// (for diagnostics, never for branching).
#[derive(Debug, PartialEq, Eq)]
pub enum RelayError {
    /// The connection could not be opened; a single attempt, no retry.
    ConnectFailed(String),
    /// The command's bytes could not be written in full.
    WriteFailed(String),
    /// A read failed with something other than would-block.
    ReadFailed(String),
}

/// What one wait-then-try-read step against the socket produced.
#[derive(Debug)]
pub enum ReadEvent {
    /// The read yielded these bytes (at least one; at most the read
    /// buffer's size).
    Data(Vec<u8>),
    /// The read yielded zero bytes: the peer closed without sending.
    Closed,
    /// The non-blocking read reported would-block.
    WouldBlock,
    /// The read failed, with the cause as text.
    Failed(String),
}

/// What the relay does after one read outcome.
pub enum RelayAction {
    /// Wait for readability again and retry the read.
    Retry,
    /// Tear the connection down and return this result.
    Finish(Result<String, RelayError>),
}

/// The prefix a successful response is reported under.
pub open spec fn response_prefix() -> Seq<char> {
    "response: "@
}

pub uninterp spec fn lossy_utf8(b: Seq<u8>) -> Seq<char>;

/// Relies on `String::from_utf8_lossy`: the decoding is a function of the
/// bytes alone (invalid UTF-8 sequences become replacement characters),
/// and no bytes decode to no characters.
#[verifier::external_body]
fn decode_lossy(b: &[u8]) -> (r: String)
    ensures
        r@ == lossy_utf8(b@),
        b@.len() == 0 ==> r@.len() == 0,
{
    String::from_utf8_lossy(b).into_owned()
}

/// The string a first response chunk is relayed as: the report prefix
/// followed by the chunk decoded as UTF-8, lossily.
pub fn response_string(bytes: &Vec<u8>) -> (r: String)
    ensures
        r@ == response_prefix() + lossy_utf8(bytes@),
{
    let mut r = "response: ".to_owned();
    let tail = decode_lossy(bytes.as_slice());
    r.append(tail.as_str());
    r
}

/// The result a decisive (non-would-block) read outcome is answered with:
/// data is relayed as the prefixed first chunk, a silent close as the
/// literal `"OK"`, a failed read as `ReadFailed` with its cause.
pub open spec fn decision_of(e: ReadEvent, res: Result<String, RelayError>) -> bool {
    match e {
        ReadEvent::Data(b) => res matches Ok(s) && s@ == response_prefix() + lossy_utf8(b@),
        ReadEvent::Closed => res matches Ok(s) && s@ == "OK"@,
        ReadEvent::WouldBlock => false,
        ReadEvent::Failed(c) => res matches Err(RelayError::ReadFailed(c2)) && c2@ == c@,
    }
}

/// Decides one step of the read loop: retry exactly on would-block, and
/// finish every other outcome with the result `decision_of` prescribes.
pub fn relay_step(e: &ReadEvent) -> (r: RelayAction)
    ensures
        r is Retry <==> *e is WouldBlock,
        r matches RelayAction::Finish(res) ==> decision_of(*e, res),
{
    match e {
        ReadEvent::Data(b) => RelayAction::Finish(Ok(response_string(b))),
        ReadEvent::Closed => RelayAction::Finish(Ok("OK".to_owned())),
        ReadEvent::WouldBlock => RelayAction::Retry,
        ReadEvent::Failed(c) => RelayAction::Finish(Err(RelayError::ReadFailed(c.clone()))),
    }
}

/// The first read outcome that is not a would-block, if any: the one the
/// relay's answer is decided by.
pub open spec fn first_decisive(events: Seq<ReadEvent>) -> Option<ReadEvent>
    decreases events.len(),
{
    if events.len() == 0 {
        None
    } else if !(events[0] is WouldBlock) {
        Some(events[0])
    } else {
        first_decisive(events.drop_first())
    }
}

/// A prefix of would-blocks decides nothing: the first decisive outcome of
/// the whole sequence is that of the rest.
proof fn lemma_first_decisive_skip(s: Seq<ReadEvent>, i: int)
    requires
        0 <= i <= s.len(),
        forall|j: int| 0 <= j < i ==> s[j] is WouldBlock,
    ensures
        first_decisive(s) == first_decisive(s.skip(i)),
    decreases i,
{
    if i == 0 {
        assert(s.skip(0) =~= s);
    } else {
        assert(s[0] is WouldBlock);
        assert(s.drop_first() =~= s.skip(1));
        assert forall|j: int| 0 <= j < i - 1 implies s.skip(1)[j] is WouldBlock by {
            assert(s.skip(1)[j] == s[j + 1]);
        }
        lemma_first_decisive_skip(s.skip(1), i - 1);
        assert(s.skip(1).skip(i - 1) =~= s.skip(i));
    }
}

/// Runs the read loop over a recorded sequence of read outcomes: spins
/// past would-blocks and answers with the first decisive outcome's result.
/// `None` models the loop never deciding — the attempt that blocks forever
/// because the peer neither sends nor closes.
pub fn relay_drain(events: &Vec<ReadEvent>) -> (r: Option<Result<String, RelayError>>)
    ensures
        match r {
            Some(res) => first_decisive(events@) matches Some(e) && decision_of(e, res),
            None => first_decisive(events@) is None,
        },
{
    let n = events.len();
    let mut i: usize = 0;
    while i < n
        invariant
            i <= n,
            n == events@.len(),
            forall|j: int| 0 <= j < i ==> events@[j] is WouldBlock,
        decreases n - i,
    {
        let act = relay_step(&events[i]);
        match act {
            RelayAction::Retry => {
                i = i + 1;
            },
            RelayAction::Finish(res) => {
                proof {
                    lemma_first_decisive_skip(events@, i as int);
                    assert(events@.skip(i as int)[0] == events@[i as int]);
                }
                return Some(res);
            },
        }
    }
    proof {
        lemma_first_decisive_skip(events@, n as int);
        assert(events@.skip(n as int) =~= Seq::<ReadEvent>::empty());
    }
    None
}

/// The whole relay attempt over recorded transport outcomes: a failed
/// connect is answered with `ConnectFailed` at once, a failed write with
/// `WriteFailed`, and otherwise the read loop's answer, as `relay_drain`
/// gives it. The I/O shell behaves as this function decides, feeding it
/// the outcomes the socket actually produced.
pub fn relay_session(
    connect: &Result<(), String>,
    write: &Result<(), String>,
    reads: &Vec<ReadEvent>,
) -> (r: Option<Result<String, RelayError>>)
    ensures
        connect matches Err(c) ==> r matches Some(Err(RelayError::ConnectFailed(c2)))
            && c2@ == c@,
        connect is Ok ==> (write matches Err(c) ==> r matches Some(
            Err(RelayError::WriteFailed(c2)),
        ) && c2@ == c@),
        connect is Ok && write is Ok ==> match r {
            Some(res) => first_decisive(reads@) matches Some(e) && decision_of(e, res),
            None => first_decisive(reads@) is None,
        },
{
    match connect {
        Result::Err(c) => {
            return Some(Err(RelayError::ConnectFailed(c.clone())));
        },
        Result::Ok(_) => {},
    }
    match write {
        Result::Err(c) => {
            return Some(Err(RelayError::WriteFailed(c.clone())));
        },
        Result::Ok(_) => {},
    }
    relay_drain(reads)
}

} // verus!
