//! Overlapped (asynchronous) reads and writes on a Windows device handle:
//! one read and one write can be in flight at a time; a completed read is
//! handed out in pieces, and a write that went out in part is scheduled again
//! for the rest. The caller issues the overlapped operations and reports their
//! completions; the decisions stand here.
use crate::ifcontrol::IoError;
use vstd::prelude::*;

verus! {

/// `ERROR_BROKEN_PIPE`: the other end is gone, which a read reports as the end.
pub const ERROR_BROKEN_PIPE: i32 = 109;

/// The state of one direction (read or write) of a handle.
#[derive(Debug)]
pub enum IoState {
    /// Nothing is in flight.
    Idle,
    /// An operation is in flight. For a write: `buf` is being written from `pos` on.
    Pending { buf: Vec<u8>, pos: usize },
    /// A read completed with `data`; its first `cur` bytes were handed out.
    Ready { data: Vec<u8>, cur: usize },
    /// The last operation failed.
    Failed(IoError),
}

impl IoState {
    /// Positions stay within their buffers.
    pub open spec fn wf(&self) -> bool {
        match self {
            IoState::Pending { buf, pos } => *pos <= buf@.len(),
            IoState::Ready { data, cur } => *cur <= data@.len(),
            _ => true,
        }
    }
}

/// What a read gives.
#[derive(Debug)]
pub enum ReadOutcome {
    /// Nothing to read yet.
    WouldBlock,
    /// These bytes (none at the end of the stream).
    Data(Vec<u8>),
    Error(IoError),
}

/// The smaller of `a` and `b`.
pub open spec fn min(a: int, b: int) -> int {
    if a <= b {
        a
    } else {
        b
    }
}

/// Where a read of at most `want` bytes, from position `cur` of a completed
/// read of `len` bytes, stops.
pub open spec fn read_end(len: int, cur: int, want: int) -> int {
    cur + min(want, len - cur)
}

/// Handing a completed read out in two pieces, of at most `a` and then at
/// most `b` bytes, gives the same bytes, in the same order, as one piece of at
/// most `a + b` bytes.
pub proof fn lemma_reads_concatenate(data: Seq<u8>, cur: int, a: int, b: int)
    requires
        0 <= cur <= data.len(),
        0 <= a,
        0 <= b,
    ensures
        ({
            let mid = read_end(data.len() as int, cur, a);
            let end = read_end(data.len() as int, mid, b);
            &&& end == read_end(data.len() as int, cur, a + b)
            &&& data.subrange(cur, mid) + data.subrange(mid, end) == data.subrange(cur, end)
        }),
{
    let mid = read_end(data.len() as int, cur, a);
    let end = read_end(data.len() as int, mid, b);
    assert(data.subrange(cur, mid) + data.subrange(mid, end) =~= data.subrange(cur, end));
}

/// A read of at most `want` bytes. Where the handle is not registered with an
/// event loop, or nothing completed yet, it would block. A completed read is
/// handed out from where the last read stopped; once all of it is handed out,
/// a new read is to be scheduled (the second result). A failed read is
/// reported (a broken pipe as the end of the stream) and a new read is to be
/// scheduled.
pub fn read_poll(state: &mut IoState, registered: bool, want: usize) -> (r: (ReadOutcome, bool))
    requires
        old(state).wf(),
    ensures
        final(state).wf(),
        !registered ==> r.0 is WouldBlock && !r.1 && *final(state) == *old(state),
        registered && ((*old(state)) is Idle || (*old(state)) is Pending) ==> r.0 is WouldBlock && !r.1
            && *final(state) == *old(state),
        registered && (*old(state)) is Ready ==> {
            let data = (*old(state))->Ready_data;
            let cur = (*old(state))->Ready_cur as int;
            let next = read_end(data@.len() as int, cur, want as int);
            &&& (r.0 matches ReadOutcome::Data(v) && v@ == data@.subrange(cur, next))
            &&& next != data@.len() ==> !r.1 && *final(state) == (IoState::Ready {
                data,
                cur: next as usize,
            })
            &&& next == data@.len() ==> r.1 && *final(state) is Idle
        },
        registered && (*old(state)) is Failed ==> {
            let e = (*old(state))->Failed_0;
            &&& r.1 && *final(state) is Idle
            &&& e.raw_os_error == Some(ERROR_BROKEN_PIPE) ==> (r.0 matches ReadOutcome::Data(v)
                && v@.len() == 0)
            &&& e.raw_os_error != Some(ERROR_BROKEN_PIPE) ==> r.0 == ReadOutcome::Error(e)
        },
{
    if !registered {
        return (ReadOutcome::WouldBlock, false);
    }
    let mut taken = IoState::Idle;
    std::mem::swap(&mut taken, state);
    match taken {
        IoState::Idle => (ReadOutcome::WouldBlock, false),
        IoState::Pending { buf, pos } => {
            *state = IoState::Pending { buf, pos };
            (ReadOutcome::WouldBlock, false)
        },
        IoState::Ready { data, cur } => {
            let left = data.len() - cur;
            let n = if want < left {
                want
            } else {
                left
            };
            let mut out: Vec<u8> = Vec::new();
            let mut i: usize = 0;
            while i < n
                invariant
                    cur + n <= data.len(),
                    i <= n,
                    out@ =~= data@.subrange(cur as int, cur + i),
                decreases n - i,
            {
                out.push(data[cur + i]);
                i = i + 1;
            }
            let next = cur + n;
            if next != data.len() {
                *state = IoState::Ready { data, cur: next };
                (ReadOutcome::Data(out), false)
            } else {
                (ReadOutcome::Data(out), true)
            }
        },
        IoState::Failed(e) => {
            let broken = match e.raw_os_error {
                Some(code) => code == ERROR_BROKEN_PIPE,
                None => false,
            };
            if broken {
                (ReadOutcome::Data(Vec::new()), true)
            } else {
                (ReadOutcome::Error(e), true)
            }
        },
    }
}

/// `ERROR_PIPE_LISTENING`: the pipe is not connected at its other end.
pub const ERROR_PIPE_LISTENING: i32 = 536;

/// What came of scheduling a read.
#[derive(Debug, Clone, Copy, PartialEq, Eq, Structural)]
pub enum ReadScheduling {
    /// A read was already in flight, or its data or error are still to be
    /// handed out: nothing was done.
    AlreadyScheduled,
    /// The read is in flight; the handle is not readable until it completes.
    InFlight,
    /// The read failed at once; the handle is to be marked readable so that
    /// the next read reports the error.
    FailedNow,
    /// The pipe is not connected: no read was scheduled, and the handle is
    /// not readable.
    NotConnected,
}

impl ReadScheduling {
    /// Whether a read stands scheduled, or a normal error is to be reported:
    /// all but a pipe that is not connected.
    pub fn scheduled(&self) -> (r: bool)
        ensures
            r == !(*self is NotConnected),
    {
        match self {
            ReadScheduling::NotConnected => false,
            _ => true,
        }
    }
}

/// Whether a new read is due: nothing is in flight and nothing is left to
/// hand out. The caller issues the overlapped read only then.
pub fn read_due(state: &IoState) -> (r: bool)
    ensures
        r == (*state is Idle),
{
    match state {
        IoState::Idle => true,
        _ => false,
    }
}

/// Scheduling a read, with what issuing it gave (`started`). Where a read is
/// not due, nothing changes. A read that started is in flight; one that failed
/// at once leaves its error to be reported, except where the pipe is not
/// connected, which schedules nothing.
pub fn read_scheduled(state: &mut IoState, started: Result<(), IoError>) -> (r: ReadScheduling)
    requires
        old(state).wf(),
    ensures
        final(state).wf(),
        !((*old(state)) is Idle) ==> r == ReadScheduling::AlreadyScheduled && *final(state)
            == *old(state),
        (*old(state)) is Idle && started is Ok ==> r == ReadScheduling::InFlight && (
        *final(state) matches IoState::Pending { buf, pos } && buf@.len() == 0 && pos == 0),
        (*old(state)) is Idle ==> (started matches Err(e) ==> {
            &&& e.raw_os_error == Some(ERROR_PIPE_LISTENING) ==> r == ReadScheduling::NotConnected
                && *final(state) is Idle
            &&& e.raw_os_error != Some(ERROR_PIPE_LISTENING) ==> r == ReadScheduling::FailedNow
                && *final(state) == IoState::Failed(e)
        }),
{
    if !read_due(state) {
        return ReadScheduling::AlreadyScheduled;
    }
    match started {
        Ok(()) => {
            *state = IoState::Pending { buf: Vec::new(), pos: 0 };
            ReadScheduling::InFlight
        },
        Err(e) => {
            let listening = match e.raw_os_error {
                Some(code) => code == ERROR_PIPE_LISTENING,
                None => false,
            };
            if listening {
                ReadScheduling::NotConnected
            } else {
                *state = IoState::Failed(e);
                ReadScheduling::FailedNow
            }
        },
    }
}

/// The read in flight completed: with these bytes, or with an error.
pub fn read_done(state: &mut IoState, result: Result<Vec<u8>, IoError>)
    requires
        (*old(state)) is Pending,
    ensures
        final(state).wf(),
        result matches Ok(d) ==> *final(state) == (IoState::Ready { data: d, cur: 0 }),
        result matches Err(e) ==> *final(state) == IoState::Failed(e),
{
    match result {
        Ok(data) => {
            *state = IoState::Ready { data, cur: 0 };
        },
        Err(e) => {
            *state = IoState::Failed(e);
        },
    }
}

/// A write of `buf`. Where the handle is not registered, or a write is in
/// flight or failed, it would block (`None`). Otherwise the whole buffer is
/// accepted and is to be written from its start (a copy of it is returned).
pub fn write_poll(state: &IoState, registered: bool, buf: &[u8]) -> (r: Option<Vec<u8>>)
    ensures
        !(registered && *state is Idle) ==> r is None,
        registered && *state is Idle ==> (r matches Some(v) && v@ == buf@),
{
    if !registered {
        return None;
    }
    match state {
        IoState::Idle => {
            let mut v: Vec<u8> = Vec::new();
            let mut i: usize = 0;
            while i < buf.len()
                invariant
                    i <= buf@.len(),
                    v@ =~= buf@.take(i as int),
                decreases buf@.len() - i,
            {
                v.push(buf[i]);
                i = i + 1;
            }
            assert(v@ =~= buf@);
            Some(v)
        },
        _ => None,
    }
}

/// A write of `buf` from `pos` on was scheduled: it is in flight, or it failed
/// at once.
pub fn write_scheduled(state: &mut IoState, buf: Vec<u8>, pos: usize, started: Result<(), IoError>)
    requires
        (*old(state)) is Idle,
        pos <= buf@.len(),
    ensures
        final(state).wf(),
        started is Ok ==> *final(state) == (IoState::Pending { buf, pos }),
        started matches Err(e) ==> *final(state) == IoState::Failed(e),
{
    match started {
        Ok(()) => {
            *state = IoState::Pending { buf, pos };
        },
        Err(e) => {
            *state = IoState::Failed(e);
        },
    }
}

/// What follows a completed write.
#[derive(Debug)]
pub enum WriteNext {
    /// The handle can take another write.
    Writable,
    /// The buffer went out in part: write it again from `pos` on.
    Reschedule { buf: Vec<u8>, pos: usize },
}

/// The write in flight completed, with `n` more bytes written or with an
/// error. A buffer written whole frees the handle for the next write; one
/// written in part is to be written again from where it stopped.
pub fn write_done(state: &mut IoState, result: Result<usize, IoError>) -> (r: WriteNext)
    requires
        (*old(state)) is Pending,
        old(state).wf(),
        result matches Ok(n) ==> (*old(state))->Pending_pos + n <= (*old(state))->Pending_buf@.len(),
    ensures
        final(state).wf(),
        result matches Ok(n) ==> {
            let buf = (*old(state))->Pending_buf;
            let next = (*old(state))->Pending_pos + n;
            &&& *final(state) is Idle
            &&& next == buf@.len() ==> r is Writable
            &&& next != buf@.len() ==> r == (WriteNext::Reschedule { buf, pos: next as usize })
        },
        result matches Err(e) ==> *final(state) == IoState::Failed(e) && r is Writable,
{
    let mut taken = IoState::Idle;
    std::mem::swap(&mut taken, state);
    match taken {
        IoState::Pending { buf, pos } => match result {
            Ok(n) => {
                assert(pos + n <= buf.len());
                let next = pos + n;
                if next == buf.len() {
                    WriteNext::Writable
                } else {
                    WriteNext::Reschedule { buf, pos: next }
                }
            },
            Err(e) => {
                *state = IoState::Failed(e);
                WriteNext::Writable
            },
        },
        _ => WriteNext::Writable,
    }
}

} // verus!
