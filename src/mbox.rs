//! The property mailbox: a request/response channel to the firmware over a
//! shared, 16-byte aligned buffer of 32-bit words.
//!
//! A call uploads the buffer, waits for room in the outbound channel, rings
//! the doorbell with the buffer's address and the channel number, waits for
//! the reply that carries the same value, and downloads the buffer again.
use vstd::prelude::*;
use crate::Access;

verus! {

/// The mailbox registers.
pub const MBOX_READ: u32 = 0x3F00_B880;
pub const MBOX_STATUS: u32 = 0x3F00_B898;
pub const MBOX_WRITE: u32 = 0x3F00_B8A0;

/// MBOX_STATUS bits.
pub const MBOX_FULL: u32 = 0x8000_0000;
pub const MBOX_EMPTY: u32 = 0x4000_0000;

/// Request/response code word of a buffer.
pub const MBOX_REQUEST: u32 = 0;
pub const MBOX_RESPONSE: u32 = 0x8000_0000;

/// Set in a tag's request/response size word when the firmware answered it.
pub const TAG_RESPONSE_BIT: u32 = 0x8000_0000;

/// The tag that ends a buffer.
pub const TAG_LAST: u32 = 0;

/// The property channel (ARM to VideoCore).
pub const CHANNEL_PROP: u32 = 8;

/// How many times a call may find the mailbox not ready before it gives up.
pub const MBOX_POLL_LIMIT: u32 = 1_000_000;

/// Capacity of the message buffer, in words.
pub const MBOX_WORDS: usize = 36;

/// Why a mailbox call failed.
#[derive(Clone, Copy, Debug, PartialEq, Eq, Structural)]
pub enum MailboxError {
    /// The firmware rejected the request or did not answer one of its tags.
    ResponseError,
    /// A wait on the mailbox status ran out of polls.
    Timeout,
}

/// Where a call stands.
#[derive(Clone, Copy, Debug, PartialEq, Eq, Structural)]
pub enum CallPhase {
    /// Writing buffer word `next` to shared memory.
    Upload { next: usize },
    /// Polling MBOX_STATUS until the outbound channel has room.
    WaitNotFull,
    /// Writing the doorbell value to MBOX_WRITE.
    Doorbell,
    /// Polling MBOX_STATUS until the inbound channel holds a reply.
    WaitReply,
    /// Reading a reply from MBOX_READ.
    ReadReply,
    /// Reading buffer word `next` back from shared memory.
    Download { next: usize },
    /// No call in progress.
    Idle,
}

/// What a mailbox holds, as the contracts see it.
pub struct MboxModel {
    pub buffer: Seq<u32>,
    pub addr: u32,
    pub message: u32,
    pub phase: CallPhase,
    pub polls_left: u32,
    pub timed_out: bool,
}

/// The mailbox: the buffer's contents, its physical address and the state
/// of the call in progress.
pub struct Mbox {
    buffer: Vec<u32>,
    addr: u32,
    message: u32,
    phase: CallPhase,
    polls_left: u32,
    timed_out: bool,
}

/// The address of buffer word `i`.
pub open spec fn word_addr(addr: u32, i: int) -> int {
    addr + 4 * i
}

/// The number of words of a tag's value buffer of `size` bytes.
pub open spec fn value_words(size: u32) -> int {
    size as int / 4 + if size % 4 != 0 { 1int } else { 0int }
}

/// The tags from word `i` on end with the last tag, and each was answered.
pub open spec fn tags_answered(buf: Seq<u32>, i: int) -> bool
    decreases buf.len() - i,
{
    if i < 0 || i >= buf.len() {
        false
    } else if buf[i] == TAG_LAST {
        true
    } else if i + 2 >= buf.len() {
        false
    } else {
        let next = i + 3 + value_words(buf[i + 1]);
        buf[i + 2] & TAG_RESPONSE_BIT != 0 && i < next < buf.len() && tags_answered(buf, next)
    }
}

/// The firmware reported success for the whole buffer and for each tag.
pub open spec fn response_ok(buf: Seq<u32>) -> bool {
    buf.len() >= 2 && buf[1] == MBOX_RESPONSE && tags_answered(buf, 2)
}

impl MboxModel {
    /// Well-formed: a full buffer at an aligned address that fits below 4 GiB.
    pub open spec fn wf(self) -> bool {
        &&& self.buffer.len() == MBOX_WORDS
        &&& self.addr % 16 == 0
        &&& self.addr + 4 * MBOX_WORDS <= u32::MAX
        &&& !(self.phase is Idle) ==> !self.timed_out
        &&& match self.phase {
            CallPhase::Upload { next } => next < MBOX_WORDS,
            CallPhase::Download { next } => next < MBOX_WORDS,
            _ => true,
        }
    }

    /// The access that the call needs next; `None` when no call is in progress.
    pub open spec fn next_access(self) -> Option<Access> {
        match self.phase {
            CallPhase::Upload { next } => Some(
                Access::Write { addr: word_addr(self.addr, next as int) as u32, value: self.buffer[next as int] },
            ),
            CallPhase::WaitNotFull => Some(Access::Read { addr: MBOX_STATUS }),
            CallPhase::Doorbell => Some(Access::Write { addr: MBOX_WRITE, value: self.message }),
            CallPhase::WaitReply => Some(Access::Read { addr: MBOX_STATUS }),
            CallPhase::ReadReply => Some(Access::Read { addr: MBOX_READ }),
            CallPhase::Download { next } => Some(Access::Read { addr: word_addr(self.addr, next as int) as u32 }),
            CallPhase::Idle => None,
        }
    }

    /// A poll found the mailbox not ready: spend one poll, or give up.
    pub open spec fn poll_failed(self) -> MboxModel {
        if self.polls_left == 0 {
            MboxModel { phase: CallPhase::Idle, timed_out: true, ..self }
        } else {
            MboxModel { polls_left: (self.polls_left - 1) as u32, ..self }
        }
    }

    /// The state once the access of `next_access` has been performed; `v` is
    /// the value read (ignored after a write).
    pub open spec fn after(self, v: u32) -> MboxModel {
        match self.phase {
            CallPhase::Upload { next } => MboxModel {
                phase: if next + 1 < MBOX_WORDS { CallPhase::Upload { next: (next + 1) as usize } } else { CallPhase::WaitNotFull },
                ..self
            },
            CallPhase::WaitNotFull => if v & MBOX_FULL == 0 {
                MboxModel { phase: CallPhase::Doorbell, ..self }
            } else {
                self.poll_failed()
            },
            CallPhase::Doorbell => MboxModel { phase: CallPhase::WaitReply, ..self },
            CallPhase::WaitReply => if v & MBOX_EMPTY == 0 {
                MboxModel { phase: CallPhase::ReadReply, ..self }
            } else {
                self.poll_failed()
            },
            // a reply to some other request is dropped
            CallPhase::ReadReply => MboxModel {
                phase: if v == self.message { CallPhase::Download { next: 0 } } else { CallPhase::WaitReply },
                ..self
            },
            CallPhase::Download { next } => MboxModel {
                buffer: self.buffer.update(next as int, v),
                phase: if next + 1 < MBOX_WORDS { CallPhase::Download { next: (next + 1) as usize } } else { CallPhase::Idle },
                ..self
            },
            CallPhase::Idle => self,
        }
    }
}

impl MboxModel {
    /// The state after the accesses that read the values `vs`, one each.
    pub open spec fn run(self, vs: Seq<u32>) -> MboxModel
        decreases vs.len(),
    {
        if vs.len() == 0 {
            self
        } else {
            self.after(vs[0]).run(vs.drop_first())
        }
    }
}

/// Reading back buffer words `next..` leaves the call idle with those words
/// as the firmware wrote them.
proof fn lemma_download(m: MboxModel, next: usize, vs: Seq<u32>)
    requires
        m.wf(),
        m.phase == (CallPhase::Download { next }),
        vs.len() == MBOX_WORDS - next,
    ensures
        m.run(vs).phase == CallPhase::Idle,
        m.run(vs).addr == m.addr,
        m.run(vs).message == m.message,
        m.run(vs).timed_out == m.timed_out,
        m.run(vs).buffer =~= m.buffer.subrange(0, MBOX_WORDS - vs.len()) + vs,
    decreases vs.len(),
{
    let n = m.after(vs[0]);
    assert(m.run(vs) == n.run(vs.drop_first()));
    if next + 1 < MBOX_WORDS {
        lemma_download(n, (next + 1) as usize, vs.drop_first());
        assert(n.buffer.subrange(0, next + 1) + vs.drop_first() =~= m.buffer.subrange(0, next as int) + vs);
    } else {
        assert(vs.drop_first().len() == 0);
        assert(n.run(vs.drop_first()) == n);
    }
}

/// A round trip: once the firmware echoes the doorbell value, the call reads
/// the whole buffer back and ends; the buffer then holds exactly the words
/// the firmware left, so the call's outcome is `response_ok` of those words.
pub proof fn lemma_echoed_reply_ends_call(m: MboxModel, words: Seq<u32>)
    requires
        m.wf(),
        m.phase == CallPhase::ReadReply,
        words.len() == MBOX_WORDS,
    ensures
        m.after(m.message).run(words).phase == CallPhase::Idle,
        m.after(m.message).run(words).buffer == words,
        !m.after(m.message).run(words).timed_out,
        response_ok(m.after(m.message).run(words).buffer) == response_ok(words),
{
    lemma_download(m.after(m.message), 0, words);
    assert(m.buffer.subrange(0, 0) + words =~= words);
}

/// A reply that does not carry the doorbell value belongs to another request:
/// it is dropped and the call waits for the next one, the buffer untouched.
pub proof fn lemma_foreign_reply_dropped(m: MboxModel, v: u32)
    requires
        m.wf(),
        m.phase == CallPhase::ReadReply,
        v != m.message,
    ensures
        m.after(v) == (MboxModel { phase: CallPhase::WaitReply, ..m }),
{
}

impl View for Mbox {
    type V = MboxModel;

    closed spec fn view(&self) -> MboxModel {
        MboxModel {
            buffer: self.buffer@,
            addr: self.addr,
            message: self.message,
            phase: self.phase,
            polls_left: self.polls_left,
            timed_out: self.timed_out,
        }
    }
}

/// Checks the buffer that came back from the firmware: the code word must
/// report success and every tag up to the last tag must be answered.
pub fn check_response(buf: &Vec<u32>) -> (r: Result<(), MailboxError>)
    ensures
        r is Ok <==> response_ok(buf@),
        r is Err ==> r == Err::<(), MailboxError>(MailboxError::ResponseError),
{
    if buf.len() < 2 || buf[1] != MBOX_RESPONSE {
        return Err(MailboxError::ResponseError);
    }
    let mut i: usize = 2;
    loop
        invariant
            2 <= i,
            buf@.len() >= 2,
            response_ok(buf@) <==> tags_answered(buf@, i as int),
        decreases buf.len() - i,
    {
        if i >= buf.len() {
            return Err(MailboxError::ResponseError);
        }
        if buf[i] == TAG_LAST {
            return Ok(());
        }
        if buf.len() - i <= 2 {
            return Err(MailboxError::ResponseError);
        }
        if buf[i + 2] & TAG_RESPONSE_BIT == 0 {
            return Err(MailboxError::ResponseError);
        }
        let size: u32 = buf[i + 1];
        let words: u32 = size / 4 + if size % 4 != 0 { 1u32 } else { 0u32 };
        let rest: usize = buf.len() - i - 3;
        if words as usize >= rest {
            assert(!tags_answered(buf@, i + 3 + words));
            // the next tag would start past the end of the buffer
            return Err(MailboxError::ResponseError);
        }
        i = i + 3 + words as usize;
    }
}

impl Mbox {
    /// A mailbox whose buffer, all zero, lives at physical address `addr`.
    pub fn new(addr: u32) -> (r: Mbox)
        requires
            addr % 16 == 0,
            addr + 4 * MBOX_WORDS <= u32::MAX,
        ensures
            r@.wf(),
            r@.buffer == Seq::new(MBOX_WORDS as nat, |i: int| 0u32),
            r@.addr == addr,
            r@.phase == CallPhase::Idle,
    {
        let mut buffer: Vec<u32> = Vec::new();
        let mut i: usize = 0;
        while i < MBOX_WORDS
            invariant
                i <= MBOX_WORDS,
                buffer@ == Seq::new(i as nat, |j: int| 0u32),
            decreases MBOX_WORDS - i,
        {
            buffer.push(0);
            i = i + 1;
            assert(buffer@ =~= Seq::new(i as nat, |j: int| 0u32));
        }
        Mbox { buffer, addr, message: 0, phase: CallPhase::Idle, polls_left: 0, timed_out: false }
    }

    /// Starts a call on `channel` with the buffer as it stands. The doorbell
    /// value is the buffer's address with the channel in its low four bits.
    /// The call gives up once `poll_limit` polls have found the mailbox not
    /// ready and one more does.
    pub fn start_call(&mut self, channel: u32, poll_limit: u32)
        requires
            old(self)@.wf(),
            old(self)@.phase == CallPhase::Idle,
            channel < 16,
        ensures
            final(self)@.wf(),
            final(self)@.buffer == old(self)@.buffer,
            final(self)@.addr == old(self)@.addr,
            final(self)@.message == old(self)@.addr + channel,
            final(self)@.phase == (CallPhase::Upload { next: 0 }),
            final(self)@.polls_left == poll_limit,
            !final(self)@.timed_out,
    {
        let addr = self.addr;
        assert(addr % 16 == 0 && channel < 16 ==> addr | channel == addr + channel) by (bit_vector);
        self.message = addr | channel;
        self.phase = CallPhase::Upload { next: 0 };
        self.polls_left = poll_limit;
        self.timed_out = false;
    }

    /// The access that the call needs next; `None` once it is over.
    pub fn next_access(&self) -> (r: Option<Access>)
        requires
            self@.wf(),
        ensures
            r == self@.next_access(),
    {
        match self.phase {
            CallPhase::Upload { next } => Some(Access::Write { addr: self.addr + 4 * next as u32, value: self.buffer[next] }),
            CallPhase::WaitNotFull => Some(Access::Read { addr: MBOX_STATUS }),
            CallPhase::Doorbell => Some(Access::Write { addr: MBOX_WRITE, value: self.message }),
            CallPhase::WaitReply => Some(Access::Read { addr: MBOX_STATUS }),
            CallPhase::ReadReply => Some(Access::Read { addr: MBOX_READ }),
            CallPhase::Download { next } => Some(Access::Read { addr: self.addr + 4 * next as u32 }),
            CallPhase::Idle => None,
        }
    }

    /// Records that the access of `next_access` was performed; `v` is the
    /// value read, and is ignored after a write.
    pub fn complete(&mut self, v: u32)
        requires
            old(self)@.wf(),
        ensures
            final(self)@ == old(self)@.after(v),
            final(self)@.wf(),
    {
        match self.phase {
            CallPhase::Upload { next } => {
                self.phase = if next + 1 < MBOX_WORDS { CallPhase::Upload { next: next + 1 } } else { CallPhase::WaitNotFull };
            },
            CallPhase::WaitNotFull => {
                if v & MBOX_FULL == 0 {
                    self.phase = CallPhase::Doorbell;
                } else {
                    self.poll_failed();
                }
            },
            CallPhase::Doorbell => {
                self.phase = CallPhase::WaitReply;
            },
            CallPhase::WaitReply => {
                if v & MBOX_EMPTY == 0 {
                    self.phase = CallPhase::ReadReply;
                } else {
                    self.poll_failed();
                }
            },
            CallPhase::ReadReply => {
                self.phase = if v == self.message { CallPhase::Download { next: 0 } } else { CallPhase::WaitReply };
            },
            CallPhase::Download { next } => {
                self.buffer.set(next, v);
                self.phase = if next + 1 < MBOX_WORDS { CallPhase::Download { next: next + 1 } } else { CallPhase::Idle };
            },
            CallPhase::Idle => {},
        }
    }

    /// Puts the request for the UART clock rate in the buffer's first nine words.
    pub fn set_clock_request(&mut self)
        requires
            old(self)@.wf(),
            old(self)@.phase == CallPhase::Idle,
        ensures
            final(self)@ == (MboxModel { buffer: crate::uart::with_clock_request(old(self)@.buffer), ..old(self)@ }),
            final(self)@.wf(),
    {
        self.buffer.set(0, 36);
        self.buffer.set(1, MBOX_REQUEST);
        self.buffer.set(2, crate::uart::TAG_SET_CLOCK_RATE);
        self.buffer.set(3, 12);
        self.buffer.set(4, 8);
        self.buffer.set(5, crate::uart::CLOCK_ID_UART);
        self.buffer.set(6, crate::uart::UART_CLOCK_HZ);
        self.buffer.set(7, 0);
        self.buffer.set(8, TAG_LAST);
        assert(self.buffer@ =~= crate::uart::with_clock_request(old(self)@.buffer));
    }

    /// Buffer word `i`.
    pub fn word(&self, i: usize) -> (r: u32)
        requires
            i < self@.buffer.len(),
        ensures
            r == self@.buffer[i as int],
    {
        self.buffer[i]
    }

    fn poll_failed(&mut self)
        requires
            old(self)@.wf(),
            old(self)@.phase is WaitNotFull || old(self)@.phase is WaitReply,
        ensures
            final(self)@ == old(self)@.poll_failed(),
    {
        if self.polls_left == 0 {
            self.phase = CallPhase::Idle;
            self.timed_out = true;
        } else {
            self.polls_left = self.polls_left - 1;
        }
    }

    /// Whether no call is in progress.
    pub fn is_idle(&self) -> (r: bool)
        ensures
            r == (self@.phase == CallPhase::Idle),
    {
        self.phase == CallPhase::Idle
    }

    /// The outcome of the call that has just ended.
    pub fn outcome(&self) -> (r: Result<(), MailboxError>)
        ensures
            self@.timed_out ==> r == Err::<(), MailboxError>(MailboxError::Timeout),
            !self@.timed_out ==> (r is Ok <==> response_ok(self@.buffer)),
            !self@.timed_out && r is Err ==> r == Err::<(), MailboxError>(MailboxError::ResponseError),
    {
        if self.timed_out {
            return Err(MailboxError::Timeout);
        }
        check_response(&self.buffer)
    }
}

} // verus!
