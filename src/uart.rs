//! The PL011 UART (UART0), driven by polling only: bring-up, with the clock
//! rate negotiated over the property mailbox, and byte output.
use vstd::prelude::*;
use vstd::string::StringSliceAdditionalSpecFns;
use crate::{Access, Action, MMIO_BASE};
use crate::mbox::{CallPhase, CHANNEL_PROP, MBOX_POLL_LIMIT, MBOX_REQUEST, Mbox, MboxModel, TAG_LAST, response_ok};

verus! {

pub const UART0_BASE: u32 = MMIO_BASE + 0x0020_1000;

/// The UART0 registers.
pub const UART0_DR: u32 = UART0_BASE;
pub const UART0_FR: u32 = UART0_BASE + 0x18;
pub const UART0_IBRD: u32 = UART0_BASE + 0x24;
pub const UART0_FBRD: u32 = UART0_BASE + 0x28;
pub const UART0_LCRH: u32 = UART0_BASE + 0x2C;
pub const UART0_CR: u32 = UART0_BASE + 0x30;
pub const UART0_IMSC: u32 = UART0_BASE + 0x38;
pub const UART0_ICR: u32 = UART0_BASE + 0x44;

/// FR.TXFF: the transmit FIFO is full.
pub const FR_TXFF: u32 = 0x20;

/// LCRH: eight data bits (WLEN = 0b11), FIFOs enabled (FEN).
pub const LCRH_8BIT_FIFO: u32 = 0x70;

/// CR: UART enabled (UARTEN), transmit (TXE) and receive (RXE) enabled.
pub const CR_ENABLED: u32 = 0x301;

/// ICR: every interrupt cleared.
pub const ICR_ALL: u32 = 0x7FF;

/// IMSC: every interrupt masked.
pub const IMSC_NONE: u32 = 0;

/// The line speed.
pub const BAUD_RATE: u32 = 115_200;

/// Mailbox tag that sets a clock's rate, and the UART's clock id.
pub const TAG_SET_CLOCK_RATE: u32 = 0x0003_8002;
pub const CLOCK_ID_UART: u32 = 2;

/// The UART clock rate asked of the firmware, in Hz.
pub const UART_CLOCK_HZ: u32 = 4_000_000;

/// Buffer word that holds the rate once the firmware has answered.
pub const RATE_WORD: usize = 6;

/// The number of register writes that configure the UART once the clock is known.
pub const CONFIG_WRITES: usize = 6;

/// Why the UART could not be brought up.
#[derive(Clone, Copy, Debug, PartialEq, Eq, Structural)]
pub enum UartError {
    /// The clock rate could not be negotiated: the mailbox call failed or
    /// timed out, or the rate that came back gives no usable baud-rate divisor.
    MailboxError,
}

/// The baud-rate divisor in 64ths: clock / (16 × baud), rounded to the nearest
/// 64th. Its integer part goes to IBRD, its six fractional bits to FBRD.
pub open spec fn divisor(clock: int, baud: int) -> int {
    (4 * clock + baud / 2) / baud
}

/// IBRD must lie in 1..=0xFFFF, with FBRD zero at 0xFFFF.
pub open spec fn divisor_usable(clock: int, baud: int) -> bool {
    let d = divisor(clock, baud);
    64 <= d <= 0xFFFF * 64
}

/// The buffer with the clock-rate request in its first nine words, the rest kept.
pub open spec fn with_clock_request(buf: Seq<u32>) -> Seq<u32> {
    seq![36u32, MBOX_REQUEST, TAG_SET_CLOCK_RATE, 12, 8, CLOCK_ID_UART, UART_CLOCK_HZ, 0, TAG_LAST]
        + buf.subrange(9, buf.len() as int)
}

/// The configuring write number `k`, once the divisor is known.
pub open spec fn config_write(k: int, ibrd: u32, fbrd: u32) -> Access {
    if k == 0 {
        Access::Write { addr: UART0_IBRD, value: ibrd }
    } else if k == 1 {
        Access::Write { addr: UART0_FBRD, value: fbrd }
    } else if k == 2 {
        Access::Write { addr: UART0_LCRH, value: LCRH_8BIT_FIFO }
    } else if k == 3 {
        Access::Write { addr: UART0_CR, value: CR_ENABLED }
    } else if k == 4 {
        Access::Write { addr: UART0_ICR, value: ICR_ALL }
    } else {
        Access::Write { addr: UART0_IMSC, value: IMSC_NONE }
    }
}

/// Computes the integer and fractional baud-rate divisors for `clock` Hz and
/// `baud` bits per second.
pub fn baud_divisor(clock: u32, baud: u32) -> (r: (u32, u32))
    requires
        baud > 0,
    ensures
        r.0 == divisor(clock as int, baud as int) / 64,
        r.1 == divisor(clock as int, baud as int) % 64,
{
    let x: u64 = 4 * (clock as u64) + (baud / 2) as u64;
    let d: u64 = x / (baud as u64);
    assert(d <= x) by (nonlinear_arith)
        requires
            d == x / (baud as u64),
            baud > 0,
    ;
    ((d / 64) as u32, (d % 64) as u32)
}


/// Where the bring-up of the UART stands.
#[derive(Clone, Copy, Debug, PartialEq, Eq, Structural)]
pub enum InitPhase {
    /// Turning the UART off.
    Disable,
    /// Asking the firmware for the clock rate.
    Negotiate,
    /// Having the pins routed to the UART.
    MapPins,
    /// Writing configuration register number `next`.
    Configure { next: usize },
    /// Brought up: output may start.
    Ready,
    /// Bring-up failed.
    Failed,
}

/// What a bring-up holds, as the contracts see it.
pub struct UartInitModel {
    pub mbox: MboxModel,
    pub phase: InitPhase,
    pub ibrd: u32,
    pub fbrd: u32,
}

/// A bring-up of the UART in progress. It owns the mailbox for its duration.
pub struct UartInit {
    mbox: Mbox,
    phase: InitPhase,
    ibrd: u32,
    fbrd: u32,
}

/// The UART, bound to its fixed base address.
pub struct Uart {
    base: u32,
}

impl UartInitModel {
    pub open spec fn wf(self) -> bool {
        &&& self.mbox.wf()
        &&& self.phase == InitPhase::Negotiate <==> !(self.mbox.phase is Idle)
        &&& match self.phase {
            InitPhase::Configure { next } => next < CONFIG_WRITES,
            _ => true,
        }
    }

    /// The step that the bring-up needs next; `None` once it is over.
    pub open spec fn next_action(self) -> Option<Action> {
        match self.phase {
            InitPhase::Disable => Some(Action::Access(Access::Write { addr: UART0_CR, value: 0 })),
            InitPhase::Negotiate => match self.mbox.next_access() {
                Some(a) => Some(Action::Access(a)),
                None => None,
            },
            InitPhase::MapPins => Some(Action::MapPins),
            InitPhase::Configure { next } => Some(Action::Access(config_write(next as int, self.ibrd, self.fbrd))),
            InitPhase::Ready => None,
            InitPhase::Failed => None,
        }
    }

    /// The state once the step of `next_action` has been performed; `v` is
    /// the value read (ignored after anything but a read).
    pub open spec fn after(self, v: u32) -> UartInitModel {
        match self.phase {
            InitPhase::Disable => UartInitModel {
                mbox: MboxModel {
                    buffer: with_clock_request(self.mbox.buffer),
                    message: (self.mbox.addr + CHANNEL_PROP) as u32,
                    phase: CallPhase::Upload { next: 0 },
                    polls_left: MBOX_POLL_LIMIT,
                    timed_out: false,
                    ..self.mbox
                },
                phase: InitPhase::Negotiate,
                ..self
            },
            InitPhase::Negotiate => {
                let m = self.mbox.after(v);
                if !(m.phase is Idle) {
                    UartInitModel { mbox: m, ..self }
                } else if !m.timed_out && response_ok(m.buffer) && divisor_usable(m.buffer[RATE_WORD as int] as int, BAUD_RATE as int) {
                    let d = divisor(m.buffer[RATE_WORD as int] as int, BAUD_RATE as int);
                    UartInitModel { mbox: m, phase: InitPhase::MapPins, ibrd: (d / 64) as u32, fbrd: (d % 64) as u32 }
                } else {
                    UartInitModel { mbox: m, phase: InitPhase::Failed, ..self }
                }
            },
            InitPhase::MapPins => UartInitModel { phase: InitPhase::Configure { next: 0 }, ..self },
            InitPhase::Configure { next } => UartInitModel {
                phase: if next + 1 < CONFIG_WRITES { InitPhase::Configure { next: (next + 1) as usize } } else { InitPhase::Ready },
                ..self
            },
            _ => self,
        }
    }
}

impl View for UartInit {
    type V = UartInitModel;

    closed spec fn view(&self) -> UartInitModel {
        UartInitModel { mbox: self.mbox@, phase: self.phase, ibrd: self.ibrd, fbrd: self.fbrd }
    }
}

impl Uart {
    pub closed spec fn base(&self) -> u32 {
        self.base
    }

    /// Binds to UART0; touches no hardware.
    pub fn new() -> (r: Uart)
        ensures
            r.base() == UART0_BASE,
    {
        Uart { base: UART0_BASE }
    }

    /// Starts bringing the UART up, using `mbox` (idle) to negotiate its clock.
    /// The sequence: CR = 0; the clock-rate call; pin routing; IBRD, FBRD,
    /// LCRH, CR, ICR, IMSC.
    pub fn init(&self, mbox: Mbox) -> (r: UartInit)
        requires
            mbox@.wf(),
            mbox@.phase == CallPhase::Idle,
        ensures
            r@.wf(),
            r@.mbox == mbox@,
            r@.phase == InitPhase::Disable,
    {
        UartInit { mbox, phase: InitPhase::Disable, ibrd: 0, fbrd: 0 }
    }

    /// Starts writing the bytes of `s` to the data register.
    pub fn puts(&self, s: &str) -> (r: Puts)
        ensures
            r@ == (PutsModel { bytes: s.spec_bytes(), pos: 0, waiting: true }),
    {
        Puts::new(s)
    }
}

impl UartInit {
    /// The step that the bring-up needs next; `None` once it is over.
    pub fn next_action(&self) -> (r: Option<Action>)
        requires
            self@.wf(),
        ensures
            r == self@.next_action(),
    {
        match self.phase {
            InitPhase::Disable => Some(Action::Access(Access::Write { addr: UART0_CR, value: 0 })),
            InitPhase::Negotiate => match self.mbox.next_access() {
                Some(a) => Some(Action::Access(a)),
                None => None,
            },
            InitPhase::MapPins => Some(Action::MapPins),
            InitPhase::Configure { next } => {
                let a = if next == 0 {
                    Access::Write { addr: UART0_IBRD, value: self.ibrd }
                } else if next == 1 {
                    Access::Write { addr: UART0_FBRD, value: self.fbrd }
                } else if next == 2 {
                    Access::Write { addr: UART0_LCRH, value: LCRH_8BIT_FIFO }
                } else if next == 3 {
                    Access::Write { addr: UART0_CR, value: CR_ENABLED }
                } else if next == 4 {
                    Access::Write { addr: UART0_ICR, value: ICR_ALL }
                } else {
                    Access::Write { addr: UART0_IMSC, value: IMSC_NONE }
                };
                Some(Action::Access(a))
            },
            InitPhase::Ready => None,
            InitPhase::Failed => None,
        }
    }

    /// Records that the step of `next_action` was performed; `v` is the value
    /// read, and is ignored after anything but a read.
    pub fn complete(&mut self, v: u32)
        requires
            old(self)@.wf(),
        ensures
            final(self)@ == old(self)@.after(v),
            final(self)@.wf(),
    {
        match self.phase {
            InitPhase::Disable => {
                self.mbox.set_clock_request();
                self.mbox.start_call(CHANNEL_PROP, MBOX_POLL_LIMIT);
                self.phase = InitPhase::Negotiate;
            },
            InitPhase::Negotiate => {
                self.mbox.complete(v);
                if self.mbox.is_idle() {
                    let ok = self.mbox.outcome().is_ok();
                    let clock: u32 = self.mbox.word(RATE_WORD);
                    let (ibrd, fbrd) = baud_divisor(clock, BAUD_RATE);
                    if ok && 1 <= ibrd && ibrd <= 0xFFFF && (ibrd < 0xFFFF || fbrd == 0) {
                        self.ibrd = ibrd;
                        self.fbrd = fbrd;
                        self.phase = InitPhase::MapPins;
                    } else {
                        self.phase = InitPhase::Failed;
                    }
                }
            },
            InitPhase::MapPins => {
                self.phase = InitPhase::Configure { next: 0 };
            },
            InitPhase::Configure { next } => {
                self.phase = if next + 1 < CONFIG_WRITES { InitPhase::Configure { next: next + 1 } } else { InitPhase::Ready };
            },
            _ => {},
        }
    }

    /// `Some` once the bring-up is over: `Ok` when the UART is ready.
    pub fn result(&self) -> (r: Option<Result<(), UartError>>)
        ensures
            self@.phase == InitPhase::Ready ==> r == Some(Ok::<(), UartError>(())),
            self@.phase == InitPhase::Failed ==> r == Some(Err::<(), UartError>(UartError::MailboxError)),
            !(self@.phase is Ready) && !(self@.phase is Failed) ==> r is None,
    {
        match self.phase {
            InitPhase::Ready => Some(Ok(())),
            InitPhase::Failed => Some(Err(UartError::MailboxError)),
            _ => None,
        }
    }

    /// Hands the mailbox back.
    pub fn into_mbox(self) -> (r: Mbox)
        ensures
            r@ == self@.mbox,
    {
        self.mbox
    }
}

/// Where the output of a string stands, as the contracts see it.
pub struct PutsModel {
    pub bytes: Seq<u8>,
    pub pos: nat,
    pub waiting: bool,
}

/// Output of a string in progress: for each byte, in order, poll FR until the
/// transmit FIFO has room, then write the byte to DR.
pub struct Puts {
    bytes: Vec<u8>,
    pos: usize,
    waiting: bool,
}

impl PutsModel {
    pub open spec fn wf(self) -> bool {
        self.pos <= self.bytes.len()
    }

    pub open spec fn next_action(self) -> Option<Action> {
        if self.pos >= self.bytes.len() {
            None
        } else if self.waiting {
            Some(Action::Access(Access::Read { addr: UART0_FR }))
        } else {
            Some(Action::Access(Access::Write { addr: UART0_DR, value: self.bytes[self.pos as int] as u32 }))
        }
    }

    pub open spec fn after(self, v: u32) -> PutsModel {
        if self.pos >= self.bytes.len() {
            self
        } else if self.waiting {
            PutsModel { waiting: v & FR_TXFF != 0, ..self }
        } else {
            PutsModel { pos: self.pos + 1, waiting: true, ..self }
        }
    }
}

impl PutsModel {
    /// The state after the accesses that read the values `vs`, one each.
    pub open spec fn run(self, vs: Seq<u32>) -> PutsModel
        decreases vs.len(),
    {
        if vs.len() == 0 {
            self
        } else {
            self.after(vs[0]).run(vs.drop_first())
        }
    }

    /// The bytes written to DR during the accesses that read the values `vs`.
    pub open spec fn written(self, vs: Seq<u32>) -> Seq<u8>
        decreases vs.len(),
    {
        if vs.len() == 0 {
            Seq::empty()
        } else {
            let here = match self.next_action() {
                Some(Action::Access(Access::Write { addr, value })) if addr == UART0_DR => seq![value as u8],
                _ => Seq::empty(),
            };
            here + self.after(vs[0]).written(vs.drop_first())
        }
    }
}

/// Whatever the status reads return, the bytes reach DR one write each, in
/// the order of the string, starting where the output stood; once the output
/// is over, DR has received exactly the string's bytes from there on.
pub proof fn lemma_puts_in_order(m: PutsModel, vs: Seq<u32>)
    requires
        m.wf(),
    ensures
        m.run(vs).wf(),
        m.run(vs).bytes == m.bytes,
        m.pos <= m.run(vs).pos,
        m.written(vs) =~= m.bytes.subrange(m.pos as int, m.run(vs).pos as int),
        m.run(vs).pos == m.bytes.len() ==> m.written(vs) =~= m.bytes.subrange(m.pos as int, m.bytes.len() as int),
    decreases vs.len(),
{
    if vs.len() > 0 {
        let n = m.after(vs[0]);
        lemma_puts_in_order(n, vs.drop_first());
        assert(m.run(vs) == n.run(vs.drop_first()));
        if m.pos < m.bytes.len() && !m.waiting {
            let b = m.bytes[m.pos as int];
            let e = n.run(vs.drop_first());
            assert((b as u32) as u8 == b) by (bit_vector);
            assert(n.pos == m.pos + 1 && n.bytes == m.bytes);
            assert(m.pos + 1 <= e.pos <= m.bytes.len());
            assert(m.bytes.subrange(m.pos as int, e.pos as int) =~= seq![b] + m.bytes.subrange(m.pos + 1int, e.pos as int));
        }
    }
}

/// A byte is written only after a read of FR that showed room in the
/// transmit FIFO: the step that clears the wait is such a read.
pub proof fn lemma_write_follows_room(m: PutsModel, v: u32)
    requires
        m.wf(),
        m.pos < m.bytes.len(),
        m.waiting,
        !m.after(v).waiting,
    ensures
        m.next_action() == Some(Action::Access(Access::Read { addr: UART0_FR })),
        v & FR_TXFF == 0,
        m.after(v).pos == m.pos,
{
}

impl View for Puts {
    type V = PutsModel;

    closed spec fn view(&self) -> PutsModel {
        PutsModel { bytes: self.bytes@, pos: self.pos as nat, waiting: self.waiting }
    }
}

impl Puts {
    /// Starts the output of the UTF-8 bytes of `s`.
    pub fn new(s: &str) -> (r: Puts)
        ensures
            r@ == (PutsModel { bytes: s.spec_bytes(), pos: 0, waiting: true }),
    {
        Puts { bytes: vstd::slice::slice_to_vec(s.as_bytes()), pos: 0, waiting: true }
    }

    /// The access needed next; `None` once every byte is written.
    pub fn next_action(&self) -> (r: Option<Action>)
        requires
            self@.wf(),
        ensures
            r == self@.next_action(),
    {
        if self.pos >= self.bytes.len() {
            None
        } else if self.waiting {
            Some(Action::Access(Access::Read { addr: UART0_FR }))
        } else {
            Some(Action::Access(Access::Write { addr: UART0_DR, value: self.bytes[self.pos] as u32 }))
        }
    }

    /// Records that the access of `next_action` was performed; `v` is the
    /// value read from FR, and is ignored after a write.
    pub fn complete(&mut self, v: u32)
        requires
            old(self)@.wf(),
        ensures
            final(self)@ == old(self)@.after(v),
            final(self)@.wf(),
    {
        if self.pos >= self.bytes.len() {
        } else if self.waiting {
            self.waiting = v & FR_TXFF != 0;
        } else {
            self.pos = self.pos + 1;
            self.waiting = true;
        }
    }

    /// Whether every byte has been written.
    pub fn is_done(&self) -> (r: bool)
        ensures
            r == (self@.pos >= self@.bytes.len()),
    {
        self.pos >= self.bytes.len()
    }
}

} // verus!
