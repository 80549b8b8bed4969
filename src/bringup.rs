//! The top of the sequence, once the image is initialised: bring the UART
//! up, write the greeting, then wait for events forever. A failed bring-up
//! goes straight to that wait, so the missing greeting is the failure report.
use vstd::prelude::*;
use vstd::string::StringSliceAdditionalSpecFns;
use crate::{Access, Action};
use crate::mbox::{Mbox, MBOX_WORDS};
use crate::uart::{InitPhase, Puts, PutsModel, Uart, UartInit, UartInitModel, UART0_DR};

verus! {

/// What the board writes once its UART is up.
pub const GREETING: &'static str = "\nHello World!\n";

/// Which part of the sequence runs.
#[derive(Clone, Copy, Debug, PartialEq, Eq, Structural)]
pub enum Stage {
    /// Bringing the UART up.
    InitUart,
    /// Writing the greeting.
    Greet,
    /// Waiting for events forever; nothing else happens.
    Halted,
}

/// What the sequence holds, as the contracts see it.
pub struct BringupModel {
    pub init: UartInitModel,
    pub greeting: PutsModel,
    pub stage: Stage,
}

/// The bring-up sequence.
pub struct Bringup {
    init: UartInit,
    greeting: Puts,
    stage: Stage,
}

impl BringupModel {
    pub open spec fn wf(self) -> bool {
        &&& self.init.wf()
        &&& self.greeting.wf()
        &&& self.stage == Stage::InitUart ==> !(self.init.phase is Ready) && !(self.init.phase is Failed)
        &&& self.stage == Stage::Greet ==> self.greeting.pos < self.greeting.bytes.len()
    }

    /// The step to perform next.
    pub open spec fn next_action(self) -> Action {
        match self.stage {
            Stage::InitUart => self.init.next_action().unwrap(),
            Stage::Greet => self.greeting.next_action().unwrap(),
            Stage::Halted => Action::WaitForEvent,
        }
    }

    /// The stage that follows a finished UART bring-up.
    pub open spec fn stage_after_init(init: UartInitModel, greeting: PutsModel) -> Stage {
        if init.phase is Ready {
            if greeting.pos < greeting.bytes.len() { Stage::Greet } else { Stage::Halted }
        } else if init.phase is Failed {
            Stage::Halted
        } else {
            Stage::InitUart
        }
    }

    /// The state once the step of `next_action` has been performed; `v` is
    /// the value read (ignored after anything but a read).
    pub open spec fn after(self, v: u32) -> BringupModel {
        match self.stage {
            Stage::InitUart => {
                let i = self.init.after(v);
                BringupModel { init: i, stage: Self::stage_after_init(i, self.greeting), ..self }
            },
            Stage::Greet => {
                let g = self.greeting.after(v);
                BringupModel {
                    greeting: g,
                    stage: if g.pos < g.bytes.len() { Stage::Greet } else { Stage::Halted },
                    ..self
                }
            },
            Stage::Halted => self,
        }
    }

    /// The state after the steps that read the values `vs`, one each.
    pub open spec fn run(self, vs: Seq<u32>) -> BringupModel
        decreases vs.len(),
    {
        if vs.len() == 0 {
            self
        } else {
            self.after(vs[0]).run(vs.drop_first())
        }
    }
}

impl BringupModel {
    /// The bytes written to the UART's data register during the steps that
    /// read the values `vs`.
    pub open spec fn written(self, vs: Seq<u32>) -> Seq<u8>
        decreases vs.len(),
    {
        if vs.len() == 0 {
            Seq::empty()
        } else {
            let here = match self.next_action() {
                Action::Access(Access::Write { addr, value }) if addr == UART0_DR => seq![value as u8],
                _ => Seq::empty(),
            };
            here + self.after(vs[0]).written(vs.drop_first())
        }
    }
}

/// Once the greeting has started, whatever the status reads return, the data
/// register receives the rest of the greeting, in order, and nothing else;
/// when the sequence halts the whole greeting has been written. A halted
/// sequence writes nothing.
pub proof fn lemma_greeting_then_halt(m: BringupModel, vs: Seq<u32>)
    requires
        m.wf(),
        m.stage == Stage::Greet || m.stage == Stage::Halted,
    ensures
        m.run(vs).wf(),
        m.run(vs).stage == Stage::Greet || m.run(vs).stage == Stage::Halted,
        m.run(vs).greeting.bytes == m.greeting.bytes,
        m.stage == Stage::Greet ==> m.greeting.pos <= m.run(vs).greeting.pos
            && m.written(vs) =~= m.greeting.bytes.subrange(m.greeting.pos as int, m.run(vs).greeting.pos as int),
        m.stage == Stage::Greet && m.run(vs).stage == Stage::Halted ==> m.run(vs).greeting.pos == m.greeting.bytes.len(),
        m.stage == Stage::Halted ==> m.run(vs) == m && m.written(vs) =~= Seq::<u8>::empty(),
    decreases vs.len(),
{
    if vs.len() > 0 {
        let n = m.after(vs[0]);
        assert(m.run(vs) == n.run(vs.drop_first()));
        lemma_greeting_then_halt(n, vs.drop_first());
        if m.stage == Stage::Greet && !m.greeting.waiting {
            let b = m.greeting.bytes[m.greeting.pos as int];
            let e = n.run(vs.drop_first());
            assert((b as u32) as u8 == b) by (bit_vector);
            assert(n.greeting.pos == m.greeting.pos + 1);
            if n.stage == Stage::Halted {
                assert(e == n);
            }
            assert(m.greeting.pos + 1 <= e.greeting.pos <= m.greeting.bytes.len());
            assert(m.greeting.bytes.subrange(m.greeting.pos as int, e.greeting.pos as int) =~= seq![b]
                + m.greeting.bytes.subrange(m.greeting.pos + 1int, e.greeting.pos as int));
        } else if m.stage == Stage::Greet {
            let e = n.run(vs.drop_first());
            if n.stage == Stage::Halted {
                assert(e == n);
            }
        }
    }
}

/// Once halted, the sequence stays halted whatever is read, and each step it
/// asks for is a wait for events: no register is written again.
pub proof fn lemma_halt_is_final(m: BringupModel, vs: Seq<u32>)
    requires
        m.stage == Stage::Halted,
    ensures
        m.run(vs) == m,
        m.run(vs).next_action() == Action::WaitForEvent,
    decreases vs.len(),
{
    if vs.len() > 0 {
        lemma_halt_is_final(m.after(vs[0]), vs.drop_first());
    }
}

impl View for Bringup {
    type V = BringupModel;

    closed spec fn view(&self) -> BringupModel {
        BringupModel { init: self.init@, greeting: self.greeting@, stage: self.stage }
    }
}

impl Bringup {
    /// The sequence, with the mailbox buffer at physical address `mbox_addr`.
    pub fn new(mbox_addr: u32) -> (r: Bringup)
        requires
            mbox_addr % 16 == 0,
            mbox_addr + 4 * MBOX_WORDS <= u32::MAX,
        ensures
            r@.wf(),
            r@.stage == Stage::InitUart,
            r@.init.phase == InitPhase::Disable,
            r@.init.mbox.addr == mbox_addr,
            r@.greeting == (PutsModel { bytes: GREETING.spec_bytes(), pos: 0, waiting: true }),
    {
        let mbox = Mbox::new(mbox_addr);
        let uart = Uart::new();
        let init = uart.init(mbox);
        let greeting = uart.puts(GREETING);
        Bringup { init, greeting, stage: Stage::InitUart }
    }

    /// The step to perform next.
    pub fn next_action(&self) -> (r: Action)
        requires
            self@.wf(),
        ensures
            r == self@.next_action(),
    {
        match self.stage {
            Stage::InitUart => self.init.next_action().unwrap(),
            Stage::Greet => self.greeting.next_action().unwrap(),
            Stage::Halted => Action::WaitForEvent,
        }
    }

    /// Records that the step of `next_action` was performed; `v` is the value
    /// read, and is ignored after anything but a read.
    pub fn complete(&mut self, v: u32)
        requires
            old(self)@.wf(),
        ensures
            final(self)@ == old(self)@.after(v),
            final(self)@.wf(),
    {
        match self.stage {
            Stage::InitUart => {
                self.init.complete(v);
                match self.init.result() {
                    Some(Ok(())) => {
                        self.stage = if self.greeting.is_done() { Stage::Halted } else { Stage::Greet };
                    },
                    Some(Err(_)) => {
                        self.stage = Stage::Halted;
                    },
                    None => {},
                }
            },
            Stage::Greet => {
                self.greeting.complete(v);
                if self.greeting.is_done() {
                    self.stage = Stage::Halted;
                }
            },
            Stage::Halted => {},
        }
    }

    /// Which part of the sequence runs.
    pub fn stage(&self) -> (r: Stage)
        ensures
            r == self@.stage,
    {
        self.stage
    }
}

} // verus!
