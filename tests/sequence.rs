use std::collections::HashMap;

use rpi3_boot::bringup::{Bringup, Stage, GREETING};
use rpi3_boot::mbox::{check_response, MailboxError, Mbox, CHANNEL_PROP, MBOX_EMPTY, MBOX_POLL_LIMIT, MBOX_FULL, MBOX_READ, MBOX_RESPONSE, MBOX_STATUS, MBOX_WRITE};
use rpi3_boot::uart::{baud_divisor, Uart, UartError, UART0_CR, UART0_DR, UART0_FBRD, UART0_FR, UART0_IBRD, UART0_ICR, UART0_IMSC, UART0_LCRH, FR_TXFF};
use rpi3_boot::{Access, Action};

const BUF_ADDR: u32 = 0x0008_1000;

/// A board with a firmware that answers property calls, and a UART whose
/// FIFO reports full now and then.
struct Board {
    mem: HashMap<u32, u32>,
    code: u32,
    rate: u32,
    foreign_reply: bool,
    silent: bool,
    replies: Vec<u32>,
    outbound_busy: u32,
    fifo_full: u32,
    pins_mapped: bool,
    trace: Vec<(Action, u32)>,
}

impl Board {
    fn new(code: u32, rate: u32) -> Board {
        Board {
            mem: HashMap::new(),
            code,
            rate,
            foreign_reply: false,
            silent: false,
            replies: Vec::new(),
            outbound_busy: 2,
            fifo_full: 0,
            pins_mapped: false,
            trace: Vec::new(),
        }
    }

    fn firmware(&mut self, doorbell: u32) {
        if self.silent {
            return;
        }
        let base = doorbell & !0xF;
        self.mem.insert(base + 4, self.code);
        let tag_size = *self.mem.get(&(base + 16)).unwrap_or(&0);
        self.mem.insert(base + 16, tag_size | 0x8000_0000);
        self.mem.insert(base + 24, self.rate);
        if self.foreign_reply {
            self.replies.push(0x1234_5678);
        }
        self.replies.push(doorbell);
    }

    fn perform(&mut self, action: Action) -> u32 {
        let v = match action {
            Action::Access(Access::Read { addr }) => {
                if addr == MBOX_STATUS {
                    let full = if self.outbound_busy > 0 {
                        self.outbound_busy -= 1;
                        MBOX_FULL
                    } else {
                        0
                    };
                    full | if self.replies.is_empty() { MBOX_EMPTY } else { 0 }
                } else if addr == MBOX_READ {
                    self.replies.remove(0)
                } else if addr == UART0_FR {
                    if self.fifo_full > 0 {
                        self.fifo_full -= 1;
                        FR_TXFF
                    } else {
                        0
                    }
                } else {
                    *self.mem.get(&addr).unwrap_or(&0)
                }
            }
            Action::Access(Access::Write { addr, value }) => {
                if addr == MBOX_WRITE {
                    self.firmware(value);
                } else if addr == UART0_DR {
                    self.fifo_full = 1;
                } else {
                    self.mem.insert(addr, value);
                }
                0
            }
            Action::MapPins => {
                self.pins_mapped = true;
                0
            }
            Action::WaitForEvent => 0,
        };
        self.trace.push((action, v));
        v
    }

    fn data_writes(&self) -> Vec<u8> {
        self.trace
            .iter()
            .filter_map(|(a, _)| match a {
                Action::Access(Access::Write { addr, value }) if *addr == UART0_DR => Some(*value as u8),
                _ => None,
            })
            .collect()
    }

    fn register_writes(&self) -> Vec<(u32, u32)> {
        self.trace
            .iter()
            .filter_map(|(a, _)| match a {
                Action::Access(Access::Write { addr, value }) if *addr >= 0x3F00_0000 => Some((*addr, *value)),
                _ => None,
            })
            .collect()
    }
}

fn call(board: &mut Board, mbox: &mut Mbox) -> Result<(), MailboxError> {
    call_with_limit(board, mbox, MBOX_POLL_LIMIT)
}

fn call_with_limit(board: &mut Board, mbox: &mut Mbox, limit: u32) -> Result<(), MailboxError> {
    mbox.start_call(CHANNEL_PROP, limit);
    while let Some(a) = mbox.next_access() {
        let v = board.perform(Action::Access(a));
        mbox.complete(v);
    }
    mbox.outcome()
}

fn clock_request(mbox: &mut Mbox) {
    mbox.set_clock_request();
}

#[test]
fn mailbox_round_trip_succeeds() {
    let mut board = Board::new(MBOX_RESPONSE, 4_000_000);
    let mut mbox = Mbox::new(BUF_ADDR);
    clock_request(&mut mbox);
    assert_eq!(call(&mut board, &mut mbox), Ok(()));
    assert!(mbox.is_idle());
    assert_eq!(mbox.word(1), MBOX_RESPONSE);
    // the doorbell carries the buffer address and the channel
    assert!(board.trace.iter().any(|(a, _)| *a == Action::Access(Access::Write { addr: MBOX_WRITE, value: BUF_ADDR | 8 })));
}

#[test]
fn mailbox_error_code_fails() {
    let mut board = Board::new(0x8000_0001, 4_000_000);
    let mut mbox = Mbox::new(BUF_ADDR);
    clock_request(&mut mbox);
    assert_eq!(call(&mut board, &mut mbox), Err(MailboxError::ResponseError));
}

#[test]
fn mailbox_uploads_before_doorbell_and_skips_foreign_reply() {
    let mut board = Board::new(MBOX_RESPONSE, 4_000_000);
    board.foreign_reply = true;
    let mut mbox = Mbox::new(BUF_ADDR);
    clock_request(&mut mbox);
    assert_eq!(call(&mut board, &mut mbox), Ok(()));
    let doorbell = board
        .trace
        .iter()
        .position(|(a, _)| matches!(a, Action::Access(Access::Write { addr, .. }) if *addr == MBOX_WRITE))
        .unwrap();
    let uploads = board.trace[..doorbell]
        .iter()
        .filter(|(a, _)| matches!(a, Action::Access(Access::Write { addr, .. }) if *addr >= BUF_ADDR && *addr < BUF_ADDR + 144))
        .count();
    assert_eq!(uploads, 36);
    let reads = board.trace.iter().filter(|(a, _)| *a == Action::Access(Access::Read { addr: MBOX_READ })).count();
    assert_eq!(reads, 2);
}

#[test]
fn mailbox_times_out_without_reply() {
    let mut board = Board::new(MBOX_RESPONSE, 4_000_000);
    board.silent = true;
    let mut mbox = Mbox::new(BUF_ADDR);
    clock_request(&mut mbox);
    assert_eq!(call_with_limit(&mut board, &mut mbox, 5), Err(MailboxError::Timeout));
    assert!(mbox.is_idle());
    // two polls find it full, one finds room, four find no reply
    let polls = board.trace.iter().filter(|(a, _)| *a == Action::Access(Access::Read { addr: MBOX_STATUS })).count();
    assert_eq!(polls, 7);
    // a later call starts afresh
    board.silent = false;
    assert_eq!(call(&mut board, &mut mbox), Ok(()));
}

#[test]
fn uart_init_fails_on_mailbox_timeout() {
    let mut board = Board::new(MBOX_RESPONSE, 48_000_000);
    board.silent = true;
    let mut init = Uart::new().init(Mbox::new(BUF_ADDR));
    while let Some(a) = init.next_action() {
        let v = board.perform(a);
        init.complete(v);
    }
    assert_eq!(init.result(), Some(Err(UartError::MailboxError)));
    assert!(!board.pins_mapped);
}

#[test]
fn mailbox_starts_with_upload() {
    let mut mbox = Mbox::new(BUF_ADDR);
    assert_eq!(mbox.next_access(), None);
    clock_request(&mut mbox);
    mbox.start_call(CHANNEL_PROP, MBOX_POLL_LIMIT);
    assert_eq!(mbox.next_access(), Some(Access::Write { addr: BUF_ADDR, value: 36 }));
    assert!(!mbox.is_idle());
}

#[test]
fn response_check_walks_tags() {
    let answered = vec![36u32, MBOX_RESPONSE, 0x38002, 12, 0x8000_0008, 2, 4_000_000, 0, 0];
    assert_eq!(check_response(&answered), Ok(()));
    let unanswered = vec![36u32, MBOX_RESPONSE, 0x38002, 12, 8, 2, 4_000_000, 0, 0];
    assert_eq!(check_response(&unanswered), Err(MailboxError::ResponseError));
    let no_end_tag = vec![36u32, MBOX_RESPONSE, 0x38002, 12, 0x8000_0008, 2, 4_000_000, 0];
    assert_eq!(check_response(&no_end_tag), Err(MailboxError::ResponseError));
    let two_tags = vec![0u32, MBOX_RESPONSE, 1, 5, 0x8000_0005, 9, 9, 3, 0, 0x8000_0000, 0];
    assert_eq!(check_response(&two_tags), Ok(()));
    let request = vec![36u32, 0, 0];
    assert_eq!(check_response(&request), Err(MailboxError::ResponseError));
}

#[test]
fn divisor_for_48_mhz() {
    assert_eq!(baud_divisor(48_000_000, 115_200), (26, 3));
}

#[test]
fn divisor_for_4_mhz() {
    assert_eq!(baud_divisor(4_000_000, 115_200), (2, 0xB));
    assert_eq!(baud_divisor(3_000_000, 115_200), (1, 40));
}

#[test]
fn puts_writes_bytes_in_order() {
    let mut board = Board::new(MBOX_RESPONSE, 48_000_000);
    board.fifo_full = 3;
    let mut out = Uart::new().puts("Hello World!");
    while let Some(a) = out.next_action() {
        let v = board.perform(a);
        out.complete(v);
    }
    assert!(out.is_done());
    assert_eq!(board.data_writes(), b"Hello World!".to_vec());
    // each write follows a status read that showed room in the FIFO
    for (i, (a, _)) in board.trace.iter().enumerate() {
        if let Action::Access(Access::Write { .. }) = a {
            assert_eq!(board.trace[i - 1], (Action::Access(Access::Read { addr: UART0_FR }), 0));
        }
    }
    // three polls find the FIFO full before the first byte, one before each other
    assert_eq!(board.trace.len(), 12 + 4 + 11 * 2);
}

#[test]
fn uart_init_programs_divisor_from_firmware_clock() {
    let mut board = Board::new(MBOX_RESPONSE, 48_000_000);
    let mut init = Uart::new().init(Mbox::new(BUF_ADDR));
    while let Some(a) = init.next_action() {
        let v = board.perform(a);
        init.complete(v);
    }
    assert_eq!(init.result(), Some(Ok(())));
    assert!(board.pins_mapped);
    let writes = board.register_writes();
    assert_eq!(writes[0], (UART0_CR, 0));
    assert_eq!(writes[1], (MBOX_WRITE, BUF_ADDR | 8));
    assert_eq!(
        writes[2..].to_vec(),
        vec![
            (UART0_IBRD, 26),
            (UART0_FBRD, 3),
            (UART0_LCRH, 0x70),
            (UART0_CR, 0x301),
            (UART0_ICR, 0x7FF),
            (UART0_IMSC, 0),
        ]
    );
    // the request sent for the clock
    assert_eq!(board.mem.get(&(BUF_ADDR + 8)), Some(&0x38002));
    assert_eq!(board.mem.get(&(BUF_ADDR + 20)), Some(&2));
}

#[test]
fn uart_init_fails_when_mailbox_fails() {
    let mut board = Board::new(0, 48_000_000);
    let mut init = Uart::new().init(Mbox::new(BUF_ADDR));
    while let Some(a) = init.next_action() {
        let v = board.perform(a);
        init.complete(v);
    }
    assert_eq!(init.result(), Some(Err(UartError::MailboxError)));
    assert!(!board.pins_mapped);
    assert_eq!(board.register_writes().last(), Some(&(MBOX_WRITE, BUF_ADDR | 8)));
    assert_eq!(init.into_mbox().word(1), 0);
}

#[test]
fn uart_init_fails_on_unusable_clock() {
    let mut board = Board::new(MBOX_RESPONSE, 1_000);
    let mut init = Uart::new().init(Mbox::new(BUF_ADDR));
    while let Some(a) = init.next_action() {
        let v = board.perform(a);
        init.complete(v);
    }
    assert_eq!(init.result(), Some(Err(UartError::MailboxError)));
}

fn run_until_halted(board: &mut Board, seq: &mut Bringup) {
    let mut steps = 0;
    while seq.stage() != Stage::Halted {
        let a = seq.next_action();
        let v = board.perform(a);
        seq.complete(v);
        steps += 1;
        assert!(steps < 10_000);
    }
}

#[test]
fn bringup_greets_then_waits() {
    let mut board = Board::new(MBOX_RESPONSE, 48_000_000);
    let mut seq = Bringup::new(BUF_ADDR);
    run_until_halted(&mut board, &mut seq);
    assert_eq!(board.data_writes(), b"\nHello World!\n".to_vec());
    assert_eq!(GREETING, "\nHello World!\n");
    let writes_before = board.register_writes().len();
    for _ in 0..5 {
        assert_eq!(seq.next_action(), Action::WaitForEvent);
        seq.complete(0xFFFF_FFFF);
        assert_eq!(seq.stage(), Stage::Halted);
    }
    assert_eq!(board.register_writes().len(), writes_before);
    assert_eq!(board.register_writes().last(), Some(&(UART0_DR, b'\n' as u32)));
}

#[test]
fn bringup_halts_silently_on_failure() {
    let mut board = Board::new(0x8000_0001, 48_000_000);
    let mut seq = Bringup::new(BUF_ADDR);
    run_until_halted(&mut board, &mut seq);
    assert!(board.data_writes().is_empty());
    assert_eq!(seq.next_action(), Action::WaitForEvent);
}
