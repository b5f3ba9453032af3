//! The SD-over-SPI driver: command framer, initialization state machine,
//! single-block transfers, and the block-device adapter.
//!
//! The driver owns the bus exclusively and follows the SD Simplified
//! Specification in SPI mode: a reset command, the interface check, a bounded
//! operating-condition poll, the OCR read that fixes the capacity class, an
//! optional block-length fix for standard-capacity cards, and 512-byte
//! single-block reads and writes with token framing and bounded busy-waits.

use vstd::prelude::*;
use vstd::pervasive::VecAdditionalExecFns;
use crate::card::{commands_of, filler, lemma_commands_of_push, write_accepted, zeros, Event, SimCard};
use crate::frame::{build_frame, spec_wire_address, wire_address};

verus! {

// SD command indices and tokens used by the driver.
const CMD0: u8 = 0;  // GO_IDLE_STATE
const CMD8: u8 = 8;  // SEND_IF_COND
const CMD16: u8 = 16;  // SET_BLOCKLEN (not needed for high-capacity cards)
const CMD17: u8 = 17;  // READ_SINGLE_BLOCK
const CMD24: u8 = 24;  // WRITE_BLOCK
const CMD55: u8 = 55;  // prefix for app commands
const CMD58: u8 = 58;  // READ_OCR
const ACMD41: u8 = 41;  // SD_SEND_OP_COND
const TOKEN_DATA: u8 = 0xFE;

/// Errors surfaced by the driver.
#[derive(Clone, Copy, Debug, PartialEq, Eq, Structural)]
pub enum SdSpiError {
    /// The underlying transport reported a fault.  The in-memory bus never
    /// raises this; it exists for hardware transports behind the same API.
    Spi,
    /// A bounded response or data-token wait expired.
    Timeout,
    /// The operating-condition poll exhausted its iteration budget; the card
    /// may simply be slow to power up, so the caller may retry.
    InitTimeout,
    /// A status byte had an unexpected value at a specific protocol step.
    BadResponse,
    /// Reserved for payload-framing mismatches.
    BadToken,
}

/// Device-level errors reported by the block-device adapter.
#[derive(Clone, Copy, Debug, PartialEq, Eq, Structural)]
pub enum DeviceError {
    /// A block transfer failed with the given driver error.
    Device(SdSpiError),
    /// The operation is not supported by this driver.
    Unsupported,
}

/// One 512-byte block, the unit of every transfer.
#[derive(Debug)]
pub struct Block {
    pub contents: Vec<u8>,
}

impl Block {
    /// A block holds exactly 512 bytes.
    pub open spec fn wf(self) -> bool {
        self.contents@.len() == 512
    }

    /// A zero-filled block.
    pub fn zeroed() -> (b: Block)
        ensures
            b.wf(),
            b.contents@ == zeros(512),
    {
        let mut contents: Vec<u8> = Vec::new();
        let mut j: usize = 0;
        while j < 512
            invariant
                j <= 512,
                contents@ == zeros(j as nat),
            decreases 512 - j,
        {
            contents.push(0x00);
            proof {
                assert(contents@ =~= zeros((j + 1) as nat));
            }
            j = j + 1;
        }
        Block { contents }
    }
}

/// A timestamp handed to the filesystem layer.
#[derive(Clone, Copy, PartialEq, Eq, Structural)]
pub struct Timestamp {
    pub year_since_1970: u8,
    pub zero_indexed_month: u8,
    pub zero_indexed_day: u8,
    pub hours: u8,
    pub minutes: u8,
    pub seconds: u8,
}

/// A time source that always reports the epoch, for filesystems on boards
/// without a clock.
pub struct DummyTime;

impl DummyTime {
    /// Always the all-zero timestamp.
    pub fn get_timestamp(&self) -> (t: Timestamp)
        ensures
            t == (Timestamp {
                year_since_1970: 0,
                zero_indexed_month: 0,
                zero_indexed_day: 0,
                hours: 0,
                minutes: 0,
                seconds: 0,
            }),
    {
        Timestamp {
            year_since_1970: 0,
            zero_indexed_month: 0,
            zero_indexed_day: 0,
            hours: 0,
            minutes: 0,
            seconds: 0,
        }
    }
}

/// What initialization returns, as a function of the card's behaviour alone,
/// in the order the bring-up sequence checks it: a mute card times out on
/// the reset command; a reset answer other than the idle state is rejected;
/// a malformed interface-check echo is rejected; a card that needs more
/// polls than the fixed budget is an initialization timeout; a failed OCR
/// read is rejected; a standard-capacity card that refuses the block-length
/// fix is rejected; everything else reaches the ready state.
pub open spec fn init_outcome(cfg: crate::card::CardCfg) -> Result<(), SdSpiError> {
    if cfg.mute {
        Err(SdSpiError::Timeout)
    } else if cfg.reset_response != 0x01 {
        Err(SdSpiError::BadResponse)
    } else if !cfg.cmd8_illegal && !(cfg.echo0 == 0x01 && cfg.echo1 == 0xAA) {
        Err(SdSpiError::BadResponse)
    } else if cfg.ready_after > 2000 {
        Err(SdSpiError::InitTimeout)
    } else if cfg.ocr_response != 0x00 {
        Err(SdSpiError::BadResponse)
    } else if !cfg.high_capacity && cfg.blocklen_response != 0x00 {
        Err(SdSpiError::BadResponse)
    } else {
        Ok(())
    }
}

/// The app-command/operating-condition section of a bring-up transcript:
/// `k` CMD55/ACMD41 pairs, the operating-condition argument carrying the
/// host-capacity-support bit.
pub open spec fn poll_commands(k: nat) -> Seq<(u8, u32)>
    decreases k,
{
    if k == 0 {
        Seq::empty()
    } else {
        poll_commands((k - 1) as nat) + seq![(55u8, 0u32), (41u8, 0x4000_0000u32)]
    }
}

/// The command frames of a successful bring-up, in order: reset, interface
/// check with the 0x1AA check pattern, `polls` operating-condition pairs,
/// the OCR read, and the block-length fix exactly for a standard-capacity
/// card.
pub open spec fn init_commands(cfg: crate::card::CardCfg, polls: u32) -> Seq<(u8, u32)> {
    seq![(0u8, 0u32), (8u8, 0x1AAu32)] + poll_commands(polls as nat) + seq![(58u8, 0u32)] + (
    if cfg.high_capacity {
        Seq::empty()
    } else {
        seq![(16u8, 512u32)]
    })
}

/// The SD block device: exclusive owner of the bus and of the capacity-class
/// flag fixed at initialization.
pub struct SdSpiDevice {
    /// The card behind the duplex byte transport.
    pub bus: SimCard,
    /// Capacity class: true for a high/extended-capacity (block-addressed)
    /// card.  Undefined before a successful `init`.
    pub sdhc: bool,
}

/// The relation `init` establishes between the device before and after the
/// call and its result.
pub open spec fn init_post(pre: SdSpiDevice, post: SdSpiDevice, r: Result<(), SdSpiError>) -> bool {
    &&& post.bus.cfg == pre.bus.cfg
    &&& post.bus.store() == pre.bus.store()
    &&& post.bus.wf()
    &&& post.bus.quiet()
    &&& r == init_outcome(pre.bus.cfg)
    &&& (r is Ok ==> post.sdhc == pre.bus.cfg.high_capacity && post.inv())
    &&& (r == Err::<(), SdSpiError>(SdSpiError::InitTimeout) ==> post.bus.polls == 2000)
}

/// The relation `read_block` establishes: a mute card times out in the
/// response window; an out-of-range address is rejected by the card's status
/// byte; a card that delays the data token past the bounded wait times out;
/// otherwise the addressed block comes back exactly.  The card's contents
/// are untouched in every case.
pub open spec fn read_block_post(
    pre: SdSpiDevice,
    post: SdSpiDevice,
    index: u32,
    r: Result<Block, SdSpiError>,
) -> bool {
    &&& post.bus.cfg == pre.bus.cfg
    &&& post.sdhc == pre.sdhc
    &&& post.bus.store() == pre.bus.store()
    &&& post.inv()
    &&& if pre.bus.cfg.mute {
        r == Err::<Block, SdSpiError>(SdSpiError::Timeout)
    } else if index as int >= pre.bus.store().len() {
        r == Err::<Block, SdSpiError>(SdSpiError::BadResponse)
    } else if pre.bus.cfg.token_delay >= 10000 {
        r == Err::<Block, SdSpiError>(SdSpiError::Timeout)
    } else {
        r matches Ok(b) && b.wf() && b.contents@ == pre.bus.store()[index as int]
    }
}

/// The relation `write_block` establishes: a mute card times out in the
/// response window; an out-of-range address is rejected by the card's status
/// byte; an accepted write stores exactly the given bytes at the addressed
/// block; a rejected write — a data-response token whose low nibble is not
/// 0b0101 — reports `BadResponse` and changes nothing.  Every failure leaves
/// the card's contents untouched and the chip-select line deselected.
pub open spec fn write_block_post(
    pre: SdSpiDevice,
    post: SdSpiDevice,
    index: u32,
    data: Block,
    r: Result<(), SdSpiError>,
) -> bool {
    &&& post.bus.cfg == pre.bus.cfg
    &&& post.sdhc == pre.sdhc
    &&& post.inv()
    &&& if pre.bus.cfg.mute {
        r == Err::<(), SdSpiError>(SdSpiError::Timeout) && post.bus.store() == pre.bus.store()
    } else if index as int >= pre.bus.store().len() {
        r == Err::<(), SdSpiError>(SdSpiError::BadResponse) && post.bus.store() == pre.bus.store()
    } else if write_accepted(pre.bus.cfg) {
        r is Ok && post.bus.store() == pre.bus.store().update(index as int, data.contents@)
    } else {
        r == Err::<(), SdSpiError>(SdSpiError::BadResponse) && post.bus.store() == pre.bus.store()
    }
}

impl SdSpiDevice {
    /// The driver is between transactions with a well-formed card, and its
    /// capacity-class flag agrees with the card; established by a successful
    /// `init` and preserved by every transfer.
    pub open spec fn inv(self) -> bool {
        &&& self.bus.wf()
        &&& self.bus.quiet()
        &&& self.sdhc == self.bus.cfg.high_capacity
    }

    /// Takes exclusive ownership of the bus and deselects the card.  The
    /// capacity class is undefined until `init` succeeds.
    pub fn new(bus: SimCard) -> (d: SdSpiDevice)
        ensures
            d.bus.cfg == bus.cfg,
            d.bus.store() == bus.store(),
            d.bus.polls == bus.polls,
            d.bus.acmd == bus.acmd,
            d.bus.trace == bus.trace,
            d.bus.quiet(),
            bus.wf() ==> d.bus.wf(),
            d.sdhc == false,
    {
        let mut bus = bus;
        bus.set_cs(false);
        SdSpiDevice { bus, sdhc: false }
    }

    /// Whether the card was detected as high/extended capacity.
    pub fn is_sdhc(&self) -> (r: bool)
        ensures
            r == self.sdhc,
    {
        self.sdhc
    }

    /// How many blocks the card behind the bus holds.
    pub fn capacity(&self) -> (n: usize)
        ensures
            n == self.bus.store().len(),
    {
        self.bus.blocks.len()
    }

    /// Drive chip-select low to start a transaction.
    fn select(&mut self)
        ensures
            final(self).sdhc == old(self).sdhc,
            final(self).bus.cfg == old(self).bus.cfg,
            final(self).bus.acmd == old(self).bus.acmd,
            final(self).bus.polls == old(self).bus.polls,
            final(self).bus.store() == old(self).bus.store(),
            final(self).bus.phase == old(self).bus.phase,
            final(self).bus.outq@ == old(self).bus.outq@,
            final(self).bus.trace == old(self).bus.trace,
            final(self).bus.selected,
            old(self).bus.wf() ==> final(self).bus.wf(),
    {
        self.bus.set_cs(true);
    }

    /// Drive chip-select high to end a transaction and give the card a few
    /// trailing clocks; the card returns to its idle phase.
    fn deselect(&mut self)
        ensures
            final(self).sdhc == old(self).sdhc,
            final(self).bus.cfg == old(self).bus.cfg,
            final(self).bus.acmd == old(self).bus.acmd,
            final(self).bus.polls == old(self).bus.polls,
            final(self).bus.store() == old(self).bus.store(),
            final(self).bus.quiet(),
            final(self).bus.trace@ == old(self).bus.trace@.push(
                Event::Clocks { bytes: 2, selected: false },
            ),
            old(self).bus.wf() ==> final(self).bus.wf(),
    {
        self.bus.set_cs(false);
        self.bus.clocks(2);
    }

    /// Builds and sends one command frame, then polls for the R1 response for
    /// up to 8 byte-periods; the first byte that is not 0xFF is the response,
    /// and a window with nothing but 0xFF is a timeout.
    #[verifier::loop_isolation(false)]
    fn send_cmd(&mut self, cmd: u8, arg: u32) -> (r: Result<u8, SdSpiError>)
        requires
            old(self).bus.wf(),
            old(self).bus.cmd_ready(),
            cmd < 64,
            cmd == 41 && old(self).bus.acmd ==> old(self).bus.polls < u32::MAX,
        ensures
            final(self).sdhc == old(self).sdhc,
            final(self).bus.wf(),
            final(self).bus.cfg == old(self).bus.cfg,
            final(self).bus.selected,
            final(self).bus.store() == old(self).bus.store(),
            final(self).bus.trace@ == old(self).bus.trace@.push(
                Event::Command { cmd: cmd, arg: arg },
            ),
            if old(self).bus.cfg.mute {
                &&& r == Err::<u8, SdSpiError>(SdSpiError::Timeout)
                &&& final(self).bus.cmd_ready()
                &&& final(self).bus.acmd == old(self).bus.acmd
                &&& final(self).bus.polls == old(self).bus.polls
            } else {
                &&& r == Ok::<u8, SdSpiError>(old(self).bus.r1_for(cmd, arg))
                &&& final(self).bus.outq@ == old(self).bus.tail_for(cmd, arg)
                &&& final(self).bus.acmd == (cmd == 55)
                &&& final(self).bus.polls == old(self).bus.polls_after(cmd)
                &&& final(self).bus.phase == old(self).bus.phase_after(cmd, arg)
            },
    {
        let packet = build_frame(cmd, arg);
        self.bus.command(&packet);

        let ghost d1 = *self;
        proof {
            assert(old(self).bus.r1_for(cmd, arg) != 0xFF);
        }

        let mut i: usize = 0;
        while i < 8
            invariant
                i <= 8,
                self.sdhc == d1.sdhc,
                self.bus.cfg == d1.bus.cfg,
                self.bus.selected == d1.bus.selected,
                self.bus.acmd == d1.bus.acmd,
                self.bus.polls == d1.bus.polls,
                self.bus.phase == d1.bus.phase,
                self.bus.outq@ == d1.bus.outq@,
                self.bus.store() == d1.bus.store(),
                self.bus.trace == d1.bus.trace,
                self.bus.wf(),
                !old(self).bus.cfg.mute ==> i == 0,
            decreases 8 - i,
        {
            let b = self.bus.read_byte();
            if b != 0xFF {
                proof {
                    assert(self.bus.outq@ =~= old(self).bus.tail_for(cmd, arg));
                }
                return Ok(b);
            }
            i = i + 1;
        }
        Err(SdSpiError::Timeout)
    }

    /// Drives the fixed SD-over-SPI bring-up sequence: power-up clocks, reset
    /// (CMD0), interface check (CMD8) with echo validation, the bounded
    /// operating-condition poll (CMD55/ACMD41, at most 2000 iterations), the
    /// OCR read (CMD58) that fixes the capacity class, and the block-length
    /// fix (CMD16) for standard-capacity cards.
    ///
    /// The result is a function of the card's behaviour alone
    /// (`init_outcome`), the stored blocks are untouched, and the card is
    /// left deselected, so a successful initialization can be repeated with
    /// the same outcome and the same capacity class.
    ///
    /// The wire transcript is pinned too.  Whatever the outcome, the first
    /// two events this call puts on the wire are runs of 2 and 200 filler
    /// bytes driven while the card is deselected — 1600 dummy clock cycles,
    /// well over the 74 the power-up sequence demands, before any command
    /// frame of the run.  On success, the command frames appended to the
    /// transcript are exactly `init_commands`: the linear reset, interface
    /// check, operating-condition poll pairs, OCR read, and block-length fix
    /// order, whose only repetition is the bounded poll.
    #[verifier::loop_isolation(false)]
    pub fn init(&mut self) -> (r: Result<(), SdSpiError>)
        requires
            old(self).bus.wf(),
        ensures
            init_post(*old(self), *final(self), r),
            final(self).bus.trace@.len() >= old(self).bus.trace@.len() + 2,
            final(self).bus.trace@[old(self).bus.trace@.len() as int] == (Event::Clocks {
                bytes: 2,
                selected: false,
            }),
            final(self).bus.trace@[old(self).bus.trace@.len() as int + 1] == (Event::Clocks {
                bytes: 200,
                selected: false,
            }),
            r is Ok ==> final(self).bus.polls >= 1 && commands_of(final(self).bus.trace@)
                == commands_of(old(self).bus.trace@) + init_commands(
                old(self).bus.cfg,
                final(self).bus.polls,
            ),
    {
        proof {
            lemma_commands_of_push();
        }
        // Power-up: deselect, emit well over 74 dummy clocks, then select.
        self.deselect();
        self.bus.clocks(200);
        self.select();
        self.bus.clocks(2);

        // CMD0: reset into SPI mode; the card must report the idle state.
        let r0 = match self.send_cmd(CMD0, 0) {
            Ok(v) => v,
            Err(e) => {
                self.deselect();
                return Err(e);
            },
        };
        if r0 != 0x01 {
            self.deselect();
            return Err(SdSpiError::BadResponse);
        }
        self.deselect();
        self.bus.clocks(1);
        self.select();

        // CMD8: interface check with the 0x1AA voltage/check pattern.
        let r8 = match self.send_cmd(CMD8, 0x1AA) {
            Ok(v) => v,
            Err(e) => {
                self.deselect();
                return Err(e);
            },
        };
        proof {
            assert(0x05u8 & 0x04u8 != 0u8 && 0x01u8 & 0x04u8 == 0u8) by (bit_vector);
        }
        if r8 & 0x04 != 0 {
            // Illegal command: a legacy standard-capacity card.
            self.sdhc = false;
        } else {
            // Read the rest of the R7 response and require the echo bytes.
            let _t0 = self.bus.read_byte();
            let _t1 = self.bus.read_byte();
            let t2 = self.bus.read_byte();
            let t3 = self.bus.read_byte();
            if t2 != 0x01 || t3 != 0xAA {
                self.deselect();
                return Err(SdSpiError::BadResponse);
            }
            proof {
                assert(self.bus.outq@ =~= Seq::<u8>::empty());
            }
        }
        self.deselect();
        self.bus.clocks(1);
        self.select();

        let ghost cfg = old(self).bus.cfg;
        proof {
            assert(commands_of(self.bus.trace@) =~= commands_of(old(self).bus.trace@) + seq![
                (0u8, 0u32),
                (8u8, 0x1AAu32),
            ] + poll_commands(0));
        }

        // CMD55/ACMD41 loop: poll the operating condition, host-capacity bit
        // set, until the card leaves the idle state or the budget expires.
        let mut ready = false;
        let mut i: usize = 0;
        while i < 2000 && !ready
            invariant
                i <= 2000,
                self.bus.wf(),
                self.bus.cfg == cfg,
                !cfg.mute,
                self.bus.store() == old(self).bus.store(),
                self.bus.phase is Idle,
                self.bus.outq@.len() == 0,
                i == 0 ==> self.bus.selected,
                i > 0 ==> !self.bus.selected,
                self.bus.polls == i as u32,
                self.bus.acmd == false,
                self.bus.trace@.len() >= old(self).bus.trace@.len() + 2,
                self.bus.trace@[old(self).bus.trace@.len() as int] == (Event::Clocks {
                    bytes: 2,
                    selected: false,
                }),
                self.bus.trace@[old(self).bus.trace@.len() as int + 1] == (Event::Clocks {
                    bytes: 200,
                    selected: false,
                }),
                commands_of(self.bus.trace@) == commands_of(old(self).bus.trace@) + seq![
                    (0u8, 0u32),
                    (8u8, 0x1AAu32),
                ] + poll_commands(i as nat),
                !ready ==> (i == 0 || (i as int) < cfg.ready_after as int),
                ready ==> (i as int) >= cfg.ready_after as int && i > 0,
            decreases 2000 - i,
        {
            proof {
                lemma_commands_of_push();
            }
            // CMD55: app-command prefix.
            self.select();
            let _r55 = match self.send_cmd(CMD55, 0) {
                Ok(v) => v,
                Err(e) => {
                    self.deselect();
                    return Err(e);
                },
            };
            self.bus.clocks(1);
            self.deselect();
            self.bus.clocks(1);

            // ACMD41: operating condition, host-capacity-support bit set.
            self.select();
            let r41 = match self.send_cmd(ACMD41, 0x4000_0000) {
                Ok(v) => v,
                Err(e) => {
                    self.deselect();
                    return Err(e);
                },
            };
            self.bus.clocks(1);
            self.deselect();
            self.bus.clocks(1);

            if r41 == 0x00 {
                ready = true;
            }
            proof {
                assert(commands_of(self.bus.trace@) =~= commands_of(old(self).bus.trace@) + seq![
                    (0u8, 0u32),
                    (8u8, 0x1AAu32),
                ] + poll_commands((i + 1) as nat));
            }
            i = i + 1;
        }
        if !ready {
            return Err(SdSpiError::InitTimeout);
        }

        // CMD58: read the OCR; bit 30 selects the high/extended capacity
        // class.
        self.select();
        let r58 = match self.send_cmd(CMD58, 0) {
            Ok(v) => v,
            Err(e) => {
                self.deselect();
                return Err(e);
            },
        };
        if r58 != 0x00 {
            self.deselect();
            return Err(SdSpiError::BadResponse);
        }
        let o0 = self.bus.read_byte();
        let _o1 = self.bus.read_byte();
        let _o2 = self.bus.read_byte();
        let _o3 = self.bus.read_byte();
        self.deselect();
        self.bus.clocks(1);
        proof {
            assert(0xC0u8 & 0x40u8 != 0u8 && 0x80u8 & 0x40u8 == 0u8) by (bit_vector);
        }
        if o0 & 0x40 != 0 {
            self.sdhc = true;
        } else {
            self.sdhc = false;
        }

        // CMD16: fix the block length at 512 bytes, needed only for
        // standard-capacity cards.
        if !self.is_sdhc() {
            self.select();
            let r16 = match self.send_cmd(CMD16, 512) {
                Ok(v) => v,
                Err(e) => {
                    self.deselect();
                    return Err(e);
                },
            };
            if r16 != 0x00 {
                self.deselect();
                return Err(SdSpiError::BadResponse);
            }
        }
        self.deselect();
        self.bus.clocks(1);
        proof {
            lemma_commands_of_push();
            assert(commands_of(self.bus.trace@) =~= commands_of(old(self).bus.trace@)
                + init_commands(cfg, self.bus.polls));
        }
        Ok(())
    }

    /// Reads the 512-byte block at `index`: select, CMD17 with the translated
    /// address, wait for the data token within a bounded window, read the
    /// payload, read and discard the two CRC bytes, deselect.
    #[verifier::loop_isolation(false)]
    pub fn read_block(&mut self, index: u32) -> (r: Result<Block, SdSpiError>)
        requires
            old(self).inv(),
            spec_wire_address(index, old(self).bus.cfg.high_capacity) <= u32::MAX as int,
        ensures
            read_block_post(*old(self), *final(self), index, r),
    {
        let addr = wire_address(index, self.sdhc);
        proof {
            if !old(self).bus.cfg.high_capacity {
                assert((index as int * 512) % 512 == 0) by (nonlinear_arith);
                assert((index as int * 512) / 512 == index as int) by (nonlinear_arith);
            }
        }
        self.select();
        let r = match self.send_cmd(CMD17, addr) {
            Ok(v) => v,
            Err(e) => {
                self.deselect();
                return Err(e);
            },
        };
        if r != 0x00 {
            // The card answered a non-zero status byte: the address named no
            // block of the card.
            self.deselect();
            return Err(SdSpiError::BadResponse);
        }

        let ghost blk = old(self).bus.store()[index as int];
        let ghost delay = old(self).bus.cfg.token_delay as int;
        proof {
            assert(self.bus.outq@ == filler(delay as nat) + seq![0xFEu8] + blk + seq![
                0xFFu8,
                0xFFu8,
            ]);
        }

        // Wait for the data token within the bounded window.
        let mut found = false;
        let mut i: usize = 0;
        while i < 10000 && !found
            invariant
                i <= 10000,
                self.bus.wf(),
                self.bus.cfg == old(self).bus.cfg,
                self.sdhc == old(self).sdhc,
                self.bus.selected,
                self.bus.phase is Idle,
                self.bus.store() == old(self).bus.store(),
                !found ==> i as int <= delay && self.bus.outq@ == filler((delay - i) as nat)
                    + seq![0xFEu8] + blk + seq![0xFFu8, 0xFFu8],
                found ==> i as int == delay + 1 && self.bus.outq@ == blk + seq![0xFFu8, 0xFFu8],
            decreases 10000 - i,
        {
            let b = self.bus.read_byte();
            if b == TOKEN_DATA {
                found = true;
                proof {
                    assert(self.bus.outq@ =~= blk + seq![0xFFu8, 0xFFu8]);
                }
            } else {
                proof {
                    assert(self.bus.outq@ =~= filler((delay - (i + 1)) as nat) + seq![0xFEu8]
                        + blk + seq![0xFFu8, 0xFFu8]);
                }
            }
            i = i + 1;
        }
        if !found {
            // The token never came within the window: the card's delay is at
            // least the whole wait budget.
            self.deselect();
            return Err(SdSpiError::Timeout);
        }

        // Read the 512 payload bytes.
        let mut data: Vec<u8> = Vec::new();
        let mut j: usize = 0;
        while j < 512
            invariant
                j <= 512,
                blk.len() == 512,
                self.bus.wf(),
                self.bus.cfg == old(self).bus.cfg,
                self.sdhc == old(self).sdhc,
                self.bus.selected,
                self.bus.phase is Idle,
                self.bus.store() == old(self).bus.store(),
                data@ == blk.take(j as int),
                self.bus.outq@ == blk.skip(j as int) + seq![0xFFu8, 0xFFu8],
            decreases 512 - j,
        {
            let b = self.bus.read_byte();
            data.push(b);
            proof {
                assert(self.bus.outq@ =~= blk.skip(j + 1) + seq![0xFFu8, 0xFFu8]);
                assert(data@ =~= blk.take(j + 1));
            }
            j = j + 1;
        }

        // Read and discard the two CRC bytes; payload integrity is not
        // checked at this layer.
        let _c0 = self.bus.read_byte();
        proof {
            assert(self.bus.outq@ =~= seq![0xFFu8]);
        }
        let _c1 = self.bus.read_byte();
        proof {
            assert(self.bus.outq@ =~= Seq::<u8>::empty());
        }

        self.deselect();
        proof {
            assert(data@ =~= blk);
        }
        Ok(Block { contents: data })
    }

    /// Writes the 512-byte block `data` at `index`: select, CMD24 with the
    /// translated address, the data token, the payload, two CRC placeholder
    /// bytes, the data-response token check, and a bounded not-busy wait that
    /// is allowed to expire without failing the write.
    #[verifier::loop_isolation(false)]
    pub fn write_block(&mut self, index: u32, data: &Block) -> (r: Result<(), SdSpiError>)
        requires
            old(self).inv(),
            spec_wire_address(index, old(self).bus.cfg.high_capacity) <= u32::MAX as int,
            data.wf(),
        ensures
            write_block_post(*old(self), *final(self), index, *data, r),
    {
        let addr = wire_address(index, self.sdhc);
        proof {
            if !old(self).bus.cfg.high_capacity {
                assert((index as int * 512) % 512 == 0) by (nonlinear_arith);
                assert((index as int * 512) / 512 == index as int) by (nonlinear_arith);
            }
        }
        self.select();
        let r = match self.send_cmd(CMD24, addr) {
            Ok(v) => v,
            Err(e) => {
                self.deselect();
                return Err(e);
            },
        };
        if r != 0x00 {
            // The card answered a non-zero status byte: the address named no
            // block of the card.
            self.deselect();
            return Err(SdSpiError::BadResponse);
        }

        // The data token, the payload, and two CRC placeholders, as one wire
        // burst.
        let mut wire: Vec<u8> = Vec::new();
        wire.push(TOKEN_DATA);
        let mut j: usize = 0;
        while j < 512
            invariant
                j <= 512,
                data.wf(),
                wire@ == seq![0xFEu8] + data.contents@.take(j as int),
            decreases 512 - j,
        {
            let b = data.contents[j];
            wire.push(b);
            proof {
                assert(wire@ =~= seq![0xFEu8] + data.contents@.take(j + 1));
            }
            j = j + 1;
        }
        wire.push(0xFF);
        wire.push(0xFF);

        self.bus.write_data(&wire);
        proof {
            assert(wire@.subrange(1, 513) =~= data.contents@);
        }

        // Data-response token: low nibble 0b0101 means the write was
        // accepted.
        let resp = self.bus.read_byte();
        if resp & 0x0F != 0x05 {
            self.deselect();
            return Err(SdSpiError::BadResponse);
        }

        let ghost busy = self.bus.cfg.busy_bytes;
        proof {
            assert(self.bus.outq@ =~= zeros(busy as nat));
        }

        // Wait until the card stops signalling busy, up to a fixed budget;
        // exhausting the budget is tolerated, since some cards finish the
        // physical write after releasing the data line.
        let mut done = false;
        let mut k: usize = 0;
        while k < 30000 && !done
            invariant
                k <= 30000,
                self.bus.wf(),
                self.bus.cfg == old(self).bus.cfg,
                self.sdhc == old(self).sdhc,
                self.bus.selected,
                self.bus.phase is Idle,
                self.bus.store() == old(self).bus.store().update(index as int, data.contents@),
                !done ==> k as int <= busy as int && self.bus.outq@ == zeros(
                    (busy as int - k as int) as nat,
                ),
                done ==> self.bus.outq@.len() == 0,
            decreases 30000 - k,
        {
            let b = self.bus.read_byte();
            if b == 0xFF {
                done = true;
            } else {
                proof {
                    assert(self.bus.outq@ =~= zeros((busy as int - (k + 1)) as nat));
                }
            }
            k = k + 1;
        }

        self.deselect();
        self.bus.clocks(1);
        Ok(())
    }

    /// Reads `final(blocks).len()` contiguous blocks starting at `start`, in
    /// order, each transferred independently; the blocks handed in are
    /// replaced by the card's contents, and the first failing transfer
    /// aborts the whole call, wrapped as a device-level error.  A request
    /// running past the card's last block fills the blocks before that point
    /// and then surfaces the card's rejection of the bad address.
    #[verifier::loop_isolation(false)]
    pub fn read(&mut self, blocks: &mut Vec<Block>, start: u32) -> (r: Result<(), DeviceError>)
        requires
            old(self).inv(),
            !old(self).bus.cfg.high_capacity ==> (start as int + old(blocks)@.len()) * 512
                <= u32::MAX as int + 512,
        ensures
            final(self).inv(),
            final(self).bus.cfg == old(self).bus.cfg,
            final(self).sdhc == old(self).sdhc,
            final(self).bus.store() == old(self).bus.store(),
            final(blocks)@.len() == old(blocks)@.len(),
            ({
                let n = old(blocks)@.len() as int;
                let l = old(self).bus.store().len() as int;
                if n == 0 {
                    r is Ok && final(blocks)@ == old(blocks)@
                } else if old(self).bus.cfg.mute {
                    r == Err::<(), DeviceError>(DeviceError::Device(SdSpiError::Timeout))
                        && final(blocks)@ == old(blocks)@
                } else if start as int >= l {
                    r == Err::<(), DeviceError>(DeviceError::Device(SdSpiError::BadResponse))
                        && final(blocks)@ == old(blocks)@
                } else if old(self).bus.cfg.token_delay >= 10000 {
                    r == Err::<(), DeviceError>(DeviceError::Device(SdSpiError::Timeout))
                        && final(blocks)@ == old(blocks)@
                } else if start as int + n <= l {
                    r is Ok && forall|i: int|
                        0 <= i < n ==> (#[trigger] final(blocks)@[i]).contents@ == old(
                            self,
                        ).bus.store()[start as int + i]
                } else {
                    // The first index past the card's last block aborts the
                    // call; the blocks before it hold the data read.
                    &&& r == Err::<(), DeviceError>(DeviceError::Device(SdSpiError::BadResponse))
                    &&& forall|i: int|
                        0 <= i < l - start as int ==> (#[trigger] final(blocks)@[i]).contents@
                            == old(self).bus.store()[start as int + i]
                    &&& forall|i: int|
                        l - start as int <= i < n ==> #[trigger] final(blocks)@[i] == old(
                            blocks,
                        )@[i]
                }
            }),
    {
        let n = blocks.len();
        let mut i: usize = 0;
        while i < n
            invariant
                i <= n,
                n == blocks@.len(),
                self.inv(),
                self.bus.cfg == old(self).bus.cfg,
                self.sdhc == old(self).sdhc,
                self.bus.store() == old(self).bus.store(),
                i > 0 ==> start as int + i <= old(self).bus.store().len(),
                !old(self).bus.cfg.high_capacity ==> (start as int + n) * 512 <= u32::MAX as int
                    + 512,
                i > 0 ==> !old(self).bus.cfg.mute && old(self).bus.cfg.token_delay < 10000,
                forall|k: int|
                    0 <= k < i ==> (#[trigger] blocks@[k]).contents@ == old(self).bus.store()[start
                        as int + k],
                forall|k: int| i <= k < n ==> #[trigger] blocks@[k] == old(blocks)@[k],
            decreases n - i,
        {
            proof {
                if !old(self).bus.cfg.high_capacity {
                    assert((start as int + i) * 512 <= (start as int + n) * 512 - 512) by (
                    nonlinear_arith)
                        requires
                            i < n,
                    ;
                }
            }
            let blk = match self.read_block(start + i as u32) {
                Ok(b) => b,
                Err(e) => {
                    proof {
                        if i == 0 {
                            assert(blocks@ =~= old(blocks)@);
                        }
                    }
                    return Err(DeviceError::Device(e));
                },
            };
            blocks.set(i, blk);
            i = i + 1;
        }
        proof {
            if n == 0 {
                assert(blocks@ =~= old(blocks)@);
            }
        }
        Ok(())
    }

    /// Writes `blocks.len()` contiguous blocks starting at `start`, in order,
    /// each transferred independently; the first failing transfer aborts the
    /// whole call, wrapped as a device-level error.  A request running past
    /// the card's last block writes the blocks before that point and then
    /// surfaces the card's rejection of the bad address.
    #[verifier::loop_isolation(false)]
    pub fn write(&mut self, blocks: &Vec<Block>, start: u32) -> (r: Result<(), DeviceError>)
        requires
            old(self).inv(),
            !old(self).bus.cfg.high_capacity ==> (start as int + blocks@.len()) * 512 <= u32::MAX
                as int + 512,
            forall|i: int| 0 <= i < blocks@.len() ==> (#[trigger] blocks@[i]).wf(),
        ensures
            final(self).inv(),
            final(self).bus.cfg == old(self).bus.cfg,
            final(self).sdhc == old(self).sdhc,
            final(self).bus.store().len() == old(self).bus.store().len(),
            ({
                let n = blocks@.len() as int;
                let l = old(self).bus.store().len() as int;
                if n == 0 {
                    r is Ok && final(self).bus.store() == old(self).bus.store()
                } else if old(self).bus.cfg.mute {
                    r == Err::<(), DeviceError>(DeviceError::Device(SdSpiError::Timeout))
                        && final(self).bus.store() == old(self).bus.store()
                } else if start as int >= l {
                    r == Err::<(), DeviceError>(DeviceError::Device(SdSpiError::BadResponse))
                        && final(self).bus.store() == old(self).bus.store()
                } else if !write_accepted(old(self).bus.cfg) {
                    r == Err::<(), DeviceError>(DeviceError::Device(SdSpiError::BadResponse))
                        && final(self).bus.store() == old(self).bus.store()
                } else if start as int + n <= l {
                    &&& r is Ok
                    &&& forall|j: int|
                        0 <= j < l ==> #[trigger] final(self).bus.store()[j] == (if start as int
                            <= j < start as int + n {
                            blocks@[j - start as int].contents@
                        } else {
                            old(self).bus.store()[j]
                        })
                } else {
                    // The first index past the card's last block aborts the
                    // call; the blocks before it were written.
                    &&& r == Err::<(), DeviceError>(DeviceError::Device(SdSpiError::BadResponse))
                    &&& forall|j: int|
                        0 <= j < l ==> #[trigger] final(self).bus.store()[j] == (if start as int
                            <= j {
                            blocks@[j - start as int].contents@
                        } else {
                            old(self).bus.store()[j]
                        })
                }
            }),
    {
        let n = blocks.len();
        let mut i: usize = 0;
        while i < n
            invariant
                i <= n,
                n == blocks@.len(),
                self.inv(),
                self.bus.cfg == old(self).bus.cfg,
                self.sdhc == old(self).sdhc,
                i > 0 ==> start as int + i <= old(self).bus.store().len(),
                self.bus.store().len() == old(self).bus.store().len(),
                !old(self).bus.cfg.high_capacity ==> (start as int + n) * 512 <= u32::MAX as int
                    + 512,
                forall|k: int| 0 <= k < n ==> (#[trigger] blocks@[k]).wf(),
                i > 0 ==> !old(self).bus.cfg.mute && write_accepted(old(self).bus.cfg),
                forall|j: int|
                    0 <= j < old(self).bus.store().len() ==> #[trigger] self.bus.store()[j] == (
                    if start as int <= j < start as int + i {
                        blocks@[j - start as int].contents@
                    } else {
                        old(self).bus.store()[j]
                    }),
            decreases n - i,
        {
            proof {
                if !old(self).bus.cfg.high_capacity {
                    assert((start as int + i) * 512 <= (start as int + n) * 512 - 512) by (
                    nonlinear_arith)
                        requires
                            i < n,
                    ;
                }
            }
            let blk = &blocks[i];
            match self.write_block(start + i as u32, blk) {
                Ok(_) => {},
                Err(e) => {
                    proof {
                        if i == 0 {
                            assert(self.bus.store() =~= old(self).bus.store());
                        }
                    }
                    return Err(DeviceError::Device(e));
                },
            };
            i = i + 1;
        }
        proof {
            if n == 0 {
                assert(self.bus.store() =~= old(self).bus.store());
            }
        }
        Ok(())
    }

    /// Reporting the block count is unsupported: callers obtain the capacity
    /// from the filesystem volume header instead.
    pub fn num_blocks(&self) -> (r: Result<u32, DeviceError>)
        ensures
            r == Err::<u32, DeviceError>(DeviceError::Unsupported),
    {
        Err(DeviceError::Unsupported)
    }
}

} // verus!
