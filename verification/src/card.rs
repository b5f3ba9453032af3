//! An in-memory simulated SD card behind a duplex byte transport.
//!
//! The simulation models one card on an SPI bus: a chip-select line, a queue
//! of bytes the card is ready to shift out, a small protocol phase, and the
//! stored 512-byte blocks.  Its behaviour parameters (`CardCfg`) cover the
//! situations the driver must survive: a card that never answers, a legacy
//! card that rejects the interface check, a malformed interface-check echo,
//! a rejected write, a card that stays busy after a write, and a card that
//! needs many operating-condition polls before it reports ready.
//!
//! Every method carries a contract that pins the card's reaction exactly, so
//! the driver's own contracts are proved against a fully specified card.

use vstd::prelude::*;
use vstd::pervasive::VecAdditionalExecFns;
use crate::frame::{frame_arg, frame_cmd, frame_ok};

verus! {

/// Fixed behaviour parameters of a simulated card, chosen at construction and
/// never changed by traffic.
#[derive(Clone, Copy, PartialEq, Eq, Structural)]
pub struct CardCfg {
    /// The card never drives the data line: every response window expires.
    pub mute: bool,
    /// Block-addressed (high/extended capacity) rather than byte-addressed.
    pub high_capacity: bool,
    /// The interface-check command is answered as illegal (legacy card).
    pub cmd8_illegal: bool,
    /// First echo byte in the interface-check reply tail (0x01 on a healthy card).
    pub echo0: u8,
    /// Second echo byte in the interface-check reply tail (0xAA on a healthy card).
    pub echo1: u8,
    /// R1 answered to the reset command (0x01, the idle state, on a healthy card).
    pub reset_response: u8,
    /// R1 answered to the OCR read (0x00 on a healthy card).
    pub ocr_response: u8,
    /// R1 answered to the block-length fix (0x00 on a healthy card).
    pub blocklen_response: u8,
    /// Filler bytes of 0xFF the card drives before the data token on a read.
    pub token_delay: u16,
    /// Data-response token sent after a written block (low nibble 0b0101 = accepted).
    pub write_token: u8,
    /// Busy bytes (0x00) the card drives after an accepted write.
    pub busy_bytes: u16,
    /// The operating-condition poll reports ready once this many polls were seen.
    pub ready_after: u32,
}

/// The protocol phase of the simulated card between single byte transfers.
#[derive(Clone, Copy, PartialEq, Eq, Structural)]
pub enum Phase {
    /// Between transactions: waiting for the next command frame.
    Idle,
    /// A write command was accepted: waiting for the data token and payload
    /// for the block at `index`.
    Receiving { index: usize },
}

/// A write is accepted when the data-response token's low nibble is 0b0101.
pub open spec fn write_accepted(cfg: CardCfg) -> bool {
    cfg.write_token & 0x0F == 0x05
}

/// An R1 response byte of 0xFF would be indistinguishable from an idle data
/// line, so a card's configured status responses stay below it; a card that
/// does not answer at all is the mute card.
pub open spec fn cfg_wf(cfg: CardCfg) -> bool {
    &&& cfg.reset_response != 0xFF
    &&& cfg.ocr_response != 0xFF
    &&& cfg.blocklen_response != 0xFF
}

/// The block index a wire address names: the address itself on a
/// block-addressed card, the address divided by the block size otherwise.
pub open spec fn target_index(cfg: CardCfg, arg: u32) -> int {
    if cfg.high_capacity {
        arg as int
    } else {
        arg as int / 512
    }
}

/// A sequence of `n` zero bytes.
pub open spec fn zeros(n: nat) -> Seq<u8> {
    Seq::new(n, |i: int| 0x00u8)
}

/// A sequence of `n` filler bytes of 0xFF.
pub open spec fn filler(n: nat) -> Seq<u8> {
    Seq::new(n, |i: int| 0xFFu8)
}

/// One event of the host's write-side wire traffic, as the card sees it: a
/// run of filler clock bytes, or a complete command frame.  Response reads
/// and write-data bursts are not events of the transcript.
pub enum Event {
    /// A run of filler bytes of 0xFF clocked by the host, with the card's
    /// chip-select state at that moment.
    Clocks { bytes: u32, selected: bool },
    /// A complete 6-byte command frame, by index and argument.
    Command { cmd: u8, arg: u32 },
}

/// The command frames of a wire transcript, in order, as (index, argument)
/// pairs.
pub open spec fn commands_of(t: Seq<Event>) -> Seq<(u8, u32)>
    decreases t.len(),
{
    if t.len() == 0 {
        Seq::empty()
    } else {
        match t[0] {
            Event::Command { cmd, arg } => seq![(cmd, arg)] + commands_of(t.drop_first()),
            Event::Clocks { .. } => commands_of(t.drop_first()),
        }
    }
}

proof fn lemma_commands_of_push_one(t: Seq<Event>, e: Event)
    ensures
        commands_of(t.push(e)) == (match e {
            Event::Command { cmd, arg } => commands_of(t).push((cmd, arg)),
            Event::Clocks { .. } => commands_of(t),
        }),
    decreases t.len(),
{
    let tp = t.push(e);
    if t.len() == 0 {
        assert(tp[0] == e);
        assert(tp.drop_first() =~= Seq::<Event>::empty());
        assert(commands_of(tp.drop_first()) == Seq::<(u8, u32)>::empty());
        assert(commands_of(t) == Seq::<(u8, u32)>::empty());
        match e {
            Event::Command { cmd, arg } => {
                assert(commands_of(tp) == seq![(cmd, arg)] + commands_of(tp.drop_first()));
                assert(commands_of(tp) =~= commands_of(t).push((cmd, arg)));
            },
            Event::Clocks { .. } => {
                assert(commands_of(tp) == commands_of(tp.drop_first()));
            },
        }
    } else {
        assert(tp[0] == t[0]);
        assert(tp.drop_first() =~= t.drop_first().push(e));
        lemma_commands_of_push_one(t.drop_first(), e);
        match e {
            Event::Command { cmd, arg } => {
                match t[0] {
                    Event::Command { cmd: c0, arg: a0 } => {
                        assert(commands_of(tp) == seq![(c0, a0)] + commands_of(
                            t.drop_first().push(e),
                        ));
                        assert(commands_of(tp) =~= commands_of(t).push((cmd, arg)));
                    },
                    Event::Clocks { .. } => {
                        assert(commands_of(tp) == commands_of(t.drop_first().push(e)));
                    },
                }
            },
            Event::Clocks { .. } => {
                match t[0] {
                    Event::Command { cmd: c0, arg: a0 } => {
                        assert(commands_of(tp) == seq![(c0, a0)] + commands_of(
                            t.drop_first().push(e),
                        ));
                    },
                    Event::Clocks { .. } => {
                        assert(commands_of(tp) == commands_of(t.drop_first().push(e)));
                    },
                }
            },
        }
    }
}

/// Appending a clocks run to a transcript keeps its command sequence;
/// appending a command frame appends the pair to the command sequence.
pub proof fn lemma_commands_of_push()
    ensures
        forall|t: Seq<Event>, c: u8, a: u32|
            #[trigger] commands_of(t.push(Event::Command { cmd: c, arg: a })) == commands_of(
                t,
            ).push((c, a)),
        forall|t: Seq<Event>, b: u32, s: bool|
            #[trigger] commands_of(t.push(Event::Clocks { bytes: b, selected: s }))
                == commands_of(t),
{
    assert forall|t: Seq<Event>, c: u8, a: u32|
        #[trigger] commands_of(t.push(Event::Command { cmd: c, arg: a })) == commands_of(t).push(
        (c, a),
    ) by {
        lemma_commands_of_push_one(t, Event::Command { cmd: c, arg: a });
    }
    assert forall|t: Seq<Event>, b: u32, s: bool|
        #[trigger] commands_of(t.push(Event::Clocks { bytes: b, selected: s })) == commands_of(
        t,
    ) by {
        lemma_commands_of_push_one(t, Event::Clocks { bytes: b, selected: s });
    }
}

pub struct SimCard {
    /// Fixed behaviour parameters.
    pub cfg: CardCfg,
    /// Chip-select state: true while the host holds the select line low.
    pub selected: bool,
    /// The previous command was the app-command prefix.
    pub acmd: bool,
    /// Operating-condition polls seen since the last reset.
    pub polls: u32,
    /// Protocol phase.
    pub phase: Phase,
    /// Bytes the card is ready to shift out, oldest first.
    pub outq: Vec<u8>,
    /// Stored blocks of 512 bytes each.
    pub blocks: Vec<Vec<u8>>,
    /// The host's write-side wire traffic so far: clock filler runs and
    /// command frames, in order.
    pub trace: Ghost<Seq<Event>>,
}

impl SimCard {
    /// The stored blocks as sequences of bytes.
    pub open spec fn store(self) -> Seq<Seq<u8>> {
        self.blocks@.map_values(|b: Vec<u8>| b@)
    }

    /// Structural well-formedness: every block holds exactly 512 bytes, the
    /// block count fits the 32-bit address space, and a receiving phase
    /// names a block that exists.
    pub open spec fn wf(self) -> bool {
        &&& cfg_wf(self.cfg)
        &&& self.blocks@.len() <= u32::MAX
        &&& (forall|i: int|
            0 <= i < self.blocks@.len() ==> (#[trigger] self.blocks@[i])@.len() == 512)
        &&& (self.phase matches Phase::Receiving { index } ==> index < self.blocks@.len())
    }

    /// The card is selected, between transactions, with nothing queued:
    /// ready to receive a command frame.
    pub open spec fn cmd_ready(self) -> bool {
        &&& self.selected
        &&& self.phase is Idle
        &&& self.outq@.len() == 0
    }

    /// The card is deselected, between transactions, with nothing queued.
    pub open spec fn quiet(self) -> bool {
        &&& !self.selected
        &&& self.phase is Idle
        &&& self.outq@.len() == 0
    }

    /// The block index a receiving phase names.
    pub open spec fn recv_index(self) -> usize {
        match self.phase {
            Phase::Receiving { index } => index,
            Phase::Idle => 0,
        }
    }

    /// Whether a wire address names a block of this card, respecting the
    /// byte-address alignment a standard-capacity card requires.
    pub open spec fn addr_ok(self, arg: u32) -> bool {
        &&& (self.cfg.high_capacity || arg as int % 512 == 0)
        &&& target_index(self.cfg, arg) < self.store().len()
    }

    /// The R1 status byte the card answers to `cmd` received in a ready state:
    /// bit 0 while still idle, bit 2 for an illegal command, bit 6 for a bad
    /// argument, 0x00 once ready.
    pub open spec fn r1_for(self, cmd: u8, arg: u32) -> u8 {
        if cmd == 0 {
            self.cfg.reset_response
        } else if cmd == 8 {
            if self.cfg.cmd8_illegal {
                0x05
            } else {
                0x01
            }
        } else if cmd == 55 {
            0x01
        } else if cmd == 41 {
            if !self.acmd {
                0x05
            } else if self.polls + 1 >= self.cfg.ready_after {
                0x00
            } else {
                0x01
            }
        } else if cmd == 58 {
            self.cfg.ocr_response
        } else if cmd == 16 {
            if arg == 512 {
                self.cfg.blocklen_response
            } else {
                0x40
            }
        } else if cmd == 17 || cmd == 24 {
            if self.addr_ok(arg) {
                0x00
            } else {
                0x40
            }
        } else {
            0x05
        }
    }

    /// The bytes the card queues behind the R1 response: the R7 tail for the
    /// interface check, the OCR for the register read, and token, payload and
    /// CRC placeholders for a block read.
    pub open spec fn tail_for(self, cmd: u8, arg: u32) -> Seq<u8> {
        if cmd == 8 && !self.cfg.cmd8_illegal {
            seq![0x00u8, 0x00u8, self.cfg.echo0, self.cfg.echo1]
        } else if cmd == 58 && self.cfg.ocr_response == 0x00 {
            seq![(if self.cfg.high_capacity { 0xC0u8 } else { 0x80u8 }), 0x00u8, 0x00u8, 0x00u8]
        } else if cmd == 17 && self.addr_ok(arg) {
            filler(self.cfg.token_delay as nat) + seq![0xFEu8] + self.store()[target_index(
                self.cfg,
                arg,
            )] + seq![0xFFu8, 0xFFu8]
        } else {
            Seq::empty()
        }
    }

    /// The poll counter after `cmd`: cleared by a reset, advanced by an
    /// operating-condition poll, untouched otherwise.
    pub open spec fn polls_after(self, cmd: u8) -> u32 {
        if cmd == 0 {
            0
        } else if cmd == 41 && self.acmd {
            (self.polls + 1) as u32
        } else {
            self.polls
        }
    }

    /// The phase after `cmd`: an accepted write command starts receiving.
    pub open spec fn phase_after(self, cmd: u8, arg: u32) -> Phase {
        if cmd == 24 && self.addr_ok(arg) {
            Phase::Receiving { index: target_index(self.cfg, arg) as usize }
        } else {
            Phase::Idle
        }
    }

    /// A fresh, deselected card with `nblocks` zeroed blocks.
    pub fn new(cfg: CardCfg, nblocks: usize) -> (c: SimCard)
        requires
            cfg_wf(cfg),
            nblocks <= u32::MAX as usize,
        ensures
            c.wf(),
            c.quiet(),
            c.cfg == cfg,
            c.acmd == false,
            c.polls == 0,
            c.store().len() == nblocks,
            c.trace@ == Seq::<Event>::empty(),
            forall|i: int| 0 <= i < nblocks ==> #[trigger] c.store()[i] == zeros(512),
    {
        let mut blocks: Vec<Vec<u8>> = Vec::new();
        let mut i: usize = 0;
        while i < nblocks
            invariant
                i <= nblocks,
                blocks@.len() == i,
                forall|k: int| 0 <= k < i ==> (#[trigger] blocks@[k])@ == zeros(512),
            decreases nblocks - i,
        {
            let mut blk: Vec<u8> = Vec::new();
            let mut j: usize = 0;
            while j < 512
                invariant
                    j <= 512,
                    blk@ == zeros(j as nat),
                decreases 512 - j,
            {
                blk.push(0x00);
                proof {
                    assert(blk@ =~= zeros((j + 1) as nat));
                }
                j = j + 1;
            }
            blocks.push(blk);
            i = i + 1;
        }
        let c = SimCard {
            cfg,
            selected: false,
            acmd: false,
            polls: 0,
            phase: Phase::Idle,
            outq: Vec::new(),
            blocks,
            trace: Ghost(Seq::empty()),
        };
        proof {
            assert(forall|i: int|
                0 <= i < nblocks ==> #[trigger] c.store()[i] == c.blocks@[i]@);
        }
        c
    }

    /// The host drives the chip-select line.  Deselecting ends any
    /// transaction in flight: the card returns to its idle phase and drops
    /// whatever it still had queued to shift out.  The app-command flag and
    /// the poll counter persist, as they do across the select boundary on a
    /// real card.
    pub fn set_cs(&mut self, selected: bool)
        ensures
            final(self).cfg == old(self).cfg,
            final(self).acmd == old(self).acmd,
            final(self).polls == old(self).polls,
            final(self).store() == old(self).store(),
            final(self).trace == old(self).trace,
            final(self).selected == selected,
            old(self).wf() ==> final(self).wf(),
            if selected {
                final(self).phase == old(self).phase && final(self).outq@ == old(self).outq@
            } else {
                final(self).phase is Idle && final(self).outq@.len() == 0
            },
    {
        self.selected = selected;
        if !selected {
            self.phase = Phase::Idle;
            self.outq.clear();
        }
    }

    /// The host clocks out `n` filler bytes of 0xFF while ignoring what comes
    /// back.  An idle or deselected card ignores filler, and the simulation
    /// keeps queued reply bytes until they are read or the card is
    /// deselected, so nothing changes but the wire transcript, which records
    /// the run and the chip-select state it was clocked under.
    pub fn clocks(&mut self, n: u32)
        requires
            old(self).phase is Idle || !old(self).selected,
        ensures
            final(self).cfg == old(self).cfg,
            final(self).selected == old(self).selected,
            final(self).acmd == old(self).acmd,
            final(self).polls == old(self).polls,
            final(self).phase == old(self).phase,
            final(self).outq@ == old(self).outq@,
            final(self).store() == old(self).store(),
            old(self).wf() ==> final(self).wf(),
            final(self).trace@ == old(self).trace@.push(
                Event::Clocks { bytes: n, selected: old(self).selected },
            ),
    {
        self.trace = Ghost(
            self.trace@.push(Event::Clocks { bytes: n, selected: self.selected }),
        );
    }

    /// One full-duplex byte transfer driven by the host with 0xFF filler on
    /// the outgoing line: a selected card shifts out the oldest queued byte,
    /// and a deselected or drained card leaves the line at 0xFF.  The filler
    /// going in never changes the card's phase: an idle card ignores it, and
    /// a card waiting for a write burst treats it as pre-token filler.
    pub fn read_byte(&mut self) -> (r: u8)
        ensures
            final(self).cfg == old(self).cfg,
            final(self).selected == old(self).selected,
            final(self).acmd == old(self).acmd,
            final(self).polls == old(self).polls,
            final(self).phase == old(self).phase,
            final(self).store() == old(self).store(),
            final(self).trace == old(self).trace,
            old(self).wf() ==> final(self).wf(),
            if old(self).selected && old(self).outq@.len() > 0 {
                r == old(self).outq@[0] && final(self).outq@ == old(self).outq@.drop_first()
            } else {
                r == 0xFF && final(self).outq@ == old(self).outq@
            },
    {
        if self.selected && self.outq.len() > 0 {
            let r = self.outq.remove(0);
            proof {
                assert(self.outq@ =~= old(self).outq@.drop_first());
            }
            r
        } else {
            0xFF
        }
    }

    /// The host sends one complete, well-formed 6-byte command frame to a
    /// selected card that is between transactions.  The card parses the
    /// command index and the big-endian argument, queues its R1 response and
    /// reply tail, and updates its reset, app-command and poll state; a mute
    /// card ignores the frame entirely.
    #[verifier::loop_isolation(false)]
    pub fn command(&mut self, frame: &Vec<u8>)
        requires
            old(self).wf(),
            old(self).cmd_ready(),
            frame_ok(frame@),
            frame_cmd(frame@) == 41 && old(self).acmd ==> old(self).polls < u32::MAX,
        ensures
            final(self).wf(),
            final(self).cfg == old(self).cfg,
            final(self).selected == old(self).selected,
            final(self).store() == old(self).store(),
            final(self).trace@ == old(self).trace@.push(
                Event::Command { cmd: frame_cmd(frame@), arg: frame_arg(frame@) },
            ),
            ({
                let cmd = frame_cmd(frame@);
                let arg = frame_arg(frame@);
                if old(self).cfg.mute {
                    &&& final(self).outq@ == old(self).outq@
                    &&& final(self).acmd == old(self).acmd
                    &&& final(self).polls == old(self).polls
                    &&& final(self).phase == old(self).phase
                } else {
                    &&& final(self).outq@ == seq![old(self).r1_for(cmd, arg)] + old(self).tail_for(
                        cmd,
                        arg,
                    )
                    &&& final(self).acmd == (cmd == 55)
                    &&& final(self).polls == old(self).polls_after(cmd)
                    &&& final(self).phase == old(self).phase_after(cmd, arg)
                }
            }),
    {
        let cmd = frame[0] & 0x3F;
        let arg = ((frame[1] as u32) << 24) | ((frame[2] as u32) << 16) | ((frame[3] as u32)
            << 8) | (frame[4] as u32);
        self.trace = Ghost(self.trace@.push(Event::Command { cmd, arg }));
        let ghost trace1 = self.trace@;

        if self.cfg.mute {
            return ;
        }

        let nblocks = self.blocks.len();
        let mut ok: bool = false;
        let mut idx: usize = 0;
        if self.cfg.high_capacity {
            idx = arg as usize;
            ok = idx < nblocks;
        } else if arg % 512 == 0 {
            idx = (arg / 512) as usize;
            ok = idx < nblocks;
        }
        assert(ok == self.addr_ok(arg));
        assert(ok ==> idx as int == target_index(self.cfg, arg));

        let r1: u8 = if cmd == 0 {
            self.cfg.reset_response
        } else if cmd == 8 {
            if self.cfg.cmd8_illegal {
                0x05
            } else {
                0x01
            }
        } else if cmd == 55 {
            0x01
        } else if cmd == 41 {
            if !self.acmd {
                0x05
            } else if self.polls + 1 >= self.cfg.ready_after {
                0x00
            } else {
                0x01
            }
        } else if cmd == 58 {
            self.cfg.ocr_response
        } else if cmd == 16 {
            if arg == 512 {
                self.cfg.blocklen_response
            } else {
                0x40
            }
        } else if cmd == 17 || cmd == 24 {
            if ok {
                0x00
            } else {
                0x40
            }
        } else {
            0x05
        };
        assert(r1 == old(self).r1_for(cmd, arg));

        self.outq.push(r1);
        if cmd == 8 && !self.cfg.cmd8_illegal {
            self.outq.push(0x00);
            self.outq.push(0x00);
            self.outq.push(self.cfg.echo0);
            self.outq.push(self.cfg.echo1);
        } else if cmd == 58 && self.cfg.ocr_response == 0x00 {
            self.outq.push(if self.cfg.high_capacity {
                0xC0
            } else {
                0x80
            });
            self.outq.push(0x00);
            self.outq.push(0x00);
            self.outq.push(0x00);
        } else if cmd == 17 && ok {
            let delay = self.cfg.token_delay;
            let ghost fbase = self.outq@;
            let mut t: u16 = 0;
            while t < delay
                invariant
                    t <= delay,
                    delay == self.cfg.token_delay,
                    self.blocks@ == old(self).blocks@,
                    self.cfg == old(self).cfg,
                    self.selected == old(self).selected,
                    self.acmd == old(self).acmd,
                    self.polls == old(self).polls,
                    self.phase == old(self).phase,
                    self.trace@ == trace1,
                    self.outq@ == fbase + filler(t as nat),
                decreases delay - t,
            {
                self.outq.push(0xFF);
                proof {
                    assert(self.outq@ =~= fbase + filler((t + 1) as nat));
                }
                t = t + 1;
            }
            self.outq.push(0xFE);
            let ghost base = self.outq@;
            let mut j: usize = 0;
            while j < 512
                invariant
                    j <= 512,
                    idx < self.blocks@.len(),
                    self.blocks@ == old(self).blocks@,
                    self.cfg == old(self).cfg,
                    self.selected == old(self).selected,
                    self.acmd == old(self).acmd,
                    self.polls == old(self).polls,
                    self.phase == old(self).phase,
                    self.trace@ == trace1,
                    self.outq@ == base + self.blocks@[idx as int]@.take(j as int),
                decreases 512 - j,
            {
                let b = self.blocks[idx][j];
                self.outq.push(b);
                proof {
                    assert(self.outq@ =~= base + self.blocks@[idx as int]@.take(j + 1));
                }
                j = j + 1;
            }
            proof {
                assert(self.blocks@[idx as int]@.take(512) =~= self.blocks@[idx as int]@);
            }
            self.outq.push(0xFF);
            self.outq.push(0xFF);
        }

        if cmd == 0 {
            self.polls = 0;
        } else if cmd == 41 && self.acmd {
            self.polls = self.polls + 1;
        }
        self.acmd = cmd == 55;

        if cmd == 24 && ok {
            self.phase = Phase::Receiving { index: idx };
        } else {
            self.phase = Phase::Idle;
        }

        proof {
            assert(self.outq@ =~= seq![old(self).r1_for(cmd, arg)] + old(self).tail_for(
                cmd,
                arg,
            ));
        }
    }

    /// The host streams a write burst to a card that accepted a write
    /// command: the data token, 512 payload bytes and two CRC placeholder
    /// bytes.  The card stores the payload when its data-response token
    /// accepts the write, answers that token, and then drives its configured
    /// busy bytes.
    #[verifier::loop_isolation(false)]
    pub fn write_data(&mut self, bytes: &Vec<u8>)
        requires
            old(self).wf(),
            old(self).selected,
            old(self).phase is Receiving,
            old(self).outq@.len() == 0,
            !old(self).cfg.mute,
            bytes@.len() == 515,
            bytes@[0] == 0xFE,
        ensures
            final(self).wf(),
            final(self).cfg == old(self).cfg,
            final(self).selected == old(self).selected,
            final(self).acmd == old(self).acmd,
            final(self).polls == old(self).polls,
            final(self).trace == old(self).trace,
            final(self).phase is Idle,
            ({
                let idx = old(self).recv_index() as int;
                if write_accepted(old(self).cfg) {
                    &&& final(self).store() == old(self).store().update(idx, bytes@.subrange(1, 513))
                    &&& final(self).outq@ == seq![old(self).cfg.write_token] + zeros(
                        old(self).cfg.busy_bytes as nat,
                    )
                } else {
                    &&& final(self).store() == old(self).store()
                    &&& final(self).outq@ == seq![old(self).cfg.write_token]
                }
            }),
    {
        let idx = match self.phase {
            Phase::Receiving { index } => index,
            Phase::Idle => 0,
        };
        self.phase = Phase::Idle;
        self.outq.push(self.cfg.write_token);

        if self.cfg.write_token & 0x0F == 0x05 {
            let mut blk: Vec<u8> = Vec::new();
            let mut j: usize = 0;
            while j < 512
                invariant
                    j <= 512,
                    blk@ == bytes@.subrange(1, 1 + j as int),
                decreases 512 - j,
            {
                blk.push(bytes[j + 1]);
                proof {
                    assert(blk@ =~= bytes@.subrange(1, 1 + (j + 1)));
                }
                j = j + 1;
            }
            self.blocks.set(idx, blk);
            proof {
                assert(self.store() =~= old(self).store().update(
                    idx as int,
                    bytes@.subrange(1, 513),
                ));
            }

            let busy = self.cfg.busy_bytes;
            let ghost q1 = self.outq@;
            let ghost blocks1 = self.blocks@;
            let mut k: u16 = 0;
            while k < busy
                invariant
                    k <= busy,
                    self.blocks@ == blocks1,
                    self.cfg == old(self).cfg,
                    self.selected == old(self).selected,
                    self.acmd == old(self).acmd,
                    self.polls == old(self).polls,
                    self.phase is Idle,
                    self.trace == old(self).trace,
                    busy == self.cfg.busy_bytes,
                    self.outq@ == q1 + zeros(k as nat),
                decreases busy - k,
            {
                self.outq.push(0x00);
                proof {
                    assert(self.outq@ =~= q1 + zeros((k + 1) as nat));
                }
                k = k + 1;
            }
        }
        proof {
            if write_accepted(self.cfg) {
                assert(self.outq@ =~= seq![self.cfg.write_token] + zeros(
                    self.cfg.busy_bytes as nat,
                ));
            } else {
                assert(self.outq@ =~= seq![self.cfg.write_token]);
            }
        }
    }
}

} // verus!
