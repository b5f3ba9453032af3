//! Laws of the driver, proved from the contracts of its operations.

use vstd::prelude::*;
use crate::card::write_accepted;
use crate::device::{
    init_post, read_block_post, write_block_post, Block, SdSpiDevice, SdSpiError,
};
use crate::frame::spec_wire_address;

verus! {

/// Address translation: a high/extended-capacity card is block-addressed,
/// `wire_address(index) == index`; a standard-capacity card is
/// byte-addressed, `wire_address(index) == index * 512`, for every index
/// whose byte address does not overflow.
pub proof fn lemma_wire_address(index: u32)
    ensures
        spec_wire_address(index, true) == index as int,
        index as int * 512 <= u32::MAX as int ==> spec_wire_address(index, false) == index as int
            * 512,
{
}

/// Initialization is idempotent on success: of two consecutive runs of
/// `init` on the same card, if the first reaches the ready state, the second
/// does too, and both report the same capacity class.
pub proof fn lemma_init_idempotent(
    d0: SdSpiDevice,
    d1: SdSpiDevice,
    d2: SdSpiDevice,
    r1: Result<(), SdSpiError>,
    r2: Result<(), SdSpiError>,
)
    requires
        init_post(d0, d1, r1),
        init_post(d1, d2, r2),
        r1 is Ok,
    ensures
        r2 is Ok,
        d1.sdhc == d2.sdhc,
{
}

/// Round trip: writing a block and reading the same index back returns the
/// identical bytes, for any index within the card's range, on a card that
/// answers its commands, accepts the write, and delivers the data token
/// within the bounded wait.
pub proof fn lemma_write_read_round_trip(
    d0: SdSpiDevice,
    d1: SdSpiDevice,
    d2: SdSpiDevice,
    index: u32,
    data: Block,
    rw: Result<(), SdSpiError>,
    rr: Result<Block, SdSpiError>,
)
    requires
        !d0.bus.cfg.mute,
        d0.bus.cfg.token_delay < 10000,
        write_accepted(d0.bus.cfg),
        (index as int) < d0.bus.store().len(),
        write_block_post(d0, d1, index, data, rw),
        read_block_post(d1, d2, index, rr),
    ensures
        rw is Ok,
        rr matches Ok(b) && b.contents@ == data.contents@,
{
}

/// Bounded polling: a card that never reports ready within the budget of
/// 2000 operating-condition polls makes `init` fail with the initialization
/// timeout, after exactly 2000 polls — not fewer, not more.
pub proof fn lemma_init_poll_bounded(d0: SdSpiDevice, d1: SdSpiDevice, r: Result<(), SdSpiError>)
    requires
        init_post(d0, d1, r),
        !d0.bus.cfg.mute,
        d0.bus.cfg.reset_response == 0x01,
        d0.bus.cfg.cmd8_illegal || (d0.bus.cfg.echo0 == 0x01 && d0.bus.cfg.echo1 == 0xAA),
        d0.bus.cfg.ready_after > 2000,
    ensures
        r == Err::<(), SdSpiError>(SdSpiError::InitTimeout),
        d1.bus.polls == 2000,
{
}

/// A rejected write — a data-response token whose low nibble is not 0b0101 —
/// fails with `BadResponse`, stores nothing, and leaves the chip-select line
/// deselected, on a card that answers its commands, for any index within the
/// card's range.
pub proof fn lemma_rejected_write(
    d0: SdSpiDevice,
    d1: SdSpiDevice,
    index: u32,
    data: Block,
    r: Result<(), SdSpiError>,
)
    requires
        !d0.bus.cfg.mute,
        (index as int) < d0.bus.store().len(),
        !write_accepted(d0.bus.cfg),
        write_block_post(d0, d1, index, data, r),
    ensures
        r == Err::<(), SdSpiError>(SdSpiError::BadResponse),
        d1.bus.store() == d0.bus.store(),
        !d1.bus.selected,
{
}

/// A malformed interface-check echo makes initialization fail with
/// `BadResponse` instead of silently assuming a legacy card.
pub proof fn lemma_bad_echo_rejected(d0: SdSpiDevice, d1: SdSpiDevice, r: Result<(), SdSpiError>)
    requires
        init_post(d0, d1, r),
        !d0.bus.cfg.mute,
        d0.bus.cfg.reset_response == 0x01,
        !d0.bus.cfg.cmd8_illegal,
        !(d0.bus.cfg.echo0 == 0x01 && d0.bus.cfg.echo1 == 0xAA),
    ensures
        r == Err::<(), SdSpiError>(SdSpiError::BadResponse),
{
}

} // verus!
