use sdspi::card::{CardCfg, SimCard};
use sdspi::device::{Block, DeviceError, DummyTime, SdSpiDevice, SdSpiError};

fn healthy_cfg(high_capacity: bool) -> CardCfg {
    CardCfg {
        mute: false,
        high_capacity,
        cmd8_illegal: false,
        echo0: 0x01,
        echo1: 0xAA,
        reset_response: 0x01,
        ocr_response: 0x00,
        blocklen_response: 0x00,
        token_delay: 0,
        write_token: 0x05,
        busy_bytes: 6,
        ready_after: 1,
    }
}

fn ready_device(cfg: CardCfg, nblocks: usize) -> SdSpiDevice {
    let card = SimCard::new(cfg, nblocks);
    let mut dev = SdSpiDevice::new(card);
    assert_eq!(dev.init(), Ok(()));
    dev
}

fn pattern_block(seed: u8) -> Block {
    let mut b = Block::zeroed();
    for i in 0..512 {
        b.contents[i] = (i as u8).wrapping_mul(31).wrapping_add(seed);
    }
    b
}

#[test]
fn fresh_blocks_read_as_zero() {
    let mut dev = ready_device(healthy_cfg(true), 4);
    let b = dev.read_block(3).unwrap();
    assert_eq!(b.contents, vec![0u8; 512]);
}

#[test]
fn write_read_round_trip_high_capacity() {
    let mut dev = ready_device(healthy_cfg(true), 8);
    for k in [0u32, 3, 7] {
        let data = pattern_block(k as u8);
        assert_eq!(dev.write_block(k, &data), Ok(()));
        let back = dev.read_block(k).unwrap();
        assert_eq!(back.contents, data.contents);
    }
}

#[test]
fn write_read_round_trip_standard_capacity() {
    let mut dev = ready_device(healthy_cfg(false), 8);
    for k in [0u32, 1, 6] {
        let data = pattern_block(0xA0 ^ (k as u8));
        assert_eq!(dev.write_block(k, &data), Ok(()));
        let back = dev.read_block(k).unwrap();
        assert_eq!(back.contents, data.contents);
    }
}

#[test]
fn write_leaves_other_blocks_untouched() {
    let mut dev = ready_device(healthy_cfg(true), 4);
    let data = pattern_block(9);
    assert_eq!(dev.write_block(1, &data), Ok(()));
    assert_eq!(dev.read_block(0).unwrap().contents, vec![0u8; 512]);
    assert_eq!(dev.read_block(2).unwrap().contents, vec![0u8; 512]);
}

#[test]
fn rejected_write_reports_bad_response_and_deselects() {
    let mut cfg = healthy_cfg(true);
    cfg.write_token = 0x0D;
    let mut dev = ready_device(cfg, 4);
    let data = pattern_block(1);
    assert_eq!(dev.write_block(2, &data), Err(SdSpiError::BadResponse));
    assert!(!dev.bus.selected);
    // Nothing was stored.
    assert_eq!(dev.read_block(2).unwrap().contents, vec![0u8; 512]);
}

#[test]
fn write_token_judged_by_low_nibble_only() {
    // Low nibble 0b0101 with a high bit set elsewhere: still an accepted
    // write.
    let mut cfg = healthy_cfg(true);
    cfg.write_token = 0x15;
    let mut dev = ready_device(cfg, 4);
    let data = pattern_block(3);
    assert_eq!(dev.write_block(2, &data), Ok(()));
    assert_eq!(dev.read_block(2).unwrap().contents, data.contents);
}

#[test]
fn out_of_range_read_rejected_by_status_byte() {
    let mut dev = ready_device(healthy_cfg(true), 4);
    assert_eq!(dev.read_block(4).unwrap_err(), SdSpiError::BadResponse);
    assert!(!dev.bus.selected);
}

#[test]
fn out_of_range_write_rejected_by_status_byte() {
    let mut dev = ready_device(healthy_cfg(false), 4);
    let data = pattern_block(7);
    assert_eq!(dev.write_block(9, &data), Err(SdSpiError::BadResponse));
    assert!(!dev.bus.selected);
}

#[test]
fn mute_card_read_times_out() {
    let mut cfg = healthy_cfg(false);
    cfg.mute = true;
    let card = SimCard::new(cfg, 4);
    let mut dev = SdSpiDevice::new(card);
    assert_eq!(dev.read_block(0).unwrap_err(), SdSpiError::Timeout);
}

#[test]
fn delayed_data_token_within_budget_is_fine() {
    let mut cfg = healthy_cfg(true);
    cfg.token_delay = 9999;
    let mut dev = ready_device(cfg, 4);
    let data = pattern_block(8);
    assert_eq!(dev.write_block(1, &data), Ok(()));
    assert_eq!(dev.read_block(1).unwrap().contents, data.contents);
}

#[test]
fn data_token_past_budget_times_out() {
    let mut cfg = healthy_cfg(true);
    cfg.token_delay = 10000;
    let mut dev = ready_device(cfg, 4);
    assert_eq!(dev.read_block(1).unwrap_err(), SdSpiError::Timeout);
    assert!(!dev.bus.selected);
}

#[test]
fn write_survives_exhausted_busy_wait() {
    let mut cfg = healthy_cfg(true);
    // More busy bytes than the 30000-byte-period wait budget: the write is
    // still reported as successful, best effort.
    cfg.busy_bytes = 40000;
    let mut dev = ready_device(cfg, 4);
    let data = pattern_block(5);
    assert_eq!(dev.write_block(1, &data), Ok(()));
    assert_eq!(dev.read_block(1).unwrap().contents, data.contents);
}

#[test]
fn adapter_write_then_read_many() {
    let mut dev = ready_device(healthy_cfg(true), 16);
    let data: Vec<Block> = vec![pattern_block(11), pattern_block(22), pattern_block(33)];
    assert_eq!(dev.write(&data, 5), Ok(()));

    let mut out = vec![Block::zeroed(), Block::zeroed(), Block::zeroed()];
    assert_eq!(dev.read(&mut out, 5), Ok(()));
    for i in 0..3 {
        assert_eq!(out[i].contents, data[i].contents);
    }
}

#[test]
fn adapter_read_past_last_block_fills_prefix_then_fails() {
    let mut dev = ready_device(healthy_cfg(true), 4);
    let data = pattern_block(17);
    assert_eq!(dev.write_block(3, &data), Ok(()));

    // Blocks 3 and 4 requested on a 4-block card: block 3 is read, the
    // request for block 4 is answered with the card's address rejection.
    let mut out = vec![Block::zeroed(), Block::zeroed()];
    assert_eq!(
        dev.read(&mut out, 3),
        Err(DeviceError::Device(SdSpiError::BadResponse))
    );
    assert_eq!(out[0].contents, data.contents);
    assert_eq!(out[1].contents, vec![0u8; 512]);
}

#[test]
fn adapter_write_past_last_block_writes_prefix_then_fails() {
    let mut dev = ready_device(healthy_cfg(true), 4);
    let data = vec![pattern_block(21), pattern_block(22)];
    assert_eq!(
        dev.write(&data, 3),
        Err(DeviceError::Device(SdSpiError::BadResponse))
    );
    // The in-range block was written before the failure.
    assert_eq!(dev.read_block(3).unwrap().contents, data[0].contents);
}

#[test]
fn adapter_start_past_last_block_fails_untouched() {
    let mut dev = ready_device(healthy_cfg(false), 4);
    let mut out = vec![Block::zeroed()];
    assert_eq!(
        dev.read(&mut out, 9),
        Err(DeviceError::Device(SdSpiError::BadResponse))
    );
    assert_eq!(out[0].contents, vec![0u8; 512]);
}

#[test]
fn adapter_write_rejected_maps_to_device_error() {
    let mut cfg = healthy_cfg(false);
    cfg.write_token = 0xFD;
    let mut dev = ready_device(cfg, 4);
    let data = vec![pattern_block(1)];
    assert_eq!(
        dev.write(&data, 0),
        Err(DeviceError::Device(SdSpiError::BadResponse))
    );
}

#[test]
fn num_blocks_is_unsupported() {
    let dev = ready_device(healthy_cfg(true), 4);
    assert_eq!(dev.num_blocks(), Err(DeviceError::Unsupported));
}

#[test]
fn dummy_time_reports_epoch() {
    let t = DummyTime.get_timestamp();
    assert_eq!(t.year_since_1970, 0);
    assert_eq!(t.zero_indexed_month, 0);
    assert_eq!(t.zero_indexed_day, 0);
    assert_eq!(t.hours, 0);
    assert_eq!(t.minutes, 0);
    assert_eq!(t.seconds, 0);
}
