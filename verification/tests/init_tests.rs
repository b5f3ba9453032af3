use sdspi::card::{CardCfg, SimCard};
use sdspi::device::{SdSpiDevice, SdSpiError};

fn healthy_cfg() -> CardCfg {
    CardCfg {
        mute: false,
        high_capacity: true,
        cmd8_illegal: false,
        echo0: 0x01,
        echo1: 0xAA,
        reset_response: 0x01,
        ocr_response: 0x00,
        blocklen_response: 0x00,
        token_delay: 0,
        write_token: 0x05,
        busy_bytes: 4,
        ready_after: 3,
    }
}

#[test]
fn init_high_capacity_card() {
    let card = SimCard::new(healthy_cfg(), 8);
    let mut dev = SdSpiDevice::new(card);
    assert_eq!(dev.init(), Ok(()));
    assert!(dev.is_sdhc());
}

#[test]
fn init_standard_capacity_card() {
    let mut cfg = healthy_cfg();
    cfg.high_capacity = false;
    let card = SimCard::new(cfg, 8);
    let mut dev = SdSpiDevice::new(card);
    assert_eq!(dev.init(), Ok(()));
    assert!(!dev.is_sdhc());
}

#[test]
fn init_legacy_card_skips_interface_check() {
    let mut cfg = healthy_cfg();
    cfg.cmd8_illegal = true;
    cfg.high_capacity = false;
    // Echo bytes are irrelevant when the interface check is illegal.
    cfg.echo0 = 0x77;
    cfg.echo1 = 0x77;
    let card = SimCard::new(cfg, 8);
    let mut dev = SdSpiDevice::new(card);
    assert_eq!(dev.init(), Ok(()));
    assert!(!dev.is_sdhc());
}

#[test]
fn init_idempotent_on_success() {
    let card = SimCard::new(healthy_cfg(), 8);
    let mut dev = SdSpiDevice::new(card);
    assert_eq!(dev.init(), Ok(()));
    let first_class = dev.is_sdhc();
    assert_eq!(dev.init(), Ok(()));
    assert_eq!(dev.is_sdhc(), first_class);
}

#[test]
fn init_mute_card_times_out() {
    let mut cfg = healthy_cfg();
    cfg.mute = true;
    let card = SimCard::new(cfg, 8);
    let mut dev = SdSpiDevice::new(card);
    assert_eq!(dev.init(), Err(SdSpiError::Timeout));
}

#[test]
fn init_malformed_echo_rejected() {
    let mut cfg = healthy_cfg();
    cfg.echo0 = 0x01;
    cfg.echo1 = 0xAB;
    let card = SimCard::new(cfg, 8);
    let mut dev = SdSpiDevice::new(card);
    assert_eq!(dev.init(), Err(SdSpiError::BadResponse));
}

#[test]
fn init_never_ready_fails_after_exactly_2000_polls() {
    let mut cfg = healthy_cfg();
    cfg.ready_after = 2001;
    let card = SimCard::new(cfg, 8);
    let mut dev = SdSpiDevice::new(card);
    assert_eq!(dev.init(), Err(SdSpiError::InitTimeout));
    assert_eq!(dev.bus.polls, 2000);
}

#[test]
fn init_slowest_tolerated_card_succeeds() {
    let mut cfg = healthy_cfg();
    cfg.ready_after = 2000;
    let card = SimCard::new(cfg, 8);
    let mut dev = SdSpiDevice::new(card);
    assert_eq!(dev.init(), Ok(()));
    assert_eq!(dev.bus.polls, 2000);
}

#[test]
fn init_bad_reset_response_rejected() {
    let mut cfg = healthy_cfg();
    cfg.reset_response = 0x00;
    let card = SimCard::new(cfg, 8);
    let mut dev = SdSpiDevice::new(card);
    assert_eq!(dev.init(), Err(SdSpiError::BadResponse));
}

#[test]
fn init_failed_ocr_read_rejected() {
    let mut cfg = healthy_cfg();
    cfg.ocr_response = 0x05;
    let card = SimCard::new(cfg, 8);
    let mut dev = SdSpiDevice::new(card);
    assert_eq!(dev.init(), Err(SdSpiError::BadResponse));
}

#[test]
fn init_refused_blocklen_fix_rejected_on_standard_card() {
    let mut cfg = healthy_cfg();
    cfg.high_capacity = false;
    cfg.blocklen_response = 0x04;
    let card = SimCard::new(cfg, 8);
    let mut dev = SdSpiDevice::new(card);
    assert_eq!(dev.init(), Err(SdSpiError::BadResponse));
}

#[test]
fn init_skips_blocklen_fix_on_high_capacity_card() {
    let mut cfg = healthy_cfg();
    cfg.high_capacity = true;
    // The block-length fix is never sent to a high-capacity card, so its
    // refusal is irrelevant.
    cfg.blocklen_response = 0x04;
    let card = SimCard::new(cfg, 8);
    let mut dev = SdSpiDevice::new(card);
    assert_eq!(dev.init(), Ok(()));
}

#[test]
fn init_failure_leaves_card_deselected() {
    let mut cfg = healthy_cfg();
    cfg.mute = true;
    let card = SimCard::new(cfg, 8);
    let mut dev = SdSpiDevice::new(card);
    assert!(dev.init().is_err());
    assert!(!dev.bus.selected);
}
