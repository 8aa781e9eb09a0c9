use d20controller::{BoardPin, PinId, PortGroup};

fn all_signals() -> Vec<BoardPin> {
    vec![
        BoardPin::LedR,
        BoardPin::LedG,
        BoardPin::LedB,
        BoardPin::Ice40Miso,
        BoardPin::Ice40Mosi,
        BoardPin::Ice40Sck,
        BoardPin::Ice40Ss,
        BoardPin::Ice40Cdone,
        BoardPin::Ice40Reset,
        BoardPin::Ice40Io0,
        BoardPin::Ice40Gclk,
        BoardPin::Button,
        BoardPin::ImuMiso,
        BoardPin::ImuMosi,
        BoardPin::ImuSck,
        BoardPin::ImuSs,
    ]
}

fn pin(group: PortGroup, number: u8) -> PinId {
    PinId { group, number }
}

#[test]
fn led_r_is_wired_to_pa13() {
    assert_eq!(BoardPin::LedR.pin_id(), pin(PortGroup::A, 13));
}

#[test]
fn led_g_is_wired_to_pa15() {
    assert_eq!(BoardPin::LedG.pin_id(), pin(PortGroup::A, 15));
}

#[test]
fn led_b_is_wired_to_pa14() {
    assert_eq!(BoardPin::LedB.pin_id(), pin(PortGroup::A, 14));
}

#[test]
fn ice40_miso_is_wired_to_pa7() {
    assert_eq!(BoardPin::Ice40Miso.pin_id(), pin(PortGroup::A, 7));
}

#[test]
fn ice40_mosi_is_wired_to_pa4() {
    assert_eq!(BoardPin::Ice40Mosi.pin_id(), pin(PortGroup::A, 4));
}

#[test]
fn ice40_sck_is_wired_to_pa5() {
    assert_eq!(BoardPin::Ice40Sck.pin_id(), pin(PortGroup::A, 5));
}

#[test]
fn ice40_ss_is_wired_to_pa6() {
    assert_eq!(BoardPin::Ice40Ss.pin_id(), pin(PortGroup::A, 6));
}

#[test]
fn ice40_cdone_is_wired_to_pb8() {
    assert_eq!(BoardPin::Ice40Cdone.pin_id(), pin(PortGroup::B, 8));
}

#[test]
fn ice40_reset_is_wired_to_pb9() {
    assert_eq!(BoardPin::Ice40Reset.pin_id(), pin(PortGroup::B, 9));
}

#[test]
fn ice40_io0_is_wired_to_pa2() {
    assert_eq!(BoardPin::Ice40Io0.pin_id(), pin(PortGroup::A, 2));
}

#[test]
fn ice40_gclk_is_wired_to_pb23() {
    assert_eq!(BoardPin::Ice40Gclk.pin_id(), pin(PortGroup::B, 23));
}

#[test]
fn button_is_wired_to_pb22() {
    assert_eq!(BoardPin::Button.pin_id(), pin(PortGroup::B, 22));
}

#[test]
fn imu_miso_is_wired_to_pa19() {
    assert_eq!(BoardPin::ImuMiso.pin_id(), pin(PortGroup::A, 19));
}

#[test]
fn imu_mosi_is_wired_to_pa16() {
    assert_eq!(BoardPin::ImuMosi.pin_id(), pin(PortGroup::A, 16));
}

#[test]
fn imu_sck_is_wired_to_pa17() {
    assert_eq!(BoardPin::ImuSck.pin_id(), pin(PortGroup::A, 17));
}

#[test]
fn imu_ss_is_wired_to_pa18() {
    assert_eq!(BoardPin::ImuSs.pin_id(), pin(PortGroup::A, 18));
}

#[test]
fn distinct_signals_use_distinct_pins() {
    let all = all_signals();
    assert_eq!(all.len(), 16);
    for i in 0..all.len() {
        for j in 0..all.len() {
            if i != j {
                assert_ne!(all[i], all[j]);
                assert_ne!(all[i].pin_id(), all[j].pin_id());
            }
        }
    }
}

#[test]
fn every_signal_is_on_an_existing_line() {
    for p in all_signals() {
        assert!(p.pin_id().number < 32);
    }
}

#[test]
fn status_leds_share_group_a() {
    let r = BoardPin::LedR.pin_id();
    let g = BoardPin::LedG.pin_id();
    let b = BoardPin::LedB.pin_id();
    assert_eq!(r.group, PortGroup::A);
    assert_eq!(g.group, PortGroup::A);
    assert_eq!(b.group, PortGroup::A);
    assert_eq!((r.number, g.number, b.number), (13, 15, 14));
}

#[test]
fn ice40_control_lines_are_on_group_b() {
    assert_eq!(BoardPin::Ice40Cdone.pin_id(), pin(PortGroup::B, 8));
    assert_eq!(BoardPin::Ice40Reset.pin_id(), pin(PortGroup::B, 9));
    assert_eq!(BoardPin::Ice40Gclk.pin_id(), pin(PortGroup::B, 23));
    assert_eq!(BoardPin::Button.pin_id(), pin(PortGroup::B, 22));
}
