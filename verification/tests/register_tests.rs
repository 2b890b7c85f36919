//! Bitfield codec and register model behavior.

use adf4351::codec::BitField;
use adf4351::register::{
    field, AntiBacklashPulseWidth, AuxOutputEnable, AuxOutputSelect, BandSelectClockMode,
    ChargeCancellation, ChargePumpThreeState, ClockDividerMode, CounterReset, CycleSlipReduction,
    DoubleBuffer, FeedbackSelect, FieldId, Ldf, Ldp, LockDetectPin, MuteTillLockDetect, Muxout,
    NoiseMode, Ph1PhaseAdj, PhaseDetectorPolarity, PowerDown, Pr1Prescaler, Rdiv2, RefDoubler,
    Reg, RegisterSet, RfOutputEnable, VcoPowerDown,
};
use adf4351::register::word_to_bytes;

const ALL_FIELDS: [FieldId; 36] = [
    FieldId::Frac,
    FieldId::Int,
    FieldId::Mod,
    FieldId::Phase,
    FieldId::Prescaler,
    FieldId::PhaseAdjust,
    FieldId::CounterReset,
    FieldId::CpThreeState,
    FieldId::PowerDown,
    FieldId::PdPolarity,
    FieldId::Ldp,
    FieldId::Ldf,
    FieldId::CpCurrent,
    FieldId::DoubleBuffer,
    FieldId::RCounter,
    FieldId::Rdiv2,
    FieldId::RefDoubler,
    FieldId::Muxout,
    FieldId::NoiseMode,
    FieldId::ClockDivider,
    FieldId::ClockDividerMode,
    FieldId::Csr,
    FieldId::ChargeCancel,
    FieldId::AntiBacklashWidth,
    FieldId::BandSelectClockMode,
    FieldId::OutputPower,
    FieldId::RfOutputEnable,
    FieldId::AuxOutputPower,
    FieldId::AuxOutputEnable,
    FieldId::AuxOutputSelect,
    FieldId::MuteTillLock,
    FieldId::VcoPowerDown,
    FieldId::BandSelectClockDiv,
    FieldId::RfDividerSelect,
    FieldId::FeedbackSelect,
    FieldId::LockDetectPin,
];

fn mask_of(f: BitField) -> u32 {
    if f.width == 32 {
        u32::MAX
    } else {
        (1u32 << f.width) - 1
    }
}

#[test]
fn field_round_trip_from_zero_and_ones() {
    // Every field, every extreme starting word, in-range and over-wide
    // values: the decoded value is the written value masked to the field's
    // width, and the bits outside the field are untouched.
    for id in ALL_FIELDS {
        let f = field(id);
        let m = mask_of(f);
        for start in [0u32, u32::MAX] {
            for v in [0u32, 1, m, u32::MAX, 0xA5A5_A5A5] {
                let r = Reg { w: start }.set(f, v);
                assert_eq!(r.get(f), v & m, "{:?}", id);
                let outside = !(m << f.offset);
                assert_eq!(r.w & outside, start & outside, "{:?}", id);
            }
        }
    }
}

#[test]
fn over_wide_value_is_masked_not_rejected() {
    let f = field(FieldId::Frac);
    let r = Reg { w: 0 }.set(f, 0xFFFF);
    assert_eq!(r.get(f), 0xFFF);
}

#[test]
fn address_tag_survives_every_field_write() {
    // Writing all-ones into every field of a fresh register set never
    // disturbs any register's low-3-bit address tag.
    let mut rs = RegisterSet::new();
    for id in ALL_FIELDS {
        rs = rs.set(field(id), u32::MAX);
    }
    assert_eq!(rs.r0.w & 7, 0);
    assert_eq!(rs.r1.w & 7, 1);
    assert_eq!(rs.r2.w & 7, 2);
    assert_eq!(rs.r3.w & 7, 3);
    assert_eq!(rs.r4.w & 7, 4);
    assert_eq!(rs.r5.w & 7, 5);
}

#[test]
fn serialization_is_address_descending() {
    let mut rs = RegisterSet::new();
    for id in ALL_FIELDS {
        rs = rs.set(field(id), u32::MAX);
    }
    let words = rs.to_words();
    assert_eq!(words.len(), 6);
    let tags: Vec<u32> = words.iter().map(|w| w & 7).collect();
    assert_eq!(tags, vec![5, 4, 3, 2, 1, 0]);
}

#[test]
fn fresh_set_has_zero_fields_and_address_tags() {
    let rs = RegisterSet::new();
    for id in ALL_FIELDS {
        assert_eq!(rs.get(field(id)), 0, "{:?}", id);
    }
    assert_eq!(rs.to_words(), vec![5, 4, 3, 2, 1, 0]);
    let d = RegisterSet::default();
    assert_eq!(d, rs);
}

#[test]
fn setter_clamps_r_counter() {
    let rs = RegisterSet::new();
    assert_eq!(rs.set_r_counter(0).get(field(FieldId::RCounter)), 1);
    assert_eq!(rs.set_r_counter(1).get(field(FieldId::RCounter)), 1);
    assert_eq!(rs.set_r_counter(700).get(field(FieldId::RCounter)), 700);
    assert_eq!(rs.set_r_counter(1023).get(field(FieldId::RCounter)), 1023);
    assert_eq!(rs.set_r_counter(2000).get(field(FieldId::RCounter)), 1023);
}

#[test]
fn setter_clamps_band_select_clock_div() {
    let rs = RegisterSet::new();
    assert_eq!(rs.set_band_select_clock_div(0).get(field(FieldId::BandSelectClockDiv)), 1);
    assert_eq!(rs.set_band_select_clock_div(200).get(field(FieldId::BandSelectClockDiv)), 200);
    assert_eq!(rs.set_band_select_clock_div(300).get(field(FieldId::BandSelectClockDiv)), 255);
}

#[test]
fn setter_clamps_rf_divider_select() {
    let rs = RegisterSet::new();
    assert_eq!(rs.set_rf_divider_select(0).get(field(FieldId::RfDividerSelect)), 0);
    assert_eq!(rs.set_rf_divider_select(6).get(field(FieldId::RfDividerSelect)), 6);
    assert_eq!(rs.set_rf_divider_select(9).get(field(FieldId::RfDividerSelect)), 6);
}

#[test]
fn a_field_write_lands_on_the_documented_bits() {
    // INT is bits [30:15] of register 0: value 1 must set exactly bit 15.
    let rs = RegisterSet::new().set(field(FieldId::Int), 1);
    assert_eq!(rs.r0.w, 1 << 15);
    // FRAC is bits [14:3] of register 0.
    let rs = RegisterSet::new().set(field(FieldId::Frac), 1);
    assert_eq!(rs.r0.w, 1 << 3);
    // The lock detect pin mode is bits [23:22] of register 5.
    let rs = RegisterSet::new().set(field(FieldId::LockDetectPin), 3);
    assert_eq!(rs.r5.w, (3 << 22) | 5);
}

#[test]
fn enum_encodings_match_the_data_sheet() {
    assert_eq!(Ph1PhaseAdj::Off.bits(), 0);
    assert_eq!(Ph1PhaseAdj::On.bits(), 1);
    assert_eq!(Pr1Prescaler::Pr45.bits(), 0);
    assert_eq!(Pr1Prescaler::Pr89.bits(), 1);
    assert_eq!(NoiseMode::LowNoise.bits(), 0);
    assert_eq!(NoiseMode::LowSpur.bits(), 3);
    assert_eq!(Muxout::ThreeStateOut.bits(), 0);
    assert_eq!(Muxout::Dlock.bits(), 6);
    assert_eq!(RefDoubler::Enabled.bits(), 1);
    assert_eq!(Rdiv2::Enabled.bits(), 1);
    assert_eq!(DoubleBuffer::Enabled.bits(), 1);
    assert_eq!(Ldf::IntN.bits(), 1);
    assert_eq!(Ldp::Ldp6ns.bits(), 1);
    assert_eq!(PhaseDetectorPolarity::Positive.bits(), 1);
    assert_eq!(PowerDown::Enabled.bits(), 1);
    assert_eq!(ChargePumpThreeState::Enabled.bits(), 1);
    assert_eq!(CounterReset::Enabled.bits(), 1);
    assert_eq!(BandSelectClockMode::High.bits(), 1);
    assert_eq!(AntiBacklashPulseWidth::AB6ns.bits(), 0);
    assert_eq!(AntiBacklashPulseWidth::AB3ns.bits(), 1);
    assert_eq!(ChargeCancellation::Enabled.bits(), 1);
    assert_eq!(CycleSlipReduction::Enabled.bits(), 1);
    assert_eq!(ClockDividerMode::FastLock.bits(), 1);
    assert_eq!(ClockDividerMode::Resync.bits(), 2);
    assert_eq!(FeedbackSelect::Fundamental.bits(), 1);
    assert_eq!(VcoPowerDown::PoweredDown.bits(), 1);
    assert_eq!(MuteTillLockDetect::Enabled.bits(), 1);
    assert_eq!(AuxOutputSelect::Fundamental.bits(), 1);
    assert_eq!(AuxOutputEnable::Enabled.bits(), 1);
    assert_eq!(RfOutputEnable::Enabled.bits(), 1);
    assert_eq!(LockDetectPin::Low.bits(), 0);
    assert_eq!(LockDetectPin::DigitalLockDetect.bits(), 1);
    assert_eq!(LockDetectPin::Low1.bits(), 2);
    assert_eq!(LockDetectPin::High.bits(), 3);
}

#[test]
fn words_are_shifted_out_msb_first() {
    assert_eq!(word_to_bytes(0x12345678), vec![0x12, 0x34, 0x56, 0x78]);
    assert_eq!(word_to_bytes(0), vec![0, 0, 0, 0]);
    assert_eq!(word_to_bytes(u32::MAX), vec![0xFF, 0xFF, 0xFF, 0xFF]);
}
