//! Frequency planner behavior: range rejection, derived fields, and the
//! exact end-to-end scenario.

use adf4351::config::{Fpfd, FracN};
use adf4351::errors::Error;
use adf4351::refin::RefIn;
use adf4351::register::{field, FieldId, RegisterSet};

/// A register set configured like the worked scenario: modulus 4000,
/// reference doubler and divide-by-2 enabled, R counter 1.
fn scenario_base() -> RegisterSet {
    FracN::init(RegisterSet::new())
        .set(field(FieldId::Mod), 4000)
        .set(field(FieldId::RefDoubler), 1)
        .set(field(FieldId::Rdiv2), 1)
        .set_r_counter(1)
}

#[test]
fn end_to_end_scenario_is_exact() {
    // Reference 25 MHz, target 63 MHz: phase detector frequency 25 MHz,
    // divide-by-64 (six stages), 4/5 prescaler, INT 161, FRAC 1120, and the
    // inverse calculation returns exactly 63 MHz.
    let rs = scenario_base();
    let fpfd = Fpfd::new(25_000_000, &rs).unwrap();
    assert_eq!(fpfd.0, 25_000_000);
    let planner = FracN(fpfd);
    let rs = planner.set_f_out(63_000_000, rs).unwrap();
    assert_eq!(rs.get(field(FieldId::RfDividerSelect)), 6);
    assert_eq!(rs.get(field(FieldId::Prescaler)), 0);
    assert_eq!(rs.get(field(FieldId::Int)), 161);
    assert_eq!(rs.get(field(FieldId::Frac)), 1120);
    let actual = FracN::f_out_hz(25_000_000, &rs).unwrap();
    assert_eq!(actual, 63_000_000);
}

#[test]
fn one_call_planning_matches_the_scenario() {
    let rs = RegisterSet::newf(25_000_000, 63_000_000).unwrap();
    assert_eq!(rs.get(field(FieldId::Mod)), 4000);
    assert_eq!(rs.get(field(FieldId::RefDoubler)), 1);
    assert_eq!(rs.get(field(FieldId::Rdiv2)), 1);
    assert_eq!(rs.get(field(FieldId::RCounter)), 1);
    assert_eq!(rs.get(field(FieldId::RfDividerSelect)), 6);
    assert_eq!(rs.get(field(FieldId::Prescaler)), 0);
    assert_eq!(rs.get(field(FieldId::Int)), 161);
    assert_eq!(rs.get(field(FieldId::Frac)), 1120);
    // Static housekeeping the planner always writes.
    assert_eq!(rs.get(field(FieldId::FeedbackSelect)), 1);
    assert_eq!(rs.get(field(FieldId::DoubleBuffer)), 1);
    assert_eq!(rs.get(field(FieldId::CpCurrent)), 7);
    assert_eq!(rs.get(field(FieldId::PdPolarity)), 1);
    assert_eq!(rs.get(field(FieldId::ClockDivider)), 150);
    assert_eq!(rs.get(field(FieldId::BandSelectClockDiv)), 200);
    assert_eq!(rs.get(field(FieldId::LockDetectPin)), 1);
    assert_eq!(rs.get(field(FieldId::AuxOutputEnable)), 1);
    assert_eq!(rs.get(field(FieldId::AuxOutputPower)), 1);
    assert_eq!(rs.get(field(FieldId::RfOutputEnable)), 1);
    assert_eq!(rs.get(field(FieldId::OutputPower)), 1);
    assert_eq!(rs.get(field(FieldId::Phase)), 0);
    assert_eq!(rs.get(field(FieldId::PowerDown)), 0);
    // The inverse calculation reproduces the exactly representable target.
    assert_eq!(FracN::f_out_hz(25_000_000, &rs).unwrap(), 63_000_000);
}

#[test]
fn inverse_calculation_on_an_inexact_target() {
    // 432,123,456 Hz is not on a channel step: the plan truncates to the
    // step below, 19 Hz under the target.
    let rs = RegisterSet::newf(25_000_000, 432_123_456).unwrap();
    assert_eq!(rs.get(field(FieldId::RfDividerSelect)), 3);
    assert_eq!(rs.get(field(FieldId::Int)), 138);
    assert_eq!(rs.get(field(FieldId::Frac)), 1118);
    assert_eq!(FracN::f_out_hz(25_000_000, &rs).unwrap(), 432_123_437);
}

#[test]
fn reference_frequency_range_is_enforced() {
    // Below 10 MHz and at or above 250 MHz the reference is rejected.
    assert_eq!(
        RegisterSet::newf(9_999_999, 63_000_000),
        Err(Error::InvalidReferenceFrequency)
    );
    assert_eq!(
        RegisterSet::newf(250_000_000, 63_000_000),
        Err(Error::InvalidReferenceFrequency)
    );
    assert!(RegisterSet::newf(10_000_000, 63_000_000).is_ok());
    assert!(RegisterSet::newf(249_999_999, 63_000_000).is_ok());

    let rs = scenario_base();
    assert_eq!(Fpfd::new(9_999_999, &rs), Err(Error::InvalidReferenceFrequency));
    assert_eq!(Fpfd::new(250_000_000, &rs), Err(Error::InvalidReferenceFrequency));
    assert!(Fpfd::new(10_000_000, &rs).is_ok());
}

#[test]
fn output_frequency_range_is_enforced() {
    // Supported outputs run from the lowest divided VCO frequency up to the
    // undivided VCO ceiling.
    assert_eq!(
        RegisterSet::newf(25_000_000, 34_374_999),
        Err(Error::InvalidOutputFrequency)
    );
    assert_eq!(
        RegisterSet::newf(25_000_000, 4_400_000_000),
        Err(Error::InvalidOutputFrequency)
    );
    assert!(RegisterSet::newf(25_000_000, 34_375_000).is_ok());
    assert!(RegisterSet::newf(25_000_000, 4_399_999_999).is_ok());

    let rs = scenario_base();
    let planner = FracN(Fpfd::new(25_000_000, &rs).unwrap());
    assert_eq!(
        planner.set_f_out(34_374_999, rs),
        Err(Error::InvalidOutputFrequency)
    );
    assert_eq!(
        planner.set_f_out(4_400_000_000, rs),
        Err(Error::InvalidOutputFrequency)
    );
    assert!(planner.set_f_out(34_375_000, rs).is_ok());
}

#[test]
fn derived_pfd_above_absolute_ceiling_is_rejected() {
    // Doubled 249 MHz reference with R = 1 and no divide-by-2: 498 MHz at
    // the phase detector, far above the 90 MHz absolute ceiling.
    let rs = RegisterSet::new()
        .set(field(FieldId::RefDoubler), 1)
        .set_r_counter(1);
    assert_eq!(
        Fpfd::new(249_000_000, &rs),
        Err(Error::InvalidReferenceFrequency)
    );
    // The same reference becomes legal once the R counter divides it down.
    let rs = rs.set_r_counter(12);
    let f = Fpfd::new(249_000_000, &rs).unwrap();
    assert_eq!(f.0, 2 * 249_000_000 / 12);
}

#[test]
fn divider_selection_is_a_legal_power_of_two() {
    // For targets across the range: the selected index is at most 6 and the
    // target times the divider lands in the fundamental VCO range.
    let cases: [(u64, u32); 7] = [
        (34_375_000, 6),
        (63_000_000, 6),
        (100_000_000, 5),
        (432_123_456, 3),
        (1_200_000_000, 1),
        (2_200_000_000, 0),
        (4_399_999_999, 0),
    ];
    for (target, expect_sel) in cases {
        let rs = RegisterSet::newf(25_000_000, target).unwrap();
        let sel = rs.get(field(FieldId::RfDividerSelect));
        assert_eq!(sel, expect_sel, "target {}", target);
        let divider = 1u64 << sel;
        let vco = target * divider;
        assert!((2_200_000_000..4_400_000_000).contains(&vco), "target {}", target);
    }
}

#[test]
fn fractional_numerator_stays_below_modulus() {
    let targets: [u64; 6] = [
        34_375_000,
        63_000_000,
        100_000_001,
        999_999_999,
        2_345_678_901,
        4_399_999_999,
    ];
    for target in targets {
        let rs = RegisterSet::newf(25_000_000, target).unwrap();
        let frac = rs.get(field(FieldId::Frac));
        let modulus = rs.get(field(FieldId::Mod));
        assert!(frac < modulus, "target {}", target);
    }
}

#[test]
fn integer_floor_is_applied_per_prescaler() {
    // A very high phase detector frequency drives the raw INT below the
    // 4/5 prescaler floor of 23; the encoder clamps it up.
    let rs = scenario_base();
    let planner = FracN(Fpfd(200_000_000));
    let low = planner.set_f_out(34_375_000, rs).unwrap();
    assert_eq!(low.get(field(FieldId::Prescaler)), 0);
    assert_eq!(low.get(field(FieldId::Int)), 23);
    // Above 3.6 GHz the 8/9 prescaler is selected and its floor is 75.
    let planner = FracN(Fpfd(90_000_000));
    let high = planner.set_f_out(3_700_000_000, rs).unwrap();
    assert_eq!(high.get(field(FieldId::Prescaler)), 1);
    assert_eq!(high.get(field(FieldId::Int)), 75);
    // An unconstrained plan is left alone.
    let planner = FracN(Fpfd(25_000_000));
    let free = planner.set_f_out(63_000_000, rs).unwrap();
    assert_eq!(free.get(field(FieldId::Int)), 161);
}

#[test]
fn planner_only_touches_its_own_fields() {
    // set_f_out derives INT, FRAC, divider and prescaler; everything else,
    // the caller's static configuration included, is kept bit for bit.
    let rs = scenario_base()
        .set(field(FieldId::CpCurrent), 9)
        .set(field(FieldId::LockDetectPin), 3)
        .set_band_select_clock_div(111);
    let planner = FracN(Fpfd::new(25_000_000, &rs).unwrap());
    let planned = planner.set_f_out(63_000_000, rs).unwrap();
    assert_eq!(planned.get(field(FieldId::CpCurrent)), 9);
    assert_eq!(planned.get(field(FieldId::LockDetectPin)), 3);
    assert_eq!(planned.get(field(FieldId::BandSelectClockDiv)), 111);
    assert_eq!(planned.get(field(FieldId::Mod)), 4000);
    assert_eq!(planned.r2.w & 7, 2);
}

#[test]
fn init_sets_fractional_n_housekeeping() {
    let rs = RegisterSet::new()
        .set(field(FieldId::CpCurrent), 5);
    let rs = FracN::init(rs);
    assert_eq!(rs.get(field(FieldId::FeedbackSelect)), 1);
    assert_eq!(rs.get(field(FieldId::Ldf)), 0);
    assert_eq!(rs.get(field(FieldId::Ldp)), 0);
    assert_eq!(rs.get(field(FieldId::AntiBacklashWidth)), 0);
    assert_eq!(rs.get(field(FieldId::CpCurrent)), 5);
}

#[test]
fn prescaler_crossover_is_at_3600_mhz() {
    let low = RegisterSet::newf(25_000_000, 3_600_000_000).unwrap();
    assert_eq!(low.get(field(FieldId::Prescaler)), 0);
    let high = RegisterSet::newf(25_000_000, 3_600_000_001).unwrap();
    assert_eq!(high.get(field(FieldId::Prescaler)), 1);
}

#[test]
fn reference_input_validates_and_divides() {
    let ri = RefIn::new(25_000_000, 1, true, true).unwrap();
    assert_eq!(ri.f_pfd(), 25_000_000);
    let ri = RefIn::new(100_000_000, 4, false, false).unwrap();
    assert_eq!(ri.f_pfd(), 25_000_000);
    let ri = RefIn::new(10_000_000, 1023, true, true).unwrap();
    assert_eq!(ri.f_pfd(), 10_000_000 * 2 / 1023 / 2);
    assert_eq!(
        RefIn::new(9_999_999, 1, false, false),
        Err(Error::InvalidReferenceFrequency)
    );
    assert_eq!(
        RefIn::new(250_000_000, 1, false, false),
        Err(Error::InvalidReferenceFrequency)
    );
    // A doubled 249 MHz reference passed straight through exceeds the
    // 90 MHz absolute phase detector ceiling; dividing it down cures it.
    assert_eq!(
        RefIn::new(249_000_000, 1, true, false),
        Err(Error::InvalidReferenceFrequency)
    );
    assert!(RefIn::new(249_000_000, 6, true, false).is_ok());
}

#[test]
fn reference_policy_scales_the_r_counter() {
    // At or below the practical ceiling the R counter stays at 1 and the
    // phase detector runs at the reference frequency itself.
    let rs = RegisterSet::newf(29_000_000, 63_000_000).unwrap();
    assert_eq!(rs.get(field(FieldId::RCounter)), 1);
    // Above it, R grows so the phase detector frequency stays below it.
    let rs = RegisterSet::newf(100_000_000, 63_000_000).unwrap();
    let r = rs.get(field(FieldId::RCounter));
    assert_eq!(r, 2 * 100_000_000 / 29_000_000);
    let pfd = 100_000_000 * 2 / r / 2;
    assert!(pfd <= 29_000_000);
}
