//! One-call planning: a complete register set for a target frequency.

use vstd::prelude::*;

use crate::codec::{field_get, lemma_mask_values};
use crate::config::{
    fpfd_policy_spec, frac_spec, int_field_value_spec, int_floor_spec, lemma_ref_policy_bounds,
    prescaler_spec, r_policy_spec, select_divider, stages_spec,
};
use crate::constants::{
    INT_MIN_P45, INT_MIN_P89, OUT_FREQ_MAX, OUT_FREQ_MIN, OUT_FREQ_P45_MAX,
    PFD_FREQ_FRACN_EASY_MAX, REF_IN_FREQ_MAX, REF_IN_FREQ_MIN,
};
use crate::errors::Error;
use crate::register::{
    field, field_spec, AntiBacklashPulseWidth, AuxOutputEnable, AuxOutputSelect,
    BandSelectClockMode, ChargeCancellation, ChargePumpThreeState, ClockDividerMode, CounterReset,
    CycleSlipReduction, DoubleBuffer, FeedbackSelect, FieldId, Ldf, Ldp, LockDetectPin,
    MuteTillLockDetect, Muxout, NoiseMode, Ph1PhaseAdj, PhaseDetectorPolarity, PowerDown,
    Pr1Prescaler, Rdiv2, RefDoubler, Reg, RegisterSet, RfOutputEnable, VcoPowerDown,
};

verus! {

/// What a freshly planned register set holds, field by field: the derived
/// frequency fields, the planner's fixed reference-path policy, and the
/// static fractional-N housekeeping values.
pub open spec fn planned_spec(rs: RegisterSet, ref_in: int, out: int) -> bool {
    let fpfd = fpfd_policy_spec(ref_in);
    &&& rs.value(FieldId::Int) == int_field_value_spec(out, fpfd, 4000)
    &&& rs.value(FieldId::Int) >= int_floor_spec(out)
    &&& rs.value(FieldId::Frac) == frac_spec(out, fpfd, 4000)
    &&& rs.value(FieldId::Frac) < 4000
    &&& rs.value(FieldId::Mod) == 4000
    &&& rs.value(FieldId::Phase) == 0
    &&& rs.value(FieldId::Prescaler) == prescaler_spec(out)
    &&& rs.value(FieldId::PhaseAdjust) == 0
    &&& rs.value(FieldId::NoiseMode) == 0
    &&& rs.value(FieldId::Muxout) == 0
    &&& rs.value(FieldId::RefDoubler) == 1
    &&& rs.value(FieldId::Rdiv2) == 1
    &&& rs.value(FieldId::RCounter) == r_policy_spec(ref_in)
    &&& rs.value(FieldId::DoubleBuffer) == 1
    &&& rs.value(FieldId::CpCurrent) == 7
    &&& rs.value(FieldId::Ldf) == 0
    &&& rs.value(FieldId::Ldp) == 0
    &&& rs.value(FieldId::PdPolarity) == 1
    &&& rs.value(FieldId::PowerDown) == 0
    &&& rs.value(FieldId::CpThreeState) == 0
    &&& rs.value(FieldId::CounterReset) == 0
    &&& rs.value(FieldId::BandSelectClockMode) == 0
    &&& rs.value(FieldId::AntiBacklashWidth) == 0
    &&& rs.value(FieldId::ChargeCancel) == 0
    &&& rs.value(FieldId::Csr) == 0
    &&& rs.value(FieldId::ClockDividerMode) == 0
    &&& rs.value(FieldId::ClockDivider) == 150
    &&& rs.value(FieldId::FeedbackSelect) == 1
    &&& rs.value(FieldId::RfDividerSelect) == stages_spec(out)
    &&& rs.value(FieldId::BandSelectClockDiv) == 200
    &&& rs.value(FieldId::VcoPowerDown) == 0
    &&& rs.value(FieldId::MuteTillLock) == 0
    &&& rs.value(FieldId::AuxOutputSelect) == 0
    &&& rs.value(FieldId::AuxOutputEnable) == 1
    &&& rs.value(FieldId::AuxOutputPower) == 1
    &&& rs.value(FieldId::RfOutputEnable) == 1
    &&& rs.value(FieldId::OutputPower) == 1
    &&& rs.value(FieldId::LockDetectPin) == 1
}

/// Register 0: the integer and fractional feedback values.
fn build_r0(int_enc: u32, frac: u32) -> (r: Reg)
    requires
        int_enc <= 0xFFFF,
        frac <= 0xFFF,
    ensures
        field_get(r.w, field_spec(FieldId::Int)) == int_enc,
        field_get(r.w, field_spec(FieldId::Frac)) == frac,
        r.w & 7 == 0,
{
    proof {
        lemma_mask_values();
        assert(0u32 & 7 == 0) by (bit_vector);
    }
    Reg { w: 0 }.set(field(FieldId::Int), int_enc).set(field(FieldId::Frac), frac)
}

/// Register 1: modulus 4000, phase word zero, the selected prescaler,
/// phase adjust off.
fn build_r1(prescaler: Pr1Prescaler) -> (r: Reg)
    ensures
        field_get(r.w, field_spec(FieldId::Mod)) == 4000,
        field_get(r.w, field_spec(FieldId::Phase)) == 0,
        field_get(r.w, field_spec(FieldId::Prescaler)) == (match prescaler {
            Pr1Prescaler::Pr45 => 0u32,
            Pr1Prescaler::Pr89 => 1u32,
        }),
        field_get(r.w, field_spec(FieldId::PhaseAdjust)) == 0,
        r.w & 7 == 1,
{
    proof {
        lemma_mask_values();
        assert(1u32 & 7 == 1) by (bit_vector);
    }
    Reg { w: 1 }.set(field(FieldId::Mod), 4000).set(field(FieldId::Phase), 0).set(
        field(FieldId::Prescaler),
        prescaler.bits(),
    ).set(field(FieldId::PhaseAdjust), Ph1PhaseAdj::Off.bits())
}

/// Register 2: low noise mode, multiplexer three-stated, doubler and
/// divide-by-2 on, the derived R counter, double buffering on, charge pump
/// current code 7, fractional lock detect, positive phase detector
/// polarity, nothing powered down or reset.
fn build_r2(r_counter: u32) -> (r: Reg)
    requires
        r_counter <= 0x3FF,
    ensures
        field_get(r.w, field_spec(FieldId::NoiseMode)) == 0,
        field_get(r.w, field_spec(FieldId::Muxout)) == 0,
        field_get(r.w, field_spec(FieldId::RefDoubler)) == 1,
        field_get(r.w, field_spec(FieldId::Rdiv2)) == 1,
        field_get(r.w, field_spec(FieldId::RCounter)) == r_counter,
        field_get(r.w, field_spec(FieldId::DoubleBuffer)) == 1,
        field_get(r.w, field_spec(FieldId::CpCurrent)) == 7,
        field_get(r.w, field_spec(FieldId::Ldf)) == 0,
        field_get(r.w, field_spec(FieldId::Ldp)) == 0,
        field_get(r.w, field_spec(FieldId::PdPolarity)) == 1,
        field_get(r.w, field_spec(FieldId::PowerDown)) == 0,
        field_get(r.w, field_spec(FieldId::CpThreeState)) == 0,
        field_get(r.w, field_spec(FieldId::CounterReset)) == 0,
        r.w & 7 == 2,
{
    proof {
        lemma_mask_values();
        assert(2u32 & 7 == 2) by (bit_vector);
    }
    Reg { w: 2 }.set(field(FieldId::NoiseMode), NoiseMode::LowNoise.bits()).set(
        field(FieldId::Muxout),
        Muxout::ThreeStateOut.bits(),
    ).set(field(FieldId::RefDoubler), RefDoubler::Enabled.bits()).set(
        field(FieldId::Rdiv2),
        Rdiv2::Enabled.bits(),
    ).set(field(FieldId::RCounter), r_counter).set(
        field(FieldId::DoubleBuffer),
        DoubleBuffer::Enabled.bits(),
    ).set(field(FieldId::CpCurrent), 7).set(field(FieldId::Ldf), Ldf::FracN.bits()).set(
        field(FieldId::Ldp),
        Ldp::Ldp10ns.bits(),
    ).set(field(FieldId::PdPolarity), PhaseDetectorPolarity::Positive.bits()).set(
        field(FieldId::PowerDown),
        PowerDown::Disabled.bits(),
    ).set(field(FieldId::CpThreeState), ChargePumpThreeState::Disabled.bits()).set(
        field(FieldId::CounterReset),
        CounterReset::Disabled.bits(),
    )
}

/// Register 3: slow band select logic, fractional anti-backlash width, no
/// charge cancellation, no cycle slip reduction, clock divider off with the
/// default timeout value 150.
fn build_r3() -> (r: Reg)
    ensures
        field_get(r.w, field_spec(FieldId::BandSelectClockMode)) == 0,
        field_get(r.w, field_spec(FieldId::AntiBacklashWidth)) == 0,
        field_get(r.w, field_spec(FieldId::ChargeCancel)) == 0,
        field_get(r.w, field_spec(FieldId::Csr)) == 0,
        field_get(r.w, field_spec(FieldId::ClockDividerMode)) == 0,
        field_get(r.w, field_spec(FieldId::ClockDivider)) == 150,
        r.w & 7 == 3,
{
    proof {
        lemma_mask_values();
        assert(3u32 & 7 == 3) by (bit_vector);
    }
    Reg { w: 3 }.set(field(FieldId::BandSelectClockMode), BandSelectClockMode::Low.bits()).set(
        field(FieldId::AntiBacklashWidth),
        AntiBacklashPulseWidth::AB6ns.bits(),
    ).set(field(FieldId::ChargeCancel), ChargeCancellation::Disabled.bits()).set(
        field(FieldId::Csr),
        CycleSlipReduction::Disabled.bits(),
    ).set(field(FieldId::ClockDividerMode), ClockDividerMode::Off.bits()).set(
        field(FieldId::ClockDivider),
        150,
    )
}

/// Register 4: fundamental feedback, the derived RF divider select, band
/// select clock divider 200, VCO powered up, both outputs enabled at the
/// lowest power level, auxiliary output fed from the dividers.
fn build_r4(sel: u32) -> (r: Reg)
    requires
        sel <= 7,
    ensures
        field_get(r.w, field_spec(FieldId::FeedbackSelect)) == 1,
        field_get(r.w, field_spec(FieldId::RfDividerSelect)) == sel,
        field_get(r.w, field_spec(FieldId::BandSelectClockDiv)) == 200,
        field_get(r.w, field_spec(FieldId::VcoPowerDown)) == 0,
        field_get(r.w, field_spec(FieldId::MuteTillLock)) == 0,
        field_get(r.w, field_spec(FieldId::AuxOutputSelect)) == 0,
        field_get(r.w, field_spec(FieldId::AuxOutputEnable)) == 1,
        field_get(r.w, field_spec(FieldId::AuxOutputPower)) == 1,
        field_get(r.w, field_spec(FieldId::RfOutputEnable)) == 1,
        field_get(r.w, field_spec(FieldId::OutputPower)) == 1,
        r.w & 7 == 4,
{
    proof {
        lemma_mask_values();
        assert(4u32 & 7 == 4) by (bit_vector);
    }
    Reg { w: 4 }.set(field(FieldId::FeedbackSelect), FeedbackSelect::Fundamental.bits()).set(
        field(FieldId::RfDividerSelect),
        sel,
    ).set(field(FieldId::BandSelectClockDiv), 200).set(
        field(FieldId::VcoPowerDown),
        VcoPowerDown::PoweredUp.bits(),
    ).set(field(FieldId::MuteTillLock), MuteTillLockDetect::Disabled.bits()).set(
        field(FieldId::AuxOutputSelect),
        AuxOutputSelect::Divided.bits(),
    ).set(field(FieldId::AuxOutputEnable), AuxOutputEnable::Enabled.bits()).set(
        field(FieldId::AuxOutputPower),
        1,
    ).set(field(FieldId::RfOutputEnable), RfOutputEnable::Enabled.bits()).set(
        field(FieldId::OutputPower),
        1,
    )
}

/// Register 5: digital lock detect on the lock detect pin.
fn build_r5() -> (r: Reg)
    ensures
        field_get(r.w, field_spec(FieldId::LockDetectPin)) == 1,
        r.w & 7 == 5,
{
    proof {
        lemma_mask_values();
        assert(5u32 & 7 == 5) by (bit_vector);
    }
    Reg { w: 5 }.set(field(FieldId::LockDetectPin), LockDetectPin::DigitalLockDetect.bits())
}

impl RegisterSet {
    /// A complete register set for the given reference input and target
    /// output frequency.
    ///
    /// Validation is pure and happens before anything is built: a reference
    /// frequency outside the supported input range is rejected first, then
    /// a target outside the supported output range.  On success every field
    /// of every register is pinned down by `planned_spec`: the derived
    /// frequency fields together with the fixed fractional-N defaults
    /// (modulus 4000, doubler and divide-by-2 on, charge pump current
    /// code 7, clock divider 150, band select clock divider 200, digital
    /// lock detect on the lock detect pin, both outputs enabled at the
    /// lowest power level).
    pub fn newf(ref_in_hz: u32, out_hz: u64) -> (res: Result<RegisterSet, Error>)
        ensures
            res is Ok <==> REF_IN_FREQ_MIN <= ref_in_hz < REF_IN_FREQ_MAX && OUT_FREQ_MIN <= out_hz
                < OUT_FREQ_MAX,
            res == Err::<RegisterSet, Error>(Error::InvalidReferenceFrequency) <==> !(
            REF_IN_FREQ_MIN <= ref_in_hz < REF_IN_FREQ_MAX),
            res == Err::<RegisterSet, Error>(Error::InvalidOutputFrequency) <==> (REF_IN_FREQ_MIN
                <= ref_in_hz < REF_IN_FREQ_MAX && !(OUT_FREQ_MIN <= out_hz < OUT_FREQ_MAX)),
            res matches Ok(rs) ==> rs.wf() && planned_spec(rs, ref_in_hz as int, out_hz as int),
    {
        if !(REF_IN_FREQ_MIN <= ref_in_hz && ref_in_hz < REF_IN_FREQ_MAX) {
            return Err(Error::InvalidReferenceFrequency);
        }
        if !(OUT_FREQ_MIN <= out_hz && out_hz < OUT_FREQ_MAX) {
            return Err(Error::InvalidOutputFrequency);
        }
        let prescaler = if out_hz > OUT_FREQ_P45_MAX {
            Pr1Prescaler::Pr89
        } else {
            Pr1Prescaler::Pr45
        };
        let n_min: u32 = if out_hz > OUT_FREQ_P45_MAX {
            INT_MIN_P89
        } else {
            INT_MIN_P45
        };
        let (vcof, sel) = select_divider(out_hz);

        // Reference path policy: doubler and divide-by-2 on (they cancel in
        // the ratio but clean up the duty cycle), R counter scaled up only
        // when the raw reference alone would exceed the practical
        // fractional-N phase detector ceiling.
        let r: u32 = if ref_in_hz > PFD_FREQ_FRACN_EASY_MAX {
            2 * ref_in_hz / PFD_FREQ_FRACN_EASY_MAX
        } else {
            1
        };
        proof {
            lemma_ref_policy_bounds(ref_in_hz as int);
        }
        let fpfd: u32 = ref_in_hz * 2 / r / 2;

        let modulus: u64 = 4000;
        proof {
            assert(vcof * modulus < 0x10000_0000_0000_0000) by (nonlinear_arith)
                requires
                    vcof < 4_400_000_000,
                    modulus == 4000,
            ;
        }
        let nscaled = (vcof * modulus) / (fpfd as u64);
        let n = nscaled / modulus;
        let frac = nscaled % modulus;

        // Truncate INT to its sixteen bits, then clamp it up to the floor
        // the selected prescaler mandates.
        let truncated: u32 = (n % 0x10000) as u32;
        let int_enc: u32 = if truncated < n_min {
            n_min
        } else {
            truncated
        };

        Ok(
            RegisterSet {
                r0: build_r0(int_enc, frac as u32),
                r1: build_r1(prescaler),
                r2: build_r2(r),
                r3: build_r3(),
                r4: build_r4(sel),
                r5: build_r5(),
            },
        )
    }
}

} // verus!
