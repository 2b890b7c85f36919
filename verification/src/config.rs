//! Frequency planning: phase detector frequency and fractional-N synthesis.
//!
//! Everything here is integer arithmetic.  The mathematical model of the
//! planner — output divider selection, reference-path policy and the
//! integer/fractional feedback split — lives in the spec functions of this
//! module; the executable planner is proved against them.

use vstd::prelude::*;

use vstd::arithmetic::div_mod::{
    lemma_div_by_multiple, lemma_div_is_ordered, lemma_div_is_ordered_by_denominator,
    lemma_div_multiples_vanish, lemma_div_non_zero, lemma_div_pos_is_pos,
    lemma_fundamental_div_mod, lemma_hoist_over_denominator, lemma_small_mod,
};

use crate::constants::{
    INT_MIN_P45, INT_MIN_P89, OUT_FREQ_MAX, OUT_FREQ_MIN, OUT_FREQ_P45_MAX,
    PFD_FREQ_FRACN_EASY_MAX, PFD_FREQ_INTN_MAX, REF_IN_FREQ_MAX, REF_IN_FREQ_MIN, VCO_FREQ_MAX,
    VCO_FREQ_MIN,
};
use crate::codec::lemma_mask_values;
use crate::errors::Error;
use crate::register::{
    field, lemma_field_wf, lemma_fields_disjoint, AntiBacklashPulseWidth, FeedbackSelect, FieldId,
    Ldf, Ldp, Pr1Prescaler, RegisterSet,
};

verus! {

/// Two to the power `k` (1 for non-positive `k`).
pub open spec fn pow2_spec(k: int) -> int
    decreases k,
{
    if k <= 0 {
        1
    } else {
        2 * pow2_spec(k - 1)
    }
}

/// How many times a frequency below the fundamental VCO range must be
/// doubled to reach it: the RF output divider is two to this power.
pub open spec fn stages_spec(v: int) -> int
    decreases 2 * (VCO_FREQ_MIN as int) - v,
{
    if v < 1 {
        0
    } else if v >= VCO_FREQ_MIN {
        0
    } else {
        1 + stages_spec(2 * v)
    }
}

/// The candidate VCO frequency for a target output frequency: the target,
/// doubled until it reaches the fundamental VCO range.
pub open spec fn vco_spec(v: int) -> int
    decreases 2 * (VCO_FREQ_MIN as int) - v,
{
    if v < 1 {
        v
    } else if v >= VCO_FREQ_MIN {
        v
    } else {
        vco_spec(2 * v)
    }
}

/// Prescaler bit for a target output frequency: 8/9 (bit set) above the
/// 4/5 prescaler's ceiling, 4/5 otherwise.
pub open spec fn prescaler_spec(out: int) -> int {
    if out > OUT_FREQ_P45_MAX {
        1
    } else {
        0
    }
}

/// Minimum legal INT value for the prescaler that the target frequency
/// selects.
pub open spec fn int_floor_spec(out: int) -> int {
    if out > OUT_FREQ_P45_MAX {
        INT_MIN_P89 as int
    } else {
        INT_MIN_P45 as int
    }
}

/// The feedback ratio scaled by the modulus:
/// `candidate VCO frequency x modulus / phase detector frequency`.
pub open spec fn nscaled_spec(out: int, fpfd: int, m: int) -> int {
    vco_spec(out) * m / fpfd
}

/// Integer part of the feedback ratio before clamping.
pub open spec fn int_raw_spec(out: int, fpfd: int, m: int) -> int {
    nscaled_spec(out, fpfd, m) / m
}

/// Fractional numerator of the feedback ratio.
pub open spec fn frac_spec(out: int, fpfd: int, m: int) -> int {
    nscaled_spec(out, fpfd, m) % m
}

/// The INT value as encoded: truncated to the field's sixteen bits, then
/// clamped up to the prescaler-dependent floor.
pub open spec fn int_field_value_spec(out: int, fpfd: int, m: int) -> int {
    let truncated = int_raw_spec(out, fpfd, m) % 0x10000;
    if truncated < int_floor_spec(out) {
        int_floor_spec(out)
    } else {
        truncated
    }
}

/// Phase detector frequency from a register set's own reference-path
/// fields: `REFin x (1 + doubler) / R / (1 + divide-by-2)`.
pub open spec fn fpfd_of(ref_in: int, rs: RegisterSet) -> int {
    let d = rs.value(FieldId::RefDoubler) as int;
    let t = rs.value(FieldId::Rdiv2) as int;
    let r = rs.value(FieldId::RCounter) as int;
    ref_in * (1 + d) / r / (1 + t)
}

/// Output frequency that a populated register set produces:
/// `(INT x fPFD + FRAC x fPFD / MOD) / RF divider`.
pub open spec fn f_out_spec(ref_in: int, rs: RegisterSet) -> int {
    let fpfd = fpfd_of(ref_in, rs);
    let i = rs.value(FieldId::Int) as int;
    let fr = rs.value(FieldId::Frac) as int;
    let m = rs.value(FieldId::Mod) as int;
    let s = rs.value(FieldId::RfDividerSelect) as int;
    (i * fpfd + fr * fpfd / m) / pow2_spec(s)
}

/// Reference-path policy of the planner: doubler and divide-by-2 always on
/// (duty-cycle cleanup, they cancel in the ratio), R counter scaled up just
/// enough to keep the phase detector frequency at or below the practical
/// fractional-N ceiling.
pub open spec fn r_policy_spec(ref_in: int) -> int {
    if ref_in > PFD_FREQ_FRACN_EASY_MAX {
        2 * ref_in / (PFD_FREQ_FRACN_EASY_MAX as int)
    } else {
        1
    }
}

/// Phase detector frequency that the planner's reference-path policy
/// produces.
pub open spec fn fpfd_policy_spec(ref_in: int) -> int {
    2 * ref_in / r_policy_spec(ref_in) / 2
}

/// `pow2_spec` is positive and monotone, and two to the sixth is 64.
pub proof fn lemma_pow2_basics(k: int)
    ensures
        pow2_spec(k) >= 1,
        k >= 1 ==> pow2_spec(k) >= 2,
        pow2_spec(6) == 64,
        pow2_spec(7) == 128,
    decreases (if k < 0 { 0int } else { k }),
{
    if k > 0 {
        lemma_pow2_basics(k - 1);
    } else {
        assert(pow2_spec(6) == 64) by {
            assert(pow2_spec(0) == 1);
            assert(pow2_spec(1) == 2);
            assert(pow2_spec(2) == 4);
            assert(pow2_spec(3) == 8);
            assert(pow2_spec(4) == 16);
            assert(pow2_spec(5) == 32);
        }
    }
}

/// `pow2_spec` is monotone.
pub proof fn lemma_pow2_mono(a: int, b: int)
    requires
        a <= b,
    ensures
        pow2_spec(a) <= pow2_spec(b),
    decreases b - a,
{
    if a < b {
        lemma_pow2_mono(a, b - 1);
        lemma_pow2_basics(b - 1);
    }
}

/// Legality of the selected output divider: for every supported target
/// frequency the doubling search stops after at most six stages, lands the
/// candidate VCO frequency inside the fundamental VCO range, and the
/// candidate equals the target times the selected power-of-two divider.
pub proof fn lemma_divider_legal(out: int)
    requires
        OUT_FREQ_MIN <= out < OUT_FREQ_MAX,
    ensures
        0 <= stages_spec(out) <= 6,
        VCO_FREQ_MIN <= vco_spec(out) < VCO_FREQ_MAX,
        vco_spec(out) == out * pow2_spec(stages_spec(out)),
        pow2_spec(stages_spec(out)) <= 64,
    decreases 2 * (VCO_FREQ_MIN as int) - out,
{
    if out >= VCO_FREQ_MIN {
        assert(vco_spec(out) == out);
        assert(pow2_spec(0) == 1);
    } else {
        lemma_divider_legal(2 * out);
        let s2 = stages_spec(2 * out);
        assert(stages_spec(out) == 1 + s2);
        assert(vco_spec(out) == vco_spec(2 * out));
        assert(vco_spec(2 * out) == (2 * out) * pow2_spec(s2));
        assert((2 * out) * pow2_spec(s2) == out * (2 * pow2_spec(s2))) by (nonlinear_arith);
        assert(pow2_spec(1 + s2) == 2 * pow2_spec(s2));
        // The divider never exceeds six stages: a target at or above the
        // supported minimum reaches the VCO range after at most six
        // doublings.
        if stages_spec(out) > 6 {
            assert(s2 >= 6);
            lemma_pow2_mono(6, s2);
            lemma_pow2_basics(s2);
            assert(pow2_spec(s2) >= 64);
            assert((2 * out) * pow2_spec(s2) >= (2 * OUT_FREQ_MIN) * 64) by (nonlinear_arith)
                requires
                    2 * out >= 2 * OUT_FREQ_MIN,
                    pow2_spec(s2) >= 64,
            ;
            assert(vco_spec(2 * out) < VCO_FREQ_MAX);
            assert(false);
        }
        lemma_pow2_basics(stages_spec(out));
        lemma_pow2_mono(stages_spec(out), 6);
        lemma_pow2_basics(6);
    }
}

/// Bounds of the reference-path policy: the derived R counter stays in its
/// legal range and the derived phase detector frequency is positive and at
/// or below the practical fractional-N ceiling.
pub proof fn lemma_ref_policy_bounds(ref_in: int)
    requires
        REF_IN_FREQ_MIN <= ref_in < REF_IN_FREQ_MAX,
    ensures
        1 <= r_policy_spec(ref_in) <= 17,
        1 <= fpfd_policy_spec(ref_in) <= PFD_FREQ_FRACN_EASY_MAX,
{
    let e = PFD_FREQ_FRACN_EASY_MAX as int;
    if ref_in > e {
        let r = 2 * ref_in / e;
        // r = floor(2 ref / e) lies between 2 and 17.
        lemma_div_is_ordered(2 * e, 2 * ref_in, e);
        assert(2 * e / e == 2) by (nonlinear_arith)
            requires
                e == PFD_FREQ_FRACN_EASY_MAX as int,
        ;
        lemma_div_is_ordered(2 * ref_in, 499_999_998, e);
        assert(499_999_998int / 29_000_000 == 17) by (nonlinear_arith);
        assert(2 <= r <= 17);
        // q = floor(2 ref / r) lies between e and e + (e - 1) / 2.
        let q = 2 * ref_in / r;
        lemma_fundamental_div_mod(2 * ref_in, e);
        assert(e * r <= 2 * ref_in) by (nonlinear_arith)
            requires
                2 * ref_in == e * (2 * ref_in / e) + (2 * ref_in) % e,
                0 <= (2 * ref_in) % e < e,
                r == 2 * ref_in / e,
        ;
        lemma_div_is_ordered(e * r, 2 * ref_in, r);
        assert(e * r / r == e) by (nonlinear_arith)
            requires
                r >= 2,
        ;
        assert(q >= e);
        assert(2 * ref_in < e * (r + 1)) by (nonlinear_arith)
            requires
                2 * ref_in == e * (2 * ref_in / e) + (2 * ref_in) % e,
                0 <= (2 * ref_in) % e < e,
                r == 2 * ref_in / e,
        ;
        assert(e * (r + 1) == e * r + e) by (nonlinear_arith);
        lemma_div_is_ordered(2 * ref_in, e * r + e - 1, r);
        lemma_hoist_over_denominator(e - 1, e, r as nat);
        assert((e - 1) / r + e == (e - 1 + e * r) / r);
        assert(e - 1 + e * r == e * r + e - 1);
        assert(q <= e + (e - 1) / r);
        lemma_div_is_ordered_by_denominator(e - 1, 2, r);
        assert(q <= e + (e - 1) / 2);
        // fpfd = floor(q / 2) is positive and at most e.
        lemma_div_pos_is_pos(q, 2);
        lemma_div_is_ordered(e, q, 2);
        lemma_div_is_ordered(q, e + (e - 1) / 2, 2);
        assert((29_000_000int + (29_000_000int - 1) / 2) / 2 <= 29_000_000) by (nonlinear_arith);
        assert(e / 2 >= 1) by (nonlinear_arith)
            requires
                e == PFD_FREQ_FRACN_EASY_MAX as int,
        ;
    } else {
        assert(2 * ref_in / 1 == 2 * ref_in);
        assert(2 * ref_in / 1 / 2 == ref_in) by (nonlinear_arith)
            requires
                ref_in >= 0,
        ;
    }
}

/// Select the RF output divider for a supported target frequency: double a
/// candidate VCO frequency, starting at the target, until it reaches the
/// fundamental VCO range.  Returns the final candidate and the number of
/// doubling stages (the power-of-two index of the divider).
pub(crate) fn select_divider(out_hz: u64) -> (r: (u64, u32))
    requires
        OUT_FREQ_MIN <= out_hz < OUT_FREQ_MAX,
    ensures
        r.0 == vco_spec(out_hz as int),
        r.1 == stages_spec(out_hz as int),
        VCO_FREQ_MIN <= r.0 < VCO_FREQ_MAX,
        r.1 <= 6,
{
    proof {
        lemma_divider_legal(out_hz as int);
    }
    let mut vcof = out_hz;
    let mut sel: u32 = 0;
    while vcof < VCO_FREQ_MIN
        invariant
            OUT_FREQ_MIN <= out_hz < OUT_FREQ_MAX,
            out_hz <= vcof < VCO_FREQ_MAX,
            vcof as int == out_hz as int * pow2_spec(sel as int),
            stages_spec(out_hz as int) == sel + stages_spec(vcof as int),
            vco_spec(out_hz as int) == vco_spec(vcof as int),
            sel <= 6,
        decreases 2 * (VCO_FREQ_MIN as int) - vcof,
    {
        proof {
            // At most five stages have been taken so far: six stages from
            // the lowest supported target already reach the VCO range.
            if sel >= 6 {
                lemma_pow2_mono(6, sel as int);
                lemma_pow2_basics(6);
                assert(out_hz as int * pow2_spec(sel as int) >= OUT_FREQ_MIN * 64)
                    by (nonlinear_arith)
                    requires
                        out_hz as int >= OUT_FREQ_MIN,
                        pow2_spec(sel as int) >= 64,
                ;
                assert(false);
            }
            assert(pow2_spec(sel as int + 1) == 2 * pow2_spec(sel as int));
            assert(out_hz as int * (2 * pow2_spec(sel as int)) == 2 * (out_hz as int * pow2_spec(
                sel as int,
            ))) by (nonlinear_arith);
        }
        vcof = vcof * 2;
        sel = sel + 1;
    }
    (vcof, sel)
}

/// The planner/inverse round trip is exact on exactly representable
/// targets: whenever the scaled feedback ratio divides out evenly and the
/// derived INT value is neither truncated to sixteen bits nor clamped to
/// the prescaler floor, the inverse output-frequency formula applied to the
/// planned INT, FRAC and divider values returns the target itself.
pub proof fn lemma_plan_inverse_exact(out: int, fpfd: int, m: int)
    requires
        OUT_FREQ_MIN <= out < OUT_FREQ_MAX,
        1 <= fpfd,
        2 <= m,
        (vco_spec(out) * m) % fpfd == 0,
        int_raw_spec(out, fpfd, m) < 0x10000,
        int_raw_spec(out, fpfd, m) >= int_floor_spec(out),
    ensures
        (int_field_value_spec(out, fpfd, m) * fpfd + frac_spec(out, fpfd, m) * fpfd / m)
            / pow2_spec(stages_spec(out)) == out,
{
    let vco = vco_spec(out);
    let ns = nscaled_spec(out, fpfd, m);
    let i = int_raw_spec(out, fpfd, m);
    let fr = frac_spec(out, fpfd, m);
    lemma_divider_legal(out);

    // The scaled ratio divides out evenly, so ns * fpfd recovers vco * m.
    lemma_fundamental_div_mod(vco * m, fpfd);
    assert(ns * fpfd == vco * m) by (nonlinear_arith)
        requires
            vco * m == fpfd * ((vco * m) / fpfd) + (vco * m) % fpfd,
            (vco * m) % fpfd == 0,
            ns == (vco * m) / fpfd,
    ;

    // INT survives encoding unchanged: in range and above the floor.
    lemma_small_mod(i as nat, 0x10000nat);
    assert(int_field_value_spec(out, fpfd, m) == i);

    // FRAC x fPFD is an exact multiple of the modulus.
    lemma_fundamental_div_mod(ns, m);
    assert(ns == m * i + fr);
    assert(fr * fpfd == m * (vco - i * fpfd)) by (nonlinear_arith)
        requires
            ns == m * i + fr,
            ns * fpfd == vco * m,
    ;
    lemma_div_multiples_vanish(vco - i * fpfd, m);
    assert(fr * fpfd / m == vco - i * fpfd);

    // The summed feedback terms give back the candidate VCO frequency, and
    // the power-of-two divider gives back the target.
    assert(i * fpfd + fr * fpfd / m == vco);
    assert(vco == out * pow2_spec(stages_spec(out)));
    lemma_pow2_basics(stages_spec(out));
    lemma_div_by_multiple(out, pow2_spec(stages_spec(out)));
    assert(out * pow2_spec(stages_spec(out)) / pow2_spec(stages_spec(out)) == out);
}

/// Phase detector frequency, Hz.
///
/// `fPFD = REFin x (1 + D) / (R x (1 + T))` where D is the reference
/// doubler bit, R the reference division factor and T the divide-by-2 bit.
#[derive(Debug, Clone, Copy, PartialEq, Eq, Structural)]
pub struct Fpfd(pub u32);

impl Fpfd {
    /// Derive the phase detector frequency from the reference input
    /// frequency and a register set's own reference-path fields.
    ///
    /// Rejects a reference frequency outside the supported input range, and
    /// a derived phase detector frequency above the absolute (integer-N)
    /// ceiling — in fractional-N mode the practical limit is lower and is
    /// enforced by the planning policy, not here.
    pub fn new(ref_in_hz: u32, rs: &RegisterSet) -> (res: Result<Fpfd, Error>)
        requires
            rs.value(FieldId::RCounter) >= 1,
        ensures
            res is Ok <==> REF_IN_FREQ_MIN <= ref_in_hz < REF_IN_FREQ_MAX && fpfd_of(
                ref_in_hz as int,
                *rs,
            ) <= PFD_FREQ_INTN_MAX,
            res matches Ok(f) ==> f.0 == fpfd_of(ref_in_hz as int, *rs) && f.0 >= 1,
            res matches Err(e) ==> e == Error::InvalidReferenceFrequency,
    {
        if !(REF_IN_FREQ_MIN <= ref_in_hz && ref_in_hz < REF_IN_FREQ_MAX) {
            return Err(Error::InvalidReferenceFrequency);
        }
        proof {
            crate::codec::lemma_mask_values();
        }
        let doubler = rs.get(field(FieldId::RefDoubler));
        let divider = rs.get(field(FieldId::Rdiv2));
        let r = rs.get(field(FieldId::RCounter));
        assert(doubler <= 1 && divider <= 1);
        proof {
            let a = ref_in_hz as int * (1 + doubler as int);
            assert(a < 500_000_000 && a >= 10_000_000) by (nonlinear_arith)
                requires
                    10_000_000 <= ref_in_hz < 250_000_000,
                    doubler <= 1,
                    a == ref_in_hz as int * (1 + doubler as int),
            ;
            // Even the slowest legal reference divided by the largest
            // R counter and the divide-by-2 leaves a positive frequency.
            lemma_div_is_ordered_by_denominator(a, r as int, 1023);
            lemma_div_by_multiple(2, 1023);
            lemma_div_is_ordered(2int * 1023, a, 1023);
            assert(a / (r as int) >= 2);
            lemma_div_non_zero(a / (r as int), 1 + divider as int);
        }
        let fpfd = ref_in_hz * (1 + doubler) / r / (1 + divider);
        if fpfd > PFD_FREQ_INTN_MAX {
            Err(Error::InvalidReferenceFrequency)
        } else {
            Ok(Fpfd(fpfd))
        }
    }
}

/// Fractional-N frequency synthesis around a fixed phase detector
/// frequency.
#[derive(Debug, Clone, Copy, PartialEq, Eq, Structural)]
pub struct FracN(pub Fpfd);

impl FracN {
    /// Prepare a register set for fractional-N operation: fundamental VCO
    /// feedback (the output calculation depends on it), fractional lock
    /// detect function and precision, and the fractional anti-backlash
    /// pulse width.  Nothing else is touched.
    pub fn init(rs: RegisterSet) -> (r: RegisterSet)
        ensures
            r.value(FieldId::FeedbackSelect) == 1,
            r.value(FieldId::Ldf) == 0,
            r.value(FieldId::Ldp) == 0,
            r.value(FieldId::AntiBacklashWidth) == 0,
            forall|id: FieldId|
                id != FieldId::FeedbackSelect && id != FieldId::Ldf && id != FieldId::Ldp && id
                    != FieldId::AntiBacklashWidth ==> #[trigger] r.value(id) == rs.value(id),
            rs.wf() ==> r.wf(),
    {
        let r = rs.set(field(FieldId::FeedbackSelect), FeedbackSelect::Fundamental.bits()).set(
            field(FieldId::Ldf),
            Ldf::FracN.bits(),
        ).set(field(FieldId::Ldp), Ldp::Ldp10ns.bits()).set(
            field(FieldId::AntiBacklashWidth),
            AntiBacklashPulseWidth::AB6ns.bits(),
        );
        proof {
            lemma_mask_values();
            assert forall|id: FieldId|
                id != FieldId::FeedbackSelect && id != FieldId::Ldf && id != FieldId::Ldp && id
                    != FieldId::AntiBacklashWidth implies #[trigger] r.value(id) == rs.value(
                id,
            ) by {
                lemma_field_wf(id);
                lemma_fields_disjoint(id, FieldId::FeedbackSelect);
                lemma_fields_disjoint(id, FieldId::Ldf);
                lemma_fields_disjoint(id, FieldId::Ldp);
                lemma_fields_disjoint(id, FieldId::AntiBacklashWidth);
            }
        }
        r
    }

    /// Plan the frequency-determining fields for a target output frequency.
    ///
    /// Derives the RF output divider, prescaler, and the integer/fractional
    /// feedback split from this planner's phase detector frequency and the
    /// modulus already configured in the register set, then writes exactly
    /// those four fields.  The actual output frequency depends on the
    /// reference input and modulus settings and may differ from the target
    /// by up to one channel step.
    pub fn set_f_out(&self, f_out_hz: u64, rs: RegisterSet) -> (res: Result<RegisterSet, Error>)
        requires
            self.0.0 >= 1,
            rs.value(FieldId::Mod) >= 2,
        ensures
            res is Ok <==> OUT_FREQ_MIN <= f_out_hz < OUT_FREQ_MAX,
            res matches Err(e) ==> e == Error::InvalidOutputFrequency,
            res matches Ok(r) ==> ({
                let out = f_out_hz as int;
                let fpfd = self.0.0 as int;
                let m = rs.value(FieldId::Mod) as int;
                &&& r.value(FieldId::Int) == int_field_value_spec(out, fpfd, m)
                &&& r.value(FieldId::Int) >= int_floor_spec(out)
                &&& r.value(FieldId::Frac) == frac_spec(out, fpfd, m)
                &&& r.value(FieldId::Frac) < m
                &&& r.value(FieldId::RfDividerSelect) == stages_spec(out)
                &&& r.value(FieldId::Prescaler) == prescaler_spec(out)
                &&& (forall|id: FieldId|
                    id != FieldId::Int && id != FieldId::Frac && id != FieldId::RfDividerSelect
                        && id != FieldId::Prescaler ==> #[trigger] r.value(id) == rs.value(id))
                &&& (rs.wf() ==> r.wf())
            }),
    {
        if !(OUT_FREQ_MIN <= f_out_hz && f_out_hz < OUT_FREQ_MAX) {
            return Err(Error::InvalidOutputFrequency);
        }
        let prescaler = if f_out_hz > OUT_FREQ_P45_MAX {
            Pr1Prescaler::Pr89
        } else {
            Pr1Prescaler::Pr45
        };
        let n_min: u32 = if f_out_hz > OUT_FREQ_P45_MAX {
            INT_MIN_P89
        } else {
            INT_MIN_P45
        };
        let (vcof, sel) = select_divider(f_out_hz);

        proof {
            lemma_mask_values();
        }
        let modulus = rs.get(field(FieldId::Mod)) as u64;

        // The feedback ratio, scaled by the modulus so its integer and
        // fractional parts come out of one exact division.
        proof {
            assert(vcof * modulus < 0x10000_0000_0000_0000) by (nonlinear_arith)
                requires
                    vcof < 4_400_000_000,
                    modulus <= 4095,
            ;
        }
        let nscaled = (vcof * modulus) / (self.0.0 as u64);
        let int_part = nscaled / modulus;
        let frac = nscaled % modulus;

        // Truncate INT to its sixteen bits, then clamp it up to the floor
        // the selected prescaler mandates.
        let truncated: u32 = (int_part % 0x10000) as u32;
        let int_enc: u32 = if truncated < n_min {
            n_min
        } else {
            truncated
        };

        let r = rs.set(field(FieldId::Int), int_enc).set(field(FieldId::Frac), frac as u32).set(
            field(FieldId::RfDividerSelect),
            sel,
        ).set(field(FieldId::Prescaler), prescaler.bits());

        proof {
            let out = f_out_hz as int;
            let fpfd = self.0.0 as int;
            let m = rs.value(FieldId::Mod) as int;
            assert forall|id: FieldId|
                id != FieldId::Int && id != FieldId::Frac && id != FieldId::RfDividerSelect && id
                    != FieldId::Prescaler implies #[trigger] r.value(id) == rs.value(id) by {
                lemma_field_wf(id);
                lemma_fields_disjoint(id, FieldId::Int);
                lemma_fields_disjoint(id, FieldId::Frac);
                lemma_fields_disjoint(id, FieldId::RfDividerSelect);
                lemma_fields_disjoint(id, FieldId::Prescaler);
            }
        }
        Ok(r)
    }

    /// The actual output frequency a populated register set produces, from
    /// its own fields: `(INT x fPFD + FRAC x fPFD / MOD) / RF divider`.
    ///
    /// Works on an arbitrary populated register set, so the phase detector
    /// frequency is reconstructed from the set's own reference-path fields
    /// rather than taken from planner state.
    pub fn f_out_hz(ref_in_hz: u32, rs: &RegisterSet) -> (res: Result<u64, Error>)
        requires
            rs.value(FieldId::RCounter) >= 1,
            rs.value(FieldId::Mod) >= 2,
        ensures
            res is Ok <==> REF_IN_FREQ_MIN <= ref_in_hz < REF_IN_FREQ_MAX && fpfd_of(
                ref_in_hz as int,
                *rs,
            ) <= PFD_FREQ_INTN_MAX,
            res matches Ok(f) ==> f == f_out_spec(ref_in_hz as int, *rs),
            res matches Err(e) ==> e == Error::InvalidReferenceFrequency,
    {
        proof {
            lemma_mask_values();
        }
        let int_v = rs.get(field(FieldId::Int)) as u64;
        let frac_v = rs.get(field(FieldId::Frac)) as u64;
        let modulus = rs.get(field(FieldId::Mod)) as u64;
        let sel = rs.get(field(FieldId::RfDividerSelect));

        let fpfd = match Fpfd::new(ref_in_hz, rs) {
            Ok(f) => f,
            Err(e) => { return Err(e) },
        };
        let fpfd64 = fpfd.0 as u64;

        // RF divider: two to the power of the 3-bit divider select.
        let mut rfdiv: u64 = 1;
        let mut k: u32 = 0;
        while k < sel
            invariant
                k <= sel,
                sel <= 7,
                rfdiv as int == pow2_spec(k as int),
                rfdiv <= 128,
            decreases sel - k,
        {
            proof {
                lemma_pow2_basics(7);
                lemma_pow2_mono(k as int + 1, 7);
                assert(pow2_spec(k as int + 1) == 2 * pow2_spec(k as int));
            }
            rfdiv = rfdiv * 2;
            k = k + 1;
        }

        proof {
            lemma_pow2_basics(sel as int);
            assert(int_v * fpfd64 <= 65535 * 90_000_000) by (nonlinear_arith)
                requires
                    int_v <= 65535,
                    fpfd64 <= 90_000_000,
            ;
            assert(frac_v * fpfd64 <= 4095 * 90_000_000) by (nonlinear_arith)
                requires
                    frac_v <= 4095,
                    fpfd64 <= 90_000_000,
            ;
        }
        Ok((int_v * fpfd64 + frac_v * fpfd64 / modulus) / rfdiv)
    }
}

} // verus!
