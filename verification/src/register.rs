//! The six configuration registers: named fields over packed 32-bit words.
//!
//! One canonical layout table (`field_spec` / `field`) drives both encoding
//! and decoding.  Every register word carries its own 3-bit address tag in
//! bits [2:0]; no field overlaps the tag, so the tag survives every field
//! update.  Serialization emits the words address-descending, R5 first and
//! R0 last: the chip requires one write to each register after power-up and
//! only a write to register 0 starts a new band-select cycle, so register 0
//! must always be last on the wire.

use vstd::prelude::*;

use crate::codec::{
    field_get, field_set, lemma_fits_mask, lemma_get_fits, lemma_get_of_tag_only,
    lemma_get_set_other, lemma_get_set_same, lemma_mask_values, lemma_set_preserves_addr_bits,
    BitField,
};

verus! {

/// Single configuration register: a packed 32-bit word.
#[derive(Debug, Clone, Copy, PartialEq, Eq, Structural)]
pub struct Reg {
    /// Configuration register word.
    pub w: u32,
}

impl Reg {
    /// Read one field of this register's word, right-justified.
    pub fn get(&self, f: BitField) -> (v: u32)
        requires
            f.wf(),
        ensures
            v == field_get(self.w, f),
            v <= f.mask_spec(),
    {
        proof {
            lemma_get_fits(self.w, f);
        }
        (self.w >> f.offset) & f.mask()
    }

    /// Write one field of this register's word; every other bit, the
    /// address tag included, is kept.
    pub fn set(self, f: BitField, v: u32) -> (r: Reg)
        requires
            f.wf(),
        ensures
            r.w == field_set(self.w, f, v),
            field_get(r.w, f) == v & f.mask_spec(),
            v <= f.mask_spec() ==> field_get(r.w, f) == v,
            forall|g: BitField|
                g.wf() && f.disjoint(g) && g.addr == f.addr ==> #[trigger] field_get(r.w, g)
                    == field_get(self.w, g),
            r.w & 7 == self.w & 7,
    {
        proof {
            lemma_get_set_same(self.w, f, v);
            lemma_set_preserves_addr_bits(self.w, f, v);
            if v <= f.mask_spec() {
                lemma_fits_mask(v, f);
            }
            assert forall|g: BitField|
                g.wf() && f.disjoint(g) && g.addr == f.addr implies #[trigger] field_get(
                field_set(self.w, f, v),
                g,
            ) == field_get(self.w, g) by {
                lemma_get_set_other(self.w, f, v, g);
            }
        }
        let fbits = (v & f.mask()) << f.offset;
        let rbits = self.w & !(f.mask() << f.offset);
        Reg { w: rbits | fbits }
    }
}

/// Every logical field of the six registers: the single source of truth for
/// the chip's bit layout, used by encoder and decoder alike.
#[derive(Debug, Clone, Copy, PartialEq, Eq, Structural)]
pub enum FieldId {
    /// R0: fractional numerator.
    Frac,
    /// R0: integer feedback value.
    Int,
    /// R1: fractional modulus.
    Mod,
    /// R1: phase word.
    Phase,
    /// R1: dual-modulus prescaler select.
    Prescaler,
    /// R1: phase adjust enable.
    PhaseAdjust,
    /// R2: R and N counter reset.
    CounterReset,
    /// R2: charge pump three-state.
    CpThreeState,
    /// R2: software power-down.
    PowerDown,
    /// R2: phase detector polarity.
    PdPolarity,
    /// R2: lock detect precision.
    Ldp,
    /// R2: lock detect function.
    Ldf,
    /// R2: charge pump current setting.
    CpCurrent,
    /// R2: double buffering of the output divider fields.
    DoubleBuffer,
    /// R2: 10-bit reference counter.
    RCounter,
    /// R2: reference divide-by-2.
    Rdiv2,
    /// R2: reference doubler.
    RefDoubler,
    /// R2: multiplexer output select.
    Muxout,
    /// R2: low noise / low spur mode.
    NoiseMode,
    /// R3: 12-bit clock divider value.
    ClockDivider,
    /// R3: clock divider mode.
    ClockDividerMode,
    /// R3: cycle slip reduction.
    Csr,
    /// R3: charge pump charge cancellation.
    ChargeCancel,
    /// R3: anti-backlash pulse width.
    AntiBacklashWidth,
    /// R3: band select clock mode.
    BandSelectClockMode,
    /// R4: primary output power level.
    OutputPower,
    /// R4: primary output enable.
    RfOutputEnable,
    /// R4: auxiliary output power level.
    AuxOutputPower,
    /// R4: auxiliary output enable.
    AuxOutputEnable,
    /// R4: auxiliary output source select.
    AuxOutputSelect,
    /// R4: mute output until lock detect.
    MuteTillLock,
    /// R4: VCO power-down.
    VcoPowerDown,
    /// R4: band select clock divider.
    BandSelectClockDiv,
    /// R4: RF output divider select (power-of-two index).
    RfDividerSelect,
    /// R4: feedback select (divided or fundamental).
    FeedbackSelect,
    /// R5: lock detect pin mode.
    LockDetectPin,
}

/// The layout table: register address, bit offset and width of each field.
pub open spec fn field_spec(id: FieldId) -> BitField {
    match id {
        FieldId::Frac => BitField { addr: 0, offset: 3, width: 12 },
        FieldId::Int => BitField { addr: 0, offset: 15, width: 16 },
        FieldId::Mod => BitField { addr: 1, offset: 3, width: 12 },
        FieldId::Phase => BitField { addr: 1, offset: 15, width: 12 },
        FieldId::Prescaler => BitField { addr: 1, offset: 27, width: 1 },
        FieldId::PhaseAdjust => BitField { addr: 1, offset: 28, width: 1 },
        FieldId::CounterReset => BitField { addr: 2, offset: 3, width: 1 },
        FieldId::CpThreeState => BitField { addr: 2, offset: 4, width: 1 },
        FieldId::PowerDown => BitField { addr: 2, offset: 5, width: 1 },
        FieldId::PdPolarity => BitField { addr: 2, offset: 6, width: 1 },
        FieldId::Ldp => BitField { addr: 2, offset: 7, width: 1 },
        FieldId::Ldf => BitField { addr: 2, offset: 8, width: 1 },
        FieldId::CpCurrent => BitField { addr: 2, offset: 9, width: 4 },
        FieldId::DoubleBuffer => BitField { addr: 2, offset: 13, width: 1 },
        FieldId::RCounter => BitField { addr: 2, offset: 14, width: 10 },
        FieldId::Rdiv2 => BitField { addr: 2, offset: 24, width: 1 },
        FieldId::RefDoubler => BitField { addr: 2, offset: 25, width: 1 },
        FieldId::Muxout => BitField { addr: 2, offset: 26, width: 3 },
        FieldId::NoiseMode => BitField { addr: 2, offset: 29, width: 2 },
        FieldId::ClockDivider => BitField { addr: 3, offset: 3, width: 12 },
        FieldId::ClockDividerMode => BitField { addr: 3, offset: 15, width: 2 },
        FieldId::Csr => BitField { addr: 3, offset: 18, width: 1 },
        FieldId::ChargeCancel => BitField { addr: 3, offset: 21, width: 1 },
        FieldId::AntiBacklashWidth => BitField { addr: 3, offset: 22, width: 1 },
        FieldId::BandSelectClockMode => BitField { addr: 3, offset: 23, width: 1 },
        FieldId::OutputPower => BitField { addr: 4, offset: 3, width: 2 },
        FieldId::RfOutputEnable => BitField { addr: 4, offset: 5, width: 1 },
        FieldId::AuxOutputPower => BitField { addr: 4, offset: 6, width: 2 },
        FieldId::AuxOutputEnable => BitField { addr: 4, offset: 8, width: 1 },
        FieldId::AuxOutputSelect => BitField { addr: 4, offset: 9, width: 1 },
        FieldId::MuteTillLock => BitField { addr: 4, offset: 10, width: 1 },
        FieldId::VcoPowerDown => BitField { addr: 4, offset: 11, width: 1 },
        FieldId::BandSelectClockDiv => BitField { addr: 4, offset: 12, width: 8 },
        FieldId::RfDividerSelect => BitField { addr: 4, offset: 20, width: 3 },
        FieldId::FeedbackSelect => BitField { addr: 4, offset: 23, width: 1 },
        FieldId::LockDetectPin => BitField { addr: 5, offset: 22, width: 2 },
    }
}

/// Executable view of the layout table.
pub fn field(id: FieldId) -> (f: BitField)
    ensures
        f == field_spec(id),
        f.wf(),
{
    match id {
        FieldId::Frac => BitField { addr: 0, offset: 3, width: 12 },
        FieldId::Int => BitField { addr: 0, offset: 15, width: 16 },
        FieldId::Mod => BitField { addr: 1, offset: 3, width: 12 },
        FieldId::Phase => BitField { addr: 1, offset: 15, width: 12 },
        FieldId::Prescaler => BitField { addr: 1, offset: 27, width: 1 },
        FieldId::PhaseAdjust => BitField { addr: 1, offset: 28, width: 1 },
        FieldId::CounterReset => BitField { addr: 2, offset: 3, width: 1 },
        FieldId::CpThreeState => BitField { addr: 2, offset: 4, width: 1 },
        FieldId::PowerDown => BitField { addr: 2, offset: 5, width: 1 },
        FieldId::PdPolarity => BitField { addr: 2, offset: 6, width: 1 },
        FieldId::Ldp => BitField { addr: 2, offset: 7, width: 1 },
        FieldId::Ldf => BitField { addr: 2, offset: 8, width: 1 },
        FieldId::CpCurrent => BitField { addr: 2, offset: 9, width: 4 },
        FieldId::DoubleBuffer => BitField { addr: 2, offset: 13, width: 1 },
        FieldId::RCounter => BitField { addr: 2, offset: 14, width: 10 },
        FieldId::Rdiv2 => BitField { addr: 2, offset: 24, width: 1 },
        FieldId::RefDoubler => BitField { addr: 2, offset: 25, width: 1 },
        FieldId::Muxout => BitField { addr: 2, offset: 26, width: 3 },
        FieldId::NoiseMode => BitField { addr: 2, offset: 29, width: 2 },
        FieldId::ClockDivider => BitField { addr: 3, offset: 3, width: 12 },
        FieldId::ClockDividerMode => BitField { addr: 3, offset: 15, width: 2 },
        FieldId::Csr => BitField { addr: 3, offset: 18, width: 1 },
        FieldId::ChargeCancel => BitField { addr: 3, offset: 21, width: 1 },
        FieldId::AntiBacklashWidth => BitField { addr: 3, offset: 22, width: 1 },
        FieldId::BandSelectClockMode => BitField { addr: 3, offset: 23, width: 1 },
        FieldId::OutputPower => BitField { addr: 4, offset: 3, width: 2 },
        FieldId::RfOutputEnable => BitField { addr: 4, offset: 5, width: 1 },
        FieldId::AuxOutputPower => BitField { addr: 4, offset: 6, width: 2 },
        FieldId::AuxOutputEnable => BitField { addr: 4, offset: 8, width: 1 },
        FieldId::AuxOutputSelect => BitField { addr: 4, offset: 9, width: 1 },
        FieldId::MuteTillLock => BitField { addr: 4, offset: 10, width: 1 },
        FieldId::VcoPowerDown => BitField { addr: 4, offset: 11, width: 1 },
        FieldId::BandSelectClockDiv => BitField { addr: 4, offset: 12, width: 8 },
        FieldId::RfDividerSelect => BitField { addr: 4, offset: 20, width: 3 },
        FieldId::FeedbackSelect => BitField { addr: 4, offset: 23, width: 1 },
        FieldId::LockDetectPin => BitField { addr: 5, offset: 22, width: 2 },
    }
}

/// Every entry of the layout table is a well-formed descriptor.
pub proof fn lemma_field_wf(id: FieldId)
    ensures
        field_spec(id).wf(),
{
}

/// Distinct fields of the layout table never share a bit: the table is a
/// partition of the non-tag bits of the six words.
pub proof fn lemma_fields_disjoint(a: FieldId, b: FieldId)
    requires
        a != b,
    ensures
        field_spec(a).disjoint(field_spec(b)),
{
}

/// Full set of the six configuration registers.
///
/// A pure value: each mutation returns a new snapshot.  A fresh set has all
/// field bits at zero and each register's address tag in its low three bits.
#[derive(Debug, Clone, Copy, PartialEq, Eq, Structural)]
pub struct RegisterSet {
    /// Register 0: feedback integer / fractional division.
    pub r0: Reg,
    /// Register 1: modulus, phase and prescaler.
    pub r1: Reg,
    /// Register 2: reference path, charge pump and lock detect tuning.
    pub r2: Reg,
    /// Register 3: band select, anti-backlash and clock divider modes.
    pub r3: Reg,
    /// Register 4: output path dividers, power and mute control.
    pub r4: Reg,
    /// Register 5: lock detect pin behavior.
    pub r5: Reg,
}

impl RegisterSet {
    /// The word of the register with the given address.
    pub open spec fn word_spec(self, addr: u32) -> u32 {
        if addr == 0 {
            self.r0.w
        } else if addr == 1 {
            self.r1.w
        } else if addr == 2 {
            self.r2.w
        } else if addr == 3 {
            self.r3.w
        } else if addr == 4 {
            self.r4.w
        } else {
            self.r5.w
        }
    }

    /// Every register word carries its own address in its low three bits.
    pub open spec fn wf(self) -> bool {
        &&& self.r0.w & 7 == 0
        &&& self.r1.w & 7 == 1
        &&& self.r2.w & 7 == 2
        &&& self.r3.w & 7 == 3
        &&& self.r4.w & 7 == 4
        &&& self.r5.w & 7 == 5
    }

    /// Decoded value of one field, by descriptor.
    pub open spec fn get_spec(self, f: BitField) -> u32 {
        field_get(self.word_spec(f.addr), f)
    }

    /// Decoded value of one field, by name.
    pub open spec fn value(self, id: FieldId) -> u32 {
        self.get_spec(field_spec(id))
    }

    /// The pristine register set: all fields zero, address tags in place.
    pub open spec fn default_spec() -> RegisterSet {
        RegisterSet {
            r0: Reg { w: 0 },
            r1: Reg { w: 1 },
            r2: Reg { w: 2 },
            r3: Reg { w: 3 },
            r4: Reg { w: 4 },
            r5: Reg { w: 5 },
        }
    }

    /// A fresh register set: every field reads zero and the address tags are
    /// already in place.
    pub fn new() -> (rs: RegisterSet)
        ensures
            rs == RegisterSet::default_spec(),
            rs.wf(),
            forall|f: BitField| f.wf() ==> #[trigger] rs.get_spec(f) == 0,
    {
        let rs = RegisterSet {
            r0: Reg { w: 0 },
            r1: Reg { w: 1 },
            r2: Reg { w: 2 },
            r3: Reg { w: 3 },
            r4: Reg { w: 4 },
            r5: Reg { w: 5 },
        };
        proof {
            assert(0u32 & 7 == 0 && 1u32 & 7 == 1 && 2u32 & 7 == 2 && 3u32 & 7 == 3 && 4u32 & 7
                == 4 && 5u32 & 7 == 5) by (bit_vector);
            assert forall|f: BitField| f.wf() implies #[trigger] rs.get_spec(f) == 0 by {
                lemma_get_of_tag_only(rs.word_spec(f.addr), f);
            }
        }
        rs
    }

    /// Get one register bitfield value.
    pub fn get(&self, f: BitField) -> (v: u32)
        requires
            f.wf(),
        ensures
            v == self.get_spec(f),
            v <= f.mask_spec(),
    {
        if f.addr == 0 {
            self.r0.get(f)
        } else if f.addr == 1 {
            self.r1.get(f)
        } else if f.addr == 2 {
            self.r2.get(f)
        } else if f.addr == 3 {
            self.r3.get(f)
        } else if f.addr == 4 {
            self.r4.get(f)
        } else {
            self.r5.get(f)
        }
    }

    /// Update one register bitfield.  The field's register is picked by the
    /// descriptor's own address tag; everything outside the field, in every
    /// register, is kept, and the address tags survive.
    pub fn set(self, f: BitField, v: u32) -> (r: RegisterSet)
        requires
            f.wf(),
        ensures
            r.word_spec(f.addr) == field_set(self.word_spec(f.addr), f, v),
            r.get_spec(f) == v & f.mask_spec(),
            v <= f.mask_spec() ==> r.get_spec(f) == v,
            forall|a: u32| a < 6 && a != f.addr ==> #[trigger] r.word_spec(a) == self.word_spec(a),
            forall|g: BitField|
                g.wf() && f.disjoint(g) ==> #[trigger] r.get_spec(g) == self.get_spec(g),
            self.wf() ==> r.wf(),
    {
        let r = if f.addr == 0 {
            RegisterSet { r0: self.r0.set(f, v), ..self }
        } else if f.addr == 1 {
            RegisterSet { r1: self.r1.set(f, v), ..self }
        } else if f.addr == 2 {
            RegisterSet { r2: self.r2.set(f, v), ..self }
        } else if f.addr == 3 {
            RegisterSet { r3: self.r3.set(f, v), ..self }
        } else if f.addr == 4 {
            RegisterSet { r4: self.r4.set(f, v), ..self }
        } else {
            RegisterSet { r5: self.r5.set(f, v), ..self }
        };
        proof {
            assert forall|g: BitField| g.wf() && f.disjoint(g) implies #[trigger] r.get_spec(g)
                == self.get_spec(g) by {
                if g.addr == f.addr {
                    lemma_get_set_other(self.word_spec(f.addr), f, v, g);
                }
            }
        }
        r
    }

    /// Register words in device (wire) order: address-descending, R5 first,
    /// R0 last.
    pub fn to_words(&self) -> (ws: Vec<u32>)
        ensures
            ws@.len() == 6,
            ws@[0] == self.r5.w,
            ws@[1] == self.r4.w,
            ws@[2] == self.r3.w,
            ws@[3] == self.r2.w,
            ws@[4] == self.r1.w,
            ws@[5] == self.r0.w,
            forall|i: int| 0 <= i < 6 ==> #[trigger] ws@[i] == self.word_spec((5 - i) as u32),
            self.wf() ==> forall|i: int| 0 <= i < 6 ==> #[trigger] ws@[i] & 7 == (5 - i) as u32,
    {
        let mut ws: Vec<u32> = Vec::new();
        ws.push(self.r5.w);
        ws.push(self.r4.w);
        ws.push(self.r3.w);
        ws.push(self.r2.w);
        ws.push(self.r1.w);
        ws.push(self.r0.w);
        ws
    }
}

/// A value clamped into an inclusive range.
pub open spec fn clamp_spec(v: u32, lo: u32, hi: u32) -> u32 {
    if v < lo {
        lo
    } else if v > hi {
        hi
    } else {
        v
    }
}

impl RegisterSet {
    /// Set the reference counter, clamped to its legal range 1 to 1023.
    pub fn set_r_counter(self, r: u32) -> (rs: RegisterSet)
        ensures
            rs.value(FieldId::RCounter) == clamp_spec(r, 1, 1023),
            forall|g: BitField|
                g.wf() && field_spec(FieldId::RCounter).disjoint(g) ==> #[trigger] rs.get_spec(g)
                    == self.get_spec(g),
            self.wf() ==> rs.wf(),
    {
        let v = if r < 1 {
            1
        } else if r > 1023 {
            1023
        } else {
            r
        };
        proof {
            lemma_mask_values();
            lemma_fits_mask(clamp_spec(r, 1, 1023), field_spec(FieldId::RCounter));
        }
        self.set(field(FieldId::RCounter), v)
    }

    /// Set the band select clock divider, clamped to its legal range 1 to 255.
    pub fn set_band_select_clock_div(self, d: u32) -> (rs: RegisterSet)
        ensures
            rs.value(FieldId::BandSelectClockDiv) == clamp_spec(d, 1, 255),
            forall|g: BitField|
                g.wf() && field_spec(FieldId::BandSelectClockDiv).disjoint(g)
                    ==> #[trigger] rs.get_spec(g) == self.get_spec(g),
            self.wf() ==> rs.wf(),
    {
        let v = if d < 1 {
            1
        } else if d > 255 {
            255
        } else {
            d
        };
        proof {
            lemma_mask_values();
            lemma_fits_mask(clamp_spec(d, 1, 255), field_spec(FieldId::BandSelectClockDiv));
        }
        self.set(field(FieldId::BandSelectClockDiv), v)
    }

    /// Set the RF output divider as a power-of-two index, clamped to at
    /// most 6 (divide-by-64).
    pub fn set_rf_divider_select(self, s: u32) -> (rs: RegisterSet)
        ensures
            rs.value(FieldId::RfDividerSelect) == clamp_spec(s, 0, 6),
            forall|g: BitField|
                g.wf() && field_spec(FieldId::RfDividerSelect).disjoint(g)
                    ==> #[trigger] rs.get_spec(g) == self.get_spec(g),
            self.wf() ==> rs.wf(),
    {
        let v = if s > 6 {
            6
        } else {
            s
        };
        proof {
            lemma_mask_values();
            lemma_fits_mask(clamp_spec(s, 0, 6), field_spec(FieldId::RfDividerSelect));
        }
        self.set(field(FieldId::RfDividerSelect), v)
    }
}

impl Default for RegisterSet {
    /// Same pristine set as `RegisterSet::new`.
    fn default() -> (rs: Self)
        ensures
            rs == RegisterSet::default_spec(),
            rs.wf(),
    {
        RegisterSet::new()
    }
}

/// R1: phase adjust enable.  When on, the part skips VCO band selection and
/// phase resync on a register 0 update; recommended only for fixed-frequency
/// use or very small frequency deviations.
#[derive(Debug, Clone, Copy, PartialEq, Eq, Structural)]
pub enum Ph1PhaseAdj {
    Off,
    On,
}

impl Ph1PhaseAdj {
    /// Bit encoding of this setting.
    pub fn bits(self) -> (b: u32)
        ensures
            b == (match self {
                Ph1PhaseAdj::Off => 0u32,
                Ph1PhaseAdj::On => 1u32,
            }),
    {
        match self {
            Ph1PhaseAdj::Off => 0,
            Ph1PhaseAdj::On => 1,
        }
    }
}

/// R1: dual-modulus prescaler select.  The 4/5 prescaler allows output
/// frequencies up to 3.6 GHz with a minimum INT of 23; above that the 8/9
/// prescaler is required, with a minimum INT of 75.
#[derive(Debug, Clone, Copy, PartialEq, Eq, Structural)]
pub enum Pr1Prescaler {
    /// Prescaler 4/5: minimum INT value 23.
    Pr45,
    /// Prescaler 8/9: minimum INT value 75.
    Pr89,
}

impl Pr1Prescaler {
    /// Bit encoding of this setting.
    pub fn bits(self) -> (b: u32)
        ensures
            b == (match self {
                Pr1Prescaler::Pr45 => 0u32,
                Pr1Prescaler::Pr89 => 1u32,
            }),
    {
        match self {
            Pr1Prescaler::Pr45 => 0,
            Pr1Prescaler::Pr89 => 1,
        }
    }
}

/// R2: noise mode.  Low noise mode disables dither for the best phase noise;
/// low spur mode enables dither to spread the fractional quantization noise.
#[derive(Debug, Clone, Copy, PartialEq, Eq, Structural)]
pub enum NoiseMode {
    LowNoise,
    LowSpur,
}

impl NoiseMode {
    /// Bit encoding of this setting.
    pub fn bits(self) -> (b: u32)
        ensures
            b == (match self {
                NoiseMode::LowNoise => 0u32,
                NoiseMode::LowSpur => 3u32,
            }),
    {
        match self {
            NoiseMode::LowNoise => 0,
            NoiseMode::LowSpur => 3,
        }
    }
}

/// R2: what the on-chip multiplexer drives onto the MUXOUT pin.
#[derive(Debug, Clone, Copy, PartialEq, Eq, Structural)]
pub enum Muxout {
    ThreeStateOut,
    Dvdd,
    Dgnd,
    RCntOut,
    NDivOut,
    Alock,
    Dlock,
}

impl Muxout {
    /// Bit encoding of this setting.
    pub fn bits(self) -> (b: u32)
        ensures
            b == (match self {
                Muxout::ThreeStateOut => 0u32,
                Muxout::Dvdd => 1u32,
                Muxout::Dgnd => 2u32,
                Muxout::RCntOut => 3u32,
                Muxout::NDivOut => 4u32,
                Muxout::Alock => 5u32,
                Muxout::Dlock => 6u32,
            }),
    {
        match self {
            Muxout::ThreeStateOut => 0,
            Muxout::Dvdd => 1,
            Muxout::Dgnd => 2,
            Muxout::RCntOut => 3,
            Muxout::NDivOut => 4,
            Muxout::Alock => 5,
            Muxout::Dlock => 6,
        }
    }
}

/// R2: reference doubler.  When enabled, the REFin frequency is multiplied
/// by two before the R counter and both REFin edges become active at the
/// phase detector.
#[derive(Debug, Clone, Copy, PartialEq, Eq, Structural)]
pub enum RefDoubler {
    Disabled,
    Enabled,
}

impl RefDoubler {
    /// Bit encoding of this setting.
    pub fn bits(self) -> (b: u32)
        ensures
            b == (match self {
                RefDoubler::Disabled => 0u32,
                RefDoubler::Enabled => 1u32,
            }),
    {
        match self {
            RefDoubler::Disabled => 0,
            RefDoubler::Enabled => 1,
        }
    }
}

/// R2: reference divide-by-2.  Inserts a toggle flip-flop between the R
/// counter and the phase detector, restoring a 50% duty cycle.
#[derive(Debug, Clone, Copy, PartialEq, Eq, Structural)]
pub enum Rdiv2 {
    Disabled,
    Enabled,
}

impl Rdiv2 {
    /// Bit encoding of this setting.
    pub fn bits(self) -> (b: u32)
        ensures
            b == (match self {
                Rdiv2::Disabled => 0u32,
                Rdiv2::Enabled => 1u32,
            }),
    {
        match self {
            Rdiv2::Disabled => 0,
            Rdiv2::Enabled => 1,
        }
    }
}

/// R2: double buffering of the output divider fields in register 4.
#[derive(Debug, Clone, Copy, PartialEq, Eq, Structural)]
pub enum DoubleBuffer {
    Disabled,
    Enabled,
}

impl DoubleBuffer {
    /// Bit encoding of this setting.
    pub fn bits(self) -> (b: u32)
        ensures
            b == (match self {
                DoubleBuffer::Disabled => 0u32,
                DoubleBuffer::Enabled => 1u32,
            }),
    {
        match self {
            DoubleBuffer::Disabled => 0,
            DoubleBuffer::Enabled => 1,
        }
    }
}

/// R2: lock detect function — how many phase detector cycles the lock
/// detect circuit watches (40 for fractional-N, 5 for integer-N).
#[derive(Debug, Clone, Copy, PartialEq, Eq, Structural)]
pub enum Ldf {
    FracN,
    IntN,
}

impl Ldf {
    /// Bit encoding of this setting.
    pub fn bits(self) -> (b: u32)
        ensures
            b == (match self {
                Ldf::FracN => 0u32,
                Ldf::IntN => 1u32,
            }),
    {
        match self {
            Ldf::FracN => 0,
            Ldf::IntN => 1,
        }
    }
}

/// R2: lock detect precision — the comparison window of the lock detect
/// circuit, 10 ns or 6 ns.
#[derive(Debug, Clone, Copy, PartialEq, Eq, Structural)]
pub enum Ldp {
    Ldp10ns,
    Ldp6ns,
}

impl Ldp {
    /// Bit encoding of this setting.
    pub fn bits(self) -> (b: u32)
        ensures
            b == (match self {
                Ldp::Ldp10ns => 0u32,
                Ldp::Ldp6ns => 1u32,
            }),
    {
        match self {
            Ldp::Ldp10ns => 0,
            Ldp::Ldp6ns => 1,
        }
    }
}

/// R2: phase detector polarity.  Positive for passive or noninverting
/// active loop filters, negative for inverting active filters.
#[derive(Debug, Clone, Copy, PartialEq, Eq, Structural)]
pub enum PhaseDetectorPolarity {
    Negative,
    Positive,
}

impl PhaseDetectorPolarity {
    /// Bit encoding of this setting.
    pub fn bits(self) -> (b: u32)
        ensures
            b == (match self {
                PhaseDetectorPolarity::Negative => 0u32,
                PhaseDetectorPolarity::Positive => 1u32,
            }),
    {
        match self {
            PhaseDetectorPolarity::Negative => 0,
            PhaseDetectorPolarity::Positive => 1,
        }
    }
}

/// R2: software power-down.  Registers stay loadable while powered down.
#[derive(Debug, Clone, Copy, PartialEq, Eq, Structural)]
pub enum PowerDown {
    Disabled,
    Enabled,
}

impl PowerDown {
    /// Bit encoding of this setting.
    pub fn bits(self) -> (b: u32)
        ensures
            b == (match self {
                PowerDown::Disabled => 0u32,
                PowerDown::Enabled => 1u32,
            }),
    {
        match self {
            PowerDown::Disabled => 0,
            PowerDown::Enabled => 1,
        }
    }
}

/// R2: charge pump three-state.  Keep disabled for normal operation.
#[derive(Debug, Clone, Copy, PartialEq, Eq, Structural)]
pub enum ChargePumpThreeState {
    Disabled,
    Enabled,
}

impl ChargePumpThreeState {
    /// Bit encoding of this setting.
    pub fn bits(self) -> (b: u32)
        ensures
            b == (match self {
                ChargePumpThreeState::Disabled => 0u32,
                ChargePumpThreeState::Enabled => 1u32,
            }),
    {
        match self {
            ChargePumpThreeState::Disabled => 0,
            ChargePumpThreeState::Enabled => 1,
        }
    }
}

/// R2: holds the R and N counters in reset while enabled.
#[derive(Debug, Clone, Copy, PartialEq, Eq, Structural)]
pub enum CounterReset {
    Disabled,
    Enabled,
}

impl CounterReset {
    /// Bit encoding of this setting.
    pub fn bits(self) -> (b: u32)
        ensures
            b == (match self {
                CounterReset::Disabled => 0u32,
                CounterReset::Enabled => 1u32,
            }),
    {
        match self {
            CounterReset::Disabled => 0,
            CounterReset::Enabled => 1,
        }
    }
}

/// R3: band select clock mode.  High selects the faster band select logic
/// needed for high phase detector frequencies.
#[derive(Debug, Clone, Copy, PartialEq, Eq, Structural)]
pub enum BandSelectClockMode {
    Low,
    High,
}

impl BandSelectClockMode {
    /// Bit encoding of this setting.
    pub fn bits(self) -> (b: u32)
        ensures
            b == (match self {
                BandSelectClockMode::Low => 0u32,
                BandSelectClockMode::High => 1u32,
            }),
    {
        match self {
            BandSelectClockMode::Low => 0,
            BandSelectClockMode::High => 1,
        }
    }
}

/// R3: phase detector anti-backlash pulse width.  6 ns is recommended for
/// fractional-N use, 3 ns for integer-N.
#[derive(Debug, Clone, Copy, PartialEq, Eq, Structural)]
pub enum AntiBacklashPulseWidth {
    /// 6 ns, for fractional-N operation.
    AB6ns,
    /// 3 ns, for integer-N operation.
    AB3ns,
}

impl AntiBacklashPulseWidth {
    /// Bit encoding of this setting.
    pub fn bits(self) -> (b: u32)
        ensures
            b == (match self {
                AntiBacklashPulseWidth::AB6ns => 0u32,
                AntiBacklashPulseWidth::AB3ns => 1u32,
            }),
    {
        match self {
            AntiBacklashPulseWidth::AB6ns => 0,
            AntiBacklashPulseWidth::AB3ns => 1,
        }
    }
}

/// R3: charge pump charge cancellation, for integer-N spur reduction.
/// Keep disabled in fractional-N mode.
#[derive(Debug, Clone, Copy, PartialEq, Eq, Structural)]
pub enum ChargeCancellation {
    Disabled,
    Enabled,
}

impl ChargeCancellation {
    /// Bit encoding of this setting.
    pub fn bits(self) -> (b: u32)
        ensures
            b == (match self {
                ChargeCancellation::Disabled => 0u32,
                ChargeCancellation::Enabled => 1u32,
            }),
    {
        match self {
            ChargeCancellation::Disabled => 0,
            ChargeCancellation::Enabled => 1,
        }
    }
}

/// R3: cycle slip reduction, for faster lock times; needs a 50% duty cycle
/// at the phase detector and minimum charge pump current.
#[derive(Debug, Clone, Copy, PartialEq, Eq, Structural)]
pub enum CycleSlipReduction {
    Disabled,
    Enabled,
}

impl CycleSlipReduction {
    /// Bit encoding of this setting.
    pub fn bits(self) -> (b: u32)
        ensures
            b == (match self {
                CycleSlipReduction::Disabled => 0u32,
                CycleSlipReduction::Enabled => 1u32,
            }),
    {
        match self {
            CycleSlipReduction::Disabled => 0,
            CycleSlipReduction::Enabled => 1,
        }
    }
}

/// R3: what the 12-bit clock divider paces: off, fast lock, or phase
/// resync.
#[derive(Debug, Clone, Copy, PartialEq, Eq, Structural)]
pub enum ClockDividerMode {
    Off,
    FastLock,
    Resync,
}

impl ClockDividerMode {
    /// Bit encoding of this setting.
    pub fn bits(self) -> (b: u32)
        ensures
            b == (match self {
                ClockDividerMode::Off => 0u32,
                ClockDividerMode::FastLock => 1u32,
                ClockDividerMode::Resync => 2u32,
            }),
    {
        match self {
            ClockDividerMode::Off => 0,
            ClockDividerMode::FastLock => 1,
            ClockDividerMode::Resync => 2,
        }
    }
}

/// R4: feedback select for the N counter: from the output dividers, or
/// directly from the VCO (fundamental).
#[derive(Debug, Clone, Copy, PartialEq, Eq, Structural)]
pub enum FeedbackSelect {
    Divided,
    Fundamental,
}

impl FeedbackSelect {
    /// Bit encoding of this setting.
    pub fn bits(self) -> (b: u32)
        ensures
            b == (match self {
                FeedbackSelect::Divided => 0u32,
                FeedbackSelect::Fundamental => 1u32,
            }),
    {
        match self {
            FeedbackSelect::Divided => 0,
            FeedbackSelect::Fundamental => 1,
        }
    }
}

/// R4: VCO power-down.
#[derive(Debug, Clone, Copy, PartialEq, Eq, Structural)]
pub enum VcoPowerDown {
    PoweredUp,
    PoweredDown,
}

impl VcoPowerDown {
    /// Bit encoding of this setting.
    pub fn bits(self) -> (b: u32)
        ensures
            b == (match self {
                VcoPowerDown::PoweredUp => 0u32,
                VcoPowerDown::PoweredDown => 1u32,
            }),
    {
        match self {
            VcoPowerDown::PoweredUp => 0,
            VcoPowerDown::PoweredDown => 1,
        }
    }
}

/// R4: mute the RF output stage until digital lock detect reports lock.
#[derive(Debug, Clone, Copy, PartialEq, Eq, Structural)]
pub enum MuteTillLockDetect {
    Disabled,
    Enabled,
}

impl MuteTillLockDetect {
    /// Bit encoding of this setting.
    pub fn bits(self) -> (b: u32)
        ensures
            b == (match self {
                MuteTillLockDetect::Disabled => 0u32,
                MuteTillLockDetect::Enabled => 1u32,
            }),
    {
        match self {
            MuteTillLockDetect::Disabled => 0,
            MuteTillLockDetect::Enabled => 1,
        }
    }
}

/// R4: source of the auxiliary RF output: the output dividers or the
/// fundamental VCO frequency.
#[derive(Debug, Clone, Copy, PartialEq, Eq, Structural)]
pub enum AuxOutputSelect {
    Divided,
    Fundamental,
}

impl AuxOutputSelect {
    /// Bit encoding of this setting.
    pub fn bits(self) -> (b: u32)
        ensures
            b == (match self {
                AuxOutputSelect::Divided => 0u32,
                AuxOutputSelect::Fundamental => 1u32,
            }),
    {
        match self {
            AuxOutputSelect::Divided => 0,
            AuxOutputSelect::Fundamental => 1,
        }
    }
}

/// R4: auxiliary RF output enable.
#[derive(Debug, Clone, Copy, PartialEq, Eq, Structural)]
pub enum AuxOutputEnable {
    Disabled,
    Enabled,
}

impl AuxOutputEnable {
    /// Bit encoding of this setting.
    pub fn bits(self) -> (b: u32)
        ensures
            b == (match self {
                AuxOutputEnable::Disabled => 0u32,
                AuxOutputEnable::Enabled => 1u32,
            }),
    {
        match self {
            AuxOutputEnable::Disabled => 0,
            AuxOutputEnable::Enabled => 1,
        }
    }
}

/// R4: primary RF output enable.
#[derive(Debug, Clone, Copy, PartialEq, Eq, Structural)]
pub enum RfOutputEnable {
    Disabled,
    Enabled,
}

impl RfOutputEnable {
    /// Bit encoding of this setting.
    pub fn bits(self) -> (b: u32)
        ensures
            b == (match self {
                RfOutputEnable::Disabled => 0u32,
                RfOutputEnable::Enabled => 1u32,
            }),
    {
        match self {
            RfOutputEnable::Disabled => 0,
            RfOutputEnable::Enabled => 1,
        }
    }
}

/// R5: operation of the lock detect pin.
#[derive(Debug, Clone, Copy, PartialEq, Eq, Structural)]
pub enum LockDetectPin {
    Low,
    DigitalLockDetect,
    Low1,
    High,
}

impl LockDetectPin {
    /// Bit encoding of this setting.
    pub fn bits(self) -> (b: u32)
        ensures
            b == (match self {
                LockDetectPin::Low => 0u32,
                LockDetectPin::DigitalLockDetect => 1u32,
                LockDetectPin::Low1 => 2u32,
                LockDetectPin::High => 3u32,
            }),
    {
        match self {
            LockDetectPin::Low => 0,
            LockDetectPin::DigitalLockDetect => 1,
            LockDetectPin::Low1 => 2,
            LockDetectPin::High => 3,
        }
    }
}

/// One register word as the four bytes the bus shifts out, most significant
/// byte first.
pub fn word_to_bytes(w: u32) -> (bs: Vec<u8>)
    ensures
        bs@.len() == 4,
        bs@[0] == (w >> 24) as u8,
        bs@[1] == (w >> 16) as u8,
        bs@[2] == (w >> 8) as u8,
        bs@[3] == w as u8,
{
    let mut bs: Vec<u8> = Vec::new();
    bs.push((w >> 24) as u8);
    bs.push((w >> 16) as u8);
    bs.push((w >> 8) as u8);
    bs.push(w as u8);
    bs
}

} // verus!
