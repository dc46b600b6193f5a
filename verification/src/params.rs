//! The host-visible parameter store: a small fixed set of numeric knobs,
//! addressed by a stable integer index, modelled functionally.
//!
//! Each cell holds the IEEE-754 single-precision bit pattern of its control
//! value. Storing bit patterns keeps reads and writes exact: a value read
//! back is bit-for-bit the value stored. The thread-shared cells the host
//! and the editor write through live outside this crate and mirror this
//! model one atomic word per knob.

use vstd::prelude::*;

verus! {

/// The enumerated, host-automatable knobs, in index order: modulation depth,
/// the editor's counter (volume), and the editor's slider value.
#[derive(Clone, Copy, PartialEq, Eq, Structural, Debug)]
pub enum Parameter {
    Modulation,
    Counter,
    SliderValue,
}

impl Parameter {
    /// The stable index a host addresses this knob by.
    pub open spec fn index_spec(self) -> i32 {
        match self {
            Parameter::Modulation => 0,
            Parameter::Counter => 1,
            Parameter::SliderValue => 2,
        }
    }

    /// The knob at a host index, if the index is one of the enumerated set.
    pub open spec fn from_index_spec(index: i32) -> Option<Parameter> {
        if index == 0 {
            Some(Parameter::Modulation)
        } else if index == 1 {
            Some(Parameter::Counter)
        } else if index == 2 {
            Some(Parameter::SliderValue)
        } else {
            None
        }
    }

    /// The stable index a host addresses this knob by.
    pub fn index(self) -> (r: i32)
        ensures
            r == self.index_spec(),
    {
        match self {
            Parameter::Modulation => 0,
            Parameter::Counter => 1,
            Parameter::SliderValue => 2,
        }
    }

    /// Decode a host index; indices outside the enumerated set yield `None`.
    pub fn from_index(index: i32) -> (r: Option<Parameter>)
        ensures
            r == Parameter::from_index_spec(index),
    {
        if index == 0 {
            Some(Parameter::Modulation)
        } else if index == 1 {
            Some(Parameter::Counter)
        } else if index == 2 {
            Some(Parameter::SliderValue)
        } else {
            None
        }
    }

    /// The knob's stable display name.
    pub fn display_name(self) -> (r: String)
        ensures
            self is Modulation ==> r@ == "modulation"@,
            self is Counter ==> r@ == "counter"@,
            self is SliderValue ==> r@ == "slider_value"@,
    {
        match self {
            Parameter::Modulation => String::from_str("modulation"),
            Parameter::Counter => String::from_str("counter"),
            Parameter::SliderValue => String::from_str("slider_value"),
        }
    }
}

/// One cell per knob. Fields hold IEEE-754 single-precision bit patterns.
pub struct Parameters {
    /// Modulation depth; the construction-time value is one.
    pub modulation: u32,
    /// The editor's counter, acting as a volume control; starts at one half.
    pub volume: u32,
    /// The editor's slider; starts at ten.
    pub slider_value: u32,
}

/// IEEE-754 single-precision bit pattern of the value one.
pub const DEFAULT_MODULATION_BITS: u32 = 0x3F80_0000;

/// IEEE-754 single-precision bit pattern of the value one half.
pub const DEFAULT_VOLUME_BITS: u32 = 0x3F00_0000;

/// IEEE-754 single-precision bit pattern of the value ten.
pub const DEFAULT_SLIDER_BITS: u32 = 0x4120_0000;

impl Parameters {
    /// The cell addressed by a host index, or zero for an index outside the
    /// enumerated set: an unrecognized read never fails, it reads as zero.
    pub open spec fn get_spec(self, index: i32) -> u32 {
        match Parameter::from_index_spec(index) {
            Some(Parameter::Modulation) => self.modulation,
            Some(Parameter::Counter) => self.volume,
            Some(Parameter::SliderValue) => self.slider_value,
            None => 0,
        }
    }

    /// The store after writing `bits` at a host index; a write at an index
    /// outside the enumerated set is ignored.
    pub open spec fn set_spec(self, index: i32, bits: u32) -> Parameters {
        match Parameter::from_index_spec(index) {
            Some(Parameter::Modulation) => Parameters { modulation: bits, ..self },
            Some(Parameter::Counter) => Parameters { volume: bits, ..self },
            Some(Parameter::SliderValue) => Parameters { slider_value: bits, ..self },
            None => self,
        }
    }

    /// A store holding every knob's documented starting value.
    pub fn new() -> (p: Parameters)
        ensures
            p.modulation == DEFAULT_MODULATION_BITS,
            p.volume == DEFAULT_VOLUME_BITS,
            p.slider_value == DEFAULT_SLIDER_BITS,
    {
        Parameters {
            modulation: DEFAULT_MODULATION_BITS,
            volume: DEFAULT_VOLUME_BITS,
            slider_value: DEFAULT_SLIDER_BITS,
        }
    }

    /// Read the cell at a host index; an unrecognized index reads as zero.
    pub fn get_parameter(&self, index: i32) -> (r: u32)
        ensures
            r == self.get_spec(index),
    {
        match Parameter::from_index(index) {
            Some(Parameter::Modulation) => self.modulation,
            Some(Parameter::Counter) => self.volume,
            Some(Parameter::SliderValue) => self.slider_value,
            None => 0,
        }
    }

    /// Write the cell at a host index; a write at an unrecognized index is
    /// ignored. No range check is made here: range mapping is the caller's
    /// business.
    pub fn set_parameter(&mut self, index: i32, bits: u32)
        ensures
            *final(self) == old(self).set_spec(index, bits),
    {
        match Parameter::from_index(index) {
            Some(Parameter::Modulation) => self.modulation = bits,
            Some(Parameter::Counter) => self.volume = bits,
            Some(Parameter::SliderValue) => self.slider_value = bits,
            None => {},
        }
    }

    /// Read-modify-write of a single cell: every valid index's cell becomes
    /// `f` of the value it held, the other cells are untouched, and an
    /// unrecognized index is a no-op.
    pub fn modify_parameter<F: Fn(u32) -> u32>(&mut self, index: i32, f: F)
        requires
            forall|x: u32| call_requires(f, (x,)),
        ensures
            index == 0 ==> call_ensures(f, (old(self).modulation,), final(self).modulation)
                && final(self).volume == old(self).volume
                && final(self).slider_value == old(self).slider_value,
            index == 1 ==> call_ensures(f, (old(self).volume,), final(self).volume)
                && final(self).modulation == old(self).modulation
                && final(self).slider_value == old(self).slider_value,
            index == 2 ==> call_ensures(f, (old(self).slider_value,), final(self).slider_value)
                && final(self).modulation == old(self).modulation
                && final(self).volume == old(self).volume,
            Parameter::from_index_spec(index) is None ==> *final(self) == *old(self),
    {
        match Parameter::from_index(index) {
            Some(Parameter::Modulation) => self.modulation = f(self.modulation),
            Some(Parameter::Counter) => self.volume = f(self.volume),
            Some(Parameter::SliderValue) => self.slider_value = f(self.slider_value),
            None => {},
        }
    }

    /// The display name of the knob at a host index, or "unknown" for an
    /// index outside the enumerated set.
    pub fn get_parameter_name(&self, index: i32) -> (r: String)
        ensures
            index == 0 ==> r@ == "modulation"@,
            index == 1 ==> r@ == "counter"@,
            index == 2 ==> r@ == "slider_value"@,
            Parameter::from_index_spec(index) is None ==> r@ == "unknown"@,
    {
        match Parameter::from_index(index) {
            Some(p) => p.display_name(),
            None => String::from_str("unknown"),
        }
    }
}

impl Default for Parameters {
    /// The documented starting values: modulation one, volume one half,
    /// slider ten.
    fn default() -> (p: Parameters)
        ensures
            p.modulation == DEFAULT_MODULATION_BITS,
            p.volume == DEFAULT_VOLUME_BITS,
            p.slider_value == DEFAULT_SLIDER_BITS,
    {
        Parameters::new()
    }
}

/// Round trip: writing a knob at any valid host index and reading the same
/// index back returns exactly the bits written.
pub proof fn lemma_set_get_round_trip(ps: Parameters, index: i32, bits: u32)
    requires
        Parameter::from_index_spec(index) is Some,
    ensures
        ps.set_spec(index, bits).get_spec(index) == bits,
{
}

/// A write at one valid index leaves every other index's value unchanged.
pub proof fn lemma_set_preserves_others(ps: Parameters, index: i32, other: i32, bits: u32)
    requires
        index != other,
    ensures
        ps.set_spec(index, bits).get_spec(other) == ps.get_spec(other),
{
}

} // verus!
