//! The records of the options schema, with their built-in defaults.
use vstd::prelude::*;

verus! {

/// Time base and minimum sample and delay lengths, in clock ticks.
#[derive(Debug, Clone, Copy, PartialEq, Eq)]
pub struct Clock {
    /// master pulse program time base
    pub clock_period_ns: usize,
    /// min clocks per rf sample
    pub min_rf_clocks_per_sample: usize,
    /// min clocks per grad sample
    pub min_grad_clocks_per_sample: usize,
    /// minimum valid delay in clocks
    pub min_delay_clocks: usize,
}

/// Scheduling delays, in clock ticks, around rf, gradient and acquisition events.
#[derive(Debug, Clone, Copy, PartialEq, Eq)]
pub struct EventTiming {
    /// total delay between event start and rf pulse
    pub rf_schedule_delay_clocks: usize,
    /// part of total delay attributed to the rfstart command itself
    pub rf_lag_clocks: usize,
    /// delay after rf pulse concludes before control is returned
    pub rf_return_delay_clocks: usize,
    /// delay before start of gradient ramp
    pub grad_sched_delay_clocks: usize,
    /// time for control to return after grad start command
    pub grad_ret_delay_clocks: usize,
    /// total delay before start of sample acquisition
    pub acq_sched_delay_clocks: usize,
    /// part of the total delay attributed to the call to acquire
    pub acq_lag_clocks: usize,
    /// delay between last sample and control return
    pub acq_return_delay_clocks_1: usize,
    /// delay between last sample and control return
    pub acq_return_delay_clocks_2: usize,
}

/// Digital-to-analog converter limits.
#[derive(Debug, Clone, Copy, PartialEq, Eq)]
pub struct Dac {
    /// max dac value of rf power
    pub dac_rf_max: i32,
    /// max dac value of gradients
    pub dac_grad_max: i32,
    /// converts degrees to dac: the IEEE-754 binary64 bit pattern of the factor
    /// (`f64::from_bits` gives the number)
    pub dac_phase_res_deg_bits: u64,
}

/// Paths to the cooperating executables and templates; they are not checked
/// for existence.
#[derive(Debug, Clone, PartialEq, Eq)]
pub struct SystemVars {
    pub parfilio_path: String,
    pub seq_gen_path: String,
    pub ppl_compiler_path: String,
    pub seq_gen_rf_template: String,
    pub seq_gen_grad_template: String,
}

/// Table-size limits.
#[derive(Debug, Clone, Copy, PartialEq, Eq)]
pub struct Limits {
    pub max_lut_i16_entries: usize,
}

/// The ceiling on lookup-table entries when the document gives none.
pub const DEFAULT_MAX_LUT_I16_ENTRIES: usize = 196095;

/// The five paths of a `SystemVars`, as character sequences.
pub struct SystemVarsView {
    pub parfilio_path: Seq<char>,
    pub seq_gen_path: Seq<char>,
    pub ppl_compiler_path: Seq<char>,
    pub seq_gen_rf_template: Seq<char>,
    pub seq_gen_grad_template: Seq<char>,
}

impl View for SystemVars {
    type V = SystemVarsView;

    open spec fn view(&self) -> SystemVarsView {
        SystemVarsView {
            parfilio_path: self.parfilio_path@,
            seq_gen_path: self.seq_gen_path@,
            ppl_compiler_path: self.ppl_compiler_path@,
            seq_gen_rf_template: self.seq_gen_rf_template@,
            seq_gen_grad_template: self.seq_gen_grad_template@,
        }
    }
}

/// The view of the default `SystemVars`: every path empty.
pub open spec fn empty_system_vars() -> SystemVarsView {
    SystemVarsView {
        parfilio_path: Seq::empty(),
        seq_gen_path: Seq::empty(),
        ppl_compiler_path: Seq::empty(),
        seq_gen_rf_template: Seq::empty(),
        seq_gen_grad_template: Seq::empty(),
    }
}

impl Default for Clock {
    fn default() -> (r: Clock)
        ensures
            r == (Clock {
                clock_period_ns: 100,
                min_rf_clocks_per_sample: 20,
                min_grad_clocks_per_sample: 20,
                min_delay_clocks: 20,
            }),
    {
        Clock {
            clock_period_ns: 100,
            min_rf_clocks_per_sample: 20,
            min_grad_clocks_per_sample: 20,
            min_delay_clocks: 20,
        }
    }
}

impl Default for EventTiming {
    fn default() -> (r: EventTiming)
        ensures
            r == (EventTiming {
                rf_schedule_delay_clocks: 1300,
                rf_lag_clocks: 500,
                rf_return_delay_clocks: 50,
                grad_sched_delay_clocks: 50,
                grad_ret_delay_clocks: 50,
                acq_sched_delay_clocks: 1000,
                acq_lag_clocks: 880,
                acq_return_delay_clocks_1: 600,
                acq_return_delay_clocks_2: 600,
            }),
    {
        EventTiming {
            rf_schedule_delay_clocks: 1300,
            rf_lag_clocks: 500,
            rf_return_delay_clocks: 50,
            grad_sched_delay_clocks: 50,
            grad_ret_delay_clocks: 50,
            acq_sched_delay_clocks: 1000,
            acq_lag_clocks: 880,
            acq_return_delay_clocks_1: 600,
            acq_return_delay_clocks_2: 600,
        }
    }
}

impl Default for SystemVars {
    fn default() -> (r: SystemVars)
        ensures
            r@ == empty_system_vars(),
    {
        SystemVars {
            parfilio_path: String::new(),
            seq_gen_path: String::new(),
            ppl_compiler_path: String::new(),
            seq_gen_rf_template: String::new(),
            seq_gen_grad_template: String::new(),
        }
    }
}

impl Default for Limits {
    fn default() -> (r: Limits)
        ensures
            r.max_lut_i16_entries == DEFAULT_MAX_LUT_I16_ENTRIES,
    {
        Limits { max_lut_i16_entries: DEFAULT_MAX_LUT_I16_ENTRIES }
    }
}

} // verus!
