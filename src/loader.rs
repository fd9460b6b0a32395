//! Reading the options records out of a parsed TOML document.
use vstd::prelude::*;

use crate::document::{
    parse_table, parsed_document, table_get, table_model, value_as_float_bits, value_as_integer,
    value_as_str, value_as_table, TomlValue,
};
use crate::schema::{
    empty_system_vars, Clock, Dac, EventTiming, Limits, SystemVars, SystemVarsView,
    DEFAULT_MAX_LUT_I16_ENTRIES,
};

verus! {

/// The entries of a TOML table, in the model.
pub type Entries = Map<Seq<char>, TomlValue>;

/// Why the contents of a document do not make an `Options`.
#[derive(Debug, Clone, PartialEq, Eq)]
pub enum ParseError {
    /// The text is no valid TOML; the parser's diagnostic.
    Syntax(String),
    /// A required table is absent.
    MissingTable(String),
    /// A top-level key that names a table of the schema holds something else.
    NotATable(String),
    /// A table lacks one of its keys.
    MissingField { table: String, key: String },
    /// A key holds a value of another TOML type than the schema declares.
    WrongType { table: String, key: String },
    /// An integer does not fit the declared integer type.
    OutOfRange { table: String, key: String },
}

/// The model of a `ParseError`: the same variants with the names as sequences;
/// the parser's diagnostic is left out.
pub enum Fault {
    Syntax,
    MissingTable(Seq<char>),
    NotATable(Seq<char>),
    MissingField(Seq<char>, Seq<char>),
    WrongType(Seq<char>, Seq<char>),
    OutOfRange(Seq<char>, Seq<char>),
}

impl View for ParseError {
    type V = Fault;

    open spec fn view(&self) -> Fault {
        match self {
            ParseError::Syntax(_) => Fault::Syntax,
            ParseError::MissingTable(n) => Fault::MissingTable(n@),
            ParseError::NotATable(n) => Fault::NotATable(n@),
            ParseError::MissingField { table, key } => Fault::MissingField(table@, key@),
            ParseError::WrongType { table, key } => Fault::WrongType(table@, key@),
            ParseError::OutOfRange { table, key } => Fault::OutOfRange(table@, key@),
        }
    }
}

/// The first of two checks that finds a fault.
pub open spec fn first_fault(a: Option<Fault>, b: Option<Fault>) -> Option<Fault> {
    if a is Some {
        a
    } else {
        b
    }
}

/// The fault of reading `key` of `table` as a `usize`, if any.
pub open spec fn usize_fault(t: Entries, table: Seq<char>, key: Seq<char>) -> Option<Fault> {
    if !t.contains_key(key) {
        Some(Fault::MissingField(table, key))
    } else {
        match t[key] {
            TomlValue::Integer(i) => if 0 <= i && i <= usize::MAX {
                None
            } else {
                Some(Fault::OutOfRange(table, key))
            },
            _ => Some(Fault::WrongType(table, key)),
        }
    }
}

/// The fault of reading `key` of `table` as an `i32`, if any.
pub open spec fn i32_fault(t: Entries, table: Seq<char>, key: Seq<char>) -> Option<Fault> {
    if !t.contains_key(key) {
        Some(Fault::MissingField(table, key))
    } else {
        match t[key] {
            TomlValue::Integer(i) => if i32::MIN <= i && i <= i32::MAX {
                None
            } else {
                Some(Fault::OutOfRange(table, key))
            },
            _ => Some(Fault::WrongType(table, key)),
        }
    }
}

/// The fault of reading `key` of `table` as a float, if any.
pub open spec fn float_fault(t: Entries, table: Seq<char>, key: Seq<char>) -> Option<Fault> {
    if !t.contains_key(key) {
        Some(Fault::MissingField(table, key))
    } else if !(t[key] is Float) {
        Some(Fault::WrongType(table, key))
    } else {
        None
    }
}

/// The fault of reading `key` of `table` as a string, if any.
pub open spec fn text_fault(t: Entries, table: Seq<char>, key: Seq<char>) -> Option<Fault> {
    if !t.contains_key(key) {
        Some(Fault::MissingField(table, key))
    } else if !(t[key] is Text) {
        Some(Fault::WrongType(table, key))
    } else {
        None
    }
}

/// The integer stored under `key`.
pub open spec fn int_at(t: Entries, key: Seq<char>) -> int {
    t[key]->Integer_0 as int
}

/// The float bit pattern stored under `key`.
pub open spec fn float_at(t: Entries, key: Seq<char>) -> u64 {
    t[key]->Float_0
}

/// The string stored under `key`.
pub open spec fn text_at(t: Entries, key: Seq<char>) -> Seq<char> {
    t[key]->Text_0
}

fn usize_field(t: &toml::Table, table: &str, key: &str) -> (r: Result<usize, ParseError>)
    ensures
        match r {
            Ok(n) => usize_fault(table_model(*t), table@, key@) is None && n as int == int_at(
                table_model(*t),
                key@,
            ),
            Err(e) => usize_fault(table_model(*t), table@, key@) == Some(e@),
        },
{
    match table_get(t, key) {
        None => Err(ParseError::MissingField { table: table.to_owned(), key: key.to_owned() }),
        Some(v) => match value_as_integer(v) {
            None => Err(ParseError::WrongType { table: table.to_owned(), key: key.to_owned() }),
            Some(i) => if 0 <= i && i as u64 <= usize::MAX as u64 {
                Ok(i as usize)
            } else {
                Err(ParseError::OutOfRange { table: table.to_owned(), key: key.to_owned() })
            },
        },
    }
}

fn i32_field(t: &toml::Table, table: &str, key: &str) -> (r: Result<i32, ParseError>)
    ensures
        match r {
            Ok(n) => i32_fault(table_model(*t), table@, key@) is None && n as int == int_at(
                table_model(*t),
                key@,
            ),
            Err(e) => i32_fault(table_model(*t), table@, key@) == Some(e@),
        },
{
    match table_get(t, key) {
        None => Err(ParseError::MissingField { table: table.to_owned(), key: key.to_owned() }),
        Some(v) => match value_as_integer(v) {
            None => Err(ParseError::WrongType { table: table.to_owned(), key: key.to_owned() }),
            Some(i) => if i32::MIN as i64 <= i && i <= i32::MAX as i64 {
                Ok(i as i32)
            } else {
                Err(ParseError::OutOfRange { table: table.to_owned(), key: key.to_owned() })
            },
        },
    }
}

fn float_field(t: &toml::Table, table: &str, key: &str) -> (r: Result<u64, ParseError>)
    ensures
        match r {
            Ok(b) => float_fault(table_model(*t), table@, key@) is None && b == float_at(
                table_model(*t),
                key@,
            ),
            Err(e) => float_fault(table_model(*t), table@, key@) == Some(e@),
        },
{
    match table_get(t, key) {
        None => Err(ParseError::MissingField { table: table.to_owned(), key: key.to_owned() }),
        Some(v) => match value_as_float_bits(v) {
            None => Err(ParseError::WrongType { table: table.to_owned(), key: key.to_owned() }),
            Some(b) => Ok(b),
        },
    }
}

fn text_field(t: &toml::Table, table: &str, key: &str) -> (r: Result<String, ParseError>)
    ensures
        match r {
            Ok(s) => text_fault(table_model(*t), table@, key@) is None && s@ == text_at(
                table_model(*t),
                key@,
            ),
            Err(e) => text_fault(table_model(*t), table@, key@) == Some(e@),
        },
{
    match table_get(t, key) {
        None => Err(ParseError::MissingField { table: table.to_owned(), key: key.to_owned() }),
        Some(v) => match value_as_str(v) {
            None => Err(ParseError::WrongType { table: table.to_owned(), key: key.to_owned() }),
            Some(s) => Ok(s.to_owned()),
        },
    }
}

/// The first fault of the `clock` table's entries, if any.
pub open spec fn clock_fault(t: Entries) -> Option<Fault> {
    first_fault(
        usize_fault(t, "clock"@, "clock_period_ns"@),
        first_fault(
            usize_fault(t, "clock"@, "min_rf_clocks_per_sample"@),
            first_fault(
                usize_fault(t, "clock"@, "min_grad_clocks_per_sample"@),
                usize_fault(t, "clock"@, "min_delay_clocks"@),
            ),
        ),
    )
}

/// The `Clock` that the `clock` table's entries give.
pub open spec fn clock_of(t: Entries) -> Clock {
    Clock {
        clock_period_ns: int_at(t, "clock_period_ns"@) as usize,
        min_rf_clocks_per_sample: int_at(t, "min_rf_clocks_per_sample"@) as usize,
        min_grad_clocks_per_sample: int_at(t, "min_grad_clocks_per_sample"@) as usize,
        min_delay_clocks: int_at(t, "min_delay_clocks"@) as usize,
    }
}

impl Clock {
    /// Reads a `Clock` from the entries of a `clock` table; every key is required.
    pub fn from_table(t: &toml::Table) -> (r: Result<Clock, ParseError>)
        ensures
            match r {
                Ok(c) => clock_fault(table_model(*t)) is None && c == clock_of(table_model(*t)),
                Err(e) => clock_fault(table_model(*t)) == Some(e@),
            },
    {
        let clock_period_ns = usize_field(t, "clock", "clock_period_ns")?;
        let min_rf_clocks_per_sample = usize_field(t, "clock", "min_rf_clocks_per_sample")?;
        let min_grad_clocks_per_sample = usize_field(t, "clock", "min_grad_clocks_per_sample")?;
        let min_delay_clocks = usize_field(t, "clock", "min_delay_clocks")?;
        Ok(Clock {
            clock_period_ns,
            min_rf_clocks_per_sample,
            min_grad_clocks_per_sample,
            min_delay_clocks,
        })
    }
}

/// The first fault of the `event_timing` table's entries, if any.
pub open spec fn event_timing_fault(t: Entries) -> Option<Fault> {
    first_fault(
        usize_fault(t, "event_timing"@, "rf_schedule_delay_clocks"@),
        first_fault(
            usize_fault(t, "event_timing"@, "rf_lag_clocks"@),
            first_fault(
                usize_fault(t, "event_timing"@, "rf_return_delay_clocks"@),
                first_fault(
                    usize_fault(t, "event_timing"@, "grad_sched_delay_clocks"@),
                    first_fault(
                        usize_fault(t, "event_timing"@, "grad_ret_delay_clocks"@),
                        first_fault(
                            usize_fault(t, "event_timing"@, "acq_sched_delay_clocks"@),
                            first_fault(
                                usize_fault(t, "event_timing"@, "acq_lag_clocks"@),
                                first_fault(
                                    usize_fault(t, "event_timing"@, "acq_return_delay_clocks_1"@),
                                    usize_fault(t, "event_timing"@, "acq_return_delay_clocks_2"@),
                                ),
                            ),
                        ),
                    ),
                ),
            ),
        ),
    )
}

/// The `EventTiming` that the `event_timing` table's entries give.
pub open spec fn event_timing_of(t: Entries) -> EventTiming {
    EventTiming {
        rf_schedule_delay_clocks: int_at(t, "rf_schedule_delay_clocks"@) as usize,
        rf_lag_clocks: int_at(t, "rf_lag_clocks"@) as usize,
        rf_return_delay_clocks: int_at(t, "rf_return_delay_clocks"@) as usize,
        grad_sched_delay_clocks: int_at(t, "grad_sched_delay_clocks"@) as usize,
        grad_ret_delay_clocks: int_at(t, "grad_ret_delay_clocks"@) as usize,
        acq_sched_delay_clocks: int_at(t, "acq_sched_delay_clocks"@) as usize,
        acq_lag_clocks: int_at(t, "acq_lag_clocks"@) as usize,
        acq_return_delay_clocks_1: int_at(t, "acq_return_delay_clocks_1"@) as usize,
        acq_return_delay_clocks_2: int_at(t, "acq_return_delay_clocks_2"@) as usize,
    }
}

impl EventTiming {
    /// Reads an `EventTiming` from the entries of a `event_timing` table; every key is required.
    pub fn from_table(t: &toml::Table) -> (r: Result<EventTiming, ParseError>)
        ensures
            match r {
                Ok(c) => event_timing_fault(table_model(*t)) is None
                    && c == event_timing_of(table_model(*t)),
                Err(e) => event_timing_fault(table_model(*t)) == Some(e@),
            },
    {
        let rf_schedule_delay_clocks = usize_field(t, "event_timing", "rf_schedule_delay_clocks")?;
        let rf_lag_clocks = usize_field(t, "event_timing", "rf_lag_clocks")?;
        let rf_return_delay_clocks = usize_field(t, "event_timing", "rf_return_delay_clocks")?;
        let grad_sched_delay_clocks = usize_field(t, "event_timing", "grad_sched_delay_clocks")?;
        let grad_ret_delay_clocks = usize_field(t, "event_timing", "grad_ret_delay_clocks")?;
        let acq_sched_delay_clocks = usize_field(t, "event_timing", "acq_sched_delay_clocks")?;
        let acq_lag_clocks = usize_field(t, "event_timing", "acq_lag_clocks")?;
        let acq_return_delay_clocks_1 =
            usize_field(t, "event_timing", "acq_return_delay_clocks_1")?;
        let acq_return_delay_clocks_2 =
            usize_field(t, "event_timing", "acq_return_delay_clocks_2")?;
        Ok(EventTiming {
            rf_schedule_delay_clocks,
            rf_lag_clocks,
            rf_return_delay_clocks,
            grad_sched_delay_clocks,
            grad_ret_delay_clocks,
            acq_sched_delay_clocks,
            acq_lag_clocks,
            acq_return_delay_clocks_1,
            acq_return_delay_clocks_2,
        })
    }
}

/// The first fault of the `dac` table's entries, if any.
pub open spec fn dac_fault(t: Entries) -> Option<Fault> {
    first_fault(
        i32_fault(t, "dac"@, "dac_rf_max"@),
        first_fault(
            i32_fault(t, "dac"@, "dac_grad_max"@),
            float_fault(t, "dac"@, "dac_phase_res_deg"@),
        ),
    )
}

/// The `Dac` that the `dac` table's entries give.
pub open spec fn dac_of(t: Entries) -> Dac {
    Dac {
        dac_rf_max: int_at(t, "dac_rf_max"@) as i32,
        dac_grad_max: int_at(t, "dac_grad_max"@) as i32,
        dac_phase_res_deg_bits: float_at(t, "dac_phase_res_deg"@),
    }
}

impl Dac {
    /// Reads a `Dac` from the entries of a `dac` table; every key is required.
    pub fn from_table(t: &toml::Table) -> (r: Result<Dac, ParseError>)
        ensures
            match r {
                Ok(c) => dac_fault(table_model(*t)) is None && c == dac_of(table_model(*t)),
                Err(e) => dac_fault(table_model(*t)) == Some(e@),
            },
    {
        let dac_rf_max = i32_field(t, "dac", "dac_rf_max")?;
        let dac_grad_max = i32_field(t, "dac", "dac_grad_max")?;
        let dac_phase_res_deg_bits = float_field(t, "dac", "dac_phase_res_deg")?;
        Ok(Dac { dac_rf_max, dac_grad_max, dac_phase_res_deg_bits })
    }
}

/// The first fault of the `system_vars` table's entries, if any.
pub open spec fn system_vars_fault(t: Entries) -> Option<Fault> {
    first_fault(
        text_fault(t, "system_vars"@, "parfilio_path"@),
        first_fault(
            text_fault(t, "system_vars"@, "seq_gen_path"@),
            first_fault(
                text_fault(t, "system_vars"@, "ppl_compiler_path"@),
                first_fault(
                    text_fault(t, "system_vars"@, "seq_gen_rf_template"@),
                    text_fault(t, "system_vars"@, "seq_gen_grad_template"@),
                ),
            ),
        ),
    )
}

/// The view of the `SystemVars` that the `system_vars` table's entries give.
pub open spec fn system_vars_of(t: Entries) -> SystemVarsView {
    SystemVarsView {
        parfilio_path: text_at(t, "parfilio_path"@),
        seq_gen_path: text_at(t, "seq_gen_path"@),
        ppl_compiler_path: text_at(t, "ppl_compiler_path"@),
        seq_gen_rf_template: text_at(t, "seq_gen_rf_template"@),
        seq_gen_grad_template: text_at(t, "seq_gen_grad_template"@),
    }
}

impl SystemVars {
    /// Reads a `SystemVars` from the entries of a `system_vars` table; every key is required.
    pub fn from_table(t: &toml::Table) -> (r: Result<SystemVars, ParseError>)
        ensures
            match r {
                Ok(c) => system_vars_fault(table_model(*t)) is None
                    && c@ == system_vars_of(table_model(*t)),
                Err(e) => system_vars_fault(table_model(*t)) == Some(e@),
            },
    {
        let parfilio_path = text_field(t, "system_vars", "parfilio_path")?;
        let seq_gen_path = text_field(t, "system_vars", "seq_gen_path")?;
        let ppl_compiler_path = text_field(t, "system_vars", "ppl_compiler_path")?;
        let seq_gen_rf_template = text_field(t, "system_vars", "seq_gen_rf_template")?;
        let seq_gen_grad_template = text_field(t, "system_vars", "seq_gen_grad_template")?;
        Ok(SystemVars {
            parfilio_path,
            seq_gen_path,
            ppl_compiler_path,
            seq_gen_rf_template,
            seq_gen_grad_template,
        })
    }
}

/// The first fault of the `limits` table's entries, if any.
pub open spec fn limits_fault(t: Entries) -> Option<Fault> {
    usize_fault(t, "limits"@, "max_lut_i16_entries"@)
}

/// The `Limits` that the `limits` table's entries give.
pub open spec fn limits_of(t: Entries) -> Limits {
    Limits {
        max_lut_i16_entries: int_at(t, "max_lut_i16_entries"@) as usize,
    }
}

impl Limits {
    /// Reads a `Limits` from the entries of a `limits` table; every key is required.
    pub fn from_table(t: &toml::Table) -> (r: Result<Limits, ParseError>)
        ensures
            match r {
                Ok(c) => limits_fault(table_model(*t)) is None && c == limits_of(table_model(*t)),
                Err(e) => limits_fault(table_model(*t)) == Some(e@),
            },
    {
        let max_lut_i16_entries = usize_field(t, "limits", "max_lut_i16_entries")?;
        Ok(Limits { max_lut_i16_entries })
    }
}

/// Options of the compiler, as a document gives them.
#[derive(Debug, Clone, PartialEq, Eq)]
pub struct Options {
    pub clock: Clock,
    pub event_timing: EventTiming,
    pub dac: Dac,
    pub system_vars: SystemVars,
    pub limits: Limits,
}

/// The model of `Options`: the paths as sequences, the rest as it is.
pub struct OptionsView {
    pub clock: Clock,
    pub event_timing: EventTiming,
    pub dac: Dac,
    pub system_vars: SystemVarsView,
    pub limits: Limits,
}

impl View for Options {
    type V = OptionsView;

    open spec fn view(&self) -> OptionsView {
        OptionsView {
            clock: self.clock,
            event_timing: self.event_timing,
            dac: self.dac,
            system_vars: self.system_vars@,
            limits: self.limits,
        }
    }
}

/// Why options could not be loaded.
#[derive(Debug, Clone, PartialEq, Eq)]
pub enum LoadError {
    /// The file at `path` could not be opened or read.
    Open { path: String, cause: String },
    /// The file's contents do not make an `Options`.
    Parse(ParseError),
}

/// The fault of the top-level entry `name`, which must be a table.
pub open spec fn table_fault(doc: Entries, name: Seq<char>) -> Option<Fault> {
    if !doc.contains_key(name) {
        Some(Fault::MissingTable(name))
    } else if !(doc[name] is Table) {
        Some(Fault::NotATable(name))
    } else {
        None
    }
}

/// The entries of the table under the top-level key `name`.
pub open spec fn sub_table(doc: Entries, name: Seq<char>) -> Entries {
    doc[name]->Table_0
}

/// The first fault of a document's contents against the schema, if any: the
/// tables `clock`, `event_timing` and `dac` are required; `system_vars` and
/// `limits` may be absent, but where present they are read in full.
pub open spec fn options_fault(doc: Entries) -> Option<Fault> {
    first_fault(
        first_fault(table_fault(doc, "clock"@), clock_fault(sub_table(doc, "clock"@))),
        first_fault(
            first_fault(
                table_fault(doc, "event_timing"@),
                event_timing_fault(sub_table(doc, "event_timing"@)),
            ),
            first_fault(
                first_fault(table_fault(doc, "dac"@), dac_fault(sub_table(doc, "dac"@))),
                first_fault(
                    if doc.contains_key("system_vars"@) {
                        first_fault(
                            table_fault(doc, "system_vars"@),
                            system_vars_fault(sub_table(doc, "system_vars"@)),
                        )
                    } else {
                        None
                    },
                    if doc.contains_key("limits"@) {
                        first_fault(
                            table_fault(doc, "limits"@),
                            limits_fault(sub_table(doc, "limits"@)),
                        )
                    } else {
                        None
                    },
                ),
            ),
        ),
    )
}

/// The options that a document's contents give, where they have no fault.
pub open spec fn options_of(doc: Entries) -> OptionsView {
    OptionsView {
        clock: clock_of(sub_table(doc, "clock"@)),
        event_timing: event_timing_of(sub_table(doc, "event_timing"@)),
        dac: dac_of(sub_table(doc, "dac"@)),
        system_vars: if doc.contains_key("system_vars"@) {
            system_vars_of(sub_table(doc, "system_vars"@))
        } else {
            empty_system_vars()
        },
        limits: if doc.contains_key("limits"@) {
            limits_of(sub_table(doc, "limits"@))
        } else {
            Limits { max_lut_i16_entries: DEFAULT_MAX_LUT_I16_ENTRIES }
        },
    }
}

/// What reading a document's contents gives: its options or its first fault.
pub open spec fn document_outcome(doc: Entries) -> Result<OptionsView, Fault> {
    match options_fault(doc) {
        Some(f) => Err(f),
        None => Ok(options_of(doc)),
    }
}

/// What loading a text gives: a syntax fault where it is no valid TOML, else
/// the outcome of its contents.
pub open spec fn text_outcome(text: Seq<char>) -> Result<OptionsView, Fault> {
    match parsed_document(text) {
        None => Err(Fault::Syntax),
        Some(doc) => document_outcome(doc),
    }
}

fn required_table<'a>(doc: &'a toml::Table, name: &str) -> (r: Result<&'a toml::Table, ParseError>)
    ensures
        match r {
            Ok(t) => table_fault(table_model(*doc), name@) is None && table_model(*t)
                == sub_table(table_model(*doc), name@),
            Err(e) => table_fault(table_model(*doc), name@) == Some(e@),
        },
{
    match table_get(doc, name) {
        None => Err(ParseError::MissingTable(name.to_owned())),
        Some(v) => match value_as_table(v) {
            None => Err(ParseError::NotATable(name.to_owned())),
            Some(t) => Ok(t),
        },
    }
}

fn optional_table<'a>(doc: &'a toml::Table, name: &str)
    -> (r: Result<Option<&'a toml::Table>, ParseError>)
    ensures
        match r {
            Ok(None) => !table_model(*doc).contains_key(name@),
            Ok(Some(t)) => table_model(*doc).contains_key(name@) && table_fault(
                table_model(*doc),
                name@,
            ) is None && table_model(*t) == sub_table(table_model(*doc), name@),
            Err(e) => table_model(*doc).contains_key(name@) && table_fault(
                table_model(*doc),
                name@,
            ) == Some(e@),
        },
{
    match table_get(doc, name) {
        None => Ok(None),
        Some(v) => match value_as_table(v) {
            None => Err(ParseError::NotATable(name.to_owned())),
            Some(t) => Ok(Some(t)),
        },
    }
}

impl Options {
    /// Reads options from the entries of a parsed document. Keys that the
    /// schema does not name are ignored.
    pub fn from_table(doc: &toml::Table) -> (r: Result<Options, ParseError>)
        ensures
            match r {
                Ok(o) => document_outcome(table_model(*doc)) == Ok::<OptionsView, Fault>(o@),
                Err(e) => document_outcome(table_model(*doc)) == Err::<OptionsView, Fault>(e@),
            },
    {
        let clock = Clock::from_table(required_table(doc, "clock")?)?;
        let event_timing = EventTiming::from_table(required_table(doc, "event_timing")?)?;
        let dac = Dac::from_table(required_table(doc, "dac")?)?;
        let system_vars = match optional_table(doc, "system_vars")? {
            Some(t) => SystemVars::from_table(t)?,
            None => SystemVars::default(),
        };
        let limits = match optional_table(doc, "limits")? {
            Some(t) => Limits::from_table(t)?,
            None => Limits::default(),
        };
        Ok(Options { clock, event_timing, dac, system_vars, limits })
    }

    /// Parses a TOML text and reads options from it.
    pub fn from_toml_str(text: &str) -> (r: Result<Options, ParseError>)
        ensures
            match r {
                Ok(o) => text_outcome(text@) == Ok::<OptionsView, Fault>(o@),
                Err(e) => text_outcome(text@) == Err::<OptionsView, Fault>(e@),
            },
    {
        match parse_table(text) {
            Ok(doc) => Options::from_table(&doc),
            Err(e) => Err(ParseError::Syntax(e.to_string())),
        }
    }

    /// Loads options from what reading the file at `path` gave: its text, or
    /// why it could not be opened or read.
    pub fn from_read(path: &str, read: Result<String, String>) -> (r: Result<Options, LoadError>)
        ensures
            match read {
                Err(cause) => r matches Err(LoadError::Open { path: p, cause: c }) && p@ == path@
                    && c@ == cause@,
                Ok(text) => match r {
                    Ok(o) => text_outcome(text@) == Ok::<OptionsView, Fault>(o@),
                    Err(LoadError::Parse(e)) => text_outcome(text@) == Err::<OptionsView, Fault>(
                        e@,
                    ),
                    Err(LoadError::Open { .. }) => false,
                },
            },
    {
        match read {
            Err(cause) => Err(LoadError::Open { path: path.to_owned(), cause }),
            Ok(text) => match Options::from_toml_str(&text) {
                Ok(o) => Ok(o),
                Err(e) => Err(LoadError::Parse(e)),
            },
        }
    }
}

} // verus!
