//! Properties of loading that relate the schema, the document and the result.
use vstd::prelude::*;

use crate::document::parsed_document;
use crate::loader::{
    document_outcome, float_at, int_at, options_fault, options_of, sub_table, text_at,
    text_outcome, Entries, Fault, OptionsView,
};
use crate::schema::{empty_system_vars, DEFAULT_MAX_LUT_I16_ENTRIES};

verus! {

/// A key that the schema requires in one of the required tables.
pub open spec fn required_key(table: Seq<char>, key: Seq<char>) -> bool {
    (table == "clock"@ && key == "clock_period_ns"@)
        || (table == "clock"@ && key == "min_rf_clocks_per_sample"@)
        || (table == "clock"@ && key == "min_grad_clocks_per_sample"@)
        || (table == "clock"@ && key == "min_delay_clocks"@)
        || (table == "event_timing"@ && key == "rf_schedule_delay_clocks"@)
        || (table == "event_timing"@ && key == "rf_lag_clocks"@)
        || (table == "event_timing"@ && key == "rf_return_delay_clocks"@)
        || (table == "event_timing"@ && key == "grad_sched_delay_clocks"@)
        || (table == "event_timing"@ && key == "grad_ret_delay_clocks"@)
        || (table == "event_timing"@ && key == "acq_sched_delay_clocks"@)
        || (table == "event_timing"@ && key == "acq_lag_clocks"@)
        || (table == "event_timing"@ && key == "acq_return_delay_clocks_1"@)
        || (table == "event_timing"@ && key == "acq_return_delay_clocks_2"@)
        || (table == "dac"@ && key == "dac_rf_max"@)
        || (table == "dac"@ && key == "dac_grad_max"@)
        || (table == "dac"@ && key == "dac_phase_res_deg"@)
}

/// Every value of options read without fault is the one that the document
/// holds: integers neither converted nor cut, floats and paths as they are.
pub proof fn lemma_values_carried_over(doc: Entries)
    requires
        options_fault(doc) is None,
    ensures
        options_of(doc).clock.clock_period_ns as int
            == int_at(sub_table(doc, "clock"@), "clock_period_ns"@),
        options_of(doc).clock.min_rf_clocks_per_sample as int
            == int_at(sub_table(doc, "clock"@), "min_rf_clocks_per_sample"@),
        options_of(doc).clock.min_grad_clocks_per_sample as int
            == int_at(sub_table(doc, "clock"@), "min_grad_clocks_per_sample"@),
        options_of(doc).clock.min_delay_clocks as int
            == int_at(sub_table(doc, "clock"@), "min_delay_clocks"@),
        options_of(doc).event_timing.rf_schedule_delay_clocks as int
            == int_at(sub_table(doc, "event_timing"@), "rf_schedule_delay_clocks"@),
        options_of(doc).event_timing.rf_lag_clocks as int
            == int_at(sub_table(doc, "event_timing"@), "rf_lag_clocks"@),
        options_of(doc).event_timing.rf_return_delay_clocks as int
            == int_at(sub_table(doc, "event_timing"@), "rf_return_delay_clocks"@),
        options_of(doc).event_timing.grad_sched_delay_clocks as int
            == int_at(sub_table(doc, "event_timing"@), "grad_sched_delay_clocks"@),
        options_of(doc).event_timing.grad_ret_delay_clocks as int
            == int_at(sub_table(doc, "event_timing"@), "grad_ret_delay_clocks"@),
        options_of(doc).event_timing.acq_sched_delay_clocks as int
            == int_at(sub_table(doc, "event_timing"@), "acq_sched_delay_clocks"@),
        options_of(doc).event_timing.acq_lag_clocks as int
            == int_at(sub_table(doc, "event_timing"@), "acq_lag_clocks"@),
        options_of(doc).event_timing.acq_return_delay_clocks_1 as int
            == int_at(sub_table(doc, "event_timing"@), "acq_return_delay_clocks_1"@),
        options_of(doc).event_timing.acq_return_delay_clocks_2 as int
            == int_at(sub_table(doc, "event_timing"@), "acq_return_delay_clocks_2"@),
        options_of(doc).dac.dac_rf_max as int
            == int_at(sub_table(doc, "dac"@), "dac_rf_max"@),
        options_of(doc).dac.dac_grad_max as int
            == int_at(sub_table(doc, "dac"@), "dac_grad_max"@),
        doc.contains_key("limits"@) ==> options_of(doc).limits.max_lut_i16_entries as int
            == int_at(sub_table(doc, "limits"@), "max_lut_i16_entries"@),
        options_of(doc).dac.dac_phase_res_deg_bits == float_at(
            sub_table(doc, "dac"@),
            "dac_phase_res_deg"@,
        ),
        doc.contains_key("system_vars"@) ==> options_of(doc).system_vars.parfilio_path
            == text_at(sub_table(doc, "system_vars"@), "parfilio_path"@),
        doc.contains_key("system_vars"@) ==> options_of(doc).system_vars.seq_gen_path
            == text_at(sub_table(doc, "system_vars"@), "seq_gen_path"@),
        doc.contains_key("system_vars"@) ==> options_of(doc).system_vars.ppl_compiler_path
            == text_at(sub_table(doc, "system_vars"@), "ppl_compiler_path"@),
        doc.contains_key("system_vars"@) ==> options_of(doc).system_vars.seq_gen_rf_template
            == text_at(sub_table(doc, "system_vars"@), "seq_gen_rf_template"@),
        doc.contains_key("system_vars"@) ==> options_of(doc).system_vars.seq_gen_grad_template
            == text_at(sub_table(doc, "system_vars"@), "seq_gen_grad_template"@),
{
}

/// A document without a `system_vars` table gives empty paths, and one
/// without a `limits` table gives the default lookup-table ceiling.
pub proof fn lemma_absent_tables_default(doc: Entries)
    ensures
        !doc.contains_key("system_vars"@) ==> options_of(doc).system_vars
            == empty_system_vars(),
        !doc.contains_key("limits"@) ==> options_of(doc).limits.max_lut_i16_entries
            == DEFAULT_MAX_LUT_I16_ENTRIES,
{
}

/// A text that is no valid TOML fails to load with a syntax fault.
pub proof fn lemma_invalid_text_fails(text: Seq<char>)
    requires
        parsed_document(text) is None,
    ensures
        text_outcome(text) == Err::<OptionsView, Fault>(Fault::Syntax),
{
}

/// A required table that lacks a required key makes loading fail; no value is
/// put in its place.
pub proof fn lemma_missing_key_fails(doc: Entries, table: Seq<char>, key: Seq<char>)
    requires
        required_key(table, key),
        doc.contains_key(table),
        doc[table] is Table,
        !sub_table(doc, table).contains_key(key),
    ensures
        document_outcome(doc) is Err,
{
}

/// Loading the same text twice gives equal options.
pub proof fn lemma_load_deterministic(text: Seq<char>, a: OptionsView, b: OptionsView)
    requires
        text_outcome(text) == Ok::<OptionsView, Fault>(a),
        text_outcome(text) == Ok::<OptionsView, Fault>(b),
    ensures
        a == b,
{
}

} // verus!
