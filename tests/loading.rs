use ppl_compile_opts::{
    Clock, EventTiming, Limits, LoadError, Options, ParseError, SystemVars,
    DEFAULT_MAX_LUT_I16_ENTRIES,
};

const SCENARIO: &str = "[clock]\nclock_period_ns=100\nmin_rf_clocks_per_sample=20\nmin_grad_clocks_per_sample=20\nmin_delay_clocks=20\n[event_timing]\nrf_schedule_delay_clocks=1300\nrf_lag_clocks=500\nrf_return_delay_clocks=50\ngrad_sched_delay_clocks=50\ngrad_ret_delay_clocks=50\nacq_sched_delay_clocks=1000\nacq_lag_clocks=880\nacq_return_delay_clocks_1=600\nacq_return_delay_clocks_2=600\n[dac]\ndac_rf_max=2047\ndac_grad_max=2047\ndac_phase_res_deg=0.02197\n";

const FULL: &str = r#"
[clock]
clock_period_ns = 10
min_rf_clocks_per_sample = 21
min_grad_clocks_per_sample = 22
min_delay_clocks = 23

[event_timing]
rf_schedule_delay_clocks = 1
rf_lag_clocks = 2
rf_return_delay_clocks = 3
grad_sched_delay_clocks = 4
grad_ret_delay_clocks = 5
acq_sched_delay_clocks = 6
acq_lag_clocks = 7
acq_return_delay_clocks_1 = 8
acq_return_delay_clocks_2 = 9

[dac]
dac_rf_max = -32768
dac_grad_max = 32767
dac_phase_res_deg = 1.5

[system_vars]
parfilio_path = "/opt/parfilio"
seq_gen_path = "/opt/seq_gen"
ppl_compiler_path = "C:/tools/ppl.exe"
seq_gen_rf_template = "rf.tmpl"
seq_gen_grad_template = "grad.tmpl"

[limits]
max_lut_i16_entries = 65536
"#;

fn parse_err(text: &str) -> ParseError {
    match Options::from_toml_str(text) {
        Ok(o) => panic!("expected a parse error, got {:?}", o),
        Err(e) => e,
    }
}

fn field(table: &str, key: &str) -> (String, String) {
    (table.to_string(), key.to_string())
}

#[test]
fn scenario_document_loads() {
    let o = Options::from_toml_str(SCENARIO).unwrap();
    assert_eq!(o.clock.clock_period_ns, 100);
    assert_eq!(o.dac.dac_rf_max, 2047);
    assert_eq!(o.dac.dac_grad_max, 2047);
    assert_eq!(f64::from_bits(o.dac.dac_phase_res_deg_bits), 0.02197);
    assert_eq!(o.system_vars, SystemVars::default());
    assert_eq!(o.system_vars.parfilio_path, "");
    assert_eq!(o.limits.max_lut_i16_entries, 196095);
    assert_eq!(o.clock, Clock::default());
    assert_eq!(o.event_timing, EventTiming::default());
}

#[test]
fn every_value_is_carried_over() {
    let o = Options::from_toml_str(FULL).unwrap();
    assert_eq!(
        o.clock,
        Clock {
            clock_period_ns: 10,
            min_rf_clocks_per_sample: 21,
            min_grad_clocks_per_sample: 22,
            min_delay_clocks: 23,
        }
    );
    assert_eq!(
        o.event_timing,
        EventTiming {
            rf_schedule_delay_clocks: 1,
            rf_lag_clocks: 2,
            rf_return_delay_clocks: 3,
            grad_sched_delay_clocks: 4,
            grad_ret_delay_clocks: 5,
            acq_sched_delay_clocks: 6,
            acq_lag_clocks: 7,
            acq_return_delay_clocks_1: 8,
            acq_return_delay_clocks_2: 9,
        }
    );
    assert_eq!(o.dac.dac_rf_max, -32768);
    assert_eq!(o.dac.dac_grad_max, 32767);
    assert_eq!(f64::from_bits(o.dac.dac_phase_res_deg_bits), 1.5);
    assert_eq!(o.system_vars.parfilio_path, "/opt/parfilio");
    assert_eq!(o.system_vars.seq_gen_path, "/opt/seq_gen");
    assert_eq!(o.system_vars.ppl_compiler_path, "C:/tools/ppl.exe");
    assert_eq!(o.system_vars.seq_gen_rf_template, "rf.tmpl");
    assert_eq!(o.system_vars.seq_gen_grad_template, "grad.tmpl");
    assert_eq!(o.limits, Limits { max_lut_i16_entries: 65536 });
}

#[test]
fn absent_optional_tables_take_defaults() {
    let o = Options::from_toml_str(SCENARIO).unwrap();
    assert_eq!(o.system_vars.seq_gen_path, "");
    assert_eq!(o.system_vars.ppl_compiler_path, "");
    assert_eq!(o.system_vars.seq_gen_rf_template, "");
    assert_eq!(o.system_vars.seq_gen_grad_template, "");
    assert_eq!(o.limits.max_lut_i16_entries, DEFAULT_MAX_LUT_I16_ENTRIES);
    let with_limits = format!("{}[limits]\nmax_lut_i16_entries = 7\n", SCENARIO);
    let o = Options::from_toml_str(&with_limits).unwrap();
    assert_eq!(o.limits.max_lut_i16_entries, 7);
    assert_eq!(o.system_vars, SystemVars::default());
}

#[test]
fn present_optional_table_is_read_in_full() {
    let text = format!("{}[system_vars]\nparfilio_path = \"p\"\n", SCENARIO);
    assert_eq!(
        parse_err(&text),
        ParseError::MissingField {
            table: "system_vars".to_string(),
            key: "seq_gen_path".to_string()
        }
    );
    let text = format!("{}[limits]\n", SCENARIO);
    let (table, key) = field("limits", "max_lut_i16_entries");
    assert_eq!(parse_err(&text), ParseError::MissingField { table, key });
}

#[test]
fn unreadable_file_is_an_open_error() {
    let path = "/nonexistent/ppl_compile_opts.toml";
    let r = Options::from_read(path, Err("No such file or directory".to_string()));
    assert_eq!(
        r,
        Err(LoadError::Open {
            path: path.to_string(),
            cause: "No such file or directory".to_string()
        })
    );
}

#[test]
fn read_text_is_parsed() {
    let r = Options::from_read("opts.toml", Ok(SCENARIO.to_string()));
    assert_eq!(r, Options::from_toml_str(SCENARIO).map_err(LoadError::Parse));
    let r = Options::from_read("opts.toml", Ok("[clock".to_string()));
    assert!(matches!(r, Err(LoadError::Parse(ParseError::Syntax(_)))));
}

#[test]
fn invalid_toml_is_a_syntax_error() {
    match parse_err("[clock\nclock_period_ns = 100") {
        ParseError::Syntax(msg) => assert!(!msg.is_empty()),
        e => panic!("expected a syntax error, got {:?}", e),
    }
    assert!(matches!(parse_err("a = = 1"), ParseError::Syntax(_)));
}

#[test]
fn missing_required_key_is_an_error() {
    let text = SCENARIO.replace("clock_period_ns=100\n", "");
    let (table, key) = field("clock", "clock_period_ns");
    assert_eq!(parse_err(&text), ParseError::MissingField { table, key });
    let text = SCENARIO.replace("acq_return_delay_clocks_2=600\n", "");
    let (table, key) = field("event_timing", "acq_return_delay_clocks_2");
    assert_eq!(parse_err(&text), ParseError::MissingField { table, key });
}

#[test]
fn missing_required_table_is_an_error() {
    let text = SCENARIO.split("[dac]").next().unwrap().to_string();
    assert_eq!(parse_err(&text), ParseError::MissingTable("dac".to_string()));
    assert_eq!(parse_err(""), ParseError::MissingTable("clock".to_string()));
}

#[test]
fn non_table_entry_is_an_error() {
    let text = format!("clock = 5\n{}", SCENARIO.replace("[clock]\n", "[other]\n"));
    assert_eq!(parse_err(&text), ParseError::NotATable("clock".to_string()));
    let text = format!("limits = \"big\"\n{}", SCENARIO);
    assert_eq!(parse_err(&text), ParseError::NotATable("limits".to_string()));
}

#[test]
fn wrong_value_type_is_an_error() {
    let text = SCENARIO.replace("rf_lag_clocks=500", "rf_lag_clocks=\"500\"");
    let (table, key) = field("event_timing", "rf_lag_clocks");
    assert_eq!(parse_err(&text), ParseError::WrongType { table, key });
    let text = SCENARIO.replace("dac_phase_res_deg=0.02197", "dac_phase_res_deg=1");
    let (table, key) = field("dac", "dac_phase_res_deg");
    assert_eq!(parse_err(&text), ParseError::WrongType { table, key });
    let text = format!("{}[system_vars]\nparfilio_path = 3\n", SCENARIO);
    let (table, key) = field("system_vars", "parfilio_path");
    assert_eq!(parse_err(&text), ParseError::WrongType { table, key });
}

#[test]
fn out_of_range_integer_is_an_error() {
    let text = SCENARIO.replace("min_delay_clocks=20", "min_delay_clocks=-1");
    let (table, key) = field("clock", "min_delay_clocks");
    assert_eq!(parse_err(&text), ParseError::OutOfRange { table, key });
    let text = SCENARIO.replace("dac_grad_max=2047", "dac_grad_max=2147483648");
    let (table, key) = field("dac", "dac_grad_max");
    assert_eq!(parse_err(&text), ParseError::OutOfRange { table, key });
    let text = SCENARIO.replace("dac_rf_max=2047", "dac_rf_max=-2147483648");
    assert_eq!(Options::from_toml_str(&text).unwrap().dac.dac_rf_max, i32::MIN);
}

#[test]
fn first_fault_in_schema_order_is_reported() {
    let text = SCENARIO
        .replace("clock_period_ns=100", "clock_period_ns=true")
        .replace("[dac]", "[dacs]");
    let (table, key) = field("clock", "clock_period_ns");
    assert_eq!(parse_err(&text), ParseError::WrongType { table, key });
}

#[test]
fn unknown_keys_are_ignored() {
    let text = format!("title = \"x\"\n{}extra = 1\n[other]\nk = 2\n", SCENARIO);
    let o = Options::from_toml_str(&text).unwrap();
    assert_eq!(o, Options::from_toml_str(SCENARIO).unwrap());
}

#[test]
fn inline_tables_are_tables() {
    let text = SCENARIO.replace(
        "[clock]\nclock_period_ns=100\nmin_rf_clocks_per_sample=20\nmin_grad_clocks_per_sample=20\nmin_delay_clocks=20\n",
        "clock = { clock_period_ns = 100, min_rf_clocks_per_sample = 20, min_grad_clocks_per_sample = 20, min_delay_clocks = 20 }\n",
    );
    assert_eq!(Options::from_toml_str(&text).unwrap().clock.clock_period_ns, 100);
}

#[test]
fn loading_twice_gives_equal_options() {
    let a = Options::from_toml_str(FULL).unwrap();
    let b = Options::from_toml_str(FULL).unwrap();
    assert_eq!(a, b);
    let a = Options::from_read("f.toml", Ok(SCENARIO.to_string())).unwrap();
    let b = Options::from_read("f.toml", Ok(SCENARIO.to_string())).unwrap();
    assert_eq!(a, b);
}

#[test]
fn reads_from_a_parsed_table() {
    let doc: toml::Table = FULL.parse().unwrap();
    let o = Options::from_table(&doc).unwrap();
    assert_eq!(o, Options::from_toml_str(FULL).unwrap());
    let clock: &toml::Table = doc["clock"].as_table().unwrap();
    assert_eq!(Clock::from_table(clock).unwrap().min_delay_clocks, 23);
    let dac: &toml::Table = doc["dac"].as_table().unwrap();
    let (table, key) = field("clock", "clock_period_ns");
    assert_eq!(Clock::from_table(dac), Err(ParseError::MissingField { table, key }));
}

#[test]
fn built_in_defaults() {
    assert_eq!(
        Clock::default(),
        Clock {
            clock_period_ns: 100,
            min_rf_clocks_per_sample: 20,
            min_grad_clocks_per_sample: 20,
            min_delay_clocks: 20,
        }
    );
    let e = EventTiming::default();
    assert_eq!(e.rf_schedule_delay_clocks, 1300);
    assert_eq!(e.rf_lag_clocks, 500);
    assert_eq!(e.rf_return_delay_clocks, 50);
    assert_eq!(e.grad_sched_delay_clocks, 50);
    assert_eq!(e.grad_ret_delay_clocks, 50);
    assert_eq!(e.acq_sched_delay_clocks, 1000);
    assert_eq!(e.acq_lag_clocks, 880);
    assert_eq!(e.acq_return_delay_clocks_1, 600);
    assert_eq!(e.acq_return_delay_clocks_2, 600);
    assert_eq!(Limits::default().max_lut_i16_entries, 196095);
    assert_eq!(SystemVars::default().seq_gen_grad_template, "");
}
