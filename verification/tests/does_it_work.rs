use usdt_impl::record::{emit_isenabled_probe_record, emit_probe_record};
use usdt_impl::{
    compile_provider_source, register_probes, CompileProvidersConfig, DataType, Provider,
};

/// The strings of a note's descriptor, in order: what a reader of notes shows
/// as provider, name and arguments.
fn descriptor(record: &str) -> Vec<String> {
    record
        .lines()
        .filter_map(|line| line.trim().strip_prefix(".asciz \""))
        .map(|rest| rest[..rest.find('"').unwrap()].to_string())
        .skip(1)
        .collect()
}

fn does_it() -> Provider {
    let parsed =
        usdt_impl::parse::parse_providers("provider does__it { probe work(uint8_t, char*); };");
    parsed.unwrap().remove(0)
}

#[test]
fn test_does_it_work_stapsdt() {
    register_probes().unwrap();
    let provider = does_it();
    let probe = &provider.probes[0];
    let record = emit_probe_record(&provider.name, &probe.name, Some(&probe.types)).unwrap();
    let fields = descriptor(&record);
    assert_eq!(fields.len(), 3);

    let provider_name = &fields[0];
    assert_eq!(provider_name, "does__it", "Provider name appears incorrect: {}", provider_name);
    let name = &fields[1];
    assert_eq!(name, "work", "Probe name appears incorrect: {}", name);

    let mut parts = fields[2].split_whitespace();
    let first = parts.next().expect("Expected the first argument description").trim();
    assert_eq!(first, "1@%dil", "Argument is incorrect: {}", first);
    let second = parts.next().expect("Expected the second argument description").trim();
    assert_eq!(second, "8@%rsi", "Argument is incorrect: {}", second);
    assert_eq!(parts.next(), None);
}

#[test]
fn is_enabled_note_has_the_names_and_no_arguments() {
    let provider = does_it();
    let record = emit_isenabled_probe_record(&provider.name, &provider.probes[0].name);
    assert_eq!(descriptor(&record), vec!["does__it", "work", ""]);
}

#[test]
fn default_configuration_names_after_the_provider() {
    let config = CompileProvidersConfig::default();
    assert_eq!(
        config,
        CompileProvidersConfig { provider: None, probe_format: None, module: None }
    );
    let tokens = compile_provider_source(&does_it().to_d_source(), &config).unwrap();
    assert!(tokens.to_string().starts_with("pub (crate) mod does__it"));
    assert_eq!(does_it().probes[0].types[1], DataType::CString);
}
