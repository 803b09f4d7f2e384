use usdt_impl::model::{BitWidth, DataType, Probe, Provider};
use usdt_impl::parse::parse_providers;

fn integer(signed: bool, width: BitWidth) -> DataType {
    DataType::Integer { signed, width }
}

fn sample() -> Provider {
    Provider {
        name: "does__it".to_string(),
        probes: vec![
            Probe {
                name: "work".to_string(),
                types: vec![integer(false, BitWidth::Bit8), DataType::CString],
            },
            Probe { name: "idle".to_string(), types: vec![] },
            Probe {
                name: "_all__of_them9".to_string(),
                types: vec![
                    integer(false, BitWidth::Bit8),
                    integer(false, BitWidth::Bit16),
                    integer(false, BitWidth::Bit32),
                    integer(false, BitWidth::Bit64),
                    integer(true, BitWidth::Bit8),
                    integer(true, BitWidth::Bit16),
                    integer(true, BitWidth::Bit32),
                    integer(true, BitWidth::Bit64),
                    DataType::CString,
                ],
            },
        ],
    }
}

#[test]
fn d_source_of_a_provider() {
    let provider = Provider {
        name: "does__it".to_string(),
        probes: vec![
            Probe {
                name: "work".to_string(),
                types: vec![integer(false, BitWidth::Bit8), DataType::CString],
            },
            Probe { name: "idle".to_string(), types: vec![] },
        ],
    };
    assert_eq!(
        provider.to_d_source(),
        "provider does__it {\n\tprobe work(uint8_t, char*);\n\tprobe idle();\n};\n"
    );
    assert_eq!(provider.probes[0].to_d_source(), "\tprobe work(uint8_t, char*);\n");
    let empty = Provider { name: "none".to_string(), probes: vec![] };
    assert_eq!(empty.to_d_source(), "provider none {\n};\n");
}

#[test]
fn parsing_inverts_writing() {
    let provider = sample();
    assert_eq!(parse_providers(&provider.to_d_source()), Ok(vec![provider]));
}

#[test]
fn parsing_inverts_writing_of_several_providers() {
    let first = sample();
    let second = Provider { name: "provider".to_string(), probes: vec![] };
    let third = Provider {
        name: "probe".to_string(),
        probes: vec![Probe { name: "char".to_string(), types: vec![DataType::CString] }],
    };
    let source =
        format!("{}{}{}", first.to_d_source(), second.to_d_source(), third.to_d_source());
    assert_eq!(parse_providers(&source), Ok(vec![first, second, third]));
}

#[test]
fn serialized_value_is_written_as_the_string_that_carries_it() {
    let provider = Provider {
        name: "test".to_string(),
        probes: vec![Probe {
            name: "stop".to_string(),
            types: vec![DataType::Serializable("crate::Arg".to_string())],
        }],
    };
    assert_eq!(provider.to_d_source(), "provider test {\n\tprobe stop(char*);\n};\n");
    let parsed = parse_providers(&provider.to_d_source()).unwrap();
    assert_eq!(parsed[0].probes[0].types, vec![DataType::CString]);
}
