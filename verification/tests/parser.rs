use usdt_impl::model::{BitWidth, DataType, Error, Probe, Provider};
use usdt_impl::parse::{native_type_of, parse_providers, Reader, Token};
use usdt_impl::grammar::{Fault, Phase};

fn integer(signed: bool, width: BitWidth) -> DataType {
    DataType::Integer { signed, width }
}

fn probe(name: &str, types: Vec<DataType>) -> Probe {
    Probe { name: name.to_string(), types }
}

fn provider(name: &str, probes: Vec<Probe>) -> Provider {
    Provider { name: name.to_string(), probes }
}

#[test]
fn parses_one_provider_with_one_probe() {
    let parsed = parse_providers("provider test { probe start(uint8_t); };");
    let expected =
        vec![provider("test", vec![probe("start", vec![integer(false, BitWidth::Bit8)])])];
    assert_eq!(parsed, Ok(expected));
}

#[test]
fn parses_every_type_name() {
    let source = "provider all {
        probe unsigned(uint8_t, uint16_t, uint32_t, uint64_t);
        probe signed(int8_t, int16_t, int32_t, int64_t);
        probe text(char *, char*, string, char
            *);
    };";
    let expected = vec![provider(
        "all",
        vec![
            probe(
                "unsigned",
                vec![
                    integer(false, BitWidth::Bit8),
                    integer(false, BitWidth::Bit16),
                    integer(false, BitWidth::Bit32),
                    integer(false, BitWidth::Bit64),
                ],
            ),
            probe(
                "signed",
                vec![
                    integer(true, BitWidth::Bit8),
                    integer(true, BitWidth::Bit16),
                    integer(true, BitWidth::Bit32),
                    integer(true, BitWidth::Bit64),
                ],
            ),
            probe(
                "text",
                vec![DataType::CString, DataType::CString, DataType::CString, DataType::CString],
            ),
        ],
    )];
    assert_eq!(parse_providers(source), Ok(expected));
}

#[test]
fn keeps_declaration_order() {
    let source = "provider b { probe z(); probe a(int8_t, uint8_t); probe m(); };
                  provider a { };";
    let parsed = parse_providers(source).unwrap();
    assert_eq!(parsed.len(), 2);
    assert_eq!(parsed[0].name, "b");
    assert_eq!(parsed[1].name, "a");
    let names: Vec<&str> = parsed[0].probes.iter().map(|p| p.name.as_str()).collect();
    assert_eq!(names, vec!["z", "a", "m"]);
    assert_eq!(
        parsed[0].probes[1].types,
        vec![integer(true, BitWidth::Bit8), integer(false, BitWidth::Bit8)]
    );
    assert!(parsed[1].probes.is_empty());
}

#[test]
fn probe_without_parameters_is_valid() {
    let parsed = parse_providers("provider p{probe q();};").unwrap();
    assert_eq!(parsed, vec![provider("p", vec![probe("q", vec![])])]);
}

#[test]
fn empty_source_describes_no_provider() {
    assert_eq!(parse_providers(""), Ok(vec![]));
    assert_eq!(parse_providers(" \n\t\r\n"), Ok(vec![]));
}

#[test]
fn keywords_may_serve_as_names() {
    let parsed = parse_providers("provider provider { probe probe(); probe char(); };").unwrap();
    assert_eq!(
        parsed,
        vec![provider("provider", vec![probe("probe", vec![]), probe("char", vec![])])]
    );
}

#[test]
fn duplicate_probe_names_are_no_matter_of_syntax() {
    let parsed = parse_providers("provider p { probe a(); probe a(); };").unwrap();
    assert_eq!(parsed[0].probes.len(), 2);
}

#[test]
fn missing_semicolon_is_reported_at_the_next_token() {
    let source = "provider p {\n  probe a(uint8_t)\n};";
    assert_eq!(
        parse_providers(source),
        Err(Error::Parse { line: 3, token: "}".to_string() })
    );
}

#[test]
fn source_that_ends_early_is_reported_at_its_end() {
    assert_eq!(
        parse_providers("provider p {"),
        Err(Error::Parse { line: 1, token: String::new() })
    );
    assert_eq!(
        parse_providers("provider p {\n probe a();\n}\n\n"),
        Err(Error::Parse { line: 5, token: String::new() })
    );
    assert_eq!(
        parse_providers("provider"),
        Err(Error::Parse { line: 1, token: String::new() })
    );
}

#[test]
fn unknown_character_is_reported() {
    assert_eq!(
        parse_providers("provider p { };\n\n  @"),
        Err(Error::Parse { line: 3, token: "@".to_string() })
    );
    assert_eq!(
        parse_providers("provider p { probe a(uint8_t\u{e9}); };"),
        Err(Error::Parse { line: 1, token: "\u{e9}".to_string() })
    );
}

#[test]
fn name_must_be_an_identifier() {
    assert_eq!(
        parse_providers("provider 9p { };"),
        Err(Error::Parse { line: 1, token: "9p".to_string() })
    );
    assert_eq!(
        parse_providers("provider p {\n\n probe 1st(); };"),
        Err(Error::Parse { line: 3, token: "1st".to_string() })
    );
    assert_eq!(
        parse_providers("provider { };"),
        Err(Error::Parse { line: 1, token: "{".to_string() })
    );
}

#[test]
fn text_outside_a_provider_is_refused() {
    assert_eq!(
        parse_providers("probe a();"),
        Err(Error::Parse { line: 1, token: "probe".to_string() })
    );
    assert_eq!(
        parse_providers("provider p { }; ;"),
        Err(Error::Parse { line: 1, token: ";".to_string() })
    );
}

#[test]
fn unknown_type_is_reported_with_its_line() {
    assert_eq!(
        parse_providers("provider p {\n probe a(uint8_t,\n float);\n};"),
        Err(Error::UnknownType { line: 3, name: "float".to_string() })
    );
    assert_eq!(
        parse_providers("provider p { probe a(uint128_t); };"),
        Err(Error::UnknownType { line: 1, name: "uint128_t".to_string() })
    );
    assert_eq!(
        parse_providers("provider p { probe a(Uint8_t); };"),
        Err(Error::UnknownType { line: 1, name: "Uint8_t".to_string() })
    );
}

#[test]
fn char_needs_its_star() {
    assert_eq!(
        parse_providers("provider p { probe a(char); };"),
        Err(Error::Parse { line: 1, token: ")".to_string() })
    );
    assert_eq!(
        parse_providers("provider p { probe a(*); };"),
        Err(Error::Parse { line: 1, token: "*".to_string() })
    );
    assert_eq!(
        parse_providers("provider p { probe a(uint8_t *); };"),
        Err(Error::Parse { line: 1, token: "*".to_string() })
    );
}

#[test]
fn commas_separate_and_do_not_trail() {
    assert_eq!(
        parse_providers("provider p { probe a(uint8_t,); };"),
        Err(Error::Parse { line: 1, token: ")".to_string() })
    );
    assert_eq!(
        parse_providers("provider p { probe a(,uint8_t); };"),
        Err(Error::Parse { line: 1, token: ",".to_string() })
    );
    assert_eq!(
        parse_providers("provider p { probe a(uint8_t uint8_t); };"),
        Err(Error::Parse { line: 1, token: "uint8_t".to_string() })
    );
}

#[test]
fn first_error_wins() {
    assert_eq!(
        parse_providers("provider p { probe a(float) probe b(double); };"),
        Err(Error::UnknownType { line: 1, name: "float".to_string() })
    );
}

#[test]
fn native_types_by_name() {
    assert_eq!(native_type_of(&"uint16_t".to_string()), Some(integer(false, BitWidth::Bit16)));
    assert_eq!(native_type_of(&"int64_t".to_string()), Some(integer(true, BitWidth::Bit64)));
    assert_eq!(native_type_of(&"string".to_string()), Some(DataType::CString));
    assert_eq!(native_type_of(&"char".to_string()), None);
    assert_eq!(native_type_of(&"".to_string()), None);
}

#[test]
fn reader_steps_through_a_probe() {
    let mut reader = Reader::new();
    assert_eq!(reader.phase, Phase::Top);
    let input = vec![
        Token::Word("provider".to_string()),
        Token::Word("p".to_string()),
        Token::OpenBrace,
        Token::Word("probe".to_string()),
        Token::Word("q".to_string()),
        Token::OpenParen,
        Token::Word("char".to_string()),
        Token::Star,
        Token::CloseParen,
        Token::Semicolon,
    ];
    let phases = vec![
        Phase::ProviderName,
        Phase::ProviderOpen,
        Phase::Body,
        Phase::ProbeName,
        Phase::ProbeOpen,
        Phase::FirstType,
        Phase::Pointer,
        Phase::AfterType,
        Phase::ProbeEnd,
        Phase::Body,
    ];
    for (token, phase) in input.iter().zip(phases) {
        reader = match reader.read(token) {
            Ok(next) => next,
            Err(fault) => panic!("{:?} at {:?}", fault, token),
        };
        assert_eq!(reader.phase, phase);
    }
    assert_eq!(reader.provider, "p");
    assert_eq!(reader.probes, vec![probe("q", vec![DataType::CString])]);
    assert!(reader.types.is_empty());
    assert!(matches!(reader.read(&Token::Comma), Err(Fault::Syntax)));
}

#[test]
fn reader_tells_unknown_types_from_bad_syntax() {
    let mut reader = Reader::new();
    for token in [
        Token::Word("provider".to_string()),
        Token::Word("p".to_string()),
        Token::OpenBrace,
        Token::Word("probe".to_string()),
        Token::Word("q".to_string()),
        Token::OpenParen,
    ] {
        reader = match reader.read(&token) {
            Ok(next) => next,
            Err(fault) => panic!("{:?}", fault),
        };
    }
    assert!(matches!(reader.read(&Token::Word("float".to_string())), Err(Fault::UnknownType)));
}
