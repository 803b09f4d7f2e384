use proc_macro2::{TokenStream, TokenTree};
use usdt_impl::compile::{
    compile_provider_from_definition, compile_provider_source, providers_source,
    register_probes, tokens_or_error,
};
use usdt_impl::marshal::construct_probe_args;
use usdt_impl::model::{BitWidth, CompileProvidersConfig, DataType, Error, Probe, Provider};
use usdt_impl::record::{emit_isenabled_probe_record, emit_probe_record};
use usdt_impl::synth::{
    build_probe_macro, compile_probe, compile_provider, construct_type_check,
};
use usdt_impl::text::quote_string;
use usdt_impl::validate::check_provider;

fn plain() -> CompileProvidersConfig {
    CompileProvidersConfig { provider: None, probe_format: None, module: None }
}

fn byte() -> DataType {
    DataType::Integer { signed: false, width: BitWidth::Bit8 }
}

fn probe(name: &str, types: Vec<DataType>) -> Probe {
    Probe { name: name.to_string(), types }
}

fn provider(name: &str, probes: Vec<Probe>) -> Provider {
    Provider { name: name.to_string(), probes }
}

fn literals(tokens: TokenStream, found: &mut Vec<String>) {
    for tree in tokens {
        match tree {
            TokenTree::Group(group) => literals(group.stream(), found),
            TokenTree::Literal(literal) => found.push(literal.to_string()),
            _ => {}
        }
    }
}

fn idents(tokens: TokenStream, found: &mut Vec<String>) {
    for tree in tokens {
        match tree {
            TokenTree::Group(group) => idents(group.stream(), found),
            TokenTree::Ident(ident) => found.push(ident.to_string()),
            _ => {}
        }
    }
}

#[test]
fn marshaller_binds_each_parameter_to_its_register() {
    let types = [byte(), DataType::CString, DataType::Serializable("crate::Arg".to_string())];
    let (unpacked, inputs) = construct_probe_args("stop", &types).unwrap();
    assert_eq!(
        unpacked,
        "let arg_0 = (*<_ as ::std::borrow::Borrow<u8>>::borrow(&args.0) as usize);\n\
         let arg_1 = ::usdt_impl::runtime::c_string(::std::convert::AsRef::<str>::as_ref(&args.1));\n\
         let arg_2 = ::usdt_impl::runtime::c_string(&::usdt_impl::runtime::json_argument(::serde_json::to_string(&args.2).map_err(|e| e.to_string())));\n"
    );
    assert_eq!(
        inputs,
        "in(\"rdi\") (arg_0),\nin(\"rsi\") (arg_1.as_ptr() as usize),\nin(\"rdx\") (arg_2.as_ptr() as usize),\n"
    );
}

#[test]
fn marshaller_wraps_a_single_argument_in_a_tuple() {
    let (unpacked, inputs) = construct_probe_args("start", &[byte()]).unwrap();
    assert_eq!(
        unpacked,
        "let args = (args,);\n\
         let arg_0 = (*<_ as ::std::borrow::Borrow<u8>>::borrow(&args.0) as usize);\n"
    );
    assert_eq!(inputs, "in(\"rdi\") (arg_0),\n");
    let none: [DataType; 0] = [];
    assert_eq!(construct_probe_args("idle", &none), Ok((String::new(), String::new())));
}

#[test]
fn marshaller_uses_all_six_registers_in_order() {
    let types = vec![byte(); 6];
    let (unpacked, inputs) = construct_probe_args("stop", &types).unwrap();
    let registers = ["rdi", "rsi", "rdx", "rcx", "r8", "r9"];
    let mut expected = String::new();
    for (i, register) in registers.iter().enumerate() {
        expected.push_str(&format!("in(\"{}\") (arg_{}),\n", register, i));
        assert_eq!(unpacked.matches(&format!("let arg_{} = ", i)).count(), 1);
        assert_eq!(unpacked.matches(&format!("(&args.{})", i)).count(), 1);
    }
    assert_eq!(inputs, expected);
}

#[test]
fn type_check_names_each_parameter_type() {
    let types = [byte(), DataType::CString, DataType::Serializable("crate::Arg".to_string())];
    assert_eq!(
        construct_type_check("test", "stop", &types),
        "#[allow(non_snake_case)]\n\
         fn __usdt_private_test_stop_type_check(_: impl ::std::borrow::Borrow<u8>, _: impl ::std::convert::AsRef<str>, _: impl ::std::borrow::Borrow<crate::Arg>, ) { }\n\
         let _ = || {\n\
         let args = $args_lambda();\n\
         __usdt_private_test_stop_type_check(args.0, args.1, args.2, );\n\
         };\n"
    );
    assert_eq!(
        construct_type_check("test", "start", &[byte()]),
        "#[allow(non_snake_case)]\n\
         fn __usdt_private_test_start_type_check(_: impl ::std::borrow::Borrow<u8>, ) { }\n\
         let _ = || {\n\
         let args = ($args_lambda(),);\n\
         __usdt_private_test_start_type_check(args.0, );\n\
         };\n"
    );
    let none: [DataType; 0] = [];
    assert_eq!(
        construct_type_check("test", "idle", &none),
        "#[allow(non_snake_case)]\n\
         fn __usdt_private_test_idle_type_check() { }\n\
         let _ = || {\n\
         let _: () = $args_lambda();\n\
         };\n"
    );
}

#[test]
fn macro_is_built_around_the_entry_block() {
    let test = provider("test", vec![]);
    let text = build_probe_macro(&plain(), &test, "start", &[byte()], "BLOCK\n".to_string());
    let check = construct_type_check("test", "start", &[byte()]);
    assert_eq!(
        text,
        format!(
            "#[allow(unused_macros)]\nmacro_rules! start {{\n\
             ($tree:tt) => {{\n\
             compile_error!(\"USDT probe macros should be invoked with a closure returning the arguments\");\n\
             }};\n\
             ($args_lambda:expr) => {{\n{{\n{}BLOCK\n}}\n}};\n}}\n\
             #[allow(unused_imports)]\npub(crate) use start;\n",
            check
        )
    );
}

#[test]
fn macro_of_a_probe_without_parameters_can_be_fired_bare() {
    let test = provider("test", vec![]);
    let none: [DataType; 0] = [];
    let text = build_probe_macro(&plain(), &test, "idle", &none, String::new());
    assert!(text.starts_with(
        "#[allow(unused_macros)]\nmacro_rules! idle {\n() => { crate::test::idle!(|| ()) };\n($tree:tt)"
    ));
    let with = build_probe_macro(&plain(), &test, "start", &[byte()], String::new());
    assert!(!with.contains("() => { crate::"));
}

#[test]
fn probe_macro_carries_both_records_as_literals() {
    let test = provider("does__it", vec![]);
    let work = probe("really__work", vec![byte(), DataType::CString]);
    let text = compile_probe(&test, &work, &plain()).unwrap();
    let enabled = quote_string(&emit_isenabled_probe_record("does__it", "really__work"));
    let firing =
        quote_string(&emit_probe_record("does__it", "really__work", Some(&work.types)).unwrap());
    assert_eq!(text.matches(&enabled).count(), 1);
    assert_eq!(text.matches(&firing).count(), 1);
    assert_eq!(text.matches("\"990:   nop\",\n").count(), 2);
    assert_eq!(text.matches("options(nomem, nostack, preserves_flags)").count(), 2);
    assert_eq!(text.matches("static __usdt_sema_does__it_really__work: UsdtSema;").count(), 1);
    assert!(text.contains(
        "is_enabled = ::core::ptr::addr_of!(__usdt_sema_does__it_really__work.is_active).read_volatile();"
    ));
    assert!(text.contains("struct UsdtSema { is_active: u16 }"));
    let check = text.find(&enabled).unwrap();
    let load = text.find("read_volatile").unwrap();
    let test_at = text.find("evaluate_if_enabled(is_enabled, $args_lambda)").unwrap();
    let unpack = text.find("let arg_0 = ").unwrap();
    let fire = text.find(&firing).unwrap();
    assert!(check < load && load < test_at && test_at < unpack && unpack < fire);
}

#[test]
fn module_holds_the_macros_in_declared_order() {
    let test = provider("test", vec![probe("b", vec![]), probe("a", vec![byte()])]);
    let text = compile_provider(&test, &plain()).unwrap();
    let b = compile_probe(&test, &test.probes[0], &plain()).unwrap();
    let a = compile_probe(&test, &test.probes[1], &plain()).unwrap();
    assert_eq!(text, format!("pub(crate) mod test {{\n{}{}}}\n", b, a));
    let empty = provider("none", vec![]);
    assert_eq!(compile_provider(&empty, &plain()), Ok("pub(crate) mod none {\n}\n".to_string()));
}

#[test]
fn module_and_macro_names_follow_the_configuration() {
    let test = provider("test", vec![probe("start", vec![byte()])]);
    assert_eq!(plain().module_name("test"), "test");
    assert_eq!(plain().format_probe("test", "start"), "start");
    let config = CompileProvidersConfig {
        provider: Some("other".to_string()),
        probe_format: Some("{provider}_{probe}_{probe}".to_string()),
        module: None,
    };
    assert_eq!(config.module_name("test"), "other");
    assert_eq!(config.format_probe("test", "start"), "other_start_start");
    let config = CompileProvidersConfig {
        provider: None,
        probe_format: Some("{provider}_{probe}".to_string()),
        module: Some("probes".to_string()),
    };
    assert_eq!(config.module_name("test"), "probes");
    assert_eq!(config.format_probe("test", "start"), "test_start");
    let text = compile_provider(&test, &config).unwrap();
    assert!(text.starts_with("pub(crate) mod probes {\n#[allow(unused_macros)]\nmacro_rules! test_start {\n"));
    assert!(text.ends_with("pub(crate) use test_start;\n}\n"));
    assert!(text.contains("__usdt_sema_test_start"));
    assert!(text.contains("fn __usdt_private_test_start_type_check("));
}

#[test]
fn seven_parameters_are_refused() {
    let big = provider("test", vec![probe("ok", vec![byte(); 6]), probe("big", vec![byte(); 7])]);
    let expected = Error::UnsupportedArity { probe: "big".to_string(), count: 7 };
    assert_eq!(check_provider(&big, &plain()), Err(expected.clone()));
    assert_eq!(compile_provider(&big, &plain()), Err(expected.clone()));
    assert_eq!(compile_provider_from_definition(&big, &plain()).err(), Some(expected.clone()));
    let source = "provider test {
        probe big(uint8_t, uint8_t, uint8_t, uint8_t, uint8_t, uint8_t, uint8_t);
    };";
    assert_eq!(providers_source(source, &plain()), Err(expected.clone()));
    assert_eq!(compile_provider_source(source, &plain()).err(), Some(expected));
}

#[test]
fn seven_parameters_are_refused_at_every_level() {
    let test = provider("test", vec![]);
    let big = probe("big", vec![byte(); 7]);
    let expected = Error::UnsupportedArity { probe: "big".to_string(), count: 7 };
    assert_eq!(compile_probe(&test, &big, &plain()), Err(expected.clone()));
    assert_eq!(construct_probe_args("big", &big.types), Err(expected.clone()));
    let holder = provider("test", vec![probe("ok", vec![]), big]);
    assert_eq!(compile_provider(&holder, &plain()), Err(expected));
    let nine = probe("nine", vec![DataType::CString; 9]);
    assert_eq!(
        compile_probe(&test, &nine, &plain()),
        Err(Error::UnsupportedArity { probe: "nine".to_string(), count: 9 })
    );
}

#[test]
fn provider_is_checked_before_anything_is_made() {
    let twice = provider("test", vec![probe("a", vec![]), probe("a", vec![])]);
    assert_eq!(
        compile_provider(&twice, &plain()),
        Err(Error::DuplicateProbe { probe: "a".to_string() })
    );
    let named = provider("bad name", vec![]);
    assert_eq!(
        compile_provider(&named, &plain()),
        Err(Error::InvalidName { name: "bad name".to_string() })
    );
}

#[test]
fn six_parameters_are_compiled() {
    let six = provider("test", vec![probe("six", vec![byte(); 6])]);
    assert_eq!(check_provider(&six, &plain()), Ok(()));
    assert!(compile_provider_from_definition(&six, &plain()).is_ok());
}

#[test]
fn duplicate_probe_is_refused() {
    let twice = provider(
        "test",
        vec![probe("a", vec![]), probe("b", vec![]), probe("a", vec![byte()])],
    );
    let expected = Error::DuplicateProbe { probe: "a".to_string() };
    assert_eq!(check_provider(&twice, &plain()), Err(expected.clone()));
    assert_eq!(
        providers_source("provider p { probe a(); probe a(); };", &plain()),
        Err(expected)
    );
}

#[test]
fn names_must_be_identifiers() {
    let invalid = |name: &str| Err(Error::InvalidName { name: name.to_string() });
    assert_eq!(check_provider(&provider("bad-name", vec![]), &plain()), invalid("bad-name"));
    assert_eq!(check_provider(&provider("", vec![]), &plain()), invalid(""));
    assert_eq!(
        check_provider(&provider("p", vec![probe("1st", vec![])]), &plain()),
        invalid("1st")
    );
    let module = CompileProvidersConfig {
        provider: None,
        probe_format: None,
        module: Some("9mod".to_string()),
    };
    assert_eq!(check_provider(&provider("p", vec![]), &module), invalid("9mod"));
    let format = CompileProvidersConfig {
        provider: None,
        probe_format: Some("{provider}-{probe}".to_string()),
        module: None,
    };
    assert_eq!(
        check_provider(&provider("p", vec![probe("q", vec![])]), &format),
        invalid("p-q")
    );
}

#[test]
fn first_breach_is_named() {
    let both = provider(
        "p",
        vec![probe("a", vec![]), probe("a", vec![byte(); 7]), probe("bad name", vec![])],
    );
    assert_eq!(
        check_provider(&both, &plain()),
        Err(Error::UnsupportedArity { probe: "a".to_string(), count: 7 })
    );
    let source = "provider ok { probe a(); };
                  provider twice { probe b(); probe b(); };
                  provider big { probe c(uint8_t, uint8_t, uint8_t, uint8_t, uint8_t, uint8_t, uint8_t); };";
    assert_eq!(
        providers_source(source, &plain()),
        Err(Error::DuplicateProbe { probe: "b".to_string() })
    );
    assert_eq!(
        providers_source("provider twice { probe b(); probe b(); }", &plain()),
        Err(Error::Parse { line: 1, token: String::new() })
    );
}

#[test]
fn source_compiles_to_one_module_per_provider() {
    let source = "provider first { probe a(uint8_t); };\nprovider second { probe b(); };";
    let text = providers_source(source, &plain()).unwrap();
    let first = provider("first", vec![probe("a", vec![byte()])]);
    let second = provider("second", vec![probe("b", vec![])]);
    let named = |name: &str| CompileProvidersConfig {
        provider: Some(name.to_string()),
        probe_format: None,
        module: Some(name.to_string()),
    };
    assert_eq!(
        text,
        format!(
            "{}{}",
            compile_provider(&first, &named("first")).unwrap(),
            compile_provider(&second, &named("second")).unwrap()
        )
    );
    assert_eq!(providers_source("", &plain()), Ok(String::new()));
}

#[test]
fn source_modules_share_a_configured_module_name() {
    let config = CompileProvidersConfig {
        provider: Some("ignored".to_string()),
        probe_format: Some("{provider}_{probe}".to_string()),
        module: Some("probes".to_string()),
    };
    let text = providers_source("provider test { probe start(uint8_t); };", &config).unwrap();
    assert!(text.starts_with("pub(crate) mod probes {\n"));
    assert!(text.contains("macro_rules! test_start {"));
    assert!(!text.contains("ignored"));
}

#[test]
fn tokens_carry_the_records() {
    let source = "provider does__it { probe work(uint8_t, char*); };";
    let tokens = compile_provider_source(source, &plain()).unwrap();
    let mut found = Vec::new();
    literals(tokens.clone(), &mut found);
    let types = [byte(), DataType::CString];
    let enabled = emit_isenabled_probe_record("does__it", "work");
    let firing = emit_probe_record("does__it", "work", Some(&types)).unwrap();
    assert!(found.contains(&quote_string(&enabled)));
    assert!(found.contains(&quote_string(&firing)));
    assert!(found.contains(&proc_macro2::Literal::string(&enabled).to_string()));
    assert!(found.contains(&proc_macro2::Literal::string(&firing).to_string()));
    assert_eq!(found.iter().filter(|l| l.as_str() == "\"990:   nop\"").count(), 2);
    let mut names = Vec::new();
    idents(tokens, &mut names);
    assert_eq!(&names[..4], ["pub", "crate", "mod", "does__it"]);
    assert!(names.contains(&"macro_rules".to_string()));
    assert!(names.contains(&"__usdt_sema_does__it_work".to_string()));
    assert!(names.contains(&"evaluate_if_enabled".to_string()));
}

#[test]
fn tokens_of_a_definition_equal_those_of_its_source() {
    let test = provider("test", vec![probe("start", vec![byte()])]);
    let config = CompileProvidersConfig {
        provider: Some("test".to_string()),
        probe_format: None,
        module: Some("test".to_string()),
    };
    let defined = compile_provider_from_definition(&test, &config).unwrap();
    let parsed = compile_provider_source(&test.to_d_source(), &plain()).unwrap();
    assert_eq!(defined.to_string(), parsed.to_string());
    let text = compile_provider(&test, &config).unwrap();
    let lexed: TokenStream = text.parse().unwrap();
    assert_eq!(defined.to_string(), lexed.to_string());
}

#[test]
fn source_without_tokens_is_refused() {
    let broken = provider(
        "test",
        vec![probe("stop", vec![DataType::Serializable("Vec<(u8".to_string())])],
    );
    assert!(compile_provider(&broken, &plain()).is_ok());
    assert_eq!(compile_provider_from_definition(&broken, &plain()).err(), Some(Error::Tokens));
}

#[test]
fn lexer_outcome_is_handed_on() {
    let good: Result<TokenStream, proc_macro2::LexError> = "a + b".parse();
    assert_eq!(tokens_or_error(good).unwrap().to_string(), "a + b");
    let bad: Result<TokenStream, proc_macro2::LexError> = "(".parse();
    assert_eq!(tokens_or_error(bad).err(), Some(Error::Tokens));
}

#[test]
fn parse_errors_pass_through() {
    assert_eq!(
        compile_provider_source("provider p {\n probe a(float);\n};", &plain()).err(),
        Some(Error::UnknownType { line: 2, name: "float".to_string() })
    );
    assert_eq!(
        compile_provider_source("provider p {\n probe a()\n};", &plain()).err(),
        Some(Error::Parse { line: 3, token: "}".to_string() })
    );
}

#[test]
fn registration_succeeds_every_time() {
    assert_eq!(register_probes(), Ok(()));
    assert_eq!(register_probes(), Ok(()));
}
