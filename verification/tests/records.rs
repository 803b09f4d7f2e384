use usdt_impl::lexicon::{arity_supported, abi_register_name, MAX_PROBE_ARGUMENTS};
use usdt_impl::model::{BitWidth, DataType, Error};
use usdt_impl::record::{
    dashed_name, emit_isenabled_probe_record, emit_probe_record, format_arguments, semaphore_name,
};

fn unsigned(width: BitWidth) -> DataType {
    DataType::Integer { signed: false, width }
}

fn signed(width: BitWidth) -> DataType {
    DataType::Integer { signed: true, width }
}

fn expected_isenabled(prov: &str, probe: &str, sema_name: &str) -> String {
    let section_ident = r#".note.stapsdt, "", "note""#;
    format!(
        r#"
        // First define the semaphore
            .ifndef {sema_name}
                    .pushsection .probes, "aw", "progbits"
                    .weak {sema_name}
                    .hidden {sema_name}
                    .balign 2
            {sema_name}:
                    .zero 2
                    .type {sema_name}, @object
                    .size {sema_name}, 2
                    .popsection
            .endif
        // Second define the is_enabled probe which uses the semaphore
                    .pushsection {section_ident}
                    .balign 4
                    .4byte 992f-991f, 994f-993f, 3    // length, type
            991:
                    .asciz "stapsdt"        // vendor string
            992:
                    .balign 4
            993:
                    .8byte 990b             // probe PC address
                    .8byte _.stapsdt.base   // link-time sh_addr of base .stapsdt.base section
                    .8byte {sema_name}      // link-time address of the semaphore variable, zero if no associated semaphore
                    .asciz "{prov}"         // provider name
                    .asciz "{probe}"        // probe name
                    .asciz ""               // is_enabled probe takes no parameters
            994:
                    .balign 4
                    .popsection
            // Finally define the base for whatever it is needed (RIP).
            .ifndef _.stapsdt.base
                    .pushsection .stapsdt.base, "aG", "progbits", .stapsdt.base, comdat
                    .weak _.stapsdt.base
                    .hidden _.stapsdt.base
            _.stapsdt.base:
                    .space 1
                    .size _.stapsdt.base, 1
                    .popsection
            .endif
        "#,
        section_ident = section_ident,
        sema_name = sema_name,
        prov = prov,
        probe = probe,
    )
}

fn expected_firing(prov: &str, probe: &str, arguments: &str) -> String {
    let section_ident = r#".note.stapsdt, "", "note""#;
    format!(
        r#"
        // First define the actual DTrace probe
                    .pushsection {section_ident}
                    .balign 4
                    .4byte 992f-991f, 994f-993f, 3    // length, type
            991:
                    .asciz "stapsdt"        // vendor string
            992:
                    .balign 4
            993:
                    .8byte 990b             // probe PC address
                    .8byte _.stapsdt.base   // link-time sh_addr of base .stapsdt.base section
                    .8byte 0                // probe doesn't use semaphore
                    .asciz "{prov}"         // provider name
                    .asciz "{probe}"        // probe name
                    .asciz "{arguments}"    // argument format (null-terminated string)
            994:
                    .balign 4
                    .popsection
            // Finally define the base for whatever it is needed (RIP).
            .ifndef _.stapsdt.base
                    .pushsection .stapsdt.base, "aG", "progbits", .stapsdt.base, comdat
                    .weak _.stapsdt.base
                    .hidden _.stapsdt.base
            _.stapsdt.base:
                    .space 1
                    .size _.stapsdt.base, 1
                    .popsection
            .endif
        "#,
        section_ident = section_ident,
        prov = prov,
        probe = probe,
        arguments = arguments,
    )
}

#[test]
fn isenabled_record_is_the_whole_stanza() {
    let record = emit_isenabled_probe_record("test", "start");
    assert_eq!(record, expected_isenabled("test", "start", "__usdt_sema_test_start"));
}

#[test]
fn isenabled_record_dashes_the_probe_name_only() {
    let record = emit_isenabled_probe_record("does__it", "really__work");
    assert_eq!(
        record,
        expected_isenabled("does__it", "really-work", "__usdt_sema_does__it_really__work")
    );
}

#[test]
fn isenabled_record_defines_one_weak_hidden_semaphore_of_two_bytes() {
    let record = emit_isenabled_probe_record("test", "start");
    assert_eq!(record.matches(".weak __usdt_sema_test_start\n").count(), 1);
    assert_eq!(record.matches(".hidden __usdt_sema_test_start\n").count(), 1);
    assert_eq!(record.matches(".size __usdt_sema_test_start, 2\n").count(), 1);
    assert_eq!(record.matches(".ifndef __usdt_sema_test_start\n").count(), 1);
    assert!(record.contains(".pushsection .probes, \"aw\", \"progbits\""));
    assert!(record.contains(".8byte __usdt_sema_test_start "));
    assert!(record.contains(".asciz \"\" "));
}

#[test]
fn records_define_the_base_anchor_once_and_lazily() {
    let types = [unsigned(BitWidth::Bit8)];
    for record in [
        emit_isenabled_probe_record("test", "start"),
        emit_probe_record("test", "start", Some(&types)).unwrap(),
    ] {
        assert_eq!(record.matches(".ifndef _.stapsdt.base\n").count(), 1);
        assert_eq!(record.matches(".weak _.stapsdt.base\n").count(), 1);
        assert_eq!(record.matches(".hidden _.stapsdt.base\n").count(), 1);
        assert_eq!(record.matches(".size _.stapsdt.base, 1\n").count(), 1);
        assert!(record.contains(
            ".pushsection .stapsdt.base, \"aG\", \"progbits\", .stapsdt.base, comdat"
        ));
        assert!(record.contains(".pushsection .note.stapsdt, \"\", \"note\""));
        assert!(record.contains(".4byte 992f-991f, 994f-993f, 3 "));
        assert!(record.contains(".asciz \"stapsdt\""));
        assert!(record.contains(".8byte 990b "));
    }
}

#[test]
fn firing_record_of_one_byte_parameter() {
    let types = [unsigned(BitWidth::Bit8)];
    let record = emit_probe_record("test", "start", Some(&types)).unwrap();
    assert_eq!(record, expected_firing("test", "start", "1@%dil"));
    assert!(record.contains(".8byte 0 "));
}

#[test]
fn firing_record_keeps_the_provider_name_verbatim() {
    let types = [unsigned(BitWidth::Bit8), DataType::CString];
    let record = emit_probe_record("does__it", "work", Some(&types)).unwrap();
    assert_eq!(record, expected_firing("does__it", "work", "1@%dil 8@%rsi"));
    assert!(record.contains(".asciz \"does__it\""));
    assert!(!record.contains("does-it"));
}

#[test]
fn firing_record_without_parameter_list() {
    assert_eq!(emit_probe_record("p", "q", None).unwrap(), expected_firing("p", "q", ""));
    let none: [DataType; 0] = [];
    assert_eq!(emit_probe_record("p", "q", Some(&none)).unwrap(), expected_firing("p", "q", ""));
}

#[test]
fn firing_record_dashes_every_double_underscore() {
    let record = emit_probe_record("p", "a__b___c____d", None).unwrap();
    assert_eq!(record, expected_firing("p", "a-b-_c--d", ""));
}

#[test]
fn dashed_name_scans_from_the_left() {
    assert_eq!(dashed_name("work"), "work");
    assert_eq!(dashed_name("a__b"), "a-b");
    assert_eq!(dashed_name("a___b"), "a-_b");
    assert_eq!(dashed_name("____"), "--");
    assert_eq!(dashed_name("_"), "_");
    assert_eq!(dashed_name(""), "");
    assert_eq!(dashed_name("a__b"), "a__b".replace("__", "-"));
    assert_eq!(dashed_name("_a___b__"), "_a___b__".replace("__", "-"));
}

#[test]
fn semaphore_name_joins_provider_and_probe() {
    assert_eq!(semaphore_name("test", "start"), "__usdt_sema_test_start");
    assert_eq!(semaphore_name("does__it", "work"), "__usdt_sema_does__it_work");
}

#[test]
fn size_code_reflects_width_and_sign() {
    assert_eq!(unsigned(BitWidth::Bit8).to_asm_size(), "1");
    assert_eq!(signed(BitWidth::Bit8).to_asm_size(), "-1");
    assert_eq!(unsigned(BitWidth::Bit16).to_asm_size(), "2");
    assert_eq!(signed(BitWidth::Bit16).to_asm_size(), "-2");
    assert_eq!(unsigned(BitWidth::Bit32).to_asm_size(), "4");
    assert_eq!(signed(BitWidth::Bit32).to_asm_size(), "-4");
    assert_eq!(unsigned(BitWidth::Bit64).to_asm_size(), "8");
    assert_eq!(signed(BitWidth::Bit64).to_asm_size(), "-8");
    assert_eq!(DataType::CString.to_asm_size(), "8");
    assert_eq!(DataType::Serializable("crate::Arg".to_string()).to_asm_size(), "8");
}

#[test]
fn operand_names_the_register_of_the_position_in_the_width() {
    let bytes = ["%dil", "%sil", "%dl", "%cl", "%r8b", "%r9b"];
    let words = ["%di", "%si", "%dx", "%cx", "%r8w", "%r9w"];
    let doubles = ["%edi", "%esi", "%edx", "%ecx", "%r8d", "%r9d"];
    let quads = ["%rdi", "%rsi", "%rdx", "%rcx", "%r8", "%r9"];
    for i in 0..6u8 {
        let at = i as usize;
        assert_eq!(unsigned(BitWidth::Bit8).to_asm_op(i), Some(bytes[at]));
        assert_eq!(signed(BitWidth::Bit8).to_asm_op(i), Some(bytes[at]));
        assert_eq!(unsigned(BitWidth::Bit16).to_asm_op(i), Some(words[at]));
        assert_eq!(signed(BitWidth::Bit32).to_asm_op(i), Some(doubles[at]));
        assert_eq!(unsigned(BitWidth::Bit64).to_asm_op(i), Some(quads[at]));
        assert_eq!(DataType::CString.to_asm_op(i), Some(quads[at]));
        assert_eq!(DataType::Serializable("T".to_string()).to_asm_op(i), Some(quads[at]));
    }
}

#[test]
fn positions_from_six_on_have_no_register() {
    for i in [6u8, 7, 100, u8::MAX] {
        assert_eq!(unsigned(BitWidth::Bit8).to_asm_op(i), None);
        assert_eq!(signed(BitWidth::Bit64).to_asm_op(i), None);
        assert_eq!(DataType::CString.to_asm_op(i), None);
        assert_eq!(DataType::Serializable("T".to_string()).to_asm_op(i), None);
    }
}

#[test]
fn abi_registers_in_order() {
    let names = ["rdi", "rsi", "rdx", "rcx", "r8", "r9"];
    for i in 0..6 {
        assert_eq!(abi_register_name(i), Some(names[i]));
    }
    assert_eq!(abi_register_name(6), None);
    assert_eq!(abi_register_name(usize::MAX), None);
}

#[test]
fn argument_format_has_one_entry_per_parameter_in_order() {
    let types = [
        signed(BitWidth::Bit32),
        unsigned(BitWidth::Bit64),
        DataType::Serializable("crate::Arg".to_string()),
        signed(BitWidth::Bit8),
        unsigned(BitWidth::Bit16),
        DataType::CString,
    ];
    let format = format_arguments("all", &types).unwrap();
    assert_eq!(format, "-4@%edi 8@%rsi 8@%rdx -1@%cl 2@%r8w 8@%r9");
    assert_eq!(format.split(' ').count(), types.len());
    let none: [DataType; 0] = [];
    assert_eq!(format_arguments("none", &none), Ok(String::new()));
    assert_eq!(format_arguments("one", &types[..1]), Ok("-4@%edi".to_string()));
}

#[test]
fn isenabled_record_aligns_the_semaphore_before_its_label() {
    let record = emit_isenabled_probe_record("test", "start");
    let section = record.find(".pushsection .probes, \"aw\", \"progbits\"\n").unwrap();
    let align = record.find("                    .balign 2\n            __usdt_sema_test_start:\n                    .zero 2\n").unwrap();
    let end = record.find(".popsection").unwrap();
    assert!(section < align && align < end);
    assert_eq!(record.matches(".balign 2\n").count(), 1);
}

#[test]
fn record_of_seven_parameters_is_refused() {
    let seven = vec![unsigned(BitWidth::Bit8); 7];
    let expected = Error::UnsupportedArity { probe: "big".to_string(), count: 7 };
    assert_eq!(emit_probe_record("test", "big", Some(&seven)), Err(expected.clone()));
    assert_eq!(format_arguments("big", &seven), Err(expected));
    let twenty = vec![DataType::CString; 20];
    assert_eq!(
        format_arguments("huge", &twenty),
        Err(Error::UnsupportedArity { probe: "huge".to_string(), count: 20 })
    );
    assert!(emit_probe_record("test", "big", Some(&seven[..6])).is_ok());
    assert!(emit_probe_record("test", "big", None).is_ok());
}

#[test]
fn six_parameters_fit_and_seven_do_not() {
    assert_eq!(MAX_PROBE_ARGUMENTS, 6);
    assert!(arity_supported(0));
    assert!(arity_supported(6));
    assert!(!arity_supported(7));
}

#[test]
fn type_names_in_d_and_in_rust() {
    assert_eq!(unsigned(BitWidth::Bit8).to_c_type(), "uint8_t");
    assert_eq!(unsigned(BitWidth::Bit16).to_c_type(), "uint16_t");
    assert_eq!(unsigned(BitWidth::Bit32).to_c_type(), "uint32_t");
    assert_eq!(unsigned(BitWidth::Bit64).to_c_type(), "uint64_t");
    assert_eq!(signed(BitWidth::Bit8).to_c_type(), "int8_t");
    assert_eq!(signed(BitWidth::Bit16).to_c_type(), "int16_t");
    assert_eq!(signed(BitWidth::Bit32).to_c_type(), "int32_t");
    assert_eq!(signed(BitWidth::Bit64).to_c_type(), "int64_t");
    assert_eq!(DataType::CString.to_c_type(), "char*");
    assert_eq!(DataType::Serializable("crate::Arg".to_string()).to_c_type(), "char*");
    assert_eq!(unsigned(BitWidth::Bit8).to_rust_type(), "u8");
    assert_eq!(unsigned(BitWidth::Bit64).to_rust_type(), "u64");
    assert_eq!(signed(BitWidth::Bit16).to_rust_type(), "i16");
    assert_eq!(signed(BitWidth::Bit32).to_rust_type(), "i32");
    assert_eq!(DataType::CString.to_rust_type(), "str");
    assert_eq!(DataType::Serializable("crate::Arg".to_string()).to_rust_type(), "crate::Arg");
}
