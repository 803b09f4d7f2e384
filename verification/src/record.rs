//! The records that make a probe visible to tracers: for each probe an
//! is-enabled record, which carries the probe's semaphore, and a firing record,
//! which carries its argument format. Both are assembly text that deposits a
//! note of type 3 in the `.note.stapsdt` section at a `990:` label.

use crate::lexicon::{
    arity_verdict, carried_width, check_arity, register_operand, size_code, MAX_PROBE_ARGUMENTS,
};
use crate::model::{DataType, Error, ErrorView, TypeView};
use crate::text::{replace_all, replaced};
use vstd::prelude::*;
use vstd::string::*;

verus! {

/// Opens the definition of a probe's semaphore, up to the symbol that guards it.
pub const SEMAPHORE_GUARD: &'static str = r#"
        // First define the semaphore
            .ifndef "#;

/// Places the semaphore in the `.probes` section and declares it weak.
pub const SEMAPHORE_WEAK: &'static str = r#"
                    .pushsection .probes, "aw", "progbits"
                    .weak "#;

/// Declares the semaphore hidden.
pub const SEMAPHORE_HIDDEN: &'static str = r#"
                    .hidden "#;

/// Aligns the semaphore naturally: its address is a multiple of its two bytes,
/// as the single load that reads it expects.
pub const SEMAPHORE_ALIGN: &'static str = r#"
                    .balign 2"#;

/// Leads to the semaphore's label.
pub const SEMAPHORE_LABEL: &'static str = r#"
            "#;

/// Reserves the semaphore's two bytes and begins its type directive.
pub const SEMAPHORE_STORAGE: &'static str = r#":
                    .zero 2
                    .type "#;

/// Marks the semaphore as an object and begins its size directive.
pub const SEMAPHORE_OBJECT: &'static str = r#", @object
                    .size "#;

/// Ends the semaphore's definition and opens the note of an is-enabled record, up to
/// its semaphore address.
pub const ENABLED_NOTE: &'static str = r#", 2
                    .popsection
            .endif
        // Second define the is_enabled probe which uses the semaphore
                    .pushsection .note.stapsdt, "", "note"
                    .balign 4
                    .4byte 992f-991f, 994f-993f, 3    // length, type
            991:
                    .asciz "stapsdt"        // vendor string
            992:
                    .balign 4
            993:
                    .8byte 990b             // probe PC address
                    .8byte _.stapsdt.base   // link-time sh_addr of base .stapsdt.base section
                    .8byte "#;

/// Leads from the semaphore address of an is-enabled record to its provider name.
pub const ENABLED_PROVIDER: &'static str = r#"      // link-time address of the semaphore variable, zero if no associated semaphore
                    .asciz ""#;

/// Leads from the provider name of a record to its probe name.
pub const NOTE_PROBE: &'static str = r#""         // provider name
                    .asciz ""#;

/// Ends the note of an is-enabled record, with its empty argument format.
pub const ENABLED_TAIL: &'static str = r#""        // probe name
                    .asciz ""               // is_enabled probe takes no parameters
            994:
                    .balign 4
                    .popsection
"#;

/// Opens the note of a firing record, up to its provider name. The semaphore address
/// is zero.
pub const FIRING_NOTE: &'static str = r#"
        // First define the actual DTrace probe
                    .pushsection .note.stapsdt, "", "note"
                    .balign 4
                    .4byte 992f-991f, 994f-993f, 3    // length, type
            991:
                    .asciz "stapsdt"        // vendor string
            992:
                    .balign 4
            993:
                    .8byte 990b             // probe PC address
                    .8byte _.stapsdt.base   // link-time sh_addr of base .stapsdt.base section
                    .8byte 0                // probe doesn't use semaphore
                    .asciz ""#;

/// Leads from the probe name of a firing record to its argument format.
pub const FIRING_ARGUMENTS: &'static str = r#""        // probe name
                    .asciz ""#;

/// Ends the note of a firing record.
pub const FIRING_TAIL: &'static str = r#""    // argument format (null-terminated string)
            994:
                    .balign 4
                    .popsection
"#;

/// Defines the base anchor `_.stapsdt.base` unless it is already defined: a
/// weak, hidden symbol of one byte in the COMDAT section `.stapsdt.base`, so
/// that the copies of all compilation units merge into one.
pub const BASE_ANCHOR: &'static str = r#"            // Finally define the base for whatever it is needed (RIP).
            .ifndef _.stapsdt.base
                    .pushsection .stapsdt.base, "aG", "progbits", .stapsdt.base, comdat
                    .weak _.stapsdt.base
                    .hidden _.stapsdt.base
            _.stapsdt.base:
                    .space 1
                    .size _.stapsdt.base, 1
                    .popsection
            .endif
        "#;

/// The symbol of the semaphore of probe `probe` of provider `prov`:
/// `__usdt_sema_<prov>_<probe>`.
pub open spec fn semaphore_symbol(prov: Seq<char>, probe: Seq<char>) -> Seq<char> {
    "__usdt_sema_"@ + prov + "_"@ + probe
}

/// The name under which a probe stands in its records: its own name with each
/// `__` replaced by `-`.
pub open spec fn record_name(probe: Seq<char>) -> Seq<char> {
    replaced(probe, seq!['_', '_'], seq!['-'])
}

/// One entry of an argument format, `N@OP`: the size code of the parameter
/// and the operand of the register for its position.
pub open spec fn argument_entry(t: TypeView, index: nat) -> Seq<char> {
    size_code(t) + seq!['@'] + register_operand(carried_width(t), index)
}

/// The argument format of a parameter list: one entry per parameter, in
/// declared order, separated by single spaces.
pub open spec fn argument_format(types: Seq<TypeView>) -> Seq<char>
    decreases types.len(),
{
    if types.len() == 0 {
        Seq::empty()
    } else if types.len() == 1 {
        argument_entry(types[0], 0)
    } else {
        argument_format(types.drop_last()) + seq![' '] + argument_entry(
            types.last(),
            (types.len() - 1) as nat,
        )
    }
}

/// The is-enabled record of a probe. It defines the weak, hidden, two-byte
/// semaphore, aligned to two bytes in the `.probes` section, unless the
/// symbol is already defined, then the note with the
/// semaphore's address, the provider name, the probe's record name and an
/// empty argument format, then the base anchor unless it is already defined.
pub open spec fn isenabled_record(prov: Seq<char>, probe: Seq<char>) -> Seq<char> {
    let sema = semaphore_symbol(prov, probe);
    SEMAPHORE_GUARD@ + sema + SEMAPHORE_WEAK@ + sema + SEMAPHORE_HIDDEN@ + sema + SEMAPHORE_ALIGN@
        + SEMAPHORE_LABEL@ + sema + SEMAPHORE_STORAGE@ + sema + SEMAPHORE_OBJECT@ + sema + ENABLED_NOTE@ + sema
        + ENABLED_PROVIDER@ + prov + NOTE_PROBE@ + record_name(probe) + ENABLED_TAIL@
        + BASE_ANCHOR@
}

/// The firing record of a probe: the note with semaphore address zero, the
/// provider name, the probe's record name and the argument format given, then
/// the base anchor unless it is already defined.
pub open spec fn firing_record(prov: Seq<char>, probe: Seq<char>, arguments: Seq<char>) -> Seq<
    char,
> {
    FIRING_NOTE@ + prov + NOTE_PROBE@ + record_name(probe) + FIRING_ARGUMENTS@ + arguments
        + FIRING_TAIL@ + BASE_ANCHOR@
}

/// The argument format that a firing record carries for an optional parameter list.
pub open spec fn optional_argument_format(types: Option<&[DataType]>) -> Seq<char> {
    match types {
        Some(list) => argument_format(list.deep_view()),
        None => Seq::empty(),
    }
}

/// Builds the symbol of a probe's semaphore.
pub fn semaphore_name(prov: &str, probe: &str) -> (r: String)
    ensures
        r@ == semaphore_symbol(prov@, probe@),
{
    let mut r = String::from_str("__usdt_sema_");
    r.append(prov);
    r.append("_");
    r.append(probe);
    r
}

/// Builds the name under which a probe stands in its records.
pub fn dashed_name(probe: &str) -> (r: String)
    ensures
        r@ == record_name(probe@),
{
    proof {
        reveal_strlit("__");
        reveal_strlit("-");
    }
    assert("__"@ =~= seq!['_', '_']);
    assert("-"@ =~= seq!['-']);
    replace_all(probe, "__", "-")
}

/// Builds the argument format of the parameter list of the probe `probe`, or
/// refuses a list that has more parameters than there are argument registers.
pub fn format_arguments(probe: &str, types: &[DataType]) -> (r: Result<String, Error>)
    ensures
        match r {
            Ok(text) => arity_verdict(probe@, types@.len()) is Ok && text@ == argument_format(
                types.deep_view(),
            ),
            Err(error) => arity_verdict(probe@, types@.len()) == Err::<(), ErrorView>(error@),
        },
{
    match check_arity(probe, types.len()) {
        Ok(_) => {},
        Err(error) => {
            return Err(error);
        },
    }
    let ghost views = types.deep_view();
    let mut r = String::new();
    let mut i: u8 = 0;
    assert(views.take(0) =~= Seq::<TypeView>::empty());
    while (i as usize) < types.len()
        invariant
            i <= types@.len() <= MAX_PROBE_ARGUMENTS,
            views == types.deep_view(),
            r@ == argument_format(views.take(i as int)),
        decreases types@.len() - i,
    {
        proof {
            reveal_strlit(" ");
            reveal_strlit("@");
        }
        let ghost before = r@;
        if i > 0 {
            r.append(" ");
        }
        let typ = &types[i as usize];
        r.append(typ.to_asm_size());
        r.append("@");
        match typ.to_asm_op(i) {
            Some(operand) => r.append(operand),
            None => {},
        }
        proof {
            let next = views.take(i + 1);
            assert(next.drop_last() =~= views.take(i as int));
            assert(next.last() == typ@);
            assert(" "@ =~= seq![' ']);
            assert("@"@ =~= seq!['@']);
            if i > 0 {
                assert(r@ =~= before + seq![' '] + argument_entry(typ@, i as nat));
            } else {
                assert(before =~= Seq::<char>::empty());
                assert(r@ =~= argument_entry(typ@, 0));
            }
        }
        i += 1;
    }
    assert(views.take(i as int) =~= views);
    Ok(r)
}

/// Emits the is-enabled record of probe `probe` of provider `prov`.
pub fn emit_isenabled_probe_record(prov: &str, probe: &str) -> (r: String)
    ensures
        r@ == isenabled_record(prov@, probe@),
{
    let sema_name = semaphore_name(prov, probe);
    let sema = sema_name.as_str();
    let name = dashed_name(probe);
    let mut r = String::from_str(SEMAPHORE_GUARD);
    r.append(sema);
    r.append(SEMAPHORE_WEAK);
    r.append(sema);
    r.append(SEMAPHORE_HIDDEN);
    r.append(sema);
    r.append(SEMAPHORE_ALIGN);
    r.append(SEMAPHORE_LABEL);
    r.append(sema);
    r.append(SEMAPHORE_STORAGE);
    r.append(sema);
    r.append(SEMAPHORE_OBJECT);
    r.append(sema);
    r.append(ENABLED_NOTE);
    r.append(sema);
    r.append(ENABLED_PROVIDER);
    r.append(prov);
    r.append(NOTE_PROBE);
    r.append(name.as_str());
    r.append(ENABLED_TAIL);
    r.append(BASE_ANCHOR);
    r
}

/// The number of parameters of an optional parameter list.
pub open spec fn optional_arity(types: Option<&[DataType]>) -> nat {
    match types {
        Some(list) => list@.len(),
        None => 0,
    }
}

/// Emits the firing record of probe `probe` of provider `prov`, with one
/// argument entry per parameter type where a list is given. A list with more
/// parameters than there are argument registers is refused: no record is made
/// for it.
pub fn emit_probe_record(prov: &str, probe: &str, types: Option<&[DataType]>) -> (r: Result<
    String,
    Error,
>)
    ensures
        match r {
            Ok(text) => arity_verdict(probe@, optional_arity(types)) is Ok && text@
                == firing_record(prov@, probe@, optional_argument_format(types)),
            Err(error) => arity_verdict(probe@, optional_arity(types)) == Err::<(), ErrorView>(
                error@,
            ),
        },
{
    let arguments = match types {
        Some(list) => match format_arguments(probe, list) {
            Ok(text) => text,
            Err(error) => {
                return Err(error);
            },
        },
        None => String::new(),
    };
    let name = dashed_name(probe);
    let mut r = String::from_str(FIRING_NOTE);
    r.append(prov);
    r.append(NOTE_PROBE);
    r.append(name.as_str());
    r.append(FIRING_ARGUMENTS);
    r.append(arguments.as_str());
    r.append(FIRING_TAIL);
    r.append(BASE_ANCHOR);
    Ok(r)
}

} // verus!
