//! The probe macro synthesizer: for each probe a callable macro that checks the
//! probe's semaphore at an is-enabled trap site and, only where it is not zero,
//! evaluates the caller's argument producer, marshals the arguments and hits
//! the firing trap site. The macros of a provider stand in one module.

use crate::lexicon::{arity_verdict, rust_type, MAX_PROBE_ARGUMENTS};
use crate::marshal::{construct_probe_args, input_operands, unpack_block};
use crate::model::{
    CompileProvidersConfig, ConfigView, DataType, Error, ErrorView, Probe, ProbeView, Provider,
    ProviderView, TypeView,
};
use crate::record::{
    argument_format, emit_isenabled_probe_record, emit_probe_record, firing_record,
    isenabled_record, semaphore_name, semaphore_symbol,
};
use crate::text::{decimal, decimal_string, quote_string, replace_all, replaced, string_literal};
use crate::validate::{check_provider, lemma_sound_provider_fits, provider_problem};
use vstd::prelude::*;
use vstd::string::*;

verus! {

/// Opens the function that checks the types of a probe's arguments.
pub const CHECK_FN: &'static str = "#[allow(non_snake_case)]\nfn ";

/// Ends the checking function and opens the closure that calls it.
pub const CHECK_CLOSURE: &'static str = ") { }\nlet _ = || {\n";

/// Checks the producer of a probe without parameters: it returns the unit value.
pub const CHECK_UNIT: &'static str = "let _: () = $args_lambda();\n";

/// Calls the producer of a one-parameter probe, whose value is the argument itself.
pub const CALL_SINGLE: &'static str = "let args = ($args_lambda(),);\n";

/// Calls the producer of a probe with several parameters, whose value is their tuple.
pub const CALL_TUPLE: &'static str = "let args = $args_lambda();\n";

/// Ends the call of the checking function.
pub const CHECK_CALL_END: &'static str = ");\n";

/// Ends the checking closure.
pub const CHECK_END: &'static str = "};\n";

/// Opens a parameter of the checking function that takes a value or a
/// reference to one.
pub const PARAM_BORROW: &'static str = "_: impl ::std::borrow::Borrow<";

/// Ends such a parameter.
pub const PARAM_BORROW_END: &'static str = ">, ";

/// A parameter of the checking function that takes anything readable as a string.
pub const PARAM_STRING: &'static str = "_: impl ::std::convert::AsRef<str>, ";

/// Declares the semaphore of a probe as a two-byte object defined elsewhere.
pub const ENTRY_OPEN: &'static str =
    "{\n#[repr(C)]\nstruct UsdtSema { is_active: u16 }\nextern {\nstatic ";

/// The is-enabled trap site: a `nop` at the label `990:`, with its record.
pub const ENTRY_CHECK: &'static str = ": UsdtSema;\n}\nlet is_enabled: u16;\nunsafe {\n#[allow(named_asm_labels)] {\n::std::arch::asm!(\n\"990:   nop\",\n";

/// The volatile load of the semaphore.
pub const ENTRY_READ: &'static str = ",\noptions(nomem, nostack, preserves_flags)\n);\n}\nis_enabled = ::core::ptr::addr_of!(";

/// The enablement test: the argument producer runs only behind it.
pub const ENTRY_TEST: &'static str = ".is_active).read_volatile();\n}\nif let Some(args) = ::usdt_impl::runtime::evaluate_if_enabled(is_enabled, $args_lambda) {\n";

/// The firing trap site: a `nop` at the label `990:`, with its record.
pub const ENTRY_FIRE: &'static str = "unsafe {\n::std::arch::asm!(\n\"990:   nop\",\n";

/// Leads from the firing record to the input operands.
pub const ENTRY_INPUTS: &'static str = ",\n";

/// Ends the firing trap site and the entry block.
pub const ENTRY_CLOSE: &'static str = "options(nomem, nostack, preserves_flags)\n);\n}\n}\n}\n";

/// Opens the definition of a probe's macro, up to its name.
pub const MACRO_HEAD: &'static str = "#[allow(unused_macros)]\nmacro_rules! ";

/// Opens the arms of the macro.
pub const MACRO_OPEN: &'static str = " {\n";

/// The arm that lets a probe without parameters be fired without a producer.
pub const NO_ARGS_ARM: &'static str = "() => { crate::";

/// Ends that arm: it fires the probe with a producer of the unit value.
pub const NO_ARGS_END: &'static str = "!(|| ()) };\n";

/// The arm that refuses anything but a closure, and the opening of the arm
/// that takes the producer.
pub const MACRO_ARMS: &'static str = "($tree:tt) => {\ncompile_error!(\"USDT probe macros should be invoked with a closure returning the arguments\");\n};\n($args_lambda:expr) => {\n{\n";

/// Ends the macro's definition and opens the item that makes it importable
/// by path.
pub const MACRO_CLOSE: &'static str = "}\n};\n}\n#[allow(unused_imports)]\npub(crate) use ";

/// Ends that item.
pub const MACRO_END: &'static str = ";\n";

/// Opens the module of a provider, up to its name.
pub const MODULE_HEAD: &'static str = "pub(crate) mod ";

/// Opens the body of the module.
pub const MODULE_OPEN: &'static str = " {\n";

/// Ends the module.
pub const MODULE_CLOSE: &'static str = "}\n";

/// The name of the module that holds a provider's macros: the configured
/// module, else the configured provider name, else the provider's own name.
pub open spec fn module_name(config: ConfigView, provider: Seq<char>) -> Seq<char> {
    match config.module {
        Some(module) => module,
        None => format_provider(config, provider),
    }
}

/// The provider name that a probe format refers to.
pub open spec fn format_provider(config: ConfigView, provider: Seq<char>) -> Seq<char> {
    match config.provider {
        Some(name) => name,
        None => provider,
    }
}

/// The name of the macro of a probe: the probe format with `{provider}` and
/// then `{probe}` replaced by the two names, or the probe's name where no
/// format is configured.
pub open spec fn macro_name(config: ConfigView, provider: Seq<char>, probe: Seq<char>) -> Seq<
    char,
> {
    match config.probe_format {
        Some(format) => replaced(
            replaced(format, "{provider}"@, format_provider(config, provider)),
            "{probe}"@,
            probe,
        ),
        None => probe,
    }
}

/// The name of the function that checks the types of a probe's arguments.
pub open spec fn check_fn_name(provider: Seq<char>, probe: Seq<char>) -> Seq<char> {
    "__usdt_private_"@ + provider + "_"@ + probe + "_type_check"@
}

/// The parameter of the checking function for one probe parameter.
pub open spec fn check_param(t: TypeView) -> Seq<char> {
    match t {
        TypeView::CString => PARAM_STRING@,
        _ => PARAM_BORROW@ + rust_type(t) + PARAM_BORROW_END@,
    }
}

/// The parameters of the checking function, in declared order.
pub open spec fn check_params(types: Seq<TypeView>) -> Seq<char>
    decreases types.len(),
{
    if types.len() == 0 {
        Seq::empty()
    } else {
        check_params(types.drop_last()) + check_param(types.last())
    }
}

/// The arguments of the call of the checking function: the first `count`
/// fields of the argument tuple.
pub open spec fn check_args(count: nat) -> Seq<char>
    decreases count,
{
    if count == 0 {
        Seq::empty()
    } else {
        check_args((count - 1) as nat) + "args."@ + decimal((count - 1) as nat) + ", "@
    }
}

/// What the checking closure does with the producer.
pub open spec fn check_body(name: Seq<char>, count: nat) -> Seq<char> {
    if count == 0 {
        CHECK_UNIT@
    } else if count == 1 {
        CALL_SINGLE@ + name + "("@ + check_args(count) + CHECK_CALL_END@
    } else {
        CALL_TUPLE@ + name + "("@ + check_args(count) + CHECK_CALL_END@
    }
}

/// The type check of a probe: a function with one parameter per probe
/// parameter, and a closure, never called, that hands it the producer's value.
pub open spec fn type_check(provider: Seq<char>, probe: Seq<char>, types: Seq<TypeView>) -> Seq<
    char,
> {
    let name = check_fn_name(provider, probe);
    CHECK_FN@ + name + "("@ + check_params(types) + CHECK_CLOSURE@ + check_body(name, types.len())
        + CHECK_END@
}

/// The entry block of a probe: the semaphore's declaration, the is-enabled
/// trap site with its record, the volatile load of the semaphore, and behind
/// the enablement test the unpack block and the firing trap site with its record and
/// input operands.
pub open spec fn entry_block(provider: Seq<char>, probe: Seq<char>, types: Seq<TypeView>) -> Seq<
    char,
> {
    let sema = semaphore_symbol(provider, probe);
    ENTRY_OPEN@ + sema + ENTRY_CHECK@ + string_literal(isenabled_record(provider, probe))
        + ENTRY_READ@ + sema + ENTRY_TEST@ + unpack_block(types) + ENTRY_FIRE@ + string_literal(
        firing_record(provider, probe, argument_format(types)),
    ) + ENTRY_INPUTS@ + input_operands(types) + ENTRY_CLOSE@
}

/// The arm for firing without a producer, which only a probe without
/// parameters has.
pub open spec fn no_args_arm(module: Seq<char>, name: Seq<char>, count: nat) -> Seq<char> {
    if count == 0 {
        NO_ARGS_ARM@ + module + "::"@ + name + NO_ARGS_END@
    } else {
        Seq::empty()
    }
}

/// The definition of a probe's macro around the entry block given.
pub open spec fn macro_definition(
    config: ConfigView,
    provider: Seq<char>,
    probe: Seq<char>,
    types: Seq<TypeView>,
    block: Seq<char>,
) -> Seq<char> {
    let name = macro_name(config, provider, probe);
    MACRO_HEAD@ + name + MACRO_OPEN@ + no_args_arm(module_name(config, provider), name, types.len())
        + MACRO_ARMS@ + type_check(provider, probe, types) + block + MACRO_CLOSE@ + name
        + MACRO_END@
}

/// The macro of a probe.
pub open spec fn probe_macro(config: ConfigView, provider: Seq<char>, probe: ProbeView) -> Seq<
    char,
> {
    macro_definition(
        config,
        provider,
        probe.name,
        probe.types,
        entry_block(provider, probe.name, probe.types),
    )
}

/// The macros of a list of probes, in declared order.
pub open spec fn probe_macros(config: ConfigView, provider: Seq<char>, probes: Seq<ProbeView>) -> Seq<
    char,
>
    decreases probes.len(),
{
    if probes.len() == 0 {
        Seq::empty()
    } else {
        probe_macros(config, provider, probes.drop_last()) + probe_macro(
            config,
            provider,
            probes.last(),
        )
    }
}

/// The module of a provider: its probes' macros under the module's name.
pub open spec fn provider_module(config: ConfigView, provider: ProviderView) -> Seq<char> {
    MODULE_HEAD@ + module_name(config, provider.name) + MODULE_OPEN@ + probe_macros(
        config,
        provider.name,
        provider.probes,
    ) + MODULE_CLOSE@
}

/// Every probe of the provider has a register for each of its parameters.
pub open spec fn arities_supported(provider: ProviderView) -> bool {
    forall|i: int|
        0 <= i < provider.probes.len() ==> (#[trigger] provider.probes[i]).types.len()
            <= MAX_PROBE_ARGUMENTS
}

impl CompileProvidersConfig {
    /// The name of the module for the macros of provider `provider`.
    pub fn module_name(&self, provider: &str) -> (r: String)
        ensures
            r@ == module_name(self@, provider@),
    {
        match &self.module {
            Some(module) => module.clone(),
            None => match &self.provider {
                Some(name) => name.clone(),
                None => String::from_str(provider),
            },
        }
    }

    /// The name of the macro of probe `probe` of provider `provider`.
    pub fn format_probe(&self, provider: &str, probe: &str) -> (r: String)
        ensures
            r@ == macro_name(self@, provider@, probe@),
    {
        match &self.probe_format {
            Some(format) => {
                let named = match &self.provider {
                    Some(name) => replace_all(format.as_str(), "{provider}", name.as_str()),
                    None => replace_all(format.as_str(), "{provider}", provider),
                };
                replace_all(named.as_str(), "{probe}", probe)
            },
            None => String::from_str(probe),
        }
    }
}

/// Builds the name of a probe's checking function.
fn check_function_name(provider: &str, probe: &str) -> (r: String)
    ensures
        r@ == check_fn_name(provider@, probe@),
{
    let mut r = String::from_str("__usdt_private_");
    r.append(provider);
    r.append("_");
    r.append(probe);
    r.append("_type_check");
    r
}

/// Builds the type check of a probe.
pub fn construct_type_check(provider: &str, probe: &str, types: &[DataType]) -> (r: String)
    ensures
        r@ == type_check(provider@, probe@, types.deep_view()),
{
    let ghost views = types.deep_view();
    let name = check_function_name(provider, probe);
    let mut params = String::new();
    let mut args = String::new();
    let mut i: usize = 0;
    assert(views.take(0) =~= Seq::<TypeView>::empty());
    while i < types.len()
        invariant
            i <= types@.len(),
            views == types.deep_view(),
            params@ == check_params(views.take(i as int)),
            args@ == check_args(i as nat),
        decreases types@.len() - i,
    {
        let typ = &types[i];
        let ghost before = params@;
        match typ {
            DataType::CString => {
                params.append(PARAM_STRING);
            },
            _ => {
                params.append(PARAM_BORROW);
                params.append(typ.to_rust_type());
                params.append(PARAM_BORROW_END);
            },
        }
        let number = decimal_string(i);
        args.append("args.");
        args.append(number.as_str());
        args.append(", ");
        proof {
            let next = views.take(i + 1);
            assert(next.drop_last() =~= views.take(i as int));
            assert(next.last() == typ@);
            assert(params@ =~= before + check_param(typ@));
        }
        i += 1;
    }
    assert(views.take(i as int) =~= views);
    let mut r = String::from_str(CHECK_FN);
    r.append(name.as_str());
    r.append("(");
    r.append(params.as_str());
    r.append(CHECK_CLOSURE);
    let ghost head = r@;
    if types.len() == 0 {
        r.append(CHECK_UNIT);
    } else {
        if types.len() == 1 {
            r.append(CALL_SINGLE);
        } else {
            r.append(CALL_TUPLE);
        }
        r.append(name.as_str());
        r.append("(");
        r.append(args.as_str());
        r.append(CHECK_CALL_END);
    }
    assert(r@ =~= head + check_body(name@, types@.len()));
    r.append(CHECK_END);
    r
}

/// Builds the definition of a probe's macro around the entry block given.
pub fn build_probe_macro(
    config: &CompileProvidersConfig,
    provider: &Provider,
    probe_name: &str,
    types: &[DataType],
    impl_block: String,
) -> (r: String)
    ensures
        r@ == macro_definition(
            config@,
            provider@.name,
            probe_name@,
            types.deep_view(),
            impl_block@,
        ),
{
    let module = config.module_name(provider.name.as_str());
    let name = config.format_probe(provider.name.as_str(), probe_name);
    let check = construct_type_check(provider.name.as_str(), probe_name, types);
    let mut r = String::from_str(MACRO_HEAD);
    r.append(name.as_str());
    r.append(MACRO_OPEN);
    let ghost head = r@;
    if types.len() == 0 {
        r.append(NO_ARGS_ARM);
        r.append(module.as_str());
        r.append("::");
        r.append(name.as_str());
        r.append(NO_ARGS_END);
    }
    assert(r@ =~= head + no_args_arm(module@, name@, types@.len()));
    r.append(MACRO_ARMS);
    r.append(check.as_str());
    r.append(impl_block.as_str());
    r.append(MACRO_CLOSE);
    r.append(name.as_str());
    r.append(MACRO_END);
    r
}

/// Compiles one probe of a provider into its macro. A probe with more
/// parameters than there are argument registers is refused: no entry point
/// and no record is made for it.
pub fn compile_probe(provider: &Provider, probe: &Probe, config: &CompileProvidersConfig) -> (r:
    Result<String, Error>)
    ensures
        match r {
            Ok(text) => arity_verdict(probe@.name, probe@.types.len()) is Ok && text@
                == probe_macro(config@, provider@.name, probe@),
            Err(error) => arity_verdict(probe@.name, probe@.types.len()) == Err::<(), ErrorView>(
                error@,
            ),
        },
{
    let prov = provider.name.as_str();
    let name = probe.name.as_str();
    let types = probe.types.as_slice();
    assert(types.deep_view() =~= probe@.types);
    let (unpacked_args, in_regs) = match construct_probe_args(name, types) {
        Ok(made) => made,
        Err(error) => {
            return Err(error);
        },
    };
    let isenabled_probe_rec = emit_isenabled_probe_record(prov, name);
    let probe_rec = match emit_probe_record(prov, name, Some(types)) {
        Ok(record) => record,
        Err(error) => {
            return Err(error);
        },
    };
    let enabled_literal = quote_string(isenabled_probe_rec.as_str());
    let firing_literal = quote_string(probe_rec.as_str());
    let sema_name = semaphore_name(prov, name);
    let mut impl_block = String::from_str(ENTRY_OPEN);
    impl_block.append(sema_name.as_str());
    impl_block.append(ENTRY_CHECK);
    impl_block.append(enabled_literal.as_str());
    impl_block.append(ENTRY_READ);
    impl_block.append(sema_name.as_str());
    impl_block.append(ENTRY_TEST);
    impl_block.append(unpacked_args.as_str());
    impl_block.append(ENTRY_FIRE);
    impl_block.append(firing_literal.as_str());
    impl_block.append(ENTRY_INPUTS);
    impl_block.append(in_regs.as_str());
    impl_block.append(ENTRY_CLOSE);
    Ok(build_probe_macro(config, provider, name, types, impl_block))
}

/// Compiles a provider into the module of its probes' macros, or names the
/// first rule that the provider breaks. Nothing is made for a provider that
/// breaks one.
pub fn compile_provider(provider: &Provider, config: &CompileProvidersConfig) -> (r: Result<
    String,
    Error,
>)
    ensures
        match r {
            Ok(text) => provider_problem(config@, provider@) is None && text@ == provider_module(
                config@,
                provider@,
            ),
            Err(error) => provider_problem(config@, provider@) == Some(error@),
        },
{
    match check_provider(provider, config) {
        Ok(_) => {},
        Err(error) => {
            return Err(error);
        },
    }
    proof {
        lemma_sound_provider_fits(config@, provider@);
    }
    let ghost views = provider@.probes;
    let module = config.module_name(provider.name.as_str());
    let mut r = String::from_str(MODULE_HEAD);
    r.append(module.as_str());
    r.append(MODULE_OPEN);
    let ghost head = r@;
    let mut i: usize = 0;
    assert(views.take(0) =~= Seq::<ProbeView>::empty());
    assert(head + Seq::<char>::empty() =~= head);
    while i < provider.probes.len()
        invariant
            i <= provider.probes@.len(),
            views == provider@.probes,
            arities_supported(provider@),
            provider_problem(config@, provider@) is None,
            r@ == head + probe_macros(config@, provider@.name, views.take(i as int)),
        decreases provider.probes@.len() - i,
    {
        let probe = &provider.probes[i];
        assert(probe@ == views[i as int]);
        assert(probe@.types.len() <= MAX_PROBE_ARGUMENTS);
        let text = match compile_probe(provider, probe, config) {
            Ok(text) => text,
            Err(error) => {
                return Err(error);
            },
        };
        r.append(text.as_str());
        proof {
            let next = views.take(i + 1);
            assert(next.drop_last() =~= views.take(i as int));
            assert(next.last() == probe@);
            assert(r@ =~= head + probe_macros(config@, provider@.name, next));
        }
        i += 1;
    }
    assert(views.take(i as int) =~= views);
    r.append(MODULE_CLOSE);
    Ok(r)
}

} // verus!
