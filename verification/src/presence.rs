//! What the compiled module of a provider is sure to hold: for every probe
//! declared, both of its records; in each record the names of the
//! declaration, and the base anchor; in the argument format one entry for
//! each parameter.

use crate::marshal::{input_operands, unpack_block};
use crate::model::{ConfigView, ProbeView, ProviderView, TypeView};
use crate::record::{
    argument_entry, argument_format, firing_record, isenabled_record, record_name,
    semaphore_symbol, BASE_ANCHOR, ENABLED_NOTE, ENABLED_PROVIDER, ENABLED_TAIL,
    FIRING_ARGUMENTS, FIRING_NOTE, FIRING_TAIL, NOTE_PROBE, SEMAPHORE_ALIGN, SEMAPHORE_GUARD,
    SEMAPHORE_HIDDEN,
    SEMAPHORE_LABEL, SEMAPHORE_OBJECT, SEMAPHORE_STORAGE, SEMAPHORE_WEAK,
};
use crate::synth::{
    entry_block, macro_name, module_name, no_args_arm, probe_macro,
    probe_macros, provider_module, type_check, ENTRY_CHECK, ENTRY_CLOSE, ENTRY_FIRE,
    ENTRY_INPUTS, ENTRY_OPEN, ENTRY_READ, ENTRY_TEST, MACRO_ARMS, MACRO_CLOSE, MACRO_END,
    MACRO_HEAD, MACRO_OPEN, MODULE_CLOSE, MODULE_HEAD, MODULE_OPEN,
};
use crate::text::string_literal;
use vstd::prelude::*;

verus! {

/// `part` stands in `text` at index `at`.
pub open spec fn occurs_at(part: Seq<char>, text: Seq<char>, at: int) -> bool {
    &&& 0 <= at
    &&& at + part.len() <= text.len()
    &&& text.subrange(at, at + part.len()) == part
}

/// `part` stands somewhere in `text`.
pub open spec fn occurs_in(part: Seq<char>, text: Seq<char>) -> bool {
    exists|at: int| occurs_at(part, text, at)
}

/// A text stands between what is written before and after it.
pub proof fn lemma_occurs_between(before: Seq<char>, part: Seq<char>, after: Seq<char>)
    ensures
        occurs_in(part, before + part + after),
{
    let text = before + part + after;
    assert(text.subrange(before.len() as int, (before.len() + part.len()) as int) =~= part);
    assert(occurs_at(part, text, before.len() as int));
}

/// What stands in a text stands in any text around it.
pub proof fn lemma_occurs_around(
    part: Seq<char>,
    before: Seq<char>,
    text: Seq<char>,
    after: Seq<char>,
)
    requires
        occurs_in(part, text),
    ensures
        occurs_in(part, before + text + after),
{
    let at = choose|at: int| occurs_at(part, text, at);
    let whole = before + text + after;
    assert(whole.subrange(before.len() + at, before.len() + at + part.len()) =~= text.subrange(
        at,
        at + part.len(),
    ));
    assert(occurs_at(part, whole, before.len() + at));
}

/// The argument format holds the entry of every parameter.
pub proof fn lemma_format_holds_every_entry(types: Seq<TypeView>, index: int)
    requires
        0 <= index < types.len(),
    ensures
        occurs_in(argument_entry(types[index], index as nat), argument_format(types)),
    decreases types.len(),
{
    let nothing = Seq::<char>::empty();
    let format = argument_format(types);
    if types.len() == 1 {
        lemma_occurs_between(nothing, format, nothing);
        assert(nothing + format + nothing =~= format);
    } else if index == types.len() - 1 {
        let before = argument_format(types.drop_last()) + seq![' '];
        let entry = argument_entry(types[index], index as nat);
        lemma_occurs_between(before, entry, nothing);
        assert(before + entry + nothing =~= format);
    } else {
        let front = types.drop_last();
        let after = seq![' '] + argument_entry(types.last(), (types.len() - 1) as nat);
        lemma_format_holds_every_entry(front, index);
        lemma_occurs_around(
            argument_entry(types[index], index as nat),
            nothing,
            argument_format(front),
            after,
        );
        assert(nothing + argument_format(front) + after =~= format);
    }
}

/// The firing record of a probe holds the provider's name, the probe's record
/// name and the argument format, and ends with the base anchor.
pub proof fn lemma_firing_record_holds_declaration(
    prov: Seq<char>,
    probe: Seq<char>,
    arguments: Seq<char>,
)
    ensures
        occurs_in(prov, firing_record(prov, probe, arguments)),
        occurs_in(record_name(probe), firing_record(prov, probe, arguments)),
        occurs_in(arguments, firing_record(prov, probe, arguments)),
        occurs_in(BASE_ANCHOR@, firing_record(prov, probe, arguments)),
{
    let record = firing_record(prov, probe, arguments);
    let name = record_name(probe);
    let nothing = Seq::<char>::empty();
    let after_prov = NOTE_PROBE@ + name + FIRING_ARGUMENTS@ + arguments + FIRING_TAIL@
        + BASE_ANCHOR@;
    lemma_occurs_between(FIRING_NOTE@, prov, after_prov);
    assert(FIRING_NOTE@ + prov + after_prov =~= record);
    let after_name = FIRING_ARGUMENTS@ + arguments + FIRING_TAIL@ + BASE_ANCHOR@;
    lemma_occurs_between(FIRING_NOTE@ + prov + NOTE_PROBE@, name, after_name);
    assert(FIRING_NOTE@ + prov + NOTE_PROBE@ + name + after_name =~= record);
    let before_arguments = FIRING_NOTE@ + prov + NOTE_PROBE@ + name + FIRING_ARGUMENTS@;
    lemma_occurs_between(before_arguments, arguments, FIRING_TAIL@ + BASE_ANCHOR@);
    assert(before_arguments + arguments + (FIRING_TAIL@ + BASE_ANCHOR@) =~= record);
    lemma_occurs_between(before_arguments + arguments + FIRING_TAIL@, BASE_ANCHOR@, nothing);
    assert(before_arguments + arguments + FIRING_TAIL@ + BASE_ANCHOR@ + nothing =~= record);
}

/// The definition of a probe's semaphore from its alignment on: the directive
/// that aligns it to two bytes, directly followed by its label and its two
/// bytes of storage.
pub open spec fn aligned_semaphore(prov: Seq<char>, probe: Seq<char>) -> Seq<char> {
    SEMAPHORE_ALIGN@ + SEMAPHORE_LABEL@ + semaphore_symbol(prov, probe) + SEMAPHORE_STORAGE@
}

/// The is-enabled record of a probe holds the aligned definition of the
/// probe's semaphore, the semaphore's symbol, the provider's name and the
/// probe's record name, and ends with the base anchor.
pub proof fn lemma_isenabled_record_holds_declaration(prov: Seq<char>, probe: Seq<char>)
    ensures
        occurs_in(aligned_semaphore(prov, probe), isenabled_record(prov, probe)),
        occurs_in(semaphore_symbol(prov, probe), isenabled_record(prov, probe)),
        occurs_in(prov, isenabled_record(prov, probe)),
        occurs_in(record_name(probe), isenabled_record(prov, probe)),
        occurs_in(BASE_ANCHOR@, isenabled_record(prov, probe)),
{
    let record = isenabled_record(prov, probe);
    let sema = semaphore_symbol(prov, probe);
    let name = record_name(probe);
    let nothing = Seq::<char>::empty();
    let declared = SEMAPHORE_GUARD@ + sema + SEMAPHORE_WEAK@ + sema + SEMAPHORE_HIDDEN@ + sema;
    let aligned = aligned_semaphore(prov, probe);
    let defined = declared + aligned + sema + SEMAPHORE_OBJECT@ + sema + ENABLED_NOTE@;
    let after_sema = ENABLED_PROVIDER@ + prov + NOTE_PROBE@ + name + ENABLED_TAIL@
        + BASE_ANCHOR@;
    let after_aligned = sema + SEMAPHORE_OBJECT@ + sema + ENABLED_NOTE@ + sema + after_sema;
    lemma_occurs_between(declared, aligned, after_aligned);
    assert(declared + aligned + after_aligned =~= record);
    lemma_occurs_between(defined, sema, after_sema);
    assert(defined + sema + after_sema =~= record);
    let after_prov = NOTE_PROBE@ + name + ENABLED_TAIL@ + BASE_ANCHOR@;
    lemma_occurs_between(defined + sema + ENABLED_PROVIDER@, prov, after_prov);
    assert(defined + sema + ENABLED_PROVIDER@ + prov + after_prov =~= record);
    let before_name = defined + sema + ENABLED_PROVIDER@ + prov + NOTE_PROBE@;
    lemma_occurs_between(before_name, name, ENABLED_TAIL@ + BASE_ANCHOR@);
    assert(before_name + name + (ENABLED_TAIL@ + BASE_ANCHOR@) =~= record);
    lemma_occurs_between(before_name + name + ENABLED_TAIL@, BASE_ANCHOR@, nothing);
    assert(before_name + name + ENABLED_TAIL@ + BASE_ANCHOR@ + nothing =~= record);
}

/// The literal of the is-enabled record of a probe, as its macro holds it.
pub open spec fn enabled_literal(provider: Seq<char>, probe: ProbeView) -> Seq<char> {
    string_literal(isenabled_record(provider, probe.name))
}

/// The literal of the firing record of a probe, as its macro holds it.
pub open spec fn firing_literal(provider: Seq<char>, probe: ProbeView) -> Seq<char> {
    string_literal(firing_record(provider, probe.name, argument_format(probe.types)))
}

/// The macro of a probe holds both records of the probe: the is-enabled
/// record, and the firing record with the argument format of its parameters.
pub proof fn lemma_macro_holds_records(config: ConfigView, provider: Seq<char>, probe: ProbeView)
    ensures
        occurs_in(enabled_literal(provider, probe), probe_macro(config, provider, probe)),
        occurs_in(firing_literal(provider, probe), probe_macro(config, provider, probe)),
{
    let sema = semaphore_symbol(provider, probe.name);
    let enabled = enabled_literal(provider, probe);
    let firing = firing_literal(provider, probe);
    let block = entry_block(provider, probe.name, probe.types);
    let after_enabled = ENTRY_READ@ + sema + ENTRY_TEST@ + unpack_block(probe.types) + ENTRY_FIRE@
        + firing + ENTRY_INPUTS@ + input_operands(probe.types) + ENTRY_CLOSE@;
    lemma_occurs_between(ENTRY_OPEN@ + sema + ENTRY_CHECK@, enabled, after_enabled);
    assert(ENTRY_OPEN@ + sema + ENTRY_CHECK@ + enabled + after_enabled =~= block);
    let before_firing = ENTRY_OPEN@ + sema + ENTRY_CHECK@ + enabled + ENTRY_READ@ + sema
        + ENTRY_TEST@ + unpack_block(probe.types) + ENTRY_FIRE@;
    let after_firing = ENTRY_INPUTS@ + input_operands(probe.types) + ENTRY_CLOSE@;
    lemma_occurs_between(before_firing, firing, after_firing);
    assert(before_firing + firing + after_firing =~= block);
    let name = macro_name(config, provider, probe.name);
    let before_block = MACRO_HEAD@ + name + MACRO_OPEN@ + no_args_arm(
        module_name(config, provider),
        name,
        probe.types.len(),
    ) + MACRO_ARMS@ + type_check(provider, probe.name, probe.types);
    let after_block = MACRO_CLOSE@ + name + MACRO_END@;
    assert(before_block + block + after_block =~= probe_macro(config, provider, probe));
    lemma_occurs_around(enabled, before_block, block, after_block);
    lemma_occurs_around(firing, before_block, block, after_block);
}

/// The macros of a list of probes hold the records of every probe of the list.
pub proof fn lemma_macros_hold_every_probe(
    config: ConfigView,
    provider: Seq<char>,
    probes: Seq<ProbeView>,
    index: int,
)
    requires
        0 <= index < probes.len(),
    ensures
        occurs_in(enabled_literal(provider, probes[index]), probe_macros(config, provider, probes)),
        occurs_in(firing_literal(provider, probes[index]), probe_macros(config, provider, probes)),
    decreases probes.len(),
{
    let nothing = Seq::<char>::empty();
    let front = probe_macros(config, provider, probes.drop_last());
    let last = probe_macro(config, provider, probes.last());
    let all = probe_macros(config, provider, probes);
    let enabled = enabled_literal(provider, probes[index]);
    let firing = firing_literal(provider, probes[index]);
    if index == probes.len() - 1 {
        lemma_macro_holds_records(config, provider, probes.last());
        lemma_occurs_around(enabled, front, last, nothing);
        lemma_occurs_around(firing, front, last, nothing);
        assert(front + last + nothing =~= all);
    } else {
        lemma_macros_hold_every_probe(config, provider, probes.drop_last(), index);
        lemma_occurs_around(enabled, nothing, front, last);
        lemma_occurs_around(firing, nothing, front, last);
        assert(nothing + front + last =~= all);
    }
}

/// For every probe declared, the module of its provider holds both of the
/// probe's records.
pub proof fn lemma_module_holds_every_probe(
    config: ConfigView,
    provider: ProviderView,
    index: int,
)
    requires
        0 <= index < provider.probes.len(),
    ensures
        occurs_in(
            enabled_literal(provider.name, provider.probes[index]),
            provider_module(config, provider),
        ),
        occurs_in(
            firing_literal(provider.name, provider.probes[index]),
            provider_module(config, provider),
        ),
{
    let before = MODULE_HEAD@ + module_name(config, provider.name) + MODULE_OPEN@;
    let macros = probe_macros(config, provider.name, provider.probes);
    lemma_macros_hold_every_probe(config, provider.name, provider.probes, index);
    lemma_occurs_around(
        enabled_literal(provider.name, provider.probes[index]),
        before,
        macros,
        MODULE_CLOSE@,
    );
    lemma_occurs_around(
        firing_literal(provider.name, provider.probes[index]),
        before,
        macros,
        MODULE_CLOSE@,
    );
}

} // verus!
