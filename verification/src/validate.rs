//! The rules that a provider description must meet before anything is
//! generated for it: names are identifiers, a probe's parameters fit the
//! argument registers, and no probe name is used twice.

use crate::lexicon::{arity_supported, MAX_PROBE_ARGUMENTS};
use crate::model::{
    CompileProvidersConfig, ConfigView, Error, ErrorView, Probe, ProbeView, Provider, ProviderView,
};
use crate::synth::{arities_supported, macro_name, module_name};
use crate::text::{is_identifier, is_valid_identifier};
use vstd::prelude::*;
use vstd::string::*;

verus! {

/// Some probe before position `index` has the name of the probe at `index`.
pub open spec fn repeats_earlier(probes: Seq<ProbeView>, index: int) -> bool {
    exists|j: int| 0 <= j < index && (#[trigger] probes[j]).name == probes[index].name
}

/// What is wrong with the probe at position `index`, if anything: its name,
/// the name of its macro, its arity, or the reuse of an earlier probe's name,
/// whichever comes first in that order.
pub open spec fn probe_problem(config: ConfigView, provider: ProviderView, index: int) -> Option<
    ErrorView,
> {
    let probe = provider.probes[index];
    let name = macro_name(config, provider.name, probe.name);
    if !is_identifier(probe.name) {
        Some(ErrorView::InvalidName { name: probe.name })
    } else if !is_identifier(name) {
        Some(ErrorView::InvalidName { name })
    } else if probe.types.len() > MAX_PROBE_ARGUMENTS {
        Some(ErrorView::UnsupportedArity { probe: probe.name, count: probe.types.len() })
    } else if repeats_earlier(provider.probes, index) {
        Some(ErrorView::DuplicateProbe { probe: probe.name })
    } else {
        None
    }
}

/// The problem of the first faulty probe among the first `count`, if any.
pub open spec fn probes_problem(config: ConfigView, provider: ProviderView, count: nat) -> Option<
    ErrorView,
>
    decreases count,
{
    if count == 0 {
        None
    } else {
        match probes_problem(config, provider, (count - 1) as nat) {
            Some(error) => Some(error),
            None => probe_problem(config, provider, count - 1),
        }
    }
}

/// Why nothing is generated for a provider, if anything stands against it:
/// the provider's name, the module's name, or the first faulty probe,
/// whichever comes first in that order.
pub open spec fn provider_problem(config: ConfigView, provider: ProviderView) -> Option<ErrorView> {
    let module = module_name(config, provider.name);
    if !is_identifier(provider.name) {
        Some(ErrorView::InvalidName { name: provider.name })
    } else if !is_identifier(module) {
        Some(ErrorView::InvalidName { name: module })
    } else {
        probes_problem(config, provider, provider.probes.len())
    }
}

/// The rules of the data model, for a provider compiled under a configuration:
/// the names of the provider, of its module, of each probe and of each probe's
/// macro are identifiers, each probe's parameters fit the argument registers,
/// and no two probes share a name.
pub open spec fn well_formed(config: ConfigView, provider: ProviderView) -> bool {
    &&& is_identifier(provider.name)
    &&& is_identifier(module_name(config, provider.name))
    &&& forall|i: int|
        0 <= i < provider.probes.len() ==> {
            &&& is_identifier((#[trigger] provider.probes[i]).name)
            &&& is_identifier(macro_name(config, provider.name, provider.probes[i].name))
            &&& provider.probes[i].types.len() <= MAX_PROBE_ARGUMENTS
        }
    &&& forall|i: int, j: int|
        0 <= i < j < provider.probes.len() ==> (#[trigger] provider.probes[i]).name != (
        #[trigger] provider.probes[j]).name
}

/// A provider is refused if, and only if, it breaks a rule of the data model.
pub proof fn lemma_refused_iff_ill_formed(config: ConfigView, provider: ProviderView)
    ensures
        provider_problem(config, provider) is None <==> well_formed(config, provider),
{
    let probes = provider.probes;
    if provider_problem(config, provider) is None {
        assert forall|i: int| 0 <= i < probes.len() implies {
            &&& is_identifier((#[trigger] probes[i]).name)
            &&& is_identifier(macro_name(config, provider.name, probes[i].name))
            &&& probes[i].types.len() <= MAX_PROBE_ARGUMENTS
        } by {
            lemma_probes_sound(config, provider, probes.len(), i);
        }
        assert forall|i: int, j: int| 0 <= i < j < probes.len() implies (#[trigger] probes[i]).name
            != (#[trigger] probes[j]).name by {
            lemma_probes_sound(config, provider, probes.len(), j);
            assert(!repeats_earlier(probes, j));
        }
    }
    if well_formed(config, provider) {
        lemma_well_formed_probes(config, provider, probes.len());
    }
}

/// Among the probes of a well-formed provider none has a problem.
proof fn lemma_well_formed_probes(config: ConfigView, provider: ProviderView, count: nat)
    requires
        well_formed(config, provider),
        count <= provider.probes.len(),
    ensures
        probes_problem(config, provider, count) is None,
    decreases count,
{
    if count > 0 {
        lemma_well_formed_probes(config, provider, (count - 1) as nat);
        let last = count - 1;
        assert(is_identifier(provider.probes[last].name));
        assert(!repeats_earlier(provider.probes, last));
    }
}

/// A provider without problem gives every probe parameter a register.
pub proof fn lemma_sound_provider_fits(config: ConfigView, provider: ProviderView)
    requires
        provider_problem(config, provider) is None,
    ensures
        arities_supported(provider),
{
    assert forall|i: int| 0 <= i < provider.probes.len() implies (
    #[trigger] provider.probes[i]).types.len() <= MAX_PROBE_ARGUMENTS by {
        lemma_probes_sound(config, provider, provider.probes.len(), i);
    }
}

/// Where the first `count` probes have no problem, none of them has one.
pub proof fn lemma_probes_sound(config: ConfigView, provider: ProviderView, count: nat, index: int)
    requires
        probes_problem(config, provider, count) is None,
        0 <= index < count,
    ensures
        probe_problem(config, provider, index) is None,
    decreases count,
{
    if index < count - 1 {
        lemma_probes_sound(config, provider, (count - 1) as nat, index);
    }
}

/// Tells whether an earlier probe has the name of the probe at `index`.
fn name_repeats(probes: &Vec<Probe>, index: usize) -> (b: bool)
    requires
        index < probes@.len(),
    ensures
        b == repeats_earlier(probes.deep_view(), index as int),
{
    let ghost views = probes.deep_view();
    let mut j: usize = 0;
    while j < index
        invariant
            j <= index < probes@.len(),
            views == probes.deep_view(),
            forall|k: int| 0 <= k < j ==> (#[trigger] views[k]).name != views[index as int].name,
        decreases index - j,
    {
        if probes[j].name == probes[index].name {
            assert(views[j as int].name == views[index as int].name);
            return true;
        }
        j += 1;
    }
    false
}

/// Checks the probe at `index` of a provider.
fn check_probe(provider: &Provider, config: &CompileProvidersConfig, index: usize) -> (r: Result<
    (),
    Error,
>)
    requires
        index < provider.probes@.len(),
    ensures
        match r {
            Ok(_) => probe_problem(config@, provider@, index as int) is None,
            Err(error) => probe_problem(config@, provider@, index as int) == Some(error@),
        },
{
    let probe = &provider.probes[index];
    assert(probe@ == provider@.probes[index as int]);
    if !is_valid_identifier(probe.name.as_str()) {
        return Err(Error::InvalidName { name: probe.name.clone() });
    }
    let name = config.format_probe(provider.name.as_str(), probe.name.as_str());
    if !is_valid_identifier(name.as_str()) {
        return Err(Error::InvalidName { name });
    }
    if !arity_supported(probe.types.len()) {
        return Err(Error::UnsupportedArity { probe: probe.name.clone(), count: probe.types.len() });
    }
    if name_repeats(&provider.probes, index) {
        return Err(Error::DuplicateProbe { probe: probe.name.clone() });
    }
    Ok(())
}

/// Checks a provider description against the rules, and names the first
/// breach.
pub fn check_provider(provider: &Provider, config: &CompileProvidersConfig) -> (r: Result<
    (),
    Error,
>)
    ensures
        match r {
            Ok(_) => provider_problem(config@, provider@) is None,
            Err(error) => provider_problem(config@, provider@) == Some(error@),
        },
{
    if !is_valid_identifier(provider.name.as_str()) {
        return Err(Error::InvalidName { name: provider.name.clone() });
    }
    let module = config.module_name(provider.name.as_str());
    if !is_valid_identifier(module.as_str()) {
        return Err(Error::InvalidName { name: module });
    }
    let mut i: usize = 0;
    while i < provider.probes.len()
        invariant
            i <= provider.probes@.len(),
            is_identifier(provider@.name),
            is_identifier(module_name(config@, provider@.name)),
            probes_problem(config@, provider@, i as nat) is None,
        decreases provider.probes@.len() - i,
    {
        match check_probe(provider, config, i) {
            Ok(_) => {},
            Err(error) => {
                assert(probes_problem(config@, provider@, (i + 1) as nat) == Some(error@));
                proof {
                    lemma_first_problem_stays(
                        config@,
                        provider@,
                        (i + 1) as nat,
                        provider@.probes.len(),
                    );
                }
                return Err(error);
            },
        }
        i += 1;
    }
    Ok(())
}

/// A problem among the first `count` probes is the problem of any longer prefix.
pub proof fn lemma_first_problem_stays(
    config: ConfigView,
    provider: ProviderView,
    count: nat,
    longer: nat,
)
    requires
        probes_problem(config, provider, count) is Some,
        count <= longer,
    ensures
        probes_problem(config, provider, longer) == probes_problem(config, provider, count),
    decreases longer,
{
    if count < longer {
        lemma_first_problem_stays(config, provider, count, (longer - 1) as nat);
    }
}

} // verus!
