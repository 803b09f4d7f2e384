//! Writes providers as D provider scripts, the form in which tracers and
//! their tools exchange provider descriptions.

use crate::lexicon::c_type;
use crate::model::{Probe, ProbeView, Provider, ProviderView, TypeView};
use vstd::prelude::*;
use vstd::string::*;

verus! {

/// The parameter list of a probe in D: the types' names, separated by a comma
/// and a space.
pub open spec fn types_source(types: Seq<TypeView>) -> Seq<char>
    decreases types.len(),
{
    if types.len() == 0 {
        Seq::empty()
    } else if types.len() == 1 {
        c_type(types[0])
    } else {
        types_source(types.drop_last()) + ", "@ + c_type(types.last())
    }
}

/// A probe in D, on a line of its own: `probe NAME(TYPE, TYPE, ...);`.
pub open spec fn probe_source(probe: ProbeView) -> Seq<char> {
    "\tprobe "@ + probe.name + "("@ + types_source(probe.types) + ");\n"@
}

/// The probes of a provider in D, in declared order.
pub open spec fn probes_source(probes: Seq<ProbeView>) -> Seq<char>
    decreases probes.len(),
{
    if probes.len() == 0 {
        Seq::empty()
    } else {
        probes_source(probes.drop_last()) + probe_source(probes.last())
    }
}

/// A provider in D: `provider NAME { ... };` around its probes.
pub open spec fn provider_source(provider: ProviderView) -> Seq<char> {
    "provider "@ + provider.name + " {\n"@ + probes_source(provider.probes) + "};\n"@
}

/// A list of providers in D, in declared order.
pub open spec fn providers_source(providers: Seq<ProviderView>) -> Seq<char>
    decreases providers.len(),
{
    if providers.len() == 0 {
        Seq::empty()
    } else {
        providers_source(providers.drop_last()) + provider_source(providers.last())
    }
}

impl Probe {
    /// Writes this probe as a line of a D provider script.
    pub fn to_d_source(&self) -> (r: String)
        ensures
            r@ == probe_source(self@),
    {
        let ghost views = self@.types;
        let mut r = String::from_str("\tprobe ");
        r.append(self.name.as_str());
        r.append("(");
        let ghost head = r@;
        let mut i: usize = 0;
        proof {
            assert(views.take(0) =~= Seq::<TypeView>::empty());
            assert(head + Seq::<char>::empty() =~= head);
        }
        while i < self.types.len()
            invariant
                i <= self.types@.len(),
                views == self.types.deep_view(),
                r@ == head + types_source(views.take(i as int)),
            decreases self.types@.len() - i,
        {
            let ghost before = types_source(views.take(i as int));
            if i > 0 {
                r.append(", ");
            }
            r.append(self.types[i].to_c_type());
            proof {
                let next = views.take(i + 1);
                assert(next.drop_last() =~= views.take(i as int));
                assert(next.last() == self.types@[i as int]@);
                if i > 0 {
                    assert(r@ =~= head + (before + ", "@ + c_type(next.last())));
                } else {
                    assert(before =~= Seq::<char>::empty());
                    assert(r@ =~= head + c_type(next[0]));
                }
            }
            i += 1;
        }
        assert(views.take(i as int) =~= views);
        r.append(");\n");
        r
    }
}

impl Provider {
    /// Writes this provider as a D provider script.
    pub fn to_d_source(&self) -> (r: String)
        ensures
            r@ == provider_source(self@),
    {
        let ghost views = self@.probes;
        let mut r = String::from_str("provider ");
        r.append(self.name.as_str());
        r.append(" {\n");
        let ghost head = r@;
        let mut i: usize = 0;
        proof {
            assert(views.take(0) =~= Seq::<ProbeView>::empty());
            assert(head + Seq::<char>::empty() =~= head);
        }
        while i < self.probes.len()
            invariant
                i <= self.probes@.len(),
                views == self.probes.deep_view(),
                r@ == head + probes_source(views.take(i as int)),
            decreases self.probes@.len() - i,
        {
            let line = self.probes[i].to_d_source();
            r.append(line.as_str());
            proof {
                let next = views.take(i + 1);
                assert(next.drop_last() =~= views.take(i as int));
                assert(next.last() == self.probes@[i as int]@);
                assert(r@ =~= head + probes_source(next));
            }
            i += 1;
        }
        assert(views.take(i as int) =~= views);
        r.append("};\n");
        r
    }
}

} // verus!
