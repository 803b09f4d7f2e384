//! The entry points of the generator: from a provider description to the
//! tokens of the module that holds its probes' macros.

use crate::grammar::parse_result;
use crate::model::{
    CompileProvidersConfig, ConfigView, Error, ErrorView, Provider, ProviderView,
};
use crate::parse::parse_providers;
use crate::synth::{compile_provider, provider_module};
use crate::validate::provider_problem;
use proc_macro2::{LexError, TokenStream};
use vstd::prelude::*;
use vstd::string::*;

verus! {

/// A sequence of tokens of `proc_macro2`. Nothing is read from it here: it is
/// made by the lexer and handed to the caller as it is.
#[verifier::external_type_specification]
#[verifier::external_body]
pub struct ExTokenStream(TokenStream);

/// The error of `proc_macro2`'s lexer. Nothing is read from it here.
#[verifier::external_type_specification]
#[verifier::external_body]
pub struct ExLexError(LexError);

/// Splits source text into tokens.
///
/// Trusted: this is `proc_macro2`'s `FromStr::from_str` for `TokenStream`. It
/// uses the compiler's lexer inside a procedural macro and the crate's own
/// elsewhere, so nothing is claimed of what comes back.
#[verifier::external_body]
fn lex_source(text: &str) -> (r: Result<TokenStream, LexError>) {
    <TokenStream as core::str::FromStr>::from_str(text)
}

/// Hands on the tokens of generated source, or reports that it has none.
pub fn tokens_or_error(lexed: Result<TokenStream, LexError>) -> (r: Result<TokenStream, Error>)
    ensures
        match lexed {
            Ok(tokens) => r == Ok::<TokenStream, Error>(tokens),
            Err(_) => r matches Err(error) && error@ == ErrorView::Tokens,
        },
{
    match lexed {
        Ok(tokens) => Ok(tokens),
        Err(_) => Err(Error::Tokens),
    }
}

/// Compiles a provider given as a value into the tokens of its module.
///
/// A provider that breaks a rule is refused with that rule's error. For any
/// other the source of `compile_provider` is handed to the lexer, and
/// the result is its tokens, or `Error::Tokens` where it finds none.
pub fn compile_provider_from_definition(
    provider: &Provider,
    config: &CompileProvidersConfig,
) -> (r: Result<TokenStream, Error>)
    ensures
        provider_problem(config@, provider@) matches Some(problem) ==> (r matches Err(error)
            && error@ == problem),
        provider_problem(config@, provider@) is None ==> (r is Ok || (r matches Err(error)
            && error@ == ErrorView::Tokens)),
{
    match compile_provider(provider, config) {
        Ok(text) => tokens_or_error(lex_source(text.as_str())),
        Err(error) => Err(error),
    }
}

/// The configuration under which a provider read from a source is compiled:
/// probe formats refer to the provider by its own name, and the module is
/// named after the provider unless the caller names it.
pub open spec fn named_config(config: ConfigView, provider: Seq<char>) -> ConfigView {
    ConfigView {
        provider: Some(provider),
        probe_format: config.probe_format,
        module: match config.module {
            Some(module) => Some(module),
            None => Some(provider),
        },
    }
}

/// The problem of the first faulty provider among the first `count`, if any.
pub open spec fn providers_problem(
    config: ConfigView,
    providers: Seq<ProviderView>,
    count: nat,
) -> Option<ErrorView>
    decreases count,
{
    if count == 0 {
        None
    } else {
        match providers_problem(config, providers, (count - 1) as nat) {
            Some(error) => Some(error),
            None => provider_problem(
                named_config(config, providers[count - 1].name),
                providers[count - 1],
            ),
        }
    }
}

/// The modules of a list of providers, in declared order.
pub open spec fn provider_modules(config: ConfigView, providers: Seq<ProviderView>) -> Seq<char>
    decreases providers.len(),
{
    if providers.len() == 0 {
        Seq::empty()
    } else {
        provider_modules(config, providers.drop_last()) + provider_module(
            named_config(config, providers.last().name),
            providers.last(),
        )
    }
}

/// What is generated for the source of a provider description: the modules of
/// its providers, or the error of the source, or else of the first provider
/// that breaks a rule.
pub open spec fn source_result(config: ConfigView, source: Seq<char>) -> Result<
    Seq<char>,
    ErrorView,
> {
    match parse_result(source) {
        Ok(providers) => match providers_problem(config, providers, providers.len()) {
            Some(error) => Err(error),
            None => Ok(provider_modules(config, providers)),
        },
        Err(error) => Err(error),
    }
}

/// A problem among the first `count` providers is the problem of any longer prefix.
pub proof fn lemma_first_faulty_provider_stays(
    config: ConfigView,
    providers: Seq<ProviderView>,
    count: nat,
    longer: nat,
)
    requires
        providers_problem(config, providers, count) is Some,
        count <= longer,
    ensures
        providers_problem(config, providers, longer) == providers_problem(
            config,
            providers,
            count,
        ),
    decreases longer,
{
    if count < longer {
        lemma_first_faulty_provider_stays(config, providers, count, (longer - 1) as nat);
    }
}

/// Builds the configuration under which a provider read from a source is compiled.
fn config_for(config: &CompileProvidersConfig, provider: &Provider) -> (r: CompileProvidersConfig)
    ensures
        r@ == named_config(config@, provider@.name),
{
    CompileProvidersConfig {
        provider: Some(provider.name.clone()),
        probe_format: match &config.probe_format {
            Some(format) => Some(format.clone()),
            None => None,
        },
        module: match &config.module {
            Some(module) => Some(module.clone()),
            None => Some(provider.name.clone()),
        },
    }
}

/// The source of the modules for the providers that a D provider script
/// describes, or the error that stands against it.
pub fn providers_source(source: &str, config: &CompileProvidersConfig) -> (r: Result<
    String,
    Error,
>)
    ensures
        match r {
            Ok(text) => source_result(config@, source@) == Ok::<Seq<char>, ErrorView>(text@),
            Err(error) => source_result(config@, source@) == Err::<Seq<char>, ErrorView>(error@),
        },
{
    let providers = match parse_providers(source) {
        Ok(providers) => providers,
        Err(error) => {
            return Err(error);
        },
    };
    let ghost views = providers.deep_view();
    let mut text = String::new();
    let mut i: usize = 0;
    assert(views.take(0) =~= Seq::<ProviderView>::empty());
    while i < providers.len()
        invariant
            i <= providers@.len(),
            views == providers.deep_view(),
            parse_result(source@) == Ok::<Seq<ProviderView>, ErrorView>(views),
            providers_problem(config@, views, i as nat) is None,
            text@ == provider_modules(config@, views.take(i as int)),
        decreases providers@.len() - i,
    {
        let provider = &providers[i];
        assert(provider@ == views[i as int]);
        let named = config_for(config, provider);
        match compile_provider(provider, &named) {
            Ok(module) => {
                text.append(module.as_str());
            },
            Err(error) => {
                proof {
                    assert(providers_problem(config@, views, (i + 1) as nat) == Some(error@));
                    lemma_first_faulty_provider_stays(
                        config@,
                        views,
                        (i + 1) as nat,
                        views.len(),
                    );
                }
                return Err(error);
            },
        }
        proof {
            let next = views.take(i + 1);
            assert(next.drop_last() =~= views.take(i as int));
            assert(next.last() == provider@);
        }
        i += 1;
    }
    assert(views.take(i as int) =~= views);
    Ok(text)
}

/// Compiles the source of a D provider script into the tokens of the modules
/// of its providers.
///
/// A source that `providers_source` refuses is refused with the same error.
/// For any other the source that it gives is handed to the lexer, and the
/// result is its tokens, or `Error::Tokens` where it finds none.
pub fn compile_provider_source(source: &str, config: &CompileProvidersConfig) -> (r: Result<
    TokenStream,
    Error,
>)
    ensures
        source_result(config@, source@) matches Err(problem) ==> (r matches Err(error) && error@
            == problem),
        source_result(config@, source@) is Ok ==> (r is Ok || (r matches Err(error) && error@
            == ErrorView::Tokens)),
{
    match providers_source(source, config) {
        Ok(text) => tokens_or_error(lex_source(text.as_str())),
        Err(error) => Err(error),
    }
}

/// Registers the probes of this process with the tracing subsystem. Under
/// SystemTap there is nothing to do: the kernel finds the notes in the
/// executable by itself. May be called any number of times.
pub fn register_probes() -> (r: Result<(), Error>)
    ensures
        r is Ok,
{
    Ok(())
}

} // verus!
