//! The data model: providers, probes, parameter types and the errors of the
//! generator, each with the mathematical value that contracts speak of.

use vstd::prelude::*;

verus! {

/// Width of a native integer parameter.
#[derive(Clone, Copy, Debug, PartialEq, Eq, Structural)]
pub enum BitWidth {
    Bit8,
    Bit16,
    Bit32,
    Bit64,
}

/// The type of one probe parameter.
#[derive(Clone, Debug, PartialEq, Eq)]
pub enum DataType {
    /// A native integer, passed by value.
    Integer { signed: bool, width: BitWidth },
    /// A pointer to a null-terminated C string.
    CString,
    /// Any other type, named as the application writes it. Its value reaches
    /// the tracer as a JSON string.
    Serializable(String),
}

/// The mathematical value of a `DataType`.
pub enum TypeView {
    Integer { signed: bool, width: BitWidth },
    CString,
    Serializable(Seq<char>),
}

impl DeepView for DataType {
    type V = TypeView;

    open spec fn deep_view(&self) -> TypeView {
        match self {
            DataType::Integer { signed, width } => TypeView::Integer {
                signed: *signed,
                width: *width,
            },
            DataType::CString => TypeView::CString,
            DataType::Serializable(name) => TypeView::Serializable(name@),
        }
    }
}

impl View for DataType {
    type V = TypeView;

    open spec fn view(&self) -> TypeView {
        self.deep_view()
    }
}

/// A named event with an ordered list of parameter types.
#[derive(Clone, Debug, PartialEq, Eq)]
pub struct Probe {
    pub name: String,
    pub types: Vec<DataType>,
}

/// The mathematical value of a `Probe`.
pub struct ProbeView {
    pub name: Seq<char>,
    pub types: Seq<TypeView>,
}

impl DeepView for Probe {
    type V = ProbeView;

    open spec fn deep_view(&self) -> ProbeView {
        ProbeView { name: self.name@, types: self.types.deep_view() }
    }
}

impl View for Probe {
    type V = ProbeView;

    open spec fn view(&self) -> ProbeView {
        self.deep_view()
    }
}

/// A namespace with an ordered list of probes.
#[derive(Clone, Debug, PartialEq, Eq)]
pub struct Provider {
    pub name: String,
    pub probes: Vec<Probe>,
}

/// The mathematical value of a `Provider`.
pub struct ProviderView {
    pub name: Seq<char>,
    pub probes: Seq<ProbeView>,
}

impl DeepView for Provider {
    type V = ProviderView;

    open spec fn deep_view(&self) -> ProviderView {
        ProviderView { name: self.name@, probes: self.probes.deep_view() }
    }
}

impl View for Provider {
    type V = ProviderView;

    open spec fn view(&self) -> ProviderView {
        self.deep_view()
    }
}

/// How the generated items are named.
#[derive(Clone, Debug, PartialEq, Eq)]
pub struct CompileProvidersConfig {
    /// The provider name that a probe format refers to; the provider's own
    /// name where absent.
    pub provider: Option<String>,
    /// The pattern of a probe macro's name, in which `{provider}` and `{probe}`
    /// stand for the two names; the probe's name alone where absent.
    pub probe_format: Option<String>,
    /// The name of the generated module; that of the provider where absent.
    pub module: Option<String>,
}

/// The mathematical value of a `CompileProvidersConfig`.
pub struct ConfigView {
    pub provider: Option<Seq<char>>,
    pub probe_format: Option<Seq<char>>,
    pub module: Option<Seq<char>>,
}

impl DeepView for CompileProvidersConfig {
    type V = ConfigView;

    open spec fn deep_view(&self) -> ConfigView {
        ConfigView {
            provider: self.provider.deep_view(),
            probe_format: self.probe_format.deep_view(),
            module: self.module.deep_view(),
        }
    }
}

impl View for CompileProvidersConfig {
    type V = ConfigView;

    open spec fn view(&self) -> ConfigView {
        self.deep_view()
    }
}

impl Default for CompileProvidersConfig {
    /// The configuration that names everything after the provider and its probes.
    fn default() -> (config: Self)
        ensures
            config@ == (ConfigView { provider: None, probe_format: None, module: None }),
    {
        CompileProvidersConfig { provider: None, probe_format: None, module: None }
    }
}

/// Why a provider description was not compiled.
#[derive(Clone, Debug, PartialEq, Eq)]
pub enum Error {
    /// The provider source is malformed at `token`, which stands on `line`
    /// (counted from one). At the end of the source `token` is empty.
    Parse { line: usize, token: String },
    /// A parameter type is not in the lexicon.
    UnknownType { line: usize, name: String },
    /// A provider, probe, module or macro name is not an identifier.
    InvalidName { name: String },
    /// A probe has more parameters than the ABI has argument registers.
    UnsupportedArity { probe: String, count: usize },
    /// A probe name is used twice in one provider.
    DuplicateProbe { probe: String },
    /// The generated source does not form a sequence of tokens.
    Tokens,
}

/// The mathematical value of an `Error`.
pub enum ErrorView {
    Parse { line: nat, token: Seq<char> },
    UnknownType { line: nat, name: Seq<char> },
    InvalidName { name: Seq<char> },
    UnsupportedArity { probe: Seq<char>, count: nat },
    DuplicateProbe { probe: Seq<char> },
    Tokens,
}

impl DeepView for Error {
    type V = ErrorView;

    open spec fn deep_view(&self) -> ErrorView {
        match self {
            Error::Parse { line, token } => ErrorView::Parse { line: *line as nat, token: token@ },
            Error::UnknownType { line, name } => ErrorView::UnknownType {
                line: *line as nat,
                name: name@,
            },
            Error::InvalidName { name } => ErrorView::InvalidName { name: name@ },
            Error::UnsupportedArity { probe, count } => ErrorView::UnsupportedArity {
                probe: probe@,
                count: *count as nat,
            },
            Error::DuplicateProbe { probe } => ErrorView::DuplicateProbe { probe: probe@ },
            Error::Tokens => ErrorView::Tokens,
        }
    }
}

impl View for Error {
    type V = ErrorView;

    open spec fn view(&self) -> ErrorView {
        self.deep_view()
    }
}

} // verus!
