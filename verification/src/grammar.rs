//! The grammar of D provider descriptions,
//! `provider NAME { probe NAME(TYPE, TYPE, ...); ... };`, as mathematics: how a
//! source text falls into tokens, and how a sequence of tokens is read, one
//! token at a time, into providers.

use crate::model::{BitWidth, ErrorView, ProbeView, ProviderView, TypeView};
use crate::text::{is_ident_char, is_identifier};
use vstd::prelude::*;

verus! {

/// One token of a provider description.
pub enum TokenView {
    /// A maximal run of letters, digits and underscores.
    Word(Seq<char>),
    OpenBrace,
    CloseBrace,
    OpenParen,
    CloseParen,
    Comma,
    Semicolon,
    Star,
    /// Any other character that is not white space.
    Unknown(char),
}

/// White space separates tokens and means nothing else.
pub open spec fn is_space(c: char) -> bool {
    c == ' ' || c == '\t' || c == '\n' || c == '\r'
}

/// The token that a single character forms, for a character that is neither
/// white space nor part of a word.
pub open spec fn symbol(c: char) -> TokenView {
    if c == '{' {
        TokenView::OpenBrace
    } else if c == '}' {
        TokenView::CloseBrace
    } else if c == '(' {
        TokenView::OpenParen
    } else if c == ')' {
        TokenView::CloseParen
    } else if c == ',' {
        TokenView::Comma
    } else if c == ';' {
        TokenView::Semicolon
    } else if c == '*' {
        TokenView::Star
    } else {
        TokenView::Unknown(c)
    }
}

/// The text of a token, as it stands in the source.
pub open spec fn token_text(token: TokenView) -> Seq<char> {
    match token {
        TokenView::Word(word) => word,
        TokenView::OpenBrace => seq!['{'],
        TokenView::CloseBrace => seq!['}'],
        TokenView::OpenParen => seq!['('],
        TokenView::CloseParen => seq![')'],
        TokenView::Comma => seq![','],
        TokenView::Semicolon => seq![';'],
        TokenView::Star => seq!['*'],
        TokenView::Unknown(c) => seq![c],
    }
}

/// The number of word characters that `s` begins with.
pub open spec fn word_len(s: Seq<char>) -> nat
    decreases s.len(),
{
    if s.len() > 0 && is_ident_char(s[0]) {
        1 + word_len(s.skip(1))
    } else {
        0
    }
}

/// The word that a text begins with is no longer than the text, and not
/// empty where the first character is a word character.
pub proof fn lemma_word_len_bounds(s: Seq<char>)
    ensures
        word_len(s) <= s.len(),
        s.len() > 0 && is_ident_char(s[0]) ==> word_len(s) > 0,
    decreases s.len(),
{
    if s.len() > 0 && is_ident_char(s[0]) {
        lemma_word_len_bounds(s.skip(1));
    }
}

/// The tokens of a source text, in order.
pub open spec fn tokens(s: Seq<char>) -> Seq<TokenView>
    decreases s.len(),
    via tokens_decreases
{
    if s.len() == 0 {
        Seq::empty()
    } else if is_space(s[0]) {
        tokens(s.skip(1))
    } else if is_ident_char(s[0]) {
        seq![TokenView::Word(s.take(word_len(s) as int))] + tokens(s.skip(word_len(s) as int))
    } else {
        seq![symbol(s[0])] + tokens(s.skip(1))
    }
}

#[via_fn]
proof fn tokens_decreases(s: Seq<char>) {
    lemma_word_len_bounds(s);
}

/// For each token of a source text, the number of characters from its first
/// character to the end of the text.
pub open spec fn token_rests(s: Seq<char>) -> Seq<nat>
    decreases s.len(),
    via token_rests_decreases
{
    if s.len() == 0 {
        Seq::empty()
    } else if is_space(s[0]) {
        token_rests(s.skip(1))
    } else if is_ident_char(s[0]) {
        seq![s.len()] + token_rests(s.skip(word_len(s) as int))
    } else {
        seq![s.len()] + token_rests(s.skip(1))
    }
}

#[via_fn]
proof fn token_rests_decreases(s: Seq<char>) {
    lemma_word_len_bounds(s);
}

/// The number of line feeds in `s`.
pub open spec fn newlines(s: Seq<char>) -> nat
    decreases s.len(),
{
    if s.len() == 0 {
        0
    } else if s.last() == '\n' {
        newlines(s.drop_last()) + 1
    } else {
        newlines(s.drop_last())
    }
}

/// The line, counted from one, on which the character at `offset` stands.
pub open spec fn line_of(s: Seq<char>, offset: int) -> nat {
    newlines(s.take(offset)) + 1
}

/// The native type that a word names in a D provider description, if any.
/// `char` is no type by itself: it needs its `*`.
pub open spec fn native_type(word: Seq<char>) -> Option<TypeView> {
    if word == "uint8_t"@ {
        Some(TypeView::Integer { signed: false, width: BitWidth::Bit8 })
    } else if word == "uint16_t"@ {
        Some(TypeView::Integer { signed: false, width: BitWidth::Bit16 })
    } else if word == "uint32_t"@ {
        Some(TypeView::Integer { signed: false, width: BitWidth::Bit32 })
    } else if word == "uint64_t"@ {
        Some(TypeView::Integer { signed: false, width: BitWidth::Bit64 })
    } else if word == "int8_t"@ {
        Some(TypeView::Integer { signed: true, width: BitWidth::Bit8 })
    } else if word == "int16_t"@ {
        Some(TypeView::Integer { signed: true, width: BitWidth::Bit16 })
    } else if word == "int32_t"@ {
        Some(TypeView::Integer { signed: true, width: BitWidth::Bit32 })
    } else if word == "int64_t"@ {
        Some(TypeView::Integer { signed: true, width: BitWidth::Bit64 })
    } else if word == "string"@ {
        Some(TypeView::CString)
    } else {
        None
    }
}

/// What the reader expects next.
#[derive(Clone, Copy, Debug, PartialEq, Eq, Structural)]
pub enum Phase {
    /// Between providers: `provider`, or the end of the source.
    Top,
    /// After `provider`: the provider's name.
    ProviderName,
    /// After the provider's name: `{`.
    ProviderOpen,
    /// Inside a provider: `probe`, or `}`.
    Body,
    /// After `probe`: the probe's name.
    ProbeName,
    /// After the probe's name: `(`.
    ProbeOpen,
    /// After `(`: a type, or `)`.
    FirstType,
    /// After `char`: `*`.
    Pointer,
    /// After a type: `,` or `)`.
    AfterType,
    /// After `,`: a type.
    NextType,
    /// After `)`: `;`.
    ProbeEnd,
    /// After `}`: `;`.
    ProviderEnd,
}

/// Why a token cannot stand where it stands.
#[derive(Clone, Copy, Debug, PartialEq, Eq, Structural)]
pub enum Fault {
    /// The grammar has no place for the token here.
    Syntax,
    /// The token stands where a type belongs, and names none.
    UnknownType,
}

/// What the reader has made of the tokens so far: the providers that are
/// complete, and the parts of the provider and the probe that are open.
pub struct Progress {
    pub phase: Phase,
    pub providers: Seq<ProviderView>,
    pub provider: Seq<char>,
    pub probes: Seq<ProbeView>,
    pub probe: Seq<char>,
    pub types: Seq<TypeView>,
}

/// The reader before the first token.
pub open spec fn initial() -> Progress {
    Progress {
        phase: Phase::Top,
        providers: Seq::empty(),
        provider: Seq::empty(),
        probes: Seq::empty(),
        probe: Seq::empty(),
        types: Seq::empty(),
    }
}

/// Reads a word where a type belongs.
pub open spec fn step_type(p: Progress, token: TokenView) -> Result<Progress, Fault> {
    match token {
        TokenView::Word(word) => if word == "char"@ {
            Ok(Progress { phase: Phase::Pointer, ..p })
        } else {
            match native_type(word) {
                Some(t) => Ok(Progress { phase: Phase::AfterType, types: p.types.push(t), ..p }),
                None => Err(Fault::UnknownType),
            }
        },
        _ => Err(Fault::Syntax),
    }
}

/// Reads one token: the reader after it, or the reason why the token cannot
/// stand here.
pub open spec fn step(p: Progress, token: TokenView) -> Result<Progress, Fault> {
    match p.phase {
        Phase::Top => if token == TokenView::Word("provider"@) {
            Ok(Progress { phase: Phase::ProviderName, ..p })
        } else {
            Err(Fault::Syntax)
        },
        Phase::ProviderName => match token {
            TokenView::Word(word) => if is_identifier(word) {
                Ok(Progress { phase: Phase::ProviderOpen, provider: word, ..p })
            } else {
                Err(Fault::Syntax)
            },
            _ => Err(Fault::Syntax),
        },
        Phase::ProviderOpen => if token == TokenView::OpenBrace {
            Ok(Progress { phase: Phase::Body, ..p })
        } else {
            Err(Fault::Syntax)
        },
        Phase::Body => if token == TokenView::Word("probe"@) {
            Ok(Progress { phase: Phase::ProbeName, ..p })
        } else if token == TokenView::CloseBrace {
            Ok(Progress { phase: Phase::ProviderEnd, ..p })
        } else {
            Err(Fault::Syntax)
        },
        Phase::ProbeName => match token {
            TokenView::Word(word) => if is_identifier(word) {
                Ok(Progress { phase: Phase::ProbeOpen, probe: word, ..p })
            } else {
                Err(Fault::Syntax)
            },
            _ => Err(Fault::Syntax),
        },
        Phase::ProbeOpen => if token == TokenView::OpenParen {
            Ok(Progress { phase: Phase::FirstType, ..p })
        } else {
            Err(Fault::Syntax)
        },
        Phase::FirstType => if token == TokenView::CloseParen {
            Ok(Progress { phase: Phase::ProbeEnd, ..p })
        } else {
            step_type(p, token)
        },
        Phase::Pointer => if token == TokenView::Star {
            Ok(Progress { phase: Phase::AfterType, types: p.types.push(TypeView::CString), ..p })
        } else {
            Err(Fault::Syntax)
        },
        Phase::AfterType => if token == TokenView::Comma {
            Ok(Progress { phase: Phase::NextType, ..p })
        } else if token == TokenView::CloseParen {
            Ok(Progress { phase: Phase::ProbeEnd, ..p })
        } else {
            Err(Fault::Syntax)
        },
        Phase::NextType => step_type(p, token),
        Phase::ProbeEnd => if token == TokenView::Semicolon {
            Ok(
                Progress {
                    phase: Phase::Body,
                    probes: p.probes.push(ProbeView { name: p.probe, types: p.types }),
                    probe: Seq::empty(),
                    types: Seq::empty(),
                    ..p
                },
            )
        } else {
            Err(Fault::Syntax)
        },
        Phase::ProviderEnd => if token == TokenView::Semicolon {
            Ok(
                Progress {
                    phase: Phase::Top,
                    providers: p.providers.push(
                        ProviderView { name: p.provider, probes: p.probes },
                    ),
                    provider: Seq::empty(),
                    probes: Seq::empty(),
                    ..p
                },
            )
        } else {
            Err(Fault::Syntax)
        },
    }
}

/// The reader after some tokens: still reading, or stopped at the first token
/// that cannot stand where it stands.
pub enum Outcome {
    Running { progress: Progress, consumed: nat },
    Failed { index: nat, fault: Fault },
}

/// Hands one more token to a reader. A reader that has stopped stays stopped.
pub open spec fn advance(outcome: Outcome, token: TokenView) -> Outcome {
    match outcome {
        Outcome::Running { progress, consumed } => match step(progress, token) {
            Ok(next) => Outcome::Running { progress: next, consumed: consumed + 1 },
            Err(fault) => Outcome::Failed { index: consumed, fault },
        },
        Outcome::Failed { index, fault } => outcome,
    }
}

/// Hands a sequence of tokens to a reader, in order.
pub open spec fn feed(outcome: Outcome, input: Seq<TokenView>) -> Outcome
    decreases input.len(),
{
    if input.len() == 0 {
        outcome
    } else {
        advance(feed(outcome, input.drop_last()), input.last())
    }
}

/// The reader of a whole token sequence.
pub open spec fn run(input: Seq<TokenView>) -> Outcome {
    feed(Outcome::Running { progress: initial(), consumed: 0 }, input)
}

/// The error for the token at `index` of the source, or for the end of the
/// source where there is no such token.
pub open spec fn fault_error(s: Seq<char>, index: nat, fault: Fault) -> ErrorView {
    let found = tokens(s);
    let offset = if index < found.len() {
        s.len() - token_rests(s)[index as int]
    } else {
        s.len() as int
    };
    let text = if index < found.len() {
        token_text(found[index as int])
    } else {
        Seq::empty()
    };
    match fault {
        Fault::Syntax => ErrorView::Parse { line: line_of(s, offset), token: text },
        Fault::UnknownType => ErrorView::UnknownType { line: line_of(s, offset), name: text },
    }
}

/// What a source text describes: its providers in order, or the error of the
/// first token that cannot stand where it stands. A source that ends inside a
/// provider is malformed at its end.
pub open spec fn parse_result(s: Seq<char>) -> Result<Seq<ProviderView>, ErrorView> {
    match run(tokens(s)) {
        Outcome::Running { progress, consumed } => if progress.phase == Phase::Top {
            Ok(progress.providers)
        } else {
            Err(fault_error(s, tokens(s).len(), Fault::Syntax))
        },
        Outcome::Failed { index, fault } => Err(fault_error(s, index, fault)),
    }
}

} // verus!
