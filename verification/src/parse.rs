//! The provider description parser: reads the source of a D provider script
//! into providers, or reports the first token that the grammar has no place
//! for, with its line.

use crate::grammar::{
    feed, initial, lemma_word_len_bounds, native_type,
    newlines, parse_result, run, step, step_type, symbol, token_rests, token_text, tokens,
    word_len, Fault, Outcome, Phase, Progress, TokenView,
};
use crate::model::{BitWidth, DataType, Error, ErrorView, Probe, Provider, ProviderView};
use crate::text::{ident_char, is_ident_char, is_valid_identifier, push_char, to_chars};
use vstd::prelude::*;
use vstd::string::*;

verus! {

/// One token of a provider description.
#[derive(Clone, Debug, PartialEq, Eq)]
pub enum Token {
    Word(String),
    OpenBrace,
    CloseBrace,
    OpenParen,
    CloseParen,
    Comma,
    Semicolon,
    Star,
    Unknown(char),
}

impl View for Token {
    type V = TokenView;

    open spec fn view(&self) -> TokenView {
        match self {
            Token::Word(word) => TokenView::Word(word@),
            Token::OpenBrace => TokenView::OpenBrace,
            Token::CloseBrace => TokenView::CloseBrace,
            Token::OpenParen => TokenView::OpenParen,
            Token::CloseParen => TokenView::CloseParen,
            Token::Comma => TokenView::Comma,
            Token::Semicolon => TokenView::Semicolon,
            Token::Star => TokenView::Star,
            Token::Unknown(c) => TokenView::Unknown(*c),
        }
    }
}

/// The reader of a provider description: what it expects next, the providers
/// that are complete, and the parts of the provider and the probe that are open.
pub struct Reader {
    pub phase: Phase,
    pub providers: Vec<Provider>,
    pub provider: String,
    pub probes: Vec<Probe>,
    pub probe: String,
    pub types: Vec<DataType>,
}

impl View for Reader {
    type V = Progress;

    open spec fn view(&self) -> Progress {
        Progress {
            phase: self.phase,
            providers: self.providers.deep_view(),
            provider: self.provider@,
            probes: self.probes.deep_view(),
            probe: self.probe@,
            types: self.types.deep_view(),
        }
    }
}

/// A word of `count` characters is followed by the end of the text or by a
/// character that belongs to no word.
pub proof fn lemma_word_len_is(s: Seq<char>, count: nat)
    requires
        count <= s.len(),
        forall|i: int| 0 <= i < count ==> is_ident_char(#[trigger] s[i]),
        count == s.len() || !is_ident_char(s[count as int]),
    ensures
        word_len(s) == count,
    decreases count,
{
    if count > 0 {
        let rest = s.skip(1);
        assert forall|i: int| 0 <= i < count - 1 implies is_ident_char(#[trigger] rest[i]) by {
            assert(rest[i] == s[i + 1]);
        }
        lemma_word_len_is(rest, (count - 1) as nat);
    }
}

/// Tokens handed to a reader in two batches are handed to it in order.
pub proof fn lemma_feed_concat(outcome: Outcome, first: Seq<TokenView>, second: Seq<TokenView>)
    ensures
        feed(outcome, first + second) == feed(feed(outcome, first), second),
    decreases second.len(),
{
    if second.len() == 0 {
        assert(first + second =~= first);
    } else {
        assert((first + second).drop_last() =~= first + second.drop_last());
        assert((first + second).last() == second.last());
        lemma_feed_concat(outcome, first, second.drop_last());
    }
}

/// A reader that has stopped at a token stays stopped there.
pub proof fn lemma_failed_stays(outcome: Outcome, input: Seq<TokenView>)
    requires
        outcome is Failed,
    ensures
        feed(outcome, input) == outcome,
    decreases input.len(),
{
    if input.len() > 0 {
        lemma_failed_stays(outcome, input.drop_last());
    }
}

/// The token that a single character forms.
fn symbol_token(c: char) -> (token: Token)
    ensures
        token@ == symbol(c),
{
    if c == '{' {
        Token::OpenBrace
    } else if c == '}' {
        Token::CloseBrace
    } else if c == '(' {
        Token::OpenParen
    } else if c == ')' {
        Token::CloseParen
    } else if c == ',' {
        Token::Comma
    } else if c == ';' {
        Token::Semicolon
    } else if c == '*' {
        Token::Star
    } else {
        Token::Unknown(c)
    }
}

/// The text of a token.
fn token_string(token: &Token) -> (text: String)
    ensures
        text@ == token_text(token@),
{
    let mut text = String::new();
    match token {
        Token::Word(word) => {
            return word.clone();
        },
        Token::OpenBrace => push_char(&mut text, '{'),
        Token::CloseBrace => push_char(&mut text, '}'),
        Token::OpenParen => push_char(&mut text, '('),
        Token::CloseParen => push_char(&mut text, ')'),
        Token::Comma => push_char(&mut text, ','),
        Token::Semicolon => push_char(&mut text, ';'),
        Token::Star => push_char(&mut text, '*'),
        Token::Unknown(c) => push_char(&mut text, *c),
    }
    assert(text@ =~= token_text(token@));
    text
}

/// Tells whether a string is the word given.
fn is_word(text: &String, word: &str) -> (b: bool)
    ensures
        b == (text@ == word@),
{
    let other = String::from_str(word);
    *text == other
}

/// The native type that a word names, if any.
pub fn native_type_of(word: &String) -> (r: Option<DataType>)
    ensures
        r.deep_view() == native_type(word@),
{
    if is_word(word, "uint8_t") {
        Some(DataType::Integer { signed: false, width: BitWidth::Bit8 })
    } else if is_word(word, "uint16_t") {
        Some(DataType::Integer { signed: false, width: BitWidth::Bit16 })
    } else if is_word(word, "uint32_t") {
        Some(DataType::Integer { signed: false, width: BitWidth::Bit32 })
    } else if is_word(word, "uint64_t") {
        Some(DataType::Integer { signed: false, width: BitWidth::Bit64 })
    } else if is_word(word, "int8_t") {
        Some(DataType::Integer { signed: true, width: BitWidth::Bit8 })
    } else if is_word(word, "int16_t") {
        Some(DataType::Integer { signed: true, width: BitWidth::Bit16 })
    } else if is_word(word, "int32_t") {
        Some(DataType::Integer { signed: true, width: BitWidth::Bit32 })
    } else if is_word(word, "int64_t") {
        Some(DataType::Integer { signed: true, width: BitWidth::Bit64 })
    } else if is_word(word, "string") {
        Some(DataType::CString)
    } else {
        None
    }
}

impl Reader {
    /// The reader before the first token.
    pub fn new() -> (reader: Reader)
        ensures
            reader@ == initial(),
    {
        let reader = Reader {
            phase: Phase::Top,
            providers: Vec::new(),
            provider: String::new(),
            probes: Vec::new(),
            probe: String::new(),
            types: Vec::new(),
        };
        assert(reader@.providers =~= Seq::empty());
        assert(reader@.probes =~= Seq::empty());
        assert(reader@.types =~= Seq::empty());
        reader
    }

    /// Reads a token where a type belongs.
    fn read_type(self, token: &Token) -> (r: Result<Reader, Fault>)
        ensures
            match r {
                Ok(next) => step_type(self@, token@) == Ok::<Progress, Fault>(next@),
                Err(fault) => step_type(self@, token@) == Err::<Progress, Fault>(fault),
            },
    {
        match token {
            Token::Word(word) => {
                if is_word(word, "char") {
                    Ok(Reader { phase: Phase::Pointer, ..self })
                } else {
                    match native_type_of(word) {
                        Some(typ) => {
                            let mut next = self;
                            let ghost before = next.types.deep_view();
                            next.types.push(typ);
                            next.phase = Phase::AfterType;
                            assert(next.types.deep_view() =~= before.push(typ@));
                            Ok(next)
                        },
                        None => Err(Fault::UnknownType),
                    }
                }
            },
            _ => Err(Fault::Syntax),
        }
    }

    /// Reads one token: the reader after it, or the reason why the token
    /// cannot stand here.
    pub fn read(self, token: &Token) -> (r: Result<Reader, Fault>)
        ensures
            match r {
                Ok(next) => step(self@, token@) == Ok::<Progress, Fault>(next@),
                Err(fault) => step(self@, token@) == Err::<Progress, Fault>(fault),
            },
    {
        match self.phase {
            Phase::Top => match token {
                Token::Word(word) => if is_word(word, "provider") {
                    Ok(Reader { phase: Phase::ProviderName, ..self })
                } else {
                    Err(Fault::Syntax)
                },
                _ => Err(Fault::Syntax),
            },
            Phase::ProviderName => match token {
                Token::Word(word) => if is_valid_identifier(word.as_str()) {
                    Ok(Reader { phase: Phase::ProviderOpen, provider: word.clone(), ..self })
                } else {
                    Err(Fault::Syntax)
                },
                _ => Err(Fault::Syntax),
            },
            Phase::ProviderOpen => match token {
                Token::OpenBrace => Ok(Reader { phase: Phase::Body, ..self }),
                _ => Err(Fault::Syntax),
            },
            Phase::Body => match token {
                Token::Word(word) => if is_word(word, "probe") {
                    Ok(Reader { phase: Phase::ProbeName, ..self })
                } else {
                    Err(Fault::Syntax)
                },
                Token::CloseBrace => Ok(Reader { phase: Phase::ProviderEnd, ..self }),
                _ => Err(Fault::Syntax),
            },
            Phase::ProbeName => match token {
                Token::Word(word) => if is_valid_identifier(word.as_str()) {
                    Ok(Reader { phase: Phase::ProbeOpen, probe: word.clone(), ..self })
                } else {
                    Err(Fault::Syntax)
                },
                _ => Err(Fault::Syntax),
            },
            Phase::ProbeOpen => match token {
                Token::OpenParen => Ok(Reader { phase: Phase::FirstType, ..self }),
                _ => Err(Fault::Syntax),
            },
            Phase::FirstType => match token {
                Token::CloseParen => Ok(Reader { phase: Phase::ProbeEnd, ..self }),
                _ => self.read_type(token),
            },
            Phase::Pointer => match token {
                Token::Star => {
                    let mut next = self;
                    let ghost before = next.types.deep_view();
                    next.types.push(DataType::CString);
                    next.phase = Phase::AfterType;
                    assert(next.types.deep_view() =~= before.push(DataType::CString@));
                    Ok(next)
                },
                _ => Err(Fault::Syntax),
            },
            Phase::AfterType => match token {
                Token::Comma => Ok(Reader { phase: Phase::NextType, ..self }),
                Token::CloseParen => Ok(Reader { phase: Phase::ProbeEnd, ..self }),
                _ => Err(Fault::Syntax),
            },
            Phase::NextType => self.read_type(token),
            Phase::ProbeEnd => match token {
                Token::Semicolon => {
                    let Reader { phase: _, providers, provider, probes, probe, types } = self;
                    let mut probes = probes;
                    let ghost before = probes.deep_view();
                    let done = Probe { name: probe, types };
                    probes.push(done);
                    assert(probes.deep_view() =~= before.push(done@));
                    let next = Reader {
                        phase: Phase::Body,
                        providers,
                        provider,
                        probes,
                        probe: String::new(),
                        types: Vec::new(),
                    };
                    assert(next@.types =~= Seq::empty());
                    Ok(next)
                },
                _ => Err(Fault::Syntax),
            },
            Phase::ProviderEnd => match token {
                Token::Semicolon => {
                    let Reader { phase: _, providers, provider, probes, probe, types } = self;
                    let mut providers = providers;
                    let ghost before = providers.deep_view();
                    let done = Provider { name: provider, probes };
                    providers.push(done);
                    assert(providers.deep_view() =~= before.push(done@));
                    let next = Reader {
                        phase: Phase::Top,
                        providers,
                        provider: String::new(),
                        probes: Vec::new(),
                        probe,
                        types,
                    };
                    assert(next@.probes =~= Seq::empty());
                    Ok(next)
                },
                _ => Err(Fault::Syntax),
            },
        }
    }
}

/// Reads the word that begins at `start`: the word, and the index after it.
fn scan_word(chars: &Vec<char>, start: usize) -> (r: (String, usize))
    requires
        start < chars@.len(),
        is_ident_char(chars@[start as int]),
    ensures
        start < r.1 <= chars@.len(),
        r.1 - start == word_len(chars@.skip(start as int)),
        r.0@ == chars@.skip(start as int).take(r.1 - start),
        newlines(chars@.take(r.1 as int)) == newlines(chars@.take(start as int)),
{
    let ghost rest = chars@.skip(start as int);
    let mut word = String::new();
    let mut end: usize = start;
    assert(rest.take(0) =~= Seq::<char>::empty());
    while end < chars.len() && ident_char(chars[end])
        invariant
            start <= end <= chars@.len(),
            rest == chars@.skip(start as int),
            word@ == rest.take(end - start),
            forall|i: int| 0 <= i < end - start ==> is_ident_char(#[trigger] rest[i]),
            newlines(chars@.take(end as int)) == newlines(chars@.take(start as int)),
        decreases chars@.len() - end,
    {
        push_char(&mut word, chars[end]);
        end += 1;
        assert(rest.take(end - start) =~= rest.take(end - start - 1).push(chars@[end - 1]));
        assert(chars@.take(end as int).drop_last() =~= chars@.take(end - 1));
    }
    proof {
        lemma_word_len_is(rest, (end - start) as nat);
    }
    (word, end)
}

/// The error for a token that cannot stand where it stands.
fn fault_to_error(fault: Fault, line: usize, text: String) -> (error: Error)
    ensures
        error@ == match fault {
            Fault::Syntax => ErrorView::Parse { line: line as nat, token: text@ },
            Fault::UnknownType => ErrorView::UnknownType { line: line as nat, name: text@ },
        },
{
    match fault {
        Fault::Syntax => Error::Parse { line, token: text },
        Fault::UnknownType => Error::UnknownType { line, name: text },
    }
}

/// Parses the source of a provider description.
///
/// Returns the providers that the source describes, in order, each with its
/// probes and their parameter types in order. A source that the grammar does
/// not accept is refused with the line and the text of its first offending
/// token.
pub fn parse_providers(source: &str) -> (r: Result<Vec<Provider>, Error>)
    ensures
        match r {
            Ok(providers) => parse_result(source@) == Ok::<Seq<ProviderView>, ErrorView>(
                providers.deep_view(),
            ),
            Err(error) => parse_result(source@) == Err::<Seq<ProviderView>, ErrorView>(error@),
        },
{
    let chars = to_chars(source);
    let ghost s = source@;
    let ghost start = Outcome::Running { progress: initial(), consumed: 0 };
    let mut reader = Reader::new();
    let mut pos: usize = 0;
    let mut breaks: usize = 0;
    let ghost done: Seq<TokenView> = Seq::empty();
    let ghost done_rests: Seq<nat> = Seq::empty();
    proof {
        assert(s.skip(0) =~= s);
        assert(done + tokens(s) =~= tokens(s));
        assert(done_rests + token_rests(s) =~= token_rests(s));
        assert(s.take(0) =~= Seq::<char>::empty());
    }
    while pos < chars.len()
        invariant
            pos <= chars@.len(),
            chars@ == s,
            s == source@,
            start == (Outcome::Running { progress: initial(), consumed: 0 }),
            tokens(s) == done + tokens(s.skip(pos as int)),
            token_rests(s) == done_rests + token_rests(s.skip(pos as int)),
            done_rests.len() == done.len(),
            feed(start, done) == (Outcome::Running { progress: reader@, consumed: done.len() }),
            breaks == newlines(s.take(pos as int)),
            breaks + done.len() <= pos,
        decreases chars@.len() - pos,
    {
        let c = chars[pos];
        let ghost rest = s.skip(pos as int);
        assert(rest[0] == c);
        if c == ' ' || c == '\t' || c == '\n' || c == '\r' {
            if c == '\n' {
                breaks += 1;
            }
            pos += 1;
            proof {
                assert(rest.skip(1) =~= s.skip(pos as int));
                assert(s.take(pos as int).drop_last() =~= s.take(pos - 1));
            }
        } else {
            let token: Token;
            let end: usize;
            if ident_char(c) {
                let (word, after) = scan_word(&chars, pos);
                token = Token::Word(word);
                end = after;
            } else {
                token = symbol_token(c);
                end = pos + 1;
                proof {
                    assert(s.take(end as int).drop_last() =~= s.take(pos as int));
                }
            }
            proof {
                lemma_word_len_bounds(rest);
                assert(rest.skip(end - pos) =~= s.skip(end as int));
                assert(tokens(rest) == seq![token@] + tokens(s.skip(end as int)));
                assert(token_rests(rest) == seq![rest.len()] + token_rests(s.skip(end as int)));
                assert(tokens(s) =~= done.push(token@) + tokens(s.skip(end as int)));
                assert(token_rests(s) =~= done_rests.push(rest.len()) + token_rests(
                    s.skip(end as int),
                ));
                assert(done.push(token@).drop_last() =~= done);
            }
            match reader.read(&token) {
                Ok(next) => {
                    reader = next;
                },
                Err(fault) => {
                    let text = token_string(&token);
                    proof {
                        let failed = Outcome::Failed { index: done.len(), fault };
                        assert(feed(start, done.push(token@)) == failed);
                        lemma_feed_concat(start, done.push(token@), tokens(s.skip(end as int)));
                        lemma_failed_stays(failed, tokens(s.skip(end as int)));
                        assert(run(tokens(s)) == failed);
                        assert(tokens(s)[done.len() as int] == token@);
                        assert(token_rests(s)[done.len() as int] == rest.len());
                    }
                    return Err(fault_to_error(fault, breaks + 1, text));
                },
            }
            proof {
                done = done.push(token@);
                done_rests = done_rests.push(rest.len());
            }
            pos = end;
        }
    }
    proof {
        assert(s.skip(pos as int) =~= Seq::<char>::empty());
        assert(done + Seq::<TokenView>::empty() =~= done);
        assert(s.take(pos as int) =~= s);
    }
    match reader.phase {
        Phase::Top => Ok(reader.providers),
        _ => {
            assert(done.len() > 0);
            Err(fault_to_error(Fault::Syntax, breaks + 1, String::new()))
        },
    }
}

} // verus!
