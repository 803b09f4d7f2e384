//! The law that ties the parser to the writer: a provider description that D
//! can express, written as a D provider script and parsed again, is the
//! description itself.

use crate::dsource::{
    probe_source, probes_source, provider_source, providers_source, types_source,
};
use crate::grammar::{
    advance, feed, initial, is_space, native_type, parse_result, step, symbol,
    tokens, Outcome, Phase, Progress, TokenView,
};
use crate::lexicon::c_type;
use crate::model::{ErrorView, ProbeView, ProviderView, TypeView};
use crate::parse::{lemma_feed_concat, lemma_word_len_is};
use crate::text::{is_ident_char, is_identifier};
use vstd::prelude::*;

verus! {

/// A type that a D provider script can name. A serialized value is declared
/// in D as the string that carries it, so its own type has no name there.
pub open spec fn describable_type(t: TypeView) -> bool {
    !(t is Serializable)
}

/// A probe that a D provider script can describe.
pub open spec fn describable_probe(probe: ProbeView) -> bool {
    &&& is_identifier(probe.name)
    &&& forall|i: int| 0 <= i < probe.types.len() ==> describable_type(#[trigger] probe.types[i])
}

/// A provider that a D provider script can describe.
pub open spec fn describable(provider: ProviderView) -> bool {
    &&& is_identifier(provider.name)
    &&& forall|i: int|
        0 <= i < provider.probes.len() ==> describable_probe(#[trigger] provider.probes[i])
}

/// A text that can stand as one word: not empty, and of word characters only.
pub open spec fn is_word_text(w: Seq<char>) -> bool {
    &&& w.len() > 0
    &&& forall|i: int| 0 <= i < w.len() ==> is_ident_char(#[trigger] w[i])
}

/// A text in front of which a word ends: the empty text, or one that begins
/// with a character that belongs to no word.
pub open spec fn ends_word(tail: Seq<char>) -> bool {
    tail.len() == 0 || !is_ident_char(tail[0])
}

/// The tokens of a type's name in D.
pub open spec fn type_tokens(t: TypeView) -> Seq<TokenView> {
    match t {
        TypeView::Integer { signed, width } => seq![TokenView::Word(c_type(t))],
        _ => seq![TokenView::Word("char"@), TokenView::Star],
    }
}

/// The tokens of a parameter list in D.
pub open spec fn types_tokens(types: Seq<TypeView>) -> Seq<TokenView>
    decreases types.len(),
{
    if types.len() == 0 {
        Seq::empty()
    } else if types.len() == 1 {
        type_tokens(types[0])
    } else {
        types_tokens(types.drop_last()) + seq![TokenView::Comma] + type_tokens(types.last())
    }
}

/// The tokens of a probe in D.
pub open spec fn probe_tokens(probe: ProbeView) -> Seq<TokenView> {
    seq![TokenView::Word("probe"@), TokenView::Word(probe.name), TokenView::OpenParen]
        + types_tokens(probe.types) + seq![TokenView::CloseParen, TokenView::Semicolon]
}

/// The tokens of a list of probes in D.
pub open spec fn probes_tokens(probes: Seq<ProbeView>) -> Seq<TokenView>
    decreases probes.len(),
{
    if probes.len() == 0 {
        Seq::empty()
    } else {
        probes_tokens(probes.drop_last()) + probe_tokens(probes.last())
    }
}

/// The tokens of a provider in D.
pub open spec fn provider_tokens(provider: ProviderView) -> Seq<TokenView> {
    seq![TokenView::Word("provider"@), TokenView::Word(provider.name), TokenView::OpenBrace]
        + probes_tokens(provider.probes) + seq![TokenView::CloseBrace, TokenView::Semicolon]
}

/// The tokens of a list of providers in D.
pub open spec fn providers_tokens(providers: Seq<ProviderView>) -> Seq<TokenView>
    decreases providers.len(),
{
    if providers.len() == 0 {
        Seq::empty()
    } else {
        providers_tokens(providers.drop_last()) + provider_tokens(providers.last())
    }
}

/// White space in front of a text adds no token.
pub proof fn lemma_tokens_space(c: char, tail: Seq<char>)
    requires
        is_space(c),
    ensures
        tokens(seq![c] + tail) == tokens(tail),
{
    let s = seq![c] + tail;
    assert(s[0] == c);
    assert(s.skip(1) =~= tail);
}

/// A symbol in front of a text adds its token.
pub proof fn lemma_tokens_symbol(c: char, tail: Seq<char>)
    requires
        !is_space(c),
        !is_ident_char(c),
    ensures
        tokens(seq![c] + tail) == seq![symbol(c)] + tokens(tail),
{
    let s = seq![c] + tail;
    assert(s[0] == c);
    assert(s.skip(1) =~= tail);
}

/// A word in front of a text that ends it adds one word token.
pub proof fn lemma_tokens_word(w: Seq<char>, tail: Seq<char>)
    requires
        is_word_text(w),
        ends_word(tail),
    ensures
        tokens(w + tail) == seq![TokenView::Word(w)] + tokens(tail),
{
    let s = w + tail;
    assert(s[0] == w[0]);
    assert forall|i: int| 0 <= i < w.len() implies is_ident_char(#[trigger] s[i]) by {
        assert(s[i] == w[i]);
    }
    if tail.len() > 0 {
        assert(s[w.len() as int] == tail[0]);
    }
    lemma_word_len_is(s, w.len());
    assert(s.take(w.len() as int) =~= w);
    assert(s.skip(w.len() as int) =~= tail);
}

/// The names that the grammar gives a meaning are words.
pub proof fn lemma_keywords()
    ensures
        is_word_text("provider"@),
        is_word_text("probe"@),
        is_word_text("char"@),
{
    reveal_strlit("provider");
    reveal_strlit("probe");
    reveal_strlit("char");
}

/// The D name of a native integer type is a word that names that type.
pub proof fn lemma_integer_names(t: TypeView)
    requires
        t is Integer,
    ensures
        is_word_text(c_type(t)),
        c_type(t) != "char"@,
        native_type(c_type(t)) == Some(t),
{
    reveal_strlit("uint8_t");
    reveal_strlit("uint16_t");
    reveal_strlit("uint32_t");
    reveal_strlit("uint64_t");
    reveal_strlit("int8_t");
    reveal_strlit("int16_t");
    reveal_strlit("int32_t");
    reveal_strlit("int64_t");
    reveal_strlit("string");
    reveal_strlit("char");
    assert("uint8_t"@[0] == 'u' && "uint8_t"@[3] == 't' && "uint8_t"@[4] == '8');
    assert("uint16_t"@[0] == 'u' && "uint16_t"@[3] == 't' && "uint16_t"@[4] == '1');
    assert("uint32_t"@[0] == 'u' && "uint32_t"@[3] == 't' && "uint32_t"@[4] == '3');
    assert("uint64_t"@[0] == 'u' && "uint64_t"@[3] == 't' && "uint64_t"@[4] == '6');
    assert("int8_t"@[0] == 'i' && "int8_t"@[3] == '8' && "int8_t"@[4] == '_');
    assert("int16_t"@[0] == 'i' && "int16_t"@[3] == '1' && "int16_t"@[4] == '6');
    assert("int32_t"@[0] == 'i' && "int32_t"@[3] == '3' && "int32_t"@[4] == '2');
    assert("int64_t"@[0] == 'i' && "int64_t"@[3] == '6' && "int64_t"@[4] == '4');
    assert("string"@[0] == 's' && "string"@[3] == 'i' && "string"@[4] == 'n');
}

/// The name of a type in front of a text that ends it adds the type's tokens.
pub proof fn lemma_lex_type(t: TypeView, tail: Seq<char>)
    requires
        describable_type(t),
        ends_word(tail),
    ensures
        tokens(c_type(t) + tail) == type_tokens(t) + tokens(tail),
{
    match t {
        TypeView::Integer { signed, width } => {
            lemma_integer_names(t);
            lemma_tokens_word(c_type(t), tail);
        },
        _ => {
            lemma_keywords();
            reveal_strlit("char*");
            reveal_strlit("char");
            let after = seq!['*'] + tail;
            assert("char*"@ + tail =~= "char"@ + after);
            lemma_tokens_word("char"@, after);
            lemma_tokens_symbol('*', tail);
            assert(type_tokens(t) + tokens(tail) =~= seq![TokenView::Word("char"@)] + (seq![
                TokenView::Star,
            ] + tokens(tail)));
        },
    }
}

/// A parameter list in front of a text that ends it adds the list's tokens.
pub proof fn lemma_lex_types(types: Seq<TypeView>, tail: Seq<char>)
    requires
        forall|i: int| 0 <= i < types.len() ==> describable_type(#[trigger] types[i]),
        ends_word(tail),
    ensures
        tokens(types_source(types) + tail) == types_tokens(types) + tokens(tail),
    decreases types.len(),
{
    if types.len() == 0 {
        assert(types_source(types) + tail =~= tail);
        assert(types_tokens(types) + tokens(tail) =~= tokens(tail));
    } else if types.len() == 1 {
        lemma_lex_type(types[0], tail);
    } else {
        reveal_strlit(", ");
        let front = types.drop_last();
        let last = types.last();
        let named = c_type(last) + tail;
        let spaced = seq![' '] + named;
        let listed = seq![','] + spaced;
        assert(types_source(types) + tail =~= types_source(front) + listed);
        lemma_lex_types(front, listed);
        lemma_tokens_symbol(',', spaced);
        lemma_tokens_space(' ', named);
        lemma_lex_type(last, tail);
        assert(types_tokens(types) + tokens(tail) =~= types_tokens(front) + (seq![
            TokenView::Comma,
        ] + (type_tokens(last) + tokens(tail))));
    }
}

/// A probe in front of any text adds the probe's tokens.
pub proof fn lemma_lex_probe(probe: ProbeView, tail: Seq<char>)
    requires
        describable_probe(probe),
    ensures
        tokens(probe_source(probe) + tail) == probe_tokens(probe) + tokens(tail),
{
    lemma_keywords();
    reveal_strlit("\tprobe ");
    reveal_strlit("probe");
    reveal_strlit("(");
    reveal_strlit(");\n");
    let t9 = seq!['\n'] + tail;
    let t8 = seq![';'] + t9;
    let t7 = seq![')'] + t8;
    let t6 = types_source(probe.types) + t7;
    let t5 = seq!['('] + t6;
    let t4 = probe.name + t5;
    let t3 = seq![' '] + t4;
    let t2 = "probe"@ + t3;
    let t1 = seq!['\t'] + t2;
    assert(probe_source(probe) + tail =~= t1);
    lemma_tokens_space('\t', t2);
    lemma_tokens_word("probe"@, t3);
    lemma_tokens_space(' ', t4);
    lemma_tokens_word(probe.name, t5);
    lemma_tokens_symbol('(', t6);
    lemma_lex_types(probe.types, t7);
    lemma_tokens_symbol(')', t8);
    lemma_tokens_symbol(';', t9);
    lemma_tokens_space('\n', tail);
    assert(probe_tokens(probe) + tokens(tail) =~= seq![TokenView::Word("probe"@)] + (seq![
        TokenView::Word(probe.name),
    ] + (seq![TokenView::OpenParen] + (types_tokens(probe.types) + (seq![TokenView::CloseParen]
        + (seq![TokenView::Semicolon] + tokens(tail)))))));
}

/// A list of probes in front of any text adds the probes' tokens.
pub proof fn lemma_lex_probes(probes: Seq<ProbeView>, tail: Seq<char>)
    requires
        forall|i: int| 0 <= i < probes.len() ==> describable_probe(#[trigger] probes[i]),
    ensures
        tokens(probes_source(probes) + tail) == probes_tokens(probes) + tokens(tail),
    decreases probes.len(),
{
    if probes.len() == 0 {
        assert(probes_source(probes) + tail =~= tail);
        assert(probes_tokens(probes) + tokens(tail) =~= tokens(tail));
    } else {
        let front = probes.drop_last();
        let last = probes.last();
        let rest = probe_source(last) + tail;
        assert(probes_source(probes) + tail =~= probes_source(front) + rest);
        lemma_lex_probes(front, rest);
        lemma_lex_probe(last, tail);
        assert(probes_tokens(probes) + tokens(tail) =~= probes_tokens(front) + (probe_tokens(last)
            + tokens(tail)));
    }
}

/// A provider in front of any text adds the provider's tokens.
pub proof fn lemma_lex_provider(provider: ProviderView, tail: Seq<char>)
    requires
        describable(provider),
    ensures
        tokens(provider_source(provider) + tail) == provider_tokens(provider) + tokens(tail),
{
    lemma_keywords();
    reveal_strlit("provider ");
    reveal_strlit("provider");
    reveal_strlit(" {\n");
    reveal_strlit("};\n");
    let t9 = seq!['\n'] + tail;
    let t8 = seq![';'] + t9;
    let t7 = seq!['}'] + t8;
    let t6 = probes_source(provider.probes) + t7;
    let t5 = seq!['\n'] + t6;
    let t4 = seq!['{'] + t5;
    let t3 = seq![' '] + t4;
    let t2 = provider.name + t3;
    let t1 = seq![' '] + t2;
    assert(provider_source(provider) + tail =~= "provider"@ + t1);
    lemma_tokens_word("provider"@, t1);
    lemma_tokens_space(' ', t2);
    lemma_tokens_word(provider.name, t3);
    lemma_tokens_space(' ', t4);
    lemma_tokens_symbol('{', t5);
    lemma_tokens_space('\n', t6);
    lemma_lex_probes(provider.probes, t7);
    lemma_tokens_symbol('}', t8);
    lemma_tokens_symbol(';', t9);
    lemma_tokens_space('\n', tail);
    assert(provider_tokens(provider) + tokens(tail) =~= seq![TokenView::Word("provider"@)] + (
    seq![TokenView::Word(provider.name)] + (seq![TokenView::OpenBrace] + (probes_tokens(
        provider.probes,
    ) + (seq![TokenView::CloseBrace] + (seq![TokenView::Semicolon] + tokens(tail)))))));
}

/// A list of providers in front of any text adds the providers' tokens.
pub proof fn lemma_lex_providers(providers: Seq<ProviderView>, tail: Seq<char>)
    requires
        forall|i: int| 0 <= i < providers.len() ==> describable(#[trigger] providers[i]),
    ensures
        tokens(providers_source(providers) + tail) == providers_tokens(providers) + tokens(tail),
    decreases providers.len(),
{
    if providers.len() == 0 {
        assert(providers_source(providers) + tail =~= tail);
        assert(providers_tokens(providers) + tokens(tail) =~= tokens(tail));
    } else {
        let front = providers.drop_last();
        let last = providers.last();
        let rest = provider_source(last) + tail;
        assert(providers_source(providers) + tail =~= providers_source(front) + rest);
        lemma_lex_providers(front, rest);
        lemma_lex_provider(last, tail);
        assert(providers_tokens(providers) + tokens(tail) =~= providers_tokens(front) + (
        provider_tokens(last) + tokens(tail)));
    }
}

/// A reader that is handed one token advances by it.
pub proof fn lemma_feed_one(outcome: Outcome, token: TokenView)
    ensures
        feed(outcome, seq![token]) == advance(outcome, token),
{
    let input = seq![token];
    assert(input.drop_last() =~= Seq::<TokenView>::empty());
    assert(feed(outcome, input.drop_last()) == outcome);
}

/// A reader that is handed a token and then more advances by the token first.
pub proof fn lemma_feed_first(outcome: Outcome, token: TokenView, rest: Seq<TokenView>)
    ensures
        feed(outcome, seq![token] + rest) == feed(advance(outcome, token), rest),
{
    lemma_feed_concat(outcome, seq![token], rest);
    lemma_feed_one(outcome, token);
}

/// A reader that expects a type reads the tokens of one.
pub proof fn lemma_feed_type(p: Progress, consumed: nat, t: TypeView)
    requires
        p.phase == Phase::FirstType || p.phase == Phase::NextType,
        describable_type(t),
    ensures
        feed(Outcome::Running { progress: p, consumed }, type_tokens(t)) == (Outcome::Running {
            progress: Progress { phase: Phase::AfterType, types: p.types.push(t), ..p },
            consumed: consumed + type_tokens(t).len(),
        }),
{
    let start = Outcome::Running { progress: p, consumed };
    match t {
        TypeView::Integer { signed, width } => {
            lemma_integer_names(t);
            lemma_feed_one(start, TokenView::Word(c_type(t)));
        },
        _ => {
            let pointer = Outcome::Running {
                progress: Progress { phase: Phase::Pointer, ..p },
                consumed: consumed + 1,
            };
            assert(type_tokens(t) =~= seq![TokenView::Word("char"@)] + seq![TokenView::Star]);
            lemma_feed_first(start, TokenView::Word("char"@), seq![TokenView::Star]);
            assert(advance(start, TokenView::Word("char"@)) == pointer);
            lemma_feed_one(pointer, TokenView::Star);
        },
    }
}

/// A reader that expects the first type of a parameter list reads the tokens
/// of a list that is not empty.
pub proof fn lemma_feed_types(p: Progress, consumed: nat, types: Seq<TypeView>)
    requires
        p.phase == Phase::FirstType,
        types.len() > 0,
        forall|i: int| 0 <= i < types.len() ==> describable_type(#[trigger] types[i]),
    ensures
        feed(Outcome::Running { progress: p, consumed }, types_tokens(types)) == (
        Outcome::Running {
            progress: Progress { phase: Phase::AfterType, types: p.types + types, ..p },
            consumed: consumed + types_tokens(types).len(),
        }),
    decreases types.len(),
{
    let start = Outcome::Running { progress: p, consumed };
    if types.len() == 1 {
        lemma_feed_type(p, consumed, types[0]);
        assert(p.types.push(types[0]) =~= p.types + types);
    } else {
        let front = types.drop_last();
        let last = types.last();
        lemma_feed_types(p, consumed, front);
        let listed = Progress { phase: Phase::AfterType, types: p.types + front, ..p };
        let n1 = consumed + types_tokens(front).len();
        let after_front = Outcome::Running { progress: listed, consumed: n1 };
        let next = Progress { phase: Phase::NextType, ..listed };
        let after_comma = Outcome::Running { progress: next, consumed: n1 + 1 };
        lemma_feed_concat(
            start,
            types_tokens(front) + seq![TokenView::Comma],
            type_tokens(last),
        );
        lemma_feed_concat(start, types_tokens(front), seq![TokenView::Comma]);
        lemma_feed_one(after_front, TokenView::Comma);
        assert(advance(after_front, TokenView::Comma) == after_comma);
        lemma_feed_type(next, n1 + 1, last);
        assert((p.types + front).push(last) =~= p.types + types);
    }
}

/// A reader inside a provider reads the tokens of a probe, and has the probe.
pub proof fn lemma_feed_probe(p: Progress, consumed: nat, probe: ProbeView)
    requires
        p.phase == Phase::Body,
        p.probe == Seq::<char>::empty(),
        p.types == Seq::<TypeView>::empty(),
        describable_probe(probe),
    ensures
        feed(Outcome::Running { progress: p, consumed }, probe_tokens(probe)) == (
        Outcome::Running {
            progress: Progress { probes: p.probes.push(probe), ..p },
            consumed: consumed + probe_tokens(probe).len(),
        }),
{
    let start = Outcome::Running { progress: p, consumed };
    let head = seq![
        TokenView::Word("probe"@),
        TokenView::Word(probe.name),
        TokenView::OpenParen,
    ];
    let tail = seq![TokenView::CloseParen, TokenView::Semicolon];
    let stage1 = Progress { phase: Phase::ProbeName, ..p };
    let stage2 = Progress { phase: Phase::ProbeOpen, probe: probe.name, ..p };
    let stage3 = Progress { phase: Phase::FirstType, ..stage2 };
    let reader1 = Outcome::Running { progress: stage1, consumed: consumed + 1 };
    let reader2 = Outcome::Running { progress: stage2, consumed: consumed + 2 };
    let reader3 = Outcome::Running { progress: stage3, consumed: consumed + 3 };
    assert(head =~= seq![TokenView::Word("probe"@)] + (seq![TokenView::Word(probe.name)] + seq![
        TokenView::OpenParen,
    ]));
    lemma_feed_first(
        start,
        TokenView::Word("probe"@),
        seq![TokenView::Word(probe.name)] + seq![TokenView::OpenParen],
    );
    assert(advance(start, TokenView::Word("probe"@)) == reader1);
    lemma_feed_first(reader1, TokenView::Word(probe.name), seq![TokenView::OpenParen]);
    assert(advance(reader1, TokenView::Word(probe.name)) == reader2);
    lemma_feed_one(reader2, TokenView::OpenParen);
    assert(advance(reader2, TokenView::OpenParen) == reader3);
    assert(feed(start, head) == reader3);
    lemma_feed_concat(start, head + types_tokens(probe.types), tail);
    lemma_feed_concat(start, head, types_tokens(probe.types));
    let stage4 = if probe.types.len() == 0 {
        stage3
    } else {
        Progress { phase: Phase::AfterType, types: probe.types, ..stage3 }
    };
    let n4 = consumed + 3 + types_tokens(probe.types).len();
    let reader4 = Outcome::Running { progress: stage4, consumed: n4 };
    if probe.types.len() == 0 {
        assert(types_tokens(probe.types) =~= Seq::<TokenView>::empty());
        assert(probe.types =~= Seq::<TypeView>::empty());
    } else {
        lemma_feed_types(stage3, consumed + 3, probe.types);
        assert(stage3.types + probe.types =~= probe.types);
    }
    assert(feed(reader3, types_tokens(probe.types)) == reader4);
    let stage5 = Progress { phase: Phase::ProbeEnd, types: probe.types, ..stage3 };
    let reader5 = Outcome::Running { progress: stage5, consumed: n4 + 1 };
    assert(tail =~= seq![TokenView::CloseParen] + seq![TokenView::Semicolon]);
    lemma_feed_first(reader4, TokenView::CloseParen, seq![TokenView::Semicolon]);
    assert(advance(reader4, TokenView::CloseParen) == reader5);
    lemma_feed_one(reader5, TokenView::Semicolon);
}

/// A reader inside a provider reads the tokens of a list of probes, and has
/// the probes.
pub proof fn lemma_feed_probes(p: Progress, consumed: nat, probes: Seq<ProbeView>)
    requires
        p.phase == Phase::Body,
        p.probe == Seq::<char>::empty(),
        p.types == Seq::<TypeView>::empty(),
        forall|i: int| 0 <= i < probes.len() ==> describable_probe(#[trigger] probes[i]),
    ensures
        feed(Outcome::Running { progress: p, consumed }, probes_tokens(probes)) == (
        Outcome::Running {
            progress: Progress { probes: p.probes + probes, ..p },
            consumed: consumed + probes_tokens(probes).len(),
        }),
    decreases probes.len(),
{
    let start = Outcome::Running { progress: p, consumed };
    if probes.len() == 0 {
        assert(p.probes + probes =~= p.probes);
    } else {
        let front = probes.drop_last();
        let last = probes.last();
        lemma_feed_probes(p, consumed, front);
        let listed = Progress { probes: p.probes + front, ..p };
        lemma_feed_concat(start, probes_tokens(front), probe_tokens(last));
        lemma_feed_probe(listed, consumed + probes_tokens(front).len(), last);
        assert((p.probes + front).push(last) =~= p.probes + probes);
    }
}

/// A reader between providers reads the tokens of a provider, and has the
/// provider.
pub proof fn lemma_feed_provider(p: Progress, consumed: nat, provider: ProviderView)
    requires
        p.phase == Phase::Top,
        p.provider == Seq::<char>::empty(),
        p.probes == Seq::<ProbeView>::empty(),
        p.probe == Seq::<char>::empty(),
        p.types == Seq::<TypeView>::empty(),
        describable(provider),
    ensures
        feed(Outcome::Running { progress: p, consumed }, provider_tokens(provider)) == (
        Outcome::Running {
            progress: Progress { providers: p.providers.push(provider), ..p },
            consumed: consumed + provider_tokens(provider).len(),
        }),
{
    let start = Outcome::Running { progress: p, consumed };
    let head = seq![
        TokenView::Word("provider"@),
        TokenView::Word(provider.name),
        TokenView::OpenBrace,
    ];
    let tail = seq![TokenView::CloseBrace, TokenView::Semicolon];
    let stage1 = Progress { phase: Phase::ProviderName, ..p };
    let stage2 = Progress { phase: Phase::ProviderOpen, provider: provider.name, ..p };
    let stage3 = Progress { phase: Phase::Body, ..stage2 };
    let reader1 = Outcome::Running { progress: stage1, consumed: consumed + 1 };
    let reader2 = Outcome::Running { progress: stage2, consumed: consumed + 2 };
    let reader3 = Outcome::Running { progress: stage3, consumed: consumed + 3 };
    assert(head =~= seq![TokenView::Word("provider"@)] + (seq![TokenView::Word(provider.name)]
        + seq![TokenView::OpenBrace]));
    lemma_feed_first(
        start,
        TokenView::Word("provider"@),
        seq![TokenView::Word(provider.name)] + seq![TokenView::OpenBrace],
    );
    assert(advance(start, TokenView::Word("provider"@)) == reader1);
    lemma_feed_first(reader1, TokenView::Word(provider.name), seq![TokenView::OpenBrace]);
    assert(advance(reader1, TokenView::Word(provider.name)) == reader2);
    lemma_feed_one(reader2, TokenView::OpenBrace);
    assert(advance(reader2, TokenView::OpenBrace) == reader3);
    assert(feed(start, head) == reader3);
    lemma_feed_concat(start, head + probes_tokens(provider.probes), tail);
    lemma_feed_concat(start, head, probes_tokens(provider.probes));
    lemma_feed_probes(stage3, consumed + 3, provider.probes);
    assert(stage3.probes + provider.probes =~= provider.probes);
    let stage4 = Progress { probes: provider.probes, ..stage3 };
    let n4 = consumed + 3 + probes_tokens(provider.probes).len();
    let reader4 = Outcome::Running { progress: stage4, consumed: n4 };
    assert(feed(reader3, probes_tokens(provider.probes)) == reader4);
    let stage5 = Progress { phase: Phase::ProviderEnd, ..stage4 };
    let reader5 = Outcome::Running { progress: stage5, consumed: n4 + 1 };
    assert(tail =~= seq![TokenView::CloseBrace] + seq![TokenView::Semicolon]);
    lemma_feed_first(reader4, TokenView::CloseBrace, seq![TokenView::Semicolon]);
    assert(advance(reader4, TokenView::CloseBrace) == reader5);
    lemma_feed_one(reader5, TokenView::Semicolon);
}

/// A reader between providers reads the tokens of a list of providers, and
/// has the providers.
pub proof fn lemma_feed_providers(p: Progress, consumed: nat, providers: Seq<ProviderView>)
    requires
        p.phase == Phase::Top,
        p.provider == Seq::<char>::empty(),
        p.probes == Seq::<ProbeView>::empty(),
        p.probe == Seq::<char>::empty(),
        p.types == Seq::<TypeView>::empty(),
        forall|i: int| 0 <= i < providers.len() ==> describable(#[trigger] providers[i]),
    ensures
        feed(Outcome::Running { progress: p, consumed }, providers_tokens(providers)) == (
        Outcome::Running {
            progress: Progress { providers: p.providers + providers, ..p },
            consumed: consumed + providers_tokens(providers).len(),
        }),
    decreases providers.len(),
{
    let start = Outcome::Running { progress: p, consumed };
    if providers.len() == 0 {
        assert(p.providers + providers =~= p.providers);
    } else {
        let front = providers.drop_last();
        let last = providers.last();
        lemma_feed_providers(p, consumed, front);
        let listed = Progress { providers: p.providers + front, ..p };
        lemma_feed_concat(start, providers_tokens(front), provider_tokens(last));
        lemma_feed_provider(listed, consumed + providers_tokens(front).len(), last);
        assert((p.providers + front).push(last) =~= p.providers + providers);
    }
}

/// Parsing inverts writing: the D provider script of a list of describable
/// providers parses to that list.
pub proof fn lemma_parse_inverts_writing(providers: Seq<ProviderView>)
    requires
        forall|i: int| 0 <= i < providers.len() ==> describable(#[trigger] providers[i]),
    ensures
        parse_result(providers_source(providers)) == Ok::<Seq<ProviderView>, ErrorView>(
            providers,
        ),
{
    let source = providers_source(providers);
    let nothing = Seq::<char>::empty();
    lemma_lex_providers(providers, nothing);
    assert(source + nothing =~= source);
    assert(providers_tokens(providers) + tokens(nothing) =~= providers_tokens(providers));
    lemma_feed_providers(initial(), 0, providers);
    assert(initial().providers + providers =~= providers);
}

/// Parsing inverts writing, for one provider: the D provider script of a
/// describable provider parses to that provider alone.
pub proof fn lemma_provider_roundtrip(provider: ProviderView)
    requires
        describable(provider),
    ensures
        parse_result(provider_source(provider)) == Ok::<Seq<ProviderView>, ErrorView>(
            seq![provider],
        ),
{
    let providers = seq![provider];
    assert(providers.drop_last() =~= Seq::<ProviderView>::empty());
    assert(providers_source(providers.drop_last()) =~= Seq::<char>::empty());
    assert(providers_source(providers) =~= provider_source(provider));
    lemma_parse_inverts_writing(providers);
}

/// What holds of a reader at every token: all that it has read so far can be
/// described in D, and the names of the provider and the probe that are open
/// are identifiers.
pub open spec fn reads_describable(p: Progress) -> bool {
    &&& forall|i: int| 0 <= i < p.providers.len() ==> describable(#[trigger] p.providers[i])
    &&& forall|i: int| 0 <= i < p.probes.len() ==> describable_probe(#[trigger] p.probes[i])
    &&& forall|i: int| 0 <= i < p.types.len() ==> describable_type(#[trigger] p.types[i])
    &&& (p.phase != Phase::Top && p.phase != Phase::ProviderName ==> is_identifier(p.provider))
    &&& (p.phase == Phase::ProbeOpen || p.phase == Phase::FirstType || p.phase == Phase::Pointer
        || p.phase == Phase::AfterType || p.phase == Phase::NextType || p.phase
        == Phase::ProbeEnd ==> is_identifier(p.probe))
}

/// A token that the reader accepts leaves all that it has read describable.
pub proof fn lemma_step_reads_describable(p: Progress, token: TokenView)
    requires
        reads_describable(p),
        step(p, token) is Ok,
    ensures
        reads_describable(step(p, token)->Ok_0),
{
    let q = step(p, token)->Ok_0;
    assert forall|i: int| 0 <= i < q.types.len() implies describable_type(
        #[trigger] q.types[i],
    ) by {
        if i < p.types.len() {
            assert(q.types[i] == p.types[i]);
        }
    }
    assert forall|i: int| 0 <= i < q.probes.len() implies describable_probe(
        #[trigger] q.probes[i],
    ) by {
        if i < p.probes.len() {
            assert(q.probes[i] == p.probes[i]);
        }
    }
    assert forall|i: int| 0 <= i < q.providers.len() implies describable(
        #[trigger] q.providers[i],
    ) by {
        if i < p.providers.len() {
            assert(q.providers[i] == p.providers[i]);
        }
    }
}

/// Tokens that the reader accepts leave all that it has read describable.
pub proof fn lemma_feed_reads_describable(outcome: Outcome, input: Seq<TokenView>)
    requires
        outcome matches Outcome::Running { progress, consumed } ==> reads_describable(progress),
    ensures
        feed(outcome, input) matches Outcome::Running { progress, consumed } ==> reads_describable(
            progress,
        ),
    decreases input.len(),
{
    if input.len() > 0 {
        lemma_feed_reads_describable(outcome, input.drop_last());
        match feed(outcome, input.drop_last()) {
            Outcome::Running { progress, consumed } => {
                if step(progress, input.last()) is Ok {
                    lemma_step_reads_describable(progress, input.last());
                }
            },
            Outcome::Failed { index, fault } => {},
        }
    }
}

/// Whatever the parser accepts can be described in D: every name is an
/// identifier and every type is native.
pub proof fn lemma_parsed_is_describable(source: Seq<char>)
    ensures
        parse_result(source) matches Ok(providers) ==> forall|i: int|
            0 <= i < providers.len() ==> describable(#[trigger] providers[i]),
{
    lemma_feed_reads_describable(
        Outcome::Running { progress: initial(), consumed: 0 },
        tokens(source),
    );
}

/// Writing what was parsed and parsing it again changes nothing.
pub proof fn lemma_reparse(source: Seq<char>)
    ensures
        parse_result(source) matches Ok(providers) ==> parse_result(providers_source(providers))
            == Ok::<Seq<ProviderView>, ErrorView>(providers),
{
    lemma_parsed_is_describable(source);
    match parse_result(source) {
        Ok(providers) => {
            lemma_parse_inverts_writing(providers);
        },
        Err(error) => {},
    }
}

} // verus!
