//! Rendered statements as token sequences: characters with slots for bound values between them.
//!
//! A statement is first a sequence of tokens. Numbering its slots in order and writing the dialect's
//! placeholder for each gives the SQL text; the slots themselves, in order, give the binds.
use crate::dialect::Dialect;
use crate::tree::Encoded;
use vstd::prelude::*;

verus! {

/// One token of a statement: a character of SQL text, or the place of a bound value.
pub enum Token<L> {
    Char(char),
    /// A literal, bound where it stands.
    Literal(L),
    /// A runtime parameter, bound when the statement is executed.
    Runtime,
}

/// What a render sink is told: a character to write, or a bind to record.
pub enum Entry<L> {
    Char(char),
    Bind(L),
    RuntimeBind(nat),
}

/// A character of SQL text as a token.
pub open spec fn char_token<L>(c: char) -> Token<L> {
    Token::Char(c)
}

/// A character of SQL text as a sink entry.
pub open spec fn char_entry<L>(c: char) -> Entry<L> {
    Entry::Char(c)
}

/// SQL text as tokens.
pub open spec fn chars<L>(text: Seq<char>) -> Seq<Token<L>> {
    Seq::new(text.len(), |i: int| char_token::<L>(text[i]))
}

/// SQL text as sink entries.
pub open spec fn char_entries<L>(text: Seq<char>) -> Seq<Entry<L>> {
    Seq::new(text.len(), |i: int| char_entry::<L>(text[i]))
}

/// The number of slots, and so of placeholders.
pub open spec fn slots<L>(tokens: Seq<Token<L>>) -> nat
    decreases tokens.len(),
{
    if tokens.len() == 0 {
        0
    } else {
        slots(tokens.drop_last()) + (match tokens.last() {
            Token::Char(_) => 0nat,
            _ => 1nat,
        })
    }
}

/// The number of runtime parameters.
pub open spec fn runtimes<L>(tokens: Seq<Token<L>>) -> nat
    decreases tokens.len(),
{
    if tokens.len() == 0 {
        0
    } else {
        runtimes(tokens.drop_last()) + (match tokens.last() {
            Token::Runtime => 1nat,
            _ => 0nat,
        })
    }
}

/// What a sink is told for a token sequence: each slot is bound and written as the placeholder of its
/// position, positions counting the slots before it; runtime binds carry their own count.
pub open spec fn emit<D: Dialect, L>(dialect: D, tokens: Seq<Token<L>>) -> Seq<Entry<L>>
    decreases tokens.len(),
{
    if tokens.len() == 0 {
        Seq::empty()
    } else {
        let before = tokens.drop_last();
        emit(dialect, before) + (match tokens.last() {
            Token::Char(c) => seq![Entry::Char(c)],
            Token::Literal(value) => seq![Entry::Bind(value)] + char_entries(
                dialect.placeholder_text(slots(before)),
            ),
            Token::Runtime => seq![Entry::RuntimeBind(runtimes(before))] + char_entries(
                dialect.placeholder_text(slots(before)),
            ),
        })
    }
}

/// The characters that a sink was told to write.
pub open spec fn written<L>(entries: Seq<Entry<L>>) -> Seq<char>
    decreases entries.len(),
{
    if entries.len() == 0 {
        Seq::empty()
    } else {
        written(entries.drop_last()) + (match entries.last() {
            Entry::Char(c) => seq![c],
            _ => Seq::empty(),
        })
    }
}

/// The SQL text of a token sequence in a dialect.
pub open spec fn sql_text<D: Dialect, L>(dialect: D, tokens: Seq<Token<L>>) -> Seq<char> {
    written(emit(dialect, tokens))
}

/// A bound parameter of a rendered statement: an encoded literal, or the place of a runtime
/// parameter among the values supplied at execution.
pub enum Bind<P> {
    Static(P),
    Runtime(nat),
}

/// An encoded literal as a bind.
pub open spec fn static_bind<P>(param: P) -> Bind<P> {
    Bind::Static(param)
}

/// Encoded literals as binds.
pub open spec fn static_binds<P>(params: Seq<P>) -> Seq<Bind<P>> {
    Seq::new(params.len(), |i: int| static_bind(params[i]))
}

/// The first error that encoding a literal gave, in order of the slots.
pub open spec fn first_error<P, E>(entries: Seq<Entry<Encoded<P, E>>>) -> Option<E>
    decreases entries.len(),
{
    if entries.len() == 0 {
        None
    } else {
        match first_error(entries.drop_last()) {
            Some(error) => Some(error),
            None => match entries.last() {
                Entry::Bind(Encoded { outcome: Err(error) }) => Some(error),
                _ => None,
            },
        }
    }
}

/// The binds of a statement in order. From the first encoding error on, literals add none.
pub open spec fn binds<P, E>(entries: Seq<Entry<Encoded<P, E>>>) -> Seq<Bind<P>>
    decreases entries.len(),
{
    if entries.len() == 0 {
        Seq::empty()
    } else {
        let before = entries.drop_last();
        binds(before) + (match entries.last() {
            Entry::Bind(Encoded { outcome: Ok(params) }) => if first_error(before) is None {
                static_binds(params.seq())
            } else {
                Seq::empty()
            },
            Entry::RuntimeBind(index) => seq![Bind::Runtime(index)],
            _ => Seq::empty(),
        })
    }
}

/// The encoded literals of a statement in order, up to the first encoding error.
pub open spec fn literals<P, E>(entries: Seq<Entry<Encoded<P, E>>>) -> Seq<P>
    decreases entries.len(),
{
    if entries.len() == 0 {
        Seq::empty()
    } else {
        let before = entries.drop_last();
        literals(before) + (match entries.last() {
            Entry::Bind(Encoded { outcome: Ok(params) }) => if first_error(before) is None {
                params.seq()
            } else {
                Seq::empty()
            },
            _ => Seq::empty(),
        })
    }
}

pub broadcast proof fn lemma_slots_add<L>(a: Seq<Token<L>>, b: Seq<Token<L>>)
    ensures
        #[trigger] slots(a + b) == slots(a) + slots(b),
    decreases b.len(),
{
    if b.len() == 0 {
        assert(a + b =~= a);
    } else {
        lemma_slots_add(a, b.drop_last());
        assert((a + b).drop_last() =~= a + b.drop_last());
        assert((a + b).last() == b.last());
    }
}

pub broadcast proof fn lemma_runtimes_add<L>(a: Seq<Token<L>>, b: Seq<Token<L>>)
    ensures
        #[trigger] runtimes(a + b) == runtimes(a) + runtimes(b),
    decreases b.len(),
{
    if b.len() == 0 {
        assert(a + b =~= a);
    } else {
        lemma_runtimes_add(a, b.drop_last());
        assert((a + b).drop_last() =~= a + b.drop_last());
        assert((a + b).last() == b.last());
    }
}

/// Text has no slots.
pub broadcast proof fn lemma_chars_have_no_slots<L>(text: Seq<char>)
    ensures
        #[trigger] slots(chars::<L>(text)) == 0,
        runtimes(chars::<L>(text)) == 0,
    decreases text.len(),
{
    if text.len() > 0 {
        lemma_chars_have_no_slots::<L>(text.drop_last());
        assert(chars::<L>(text).drop_last() =~= chars::<L>(text.drop_last()));
    }
}

/// Text has no runtime parameters.
pub broadcast proof fn lemma_chars_have_no_runtimes<L>(text: Seq<char>)
    ensures
        #[trigger] runtimes(chars::<L>(text)) == 0,
{
    lemma_chars_have_no_slots::<L>(text);
}

/// Nothing is no token.
pub broadcast proof fn lemma_chars_empty<L>()
    ensures
        #[trigger] chars::<L>(Seq::empty()) == Seq::<Token<L>>::empty(),
{
    assert(chars::<L>(Seq::empty()) =~= Seq::<Token<L>>::empty());
}

/// Nothing behind a token sequence leaves it as it is.
pub broadcast proof fn lemma_tokens_empty<L>(a: Seq<Token<L>>)
    ensures
        #[trigger] (a + Seq::<Token<L>>::empty()) == a,
{
    assert(a + Seq::<Token<L>>::empty() =~= a);
}

/// A token sequence behind nothing is itself.
pub broadcast proof fn lemma_empty_tokens<L>(a: Seq<Token<L>>)
    ensures
        #[trigger] (Seq::<Token<L>>::empty() + a) == a,
{
    assert(Seq::<Token<L>>::empty() + a =~= a);
}

/// There are no more runtime parameters than slots.
pub proof fn lemma_runtimes_are_slots<L>(tokens: Seq<Token<L>>)
    ensures
        runtimes(tokens) <= slots(tokens),
    decreases tokens.len(),
{
    if tokens.len() > 0 {
        lemma_runtimes_are_slots(tokens.drop_last());
    }
}

/// How token sequences are put together, and what that does to their slots.
pub broadcast group group_tokens {
    lemma_slots_add,
    lemma_runtimes_add,
    lemma_chars_have_no_slots,
    lemma_chars_have_no_runtimes,
    lemma_chars_empty,
    lemma_tokens_empty,
    lemma_empty_tokens,
}

/// Text behind a token sequence is handed to the sink as it stands.
pub proof fn lemma_emit_chars<D: Dialect, L>(dialect: D, tokens: Seq<Token<L>>, text: Seq<char>)
    ensures
        emit(dialect, tokens + chars::<L>(text)) == emit(dialect, tokens) + char_entries::<L>(
            text,
        ),
    decreases text.len(),
{
    let all = tokens + chars::<L>(text);
    if text.len() == 0 {
        assert(all =~= tokens);
        assert(char_entries::<L>(text) =~= Seq::<Entry<L>>::empty());
        assert(emit(dialect, all) == emit(dialect, tokens) + char_entries::<L>(text));
    } else {
        let c = text.last();
        lemma_emit_chars(dialect, tokens, text.drop_last());
        assert(all.drop_last() =~= tokens + chars::<L>(text.drop_last()));
        assert(all.last() == Token::<L>::Char(c));
        assert(emit(dialect, all) == emit(dialect, tokens) + char_entries::<L>(text.drop_last())
            + seq![Entry::<L>::Char(c)]);
        assert(char_entries::<L>(text)[text.len() - 1] == Entry::<L>::Char(c));
        assert(char_entries::<L>(text) =~= char_entries::<L>(text.drop_last())
            + seq![Entry::<L>::Char(c)]);
        assert(emit(dialect, all) == emit(dialect, tokens) + char_entries::<L>(text));
    }
}

pub broadcast proof fn lemma_written_add<L>(a: Seq<Entry<L>>, b: Seq<Entry<L>>)
    ensures
        #[trigger] written(a + b) == written(a) + written(b),
    decreases b.len(),
{
    if b.len() == 0 {
        assert(a + b =~= a);
        assert(written(a) + written(b) =~= written(a));
    } else {
        lemma_written_add(a, b.drop_last());
        assert((a + b).drop_last() =~= a + b.drop_last());
        assert((a + b).last() == b.last());
        assert(written(a + b) =~= written(a) + written(b));
    }
}

pub broadcast proof fn lemma_written_chars<L>(text: Seq<char>)
    ensures
        #[trigger] written(char_entries::<L>(text)) == text,
    decreases text.len(),
{
    if text.len() > 0 {
        lemma_written_chars::<L>(text.drop_last());
        assert(char_entries::<L>(text).drop_last() =~= char_entries::<L>(text.drop_last()));
        assert(written(char_entries::<L>(text)) =~= text);
    } else {
        assert(written(char_entries::<L>(text)) =~= text);
    }
}

/// Written text binds nothing and fails nothing.
pub proof fn lemma_chars_bind_nothing<P, E>(entries: Seq<Entry<Encoded<P, E>>>, text: Seq<char>)
    ensures
        first_error(entries + char_entries::<Encoded<P, E>>(text)) == first_error(entries),
        binds(entries + char_entries::<Encoded<P, E>>(text)) == binds(entries),
        literals(entries + char_entries::<Encoded<P, E>>(text)) == literals(entries),
    decreases text.len(),
{
    let all = entries + char_entries::<Encoded<P, E>>(text);
    if text.len() == 0 {
        assert(all =~= entries);
    } else {
        lemma_chars_bind_nothing(entries, text.drop_last());
        assert(all.drop_last() =~= entries + char_entries::<Encoded<P, E>>(text.drop_last()));
        assert(all.last() == Entry::<Encoded<P, E>>::Char(text.last()));
        assert(binds(all) =~= binds(entries));
        assert(literals(all) =~= literals(entries));
    }
}

} // verus!
