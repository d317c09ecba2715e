//! Parts of a statement: what each adds to the text, and what it binds.
//!
//! Placeholders are numbered through a statement, so the text of a part depends on the number of the
//! first placeholder in it. Where a part ends, the next one goes on counting.
use crate::dialect::Dialect;
use crate::render::laws;
use crate::tokens;
use crate::tokens::{Bind, Entry, Token};
use crate::tree::Encoded;
use vstd::prelude::*;

verus! {

broadcast use crate::tokens::group_tokens;

/// The SQL text of a token sequence whose first placeholder has the number `first`.
pub open spec fn text_at<D: Dialect, L>(dialect: D, first: nat, tokens: Seq<Token<L>>) -> Seq<char>
    decreases tokens.len(),
{
    if tokens.len() == 0 {
        Seq::empty()
    } else {
        let before = tokens.drop_last();
        text_at(dialect, first, before) + (match tokens.last() {
            Token::Char(c) => seq![c],
            _ => dialect.placeholder_text(first + tokens::slots(before)),
        })
    }
}

/// The SQL text of a statement is its text with placeholders counted from zero.
pub proof fn law_statement_counts_from_zero<D: Dialect, L>(dialect: D, tokens: Seq<Token<L>>)
    ensures
        tokens::sql_text(dialect, tokens) == text_at(dialect, 0, tokens),
    decreases tokens.len(),
{
    if tokens.len() > 0 {
        let before = tokens.drop_last();
        law_statement_counts_from_zero(dialect, before);
        let entries = tokens::emit(dialect, before);
        match tokens.last() {
            Token::Char(c) => {
                assert((entries + seq![Entry::Char(c)]).drop_last() =~= entries);
            },
            Token::Literal(value) => {
                let text = dialect.placeholder_text(tokens::slots(before));
                let bound = seq![Entry::Bind(value)];
                tokens::lemma_written_add(entries, bound + tokens::char_entries(text));
                tokens::lemma_written_add(bound, tokens::char_entries(text));
                tokens::lemma_written_chars::<L>(text);
                assert(bound.drop_last() =~= Seq::empty());
                assert(tokens::written(Seq::<Entry<L>>::empty()) =~= Seq::<char>::empty());
                assert(tokens::written(bound) =~= Seq::<char>::empty());
                assert(Seq::<char>::empty() + text =~= text);
            },
            Token::Runtime => {
                let text = dialect.placeholder_text(tokens::slots(before));
                let bound = seq![Entry::<L>::RuntimeBind(tokens::runtimes(before))];
                tokens::lemma_written_add(entries, bound + tokens::char_entries(text));
                tokens::lemma_written_add(bound, tokens::char_entries(text));
                tokens::lemma_written_chars::<L>(text);
                assert(bound.drop_last() =~= Seq::empty());
                assert(tokens::written(Seq::<Entry<L>>::empty()) =~= Seq::<char>::empty());
                assert(tokens::written(bound) =~= Seq::<char>::empty());
                assert(Seq::<char>::empty() + text =~= text);
            },
        }
    }
}

/// The text of two parts is their texts, the second counting on from the first.
pub proof fn lemma_text_add<D: Dialect, L>(
    dialect: D,
    first: nat,
    a: Seq<Token<L>>,
    b: Seq<Token<L>>,
)
    ensures
        text_at(dialect, first, a + b) == text_at(dialect, first, a) + text_at(
            dialect,
            first + tokens::slots(a),
            b,
        ),
    decreases b.len(),
{
    if b.len() == 0 {
        assert(a + b =~= a);
        assert(text_at(dialect, first, a) + Seq::<char>::empty() =~= text_at(dialect, first, a));
    } else {
        lemma_text_add(dialect, first, a, b.drop_last());
        assert((a + b).drop_last() =~= a + b.drop_last());
        assert((a + b).last() == b.last());
        tokens::lemma_slots_add(a, b.drop_last());
        assert(text_at(dialect, first, a + b) =~= text_at(dialect, first, a) + text_at(
            dialect,
            first + tokens::slots(a),
            b,
        ));
    }
}

/// Text without placeholders is itself.
pub proof fn lemma_text_chars<D: Dialect, L>(dialect: D, first: nat, text: Seq<char>)
    ensures
        text_at(dialect, first, tokens::chars::<L>(text)) == text,
    decreases text.len(),
{
    let all = tokens::chars::<L>(text);
    if text.len() == 0 {
        assert(text_at(dialect, first, all) =~= text);
    } else {
        lemma_text_chars::<D, L>(dialect, first, text.drop_last());
        assert(all.drop_last() =~= tokens::chars::<L>(text.drop_last()));
        assert(text_at(dialect, first, all) =~= text);
    }
}

/// A slot is written as the placeholder of its number.
pub proof fn lemma_text_slot<D: Dialect, L>(dialect: D, first: nat, slot: Token<L>)
    requires
        !(slot is Char),
    ensures
        text_at(dialect, first, seq![slot]) == dialect.placeholder_text(first),
{
    let one = seq![slot];
    assert(one.drop_last() =~= Seq::empty());
    assert(text_at(dialect, first, Seq::<Token<L>>::empty()) =~= Seq::<char>::empty());
    assert(tokens::slots(Seq::<Token<L>>::empty()) == 0);
    assert(text_at(dialect, first, one) =~= dialect.placeholder_text(first));
}

/// Nothing is written as nothing.
pub proof fn lemma_text_empty<D: Dialect, L>(dialect: D, first: nat)
    ensures
        text_at(dialect, first, Seq::<Token<L>>::empty()) == Seq::<char>::empty(),
{
}

/// A slot counts as one.
pub proof fn lemma_slot_counts<L>(slot: Token<L>)
    requires
        !(slot is Char),
    ensures
        tokens::slots(seq![slot]) == 1,
{
    assert(seq![slot].drop_last() =~= Seq::empty());
    assert(tokens::slots(Seq::<Token<L>>::empty()) == 0);
}

/// The slots of a token sequence, in order: what a statement binds, without the text around it.
pub open spec fn slot_list<L>(tokens: Seq<Token<L>>) -> Seq<Token<L>>
    decreases tokens.len(),
{
    if tokens.len() == 0 {
        Seq::empty()
    } else {
        slot_list(tokens.drop_last()) + (match tokens.last() {
            Token::Char(_) => Seq::empty(),
            slot => seq![slot],
        })
    }
}

/// What two parts bind is what the first binds and then what the second binds.
pub proof fn lemma_slot_list_add<L>(a: Seq<Token<L>>, b: Seq<Token<L>>)
    ensures
        slot_list(a + b) == slot_list(a) + slot_list(b),
    decreases b.len(),
{
    if b.len() == 0 {
        assert(a + b =~= a);
    } else {
        lemma_slot_list_add(a, b.drop_last());
        assert((a + b).drop_last() =~= a + b.drop_last());
        assert((a + b).last() == b.last());
        assert(slot_list(a + b) =~= slot_list(a) + slot_list(b));
    }
}

/// Text binds nothing.
pub proof fn lemma_slot_list_chars<L>(text: Seq<char>)
    ensures
        slot_list(tokens::chars::<L>(text)) == Seq::<Token<L>>::empty(),
    decreases text.len(),
{
    let all = tokens::chars::<L>(text);
    if text.len() > 0 {
        lemma_slot_list_chars::<L>(text.drop_last());
        assert(all.drop_last() =~= tokens::chars::<L>(text.drop_last()));
    }
    assert(slot_list(all) =~= Seq::<Token<L>>::empty());
}

/// A slot binds itself.
pub proof fn lemma_slot_list_slot<L>(slot: Token<L>)
    requires
        !(slot is Char),
    ensures
        slot_list(seq![slot]) == seq![slot],
{
    assert(seq![slot].drop_last() =~= Seq::empty());
    assert(slot_list(Seq::<Token<L>>::empty()) == Seq::<Token<L>>::empty());
    assert(slot_list(seq![slot]) =~= seq![slot]);
}

/// Nothing binds nothing.
pub proof fn lemma_slot_list_empty<L>()
    ensures
        slot_list(Seq::<Token<L>>::empty()) == Seq::<Token<L>>::empty(),
{
}

/// There is one placeholder for each slot.
pub proof fn law_placeholders_are_slots<L>(tokens: Seq<Token<L>>)
    ensures
        slot_list(tokens).len() == tokens::slots(tokens),
        forall|i: int| 0 <= i < slot_list(tokens).len() ==> !(#[trigger] slot_list(tokens)[i] is Char),
    decreases tokens.len(),
{
    if tokens.len() > 0 {
        law_placeholders_are_slots(tokens.drop_last());
    }
}

/// The binds of a statement are those of its slots.
proof fn lemma_binds_of_slots<D: Dialect, P, E>(dialect: D, tokens: Seq<Token<Encoded<P, E>>>)
    ensures
        tokens::binds(tokens::emit(dialect, tokens)) == tokens::binds(
            tokens::emit(dialect, slot_list(tokens)),
        ),
        tokens::literals(tokens::emit(dialect, tokens)) == tokens::literals(
            tokens::emit(dialect, slot_list(tokens)),
        ),
        tokens::first_error(tokens::emit(dialect, tokens)) == tokens::first_error(
            tokens::emit(dialect, slot_list(tokens)),
        ),
        tokens::runtimes(tokens) == tokens::runtimes(slot_list(tokens)),
    decreases tokens.len(),
{
    if tokens.len() > 0 {
        let rest = tokens.drop_last();
        lemma_binds_of_slots(dialect, rest);
        laws::lemma_emit_last(dialect, tokens);
        match tokens.last() {
            Token::Char(_) => {
                assert(slot_list(tokens) =~= slot_list(rest));
            },
            _ => {
                let slots = slot_list(tokens);
                assert(slots.drop_last() =~= slot_list(rest));
                assert(slots.last() == tokens.last());
                laws::lemma_emit_last(dialect, slots);
                if let Token::Literal(value) = tokens.last() {
                    let a = tokens::emit(dialect, rest);
                    let b = tokens::emit(dialect, slot_list(rest));
                    assert(a.push(Entry::Bind(value)).drop_last() =~= a);
                    assert(b.push(Entry::Bind(value)).drop_last() =~= b);
                }
            },
        }
    }
}

/// What a statement binds does not depend on the text around its slots: two statements with the same
/// slots bind the same, fail alike and hand out the same literals.
pub proof fn law_slots_decide_binds<D: Dialect, P, E>(
    dialect: D,
    a: Seq<Token<Encoded<P, E>>>,
    b: Seq<Token<Encoded<P, E>>>,
)
    requires
        slot_list(a) == slot_list(b),
    ensures
        tokens::binds(tokens::emit(dialect, a)) == tokens::binds(tokens::emit(dialect, b)),
        tokens::literals(tokens::emit(dialect, a)) == tokens::literals(tokens::emit(dialect, b)),
        tokens::first_error(tokens::emit(dialect, a)) == tokens::first_error(
            tokens::emit(dialect, b),
        ),
        tokens::runtimes(a) == tokens::runtimes(b),
{
    lemma_binds_of_slots(dialect, a);
    lemma_binds_of_slots(dialect, b);
}

/// Behind slots that all encode, one more literal binds its parameters, or is the first to fail.
pub proof fn law_literal_binds_behind<D: Dialect, P, E>(
    dialect: D,
    before: Seq<Token<Encoded<P, E>>>,
    literal: Encoded<P, E>,
)
    requires
        laws::all_encode(before),
    ensures
        ({
            let done = tokens::emit(dialect, before);
            let all = tokens::emit(dialect, before.push(Token::Literal(literal)));
            match literal.outcome {
                Ok(params) => {
                    &&& tokens::binds(all) == tokens::binds(done) + tokens::static_binds(
                        params.seq(),
                    )
                    &&& tokens::literals(all) == tokens::literals(done) + params.seq()
                    &&& tokens::first_error(all) is None
                },
                Err(error) => {
                    &&& tokens::binds(all) == tokens::binds(done)
                    &&& tokens::literals(all) == tokens::literals(done)
                    &&& tokens::first_error(all) == Some(error)
                },
            }
        }),
{
    let all = before.push(Token::Literal(literal));
    assert(all.drop_last() =~= before);
    laws::lemma_emit_last(dialect, all);
    laws::law_error_iff_literal_fails(dialect, before);
    let done = tokens::emit(dialect, before);
    assert(done.push(Entry::Bind(literal)).drop_last() =~= done);
    assert(tokens::binds(done) + Seq::<Bind<P>>::empty() =~= tokens::binds(done));
    assert(tokens::literals(done) + Seq::<P>::empty() =~= tokens::literals(done));
}

/// Behind a literal that cannot be encoded no literal is bound any more, and its error stays.
pub proof fn law_nothing_binds_behind_an_error<D: Dialect, P, E>(
    dialect: D,
    before: Seq<Token<Encoded<P, E>>>,
    literal: Encoded<P, E>,
)
    requires
        !laws::all_encode(before),
    ensures
        ({
            let done = tokens::emit(dialect, before);
            let all = tokens::emit(dialect, before.push(Token::Literal(literal)));
            &&& tokens::binds(all) == tokens::binds(done)
            &&& tokens::literals(all) == tokens::literals(done)
            &&& tokens::first_error(all) == tokens::first_error(done)
        }),
{
    let all = before.push(Token::Literal(literal));
    assert(all.drop_last() =~= before);
    laws::lemma_emit_last(dialect, all);
    laws::law_error_iff_literal_fails(dialect, before);
    let done = tokens::emit(dialect, before);
    assert(done.push(Entry::Bind(literal)).drop_last() =~= done);
    assert(tokens::binds(done) + Seq::<Bind<P>>::empty() =~= tokens::binds(done));
    assert(tokens::literals(done) + Seq::<P>::empty() =~= tokens::literals(done));
}

/// A runtime parameter binds its own number among the runtime parameters.
pub proof fn law_runtime_binds_behind<D: Dialect, P, E>(
    dialect: D,
    before: Seq<Token<Encoded<P, E>>>,
)
    ensures
        tokens::binds(tokens::emit(dialect, before.push(Token::Runtime))) == tokens::binds(
            tokens::emit(dialect, before),
        ).push(Bind::Runtime(tokens::runtimes(before))),
        tokens::literals(tokens::emit(dialect, before.push(Token::Runtime))) == tokens::literals(
            tokens::emit(dialect, before),
        ),
{
    let all = before.push(Token::Runtime);
    assert(all.drop_last() =~= before);
    laws::lemma_emit_last(dialect, all);
}

/// What one part behind another adds.
pub proof fn lemma_join<D: Dialect, L>(
    dialect: D,
    first: nat,
    a: Seq<Token<L>>,
    b: Seq<Token<L>>,
)
    ensures
        text_at(dialect, first, a + b) == text_at(dialect, first, a) + text_at(
            dialect,
            first + tokens::slots(a),
            b,
        ),
        tokens::slots(a + b) == tokens::slots(a) + tokens::slots(b),
        slot_list(a + b) == slot_list(a) + slot_list(b),
{
    lemma_text_add(dialect, first, a, b);
    lemma_slot_list_add(a, b);
    tokens::lemma_slots_add(a, b);
}

/// Text is itself wherever it stands, and neither counts nor binds.
pub proof fn lemma_piece<D: Dialect, L>(dialect: D, text: Seq<char>)
    ensures
        forall|n: nat| #[trigger] text_at(dialect, n, tokens::chars::<L>(text)) == text,
        tokens::slots(tokens::chars::<L>(text)) == 0,
        slot_list(tokens::chars::<L>(text)) == Seq::<Token<L>>::empty(),
{
    assert forall|n: nat| #[trigger] text_at(dialect, n, tokens::chars::<L>(text)) == text by {
        lemma_text_chars::<D, L>(dialect, n, text);
    }
    tokens::lemma_chars_have_no_slots::<L>(text);
    lemma_slot_list_chars::<L>(text);
}

/// A slot is the placeholder of its number, counts as one and binds itself.
pub proof fn lemma_slot<D: Dialect, L>(dialect: D, slot: Token<L>)
    requires
        !(slot is Char),
    ensures
        forall|n: nat| #[trigger] text_at(dialect, n, seq![slot]) == dialect.placeholder_text(n),
        tokens::slots(seq![slot]) == 1,
        slot_list(seq![slot]) == seq![slot],
{
    assert forall|n: nat| #[trigger] text_at(dialect, n, seq![slot]) == dialect.placeholder_text(
        n,
    ) by {
        lemma_text_slot(dialect, n, slot);
    }
    lemma_slot_counts(slot);
    lemma_slot_list_slot(slot);
}

/// Appending is associative.
pub proof fn lemma_regroup<T>(a: Seq<T>, b: Seq<T>, c: Seq<T>, d: Seq<T>)
    ensures
        a + (b + c + d) == a + b + c + d,
        a + (b + c) == a + b + c,
{
    assert(a + (b + c + d) =~= a + b + c + d);
    assert(a + (b + c) =~= a + b + c);
}

/// Nothing before or behind a sequence leaves it as it is.
pub proof fn lemma_nothing<T>(a: Seq<T>)
    ensures
        a + Seq::<T>::empty() == a,
        Seq::<T>::empty() + a == a,
{
    assert(a + Seq::<T>::empty() =~= a);
    assert(Seq::<T>::empty() + a =~= a);
}

/// No text behind a text leaves it as it is.
pub broadcast proof fn lemma_no_more_text(a: Seq<char>)
    ensures
        #[trigger] (a + Seq::<char>::empty()) == a,
{
    assert(a + Seq::<char>::empty() =~= a);
}

/// No text before a text leaves it as it is.
pub broadcast proof fn lemma_no_text_before(a: Seq<char>)
    ensures
        #[trigger] (Seq::<char>::empty() + a) == a,
{
    assert(Seq::<char>::empty() + a =~= a);
}

} // verus!
