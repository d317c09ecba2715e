//! What holds of every rendering, whatever the statement.
use super::sink;
use super::sink::PreparedSql;
use crate::backend::{Backend, Bound};
use crate::chain::List;
use crate::dialect::Dialect;
use crate::grammar;
use crate::tokens;
use crate::tokens::{Bind, Entry, Token};
use crate::tree::{ConflictAction, ConflictClause, CteDef, Encoded, SelectTree};
use vstd::prelude::*;

verus! {

/// The encoded literals among binds, in order.
pub open spec fn static_params<P>(binds: Seq<Bind<P>>) -> Seq<P>
    decreases binds.len(),
{
    if binds.len() == 0 {
        Seq::empty()
    } else {
        static_params(binds.drop_last()) + (match binds.last() {
            Bind::Static(param) => seq![param],
            Bind::Runtime(_) => Seq::empty(),
        })
    }
}

/// The places of the runtime parameters among binds, in order.
pub open spec fn runtime_places<P>(binds: Seq<Bind<P>>) -> Seq<nat>
    decreases binds.len(),
{
    if binds.len() == 0 {
        Seq::empty()
    } else {
        runtime_places(binds.drop_last()) + (match binds.last() {
            Bind::Static(_) => Seq::empty(),
            Bind::Runtime(place) => seq![place],
        })
    }
}

/// Whether every literal of a token sequence can be encoded.
pub open spec fn all_encode<P, E>(tokens: Seq<Token<Encoded<P, E>>>) -> bool {
    forall|i: int| 0 <= i < tokens.len() ==> match #[trigger] tokens[i] {
        Token::Literal(literal) => literal.outcome is Ok,
        _ => true,
    }
}

/// Whether every literal of a token sequence is encoded as one parameter.
pub open spec fn single_params<P, E>(tokens: Seq<Token<Encoded<P, E>>>) -> bool {
    forall|i: int| 0 <= i < tokens.len() ==> match #[trigger] tokens[i] {
        Token::Literal(literal) => literal.outcome matches Ok(params) && params.seq().len() == 1,
        _ => true,
    }
}

/// The entries of one token in place.
pub proof fn lemma_emit_last<D: Dialect, P, E>(dialect: D, tokens: Seq<Token<Encoded<P, E>>>)
    requires
        tokens.len() > 0,
    ensures
        ({
            let before = tokens::emit(dialect, tokens.drop_last());
            let all = tokens::emit(dialect, tokens);
            match tokens.last() {
                Token::Char(_) => {
                    &&& tokens::binds(all) == tokens::binds(before)
                    &&& tokens::literals(all) == tokens::literals(before)
                    &&& tokens::first_error(all) == tokens::first_error(before)
                },
                Token::Literal(value) => {
                    &&& tokens::binds(all) == tokens::binds(before.push(Entry::Bind(value)))
                    &&& tokens::literals(all) == tokens::literals(before.push(Entry::Bind(value)))
                    &&& tokens::first_error(all) == tokens::first_error(
                        before.push(Entry::Bind(value)),
                    )
                },
                Token::Runtime => {
                    let place = tokens::runtimes(tokens.drop_last());
                    &&& tokens::binds(all) == tokens::binds(before).push(Bind::Runtime(place))
                    &&& tokens::literals(all) == tokens::literals(before)
                    &&& tokens::first_error(all) == tokens::first_error(before)
                },
            }
        }),
{
    let before = tokens::emit(dialect, tokens.drop_last());
    let all = tokens::emit(dialect, tokens);
    let text = dialect.placeholder_text(tokens::slots(tokens.drop_last()));
    match tokens.last() {
        Token::Char(c) => {
            assert(seq![Entry::Char(c)] =~= tokens::char_entries::<Encoded<P, E>>(seq![c])) by {
                assert(tokens::char_entries::<Encoded<P, E>>(seq![c])[0] == Entry::<
                    Encoded<P, E>,
                >::Char(c));
            }
            tokens::lemma_chars_bind_nothing(before, seq![c]);
        },
        Token::Literal(value) => {
            let bound = before.push(Entry::Bind(value));
            assert(all =~= bound + tokens::char_entries(text));
            tokens::lemma_chars_bind_nothing(bound, text);
        },
        Token::Runtime => {
            let entry = Entry::RuntimeBind(tokens::runtimes(tokens.drop_last()));
            let bound = before.push(entry);
            assert(all =~= bound + tokens::char_entries(text));
            tokens::lemma_chars_bind_nothing(bound, text);
            assert(bound.drop_last() =~= before);
            assert(tokens::binds(bound) =~= tokens::binds(before).push(
                Bind::Runtime(tokens::runtimes(tokens.drop_last())),
            ));
            assert(tokens::literals(bound) =~= tokens::literals(before));
        },
    }
}

/// The binds of a statement and the error of encoding them do not depend on the dialect that it is
/// written in.
pub proof fn law_binds_ignore_dialect<D1: Dialect, D2: Dialect, P, E>(
    one: D1,
    other: D2,
    tokens: Seq<Token<Encoded<P, E>>>,
)
    ensures
        tokens::binds(tokens::emit(one, tokens)) == tokens::binds(tokens::emit(other, tokens)),
        tokens::literals(tokens::emit(one, tokens)) == tokens::literals(
            tokens::emit(other, tokens),
        ),
        tokens::first_error(tokens::emit(one, tokens)) == tokens::first_error(
            tokens::emit(other, tokens),
        ),
    decreases tokens.len(),
{
    if tokens.len() > 0 {
        law_binds_ignore_dialect(one, other, tokens.drop_last());
        lemma_emit_last(one, tokens);
        lemma_emit_last(other, tokens);
        if let Token::Literal(value) = tokens.last() {
            let a = tokens::emit(one, tokens.drop_last());
            let b = tokens::emit(other, tokens.drop_last());
            assert(a.push(Entry::Bind(value)).drop_last() =~= a);
            assert(b.push(Entry::Bind(value)).drop_last() =~= b);
        }
    }
}

/// A statement reports an encoding error exactly when one of its literals cannot be encoded.
pub proof fn law_error_iff_literal_fails<D: Dialect, P, E>(
    dialect: D,
    tokens: Seq<Token<Encoded<P, E>>>,
)
    ensures
        tokens::first_error(tokens::emit(dialect, tokens)) is None <==> all_encode(tokens),
    decreases tokens.len(),
{
    if tokens.len() > 0 {
        let rest = tokens.drop_last();
        law_error_iff_literal_fails(dialect, rest);
        lemma_emit_last(dialect, tokens);
        if let Token::Literal(value) = tokens.last() {
            let before = tokens::emit(dialect, rest);
            assert(before.push(Entry::Bind(value)).drop_last() =~= before);
        }
        assert(all_encode(tokens) <==> all_encode(rest) && match tokens.last() {
            Token::Literal(literal) => literal.outcome is Ok,
            _ => true,
        }) by {
            assert(forall|i: int| 0 <= i < rest.len() ==> #[trigger] tokens[i] == rest[i]);
            assert(tokens[tokens.len() - 1] == tokens.last());
            if all_encode(tokens) {
                assert(forall|i: int|
                    0 <= i < rest.len() ==> #[trigger] rest[i] == tokens[i]);
            }
        }
    }
}

/// Collecting parameters alone gives the literals of the prepared statement, in the same order.
pub proof fn law_params_are_static_binds<P, E>(entries: Seq<Entry<Encoded<P, E>>>)
    ensures
        tokens::literals(entries) == static_params(tokens::binds(entries)),
    decreases entries.len(),
{
    if entries.len() > 0 {
        let before = entries.drop_last();
        law_params_are_static_binds(before);
        match entries.last() {
            Entry::Bind(Encoded { outcome: Ok(params) }) => {
                lemma_static_params_add(tokens::binds(before), tokens::static_binds(params.seq()));
                lemma_static_params_of(params.seq());
                assert(tokens::binds(before) + Seq::<Bind<P>>::empty() =~= tokens::binds(before));
                assert(tokens::literals(before) + Seq::<P>::empty() =~= tokens::literals(before));
            },
            Entry::RuntimeBind(place) => {
                let all = tokens::binds(before) + seq![Bind::Runtime(place)];
                assert(all.drop_last() =~= tokens::binds(before));
                assert(static_params(all) =~= static_params(tokens::binds(before)));
                assert(tokens::literals(before) + Seq::<P>::empty() =~= tokens::literals(before));
            },
            _ => {
                assert(tokens::binds(before) + Seq::<Bind<P>>::empty() =~= tokens::binds(before));
                assert(tokens::literals(before) + Seq::<P>::empty() =~= tokens::literals(before));
            },
        }
    }
}

proof fn lemma_static_params_add<P>(a: Seq<Bind<P>>, b: Seq<Bind<P>>)
    ensures
        static_params(a + b) == static_params(a) + static_params(b),
        runtime_places(a + b) == runtime_places(a) + runtime_places(b),
    decreases b.len(),
{
    if b.len() == 0 {
        assert(a + b =~= a);
        assert(static_params(a) + static_params(b) =~= static_params(a));
        assert(runtime_places(a) + runtime_places(b) =~= runtime_places(a));
    } else {
        lemma_static_params_add(a, b.drop_last());
        assert((a + b).drop_last() =~= a + b.drop_last());
        assert((a + b).last() == b.last());
        assert(static_params(a + b) =~= static_params(a) + static_params(b));
        assert(runtime_places(a + b) =~= runtime_places(a) + runtime_places(b));
    }
}

proof fn lemma_static_params_of<P>(params: Seq<P>)
    ensures
        static_params(tokens::static_binds(params)) == params,
        runtime_places(tokens::static_binds(params)) == Seq::<nat>::empty(),
    decreases params.len(),
{
    let all = tokens::static_binds(params);
    if params.len() > 0 {
        lemma_static_params_of(params.drop_last());
        assert(all.drop_last() =~= tokens::static_binds(params.drop_last()));
        assert(all.last() == Bind::Static(params.last()));
        assert(static_params(all) =~= params);
        assert(runtime_places(all) =~= Seq::<nat>::empty());
    } else {
        assert(static_params(all) =~= params);
    }
}

/// Runtime parameters are numbered from zero in the order of their placeholders, without a gap.
pub proof fn law_runtime_places_count_up<D: Dialect, P, E>(
    dialect: D,
    tokens: Seq<Token<Encoded<P, E>>>,
)
    ensures
        ({
            let places = runtime_places(tokens::binds(tokens::emit(dialect, tokens)));
            &&& places.len() == tokens::runtimes(tokens)
            &&& forall|i: int| 0 <= i < places.len() ==> #[trigger] places[i] == i
        }),
    decreases tokens.len(),
{
    if tokens.len() > 0 {
        let rest = tokens.drop_last();
        let before = tokens::emit(dialect, rest);
        law_runtime_places_count_up(dialect, rest);
        lemma_emit_last(dialect, tokens);
        match tokens.last() {
            Token::Char(_) => {},
            Token::Literal(value) => {
                assert(before.push(Entry::Bind(value)).drop_last() =~= before);
                assert(tokens::binds(before) + Seq::<Bind<P>>::empty() =~= tokens::binds(before));
                if let Ok(params) = value.outcome {
                    lemma_static_params_of(params.seq());
                    lemma_static_params_add(
                        tokens::binds(before),
                        tokens::static_binds(params.seq()),
                    );
                    assert(runtime_places(tokens::binds(before)) + Seq::<nat>::empty()
                        =~= runtime_places(tokens::binds(before)));
                }
            },
            Token::Runtime => {
                let all = tokens::binds(before).push(Bind::Runtime(tokens::runtimes(rest)));
                assert(all.drop_last() =~= tokens::binds(before));
                assert(runtime_places(all) == runtime_places(tokens::binds(before)) + seq![
                    tokens::runtimes(rest),
                ]);
            },
        }
    }
}

/// Where each literal is encoded as one parameter, a statement has one bind for each placeholder.
pub proof fn law_one_bind_per_placeholder<D: Dialect, P, E>(
    dialect: D,
    tokens: Seq<Token<Encoded<P, E>>>,
)
    requires
        single_params(tokens),
    ensures
        tokens::binds(tokens::emit(dialect, tokens)).len() == tokens::slots(tokens),
    decreases tokens.len(),
{
    if tokens.len() > 0 {
        let rest = tokens.drop_last();
        let before = tokens::emit(dialect, rest);
        assert(tokens[tokens.len() - 1] == tokens.last());
        assert(single_params(rest)) by {
            assert(forall|i: int| 0 <= i < rest.len() ==> #[trigger] rest[i] == tokens[i]);
        }
        law_one_bind_per_placeholder(dialect, rest);
        law_error_iff_literal_fails(dialect, rest);
        lemma_emit_last(dialect, tokens);
        if let Token::Literal(value) = tokens.last() {
            assert(before.push(Entry::Bind(value)).drop_last() =~= before);
        }
    }
}

/// Two dialects with the same placeholders write the same tokens as the same text.
pub proof fn law_text_of_placeholders<D1: Dialect, D2: Dialect, L>(
    one: D1,
    other: D2,
    tokens: Seq<Token<L>>,
)
    requires
        forall|n: nat| #[trigger] one.placeholder_text(n) == other.placeholder_text(n),
    ensures
        tokens::sql_text(one, tokens) == tokens::sql_text(other, tokens),
{
    lemma_emit_same(one, other, tokens);
}

proof fn lemma_emit_same<D1: Dialect, D2: Dialect, L>(
    one: D1,
    other: D2,
    tokens: Seq<Token<L>>,
)
    requires
        forall|n: nat| #[trigger] one.placeholder_text(n) == other.placeholder_text(n),
    ensures
        tokens::emit(one, tokens) == tokens::emit(other, tokens),
    decreases tokens.len(),
{
    if tokens.len() > 0 {
        lemma_emit_same(one, other, tokens.drop_last());
    }
}

/// A prepared statement that reports no error holds every literal and every runtime parameter of the
/// statement, in the order of the placeholders.
pub proof fn law_prepared_agrees_with_parts<B: Backend>(
    prepared: PreparedSql<B>,
    entries: Seq<Entry<Bound<B>>>,
)
    requires
        prepared.holds(entries),
    ensures
        prepared.sql_view() == tokens::written(entries),
        static_params(sink::param_binds(prepared.params_view())) == tokens::literals(entries),
        prepared.error_view() == tokens::first_error(entries),
{
    law_params_are_static_binds(entries);
}

/// Definitions that were written out once are not written again: the distinct definitions of a
/// statement have distinct identities, and every definition is among them.
pub proof fn law_distinct_ctes(kept: Seq<CteDef>, defs: List<CteDef>)
    requires
        forall|i: int, j: int|
            0 <= i < j < kept.len() ==> (#[trigger] kept[i]).type_key != (
            #[trigger] kept[j]).type_key,
    ensures
        ({
            let all = grammar::kept_ctes(kept, defs);
            &&& forall|i: int, j: int|
                0 <= i < j < all.len() ==> (#[trigger] all[i]).type_key != (
                #[trigger] all[j]).type_key
            &&& kept.len() <= all.len()
            &&& all.subrange(0, kept.len() as int) == kept
            &&& forall|k: int|
                0 <= k < defs.seq().len() ==> grammar::has_key(
                    all,
                    (#[trigger] defs.seq()[k]).type_key,
                )
        }),
    decreases defs,
{
    let all = grammar::kept_ctes(kept, defs);
    match defs {
        List::Nil => {
            assert(all.subrange(0, kept.len() as int) =~= kept);
        },
        List::Cons { head, tail } => {
            let present = grammar::has_key(kept, head.type_key);
            let next = if present {
                kept
            } else {
                kept.push(*head)
            };
            law_distinct_ctes(next, *tail);
            assert(all.subrange(0, next.len() as int) == next);
            assert(all.subrange(0, kept.len() as int) =~= kept) by {
                assert(forall|i: int|
                    0 <= i < kept.len() ==> all[i] == all.subrange(0, next.len() as int)[i]);
            }
            assert(grammar::has_key(all, head.type_key)) by {
                assert(exists|i: int|
                    0 <= i < next.len() && (#[trigger] next[i]).type_key == head.type_key) by {
                    if !present {
                        assert(next[kept.len() as int].type_key == head.type_key);
                    }
                }
                let i = choose|i: int|
                    0 <= i < next.len() && (#[trigger] next[i]).type_key == head.type_key;
                assert(all[i] == all.subrange(0, next.len() as int)[i]);
            }
            assert forall|k: int| 0 <= k < defs.seq().len() implies grammar::has_key(
                all,
                (#[trigger] defs.seq()[k]).type_key,
            ) by {
                if k > 0 {
                    assert(defs.seq()[k] == tail.seq()[k - 1]);
                }
            }
        },
    }
}

/// Writing definitions out is idempotent: of definitions that are distinct already, none is dropped
/// and none moves.
pub proof fn law_distinct_ctes_idempotent(kept: Seq<CteDef>, defs: List<CteDef>)
    requires
        forall|i: int, j: int|
            0 <= i < j < (kept + defs.seq()).len() ==> (#[trigger] (kept
                + defs.seq())[i]).type_key != (#[trigger] (kept + defs.seq())[j]).type_key,
    ensures
        grammar::kept_ctes(kept, defs) == kept + defs.seq(),
    decreases defs,
{
    let all = kept + defs.seq();
    match defs {
        List::Nil => {
            assert(all =~= kept);
        },
        List::Cons { head, tail } => {
            assert(all[kept.len() as int] == *head);
            assert forall|i: int| 0 <= i < kept.len() implies (#[trigger] kept[i]).type_key
                != head.type_key by {
                assert(all[i] == kept[i]);
            }
            assert(!grammar::has_key(kept, head.type_key));
            assert(kept.push(*head) + tail.seq() =~= all);
            law_distinct_ctes_idempotent(kept.push(*head), *tail);
        },
    }
}

/// Text in front of a statement is handed to the sink as it stands, and what follows it is written as
/// it would be without it.
proof fn lemma_emit_behind_text<D: Dialect, P, E>(
    dialect: D,
    text: Seq<char>,
    statement: Seq<Token<Encoded<P, E>>>,
)
    ensures
        tokens::emit(dialect, tokens::chars(text) + statement) == tokens::char_entries(text)
            + tokens::emit(dialect, statement),
    decreases statement.len(),
{
    let all = tokens::chars(text) + statement;
    if statement.len() == 0 {
        tokens::lemma_emit_chars::<D, Encoded<P, E>>(dialect, Seq::empty(), text);
        assert(Seq::<Token<Encoded<P, E>>>::empty() + tokens::chars(text) =~= all);
        assert(tokens::emit(dialect, all) =~= tokens::char_entries(text) + tokens::emit(
            dialect,
            statement,
        ));
    } else {
        let before = statement.drop_last();
        lemma_emit_behind_text(dialect, text, before);
        assert(all.drop_last() =~= tokens::chars(text) + before);
        tokens::lemma_slots_add(tokens::chars(text), before);
        tokens::lemma_runtimes_add(tokens::chars(text), before);
        tokens::lemma_chars_have_no_slots::<Encoded<P, E>>(text);
        tokens::lemma_chars_have_no_runtimes::<Encoded<P, E>>(text);
        assert(tokens::emit(dialect, all) =~= tokens::char_entries(text) + tokens::emit(
            dialect,
            statement,
        ));
    }
}

proof fn lemma_text_binds_nothing<P, E>(text: Seq<char>, entries: Seq<Entry<Encoded<P, E>>>)
    ensures
        tokens::first_error(tokens::char_entries(text) + entries) == tokens::first_error(entries),
        tokens::binds(tokens::char_entries(text) + entries) == tokens::binds(entries),
    decreases entries.len(),
{
    let all = tokens::char_entries(text) + entries;
    if entries.len() == 0 {
        tokens::lemma_chars_bind_nothing::<P, E>(Seq::empty(), text);
        assert(Seq::<Entry<Encoded<P, E>>>::empty() + tokens::char_entries(text) =~= all);
    } else {
        lemma_text_binds_nothing(text, entries.drop_last());
        assert(all.drop_last() =~= tokens::char_entries(text) + entries.drop_last());
        assert(all.last() == entries.last());
    }
}

/// The definitions in front of a query bind nothing and leave its placeholders as they are: behind
/// them, the query is written as it would be without them.
pub proof fn law_definitions_bind_nothing<D: Dialect, P, E>(
    dialect: D,
    ctes: Seq<CteDef>,
    select: SelectTree<Encoded<P, E>>,
)
    ensures
        ({
            let all = tokens::emit(
                dialect,
                grammar::select_statement_tokens(dialect, ctes, select),
            );
            let alone = tokens::emit(dialect, grammar::select_tokens(dialect, select));
            &&& tokens::written(all) == grammar::cte_prefix_text(dialect, ctes) + tokens::written(
                alone,
            )
            &&& tokens::binds(all) == tokens::binds(alone)
            &&& tokens::first_error(all) == tokens::first_error(alone)
        }),
{
    let text = grammar::cte_prefix_text(dialect, ctes);
    let alone = tokens::emit(dialect, grammar::select_tokens(dialect, select));
    lemma_emit_behind_text(dialect, text, grammar::select_tokens(dialect, select));
    lemma_text_binds_nothing(text, alone);
    tokens::lemma_written_add(tokens::char_entries::<Encoded<P, E>>(text), alone);
    tokens::lemma_written_chars::<Encoded<P, E>>(text);
}

/// An upsert into no columns has nothing to update: it is written as one that leaves the row alone.
pub proof fn law_upsert_without_columns<D: Dialect>(
    dialect: D,
    target: Vec<String>,
    action: ConflictAction,
)
    ensures
        grammar::conflict_text(dialect, ConflictClause { target, action }, List::Nil)
            == grammar::conflict_text(
            dialect,
            ConflictClause { target, action: ConflictAction::DoNothing },
            List::Nil,
        ),
{
}

} // verus!
