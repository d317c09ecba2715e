//! The sinks of a rendering: a prepared statement, SQL text alone, or bind parameters alone.
use super::SqlWriter;
use crate::backend::{Backend, Bound};
use crate::chain::List;
use crate::tokens;
use crate::tokens::{Bind, Entry};
use crate::tree::Encoded;
use vstd::prelude::*;

verus! {

broadcast use {crate::tokens::lemma_written_add, crate::tokens::lemma_written_chars};

/// A rendered placeholder slot: a literal already encoded to the backend's native parameter, or a
/// runtime parameter to be taken from the values supplied at execution.
pub enum SqlParam<B: Backend> {
    Static(B::Param),
    Runtime(usize),
}

impl<B: Backend> SqlParam<B> {
    /// The bind that this parameter is.
    pub open spec fn bind(self) -> Bind<B::Param> {
        match self {
            SqlParam::Static(param) => Bind::Static(param),
            SqlParam::Runtime(index) => Bind::Runtime(index as nat),
        }
    }
}

/// The binds that a parameter list is.
pub open spec fn param_binds<B: Backend>(params: Seq<SqlParam<B>>) -> Seq<Bind<B::Param>> {
    Seq::new(params.len(), |i: int| params[i].bind())
}

/// A rendered statement: SQL text and the ordered placeholder binds. An encoding failure is kept and
/// surfaces from [`into_parts`](Self::into_parts).
pub struct PreparedSql<B: Backend> {
    sql: String,
    params: Vec<SqlParam<B>>,
    error: Option<B::Error>,
    log: Ghost<Seq<Entry<Bound<B>>>>,
}

impl<B: Backend> PreparedSql<B> {
    /// The SQL text.
    pub closed spec fn sql_view(&self) -> Seq<char> {
        self.sql@
    }

    /// The placeholder binds.
    pub closed spec fn params_view(&self) -> Seq<SqlParam<B>> {
        self.params@
    }

    /// The captured encoding error.
    pub closed spec fn error_view(&self) -> Option<B::Error> {
        self.error
    }

    /// That this statement is what a sink holds after being told `entries`.
    pub open spec fn holds(&self, entries: Seq<Entry<Bound<B>>>) -> bool {
        &&& self.sql_view() == tokens::written(entries)
        &&& param_binds(self.params_view()) == tokens::binds(entries)
        &&& self.error_view() == tokens::first_error(entries)
    }

    /// A statement holds what it has been told.
    pub(crate) proof fn lemma_holds(&self)
        requires
            self.inv(),
        ensures
            self.holds(self.log()),
    {
    }

    /// An empty statement.
    pub fn new() -> (prepared: PreparedSql<B>)
        ensures
            prepared.inv(),
            prepared.log() == Seq::<Entry<Bound<B>>>::empty(),
            prepared.sql_view() == Seq::<char>::empty(),
            prepared.params_view() == Seq::<SqlParam<B>>::empty(),
            prepared.error_view() is None,
    {
        let prepared = PreparedSql {
            sql: String::new(),
            params: Vec::new(),
            error: None,
            log: Ghost(Seq::empty()),
        };
        proof {
            assert(param_binds(prepared.params@) =~= Seq::empty());
        }
        prepared
    }

    /// Takes the statement apart: `(sql, params)`, or the captured encoding error.
    pub fn into_parts(self) -> (parts: Result<(String, Vec<SqlParam<B>>), B::Error>)
        ensures
            match parts {
                Ok((sql, params)) => {
                    &&& self.error_view() is None
                    &&& sql@ == self.sql_view()
                    &&& params@ == self.params_view()
                },
                Err(error) => self.error_view() == Some(error),
            },
    {
        match self.error {
            Some(error) => Err(error),
            None => Ok((self.sql, self.params)),
        }
    }

    fn push_runtime_param(&mut self, index: usize)
        ensures
            final(self).params@ == old(self).params@.push(SqlParam::Runtime(index)),
            final(self).sql == old(self).sql,
            final(self).error == old(self).error,
            final(self).log == old(self).log,
    {
        self.params.push(SqlParam::Runtime(index));
    }

    /// Records the encoded parameters of one literal.
    fn push_static_params(&mut self, encoded: List<B::Param>)
        ensures
            param_binds(final(self).params@) == param_binds(old(self).params@) + tokens::static_binds(
                encoded.seq(),
            ),
            final(self).sql == old(self).sql,
            final(self).error == old(self).error,
            final(self).log == old(self).log,
        decreases encoded,
    {
        let ghost start = self.params@;
        match encoded {
            List::Nil => {
                proof {
                    assert(tokens::static_binds(Seq::<B::Param>::empty()) =~= Seq::empty());
                    assert(param_binds(start) + Seq::<Bind<B::Param>>::empty() =~= param_binds(
                        start,
                    ));
                }
            },
            List::Cons { head, tail } => {
                let ghost first = *head;
                let ghost rest = *tail;
                self.params.push(SqlParam::Static(*head));
                proof {
                    assert(param_binds(self.params@) =~= param_binds(start).push(
                        Bind::Static(first),
                    ));
                }
                self.push_static_params(*tail);
                proof {
                    let all = seq![first] + rest.seq();
                    assert(tokens::static_binds(all) =~= seq![Bind::Static(first)] + tokens::static_binds(
                        rest.seq(),
                    ));
                    assert(param_binds(start).push(Bind::Static(first)) + tokens::static_binds(rest.seq())
                        =~= param_binds(start) + tokens::static_binds(all));
                }
            },
        }
    }
}

/// What a prepared statement holds for what its sink was told.
proof fn lemma_push_entry<P, E>(entries: Seq<Entry<Encoded<P, E>>>, entry: Entry<Encoded<P, E>>)
    ensures
        entries.push(entry).drop_last() == entries,
        tokens::written(entries.push(entry)) == tokens::written(entries) + (match entry {
            Entry::Char(c) => seq![c],
            _ => Seq::empty(),
        }),
{
    assert(entries.push(entry).drop_last() =~= entries);
}

impl<B: Backend> SqlWriter<B> for PreparedSql<B> {
    closed spec fn log(&self) -> Seq<Entry<Bound<B>>> {
        self.log@
    }

    closed spec fn inv(&self) -> bool {
        &&& self.sql@ == tokens::written(self.log@)
        &&& self.error == tokens::first_error(self.log@)
        &&& param_binds(self.params@) == tokens::binds(self.log@)
    }

    fn write_str(&mut self, text: &str) {
        proof {
            tokens::lemma_chars_bind_nothing(self.log@, text@);
        }
        self.sql.append(text);
        self.log = Ghost(self.log@ + tokens::char_entries(text@));
    }

    fn push_bind(&mut self, value: Bound<B>) {
        let ghost entry = Entry::Bind(value);
        proof {
            lemma_push_entry(self.log@, entry);
            assert(tokens::written(self.log@.push(entry)) =~= tokens::written(self.log@));
            assert(tokens::binds(self.log@) + Seq::<Bind<B::Param>>::empty() =~= tokens::binds(self.log@));
        }
        if self.error.is_none() {
            match value.outcome {
                Ok(encoded) => self.push_static_params(encoded),
                Err(error) => self.error = Some(error),
            }
        }
        self.log = Ghost(self.log@.push(entry));
    }

    fn push_runtime_bind(&mut self, index: usize) {
        let ghost start = self.params@;
        proof {
            let entry = Entry::<Bound<B>>::RuntimeBind(index as nat);
            lemma_push_entry(self.log@, entry);
            assert(tokens::written(self.log@.push(entry)) =~= tokens::written(self.log@));
        }
        self.push_runtime_param(index);
        self.log = Ghost(self.log@.push(Entry::RuntimeBind(index as nat)));
        proof {
            assert(param_binds(self.params@) =~= param_binds(start) + seq![
                Bind::Runtime(index as nat),
            ]);
        }
    }
}

/// A sink that takes SQL text only and lets binds go.
pub(crate) struct SqlOnly<B: Backend> {
    sql: String,
    log: Ghost<Seq<Entry<Bound<B>>>>,
}

impl<B: Backend> SqlOnly<B> {
    pub(crate) fn new() -> (sink: SqlOnly<B>)
        ensures
            sink.inv(),
            sink.log() == Seq::<Entry<Bound<B>>>::empty(),
    {
        SqlOnly { sql: String::new(), log: Ghost(Seq::empty()) }
    }

    /// The text that was written.
    pub(crate) fn finish(self) -> (sql: String)
        requires
            self.inv(),
        ensures
            sql@ == tokens::written(self.log()),
    {
        self.sql
    }
}

impl<B: Backend> SqlWriter<B> for SqlOnly<B> {
    closed spec fn log(&self) -> Seq<Entry<Bound<B>>> {
        self.log@
    }

    closed spec fn inv(&self) -> bool {
        self.sql@ == tokens::written(self.log@)
    }

    fn write_str(&mut self, text: &str) {
        self.sql.append(text);
        self.log = Ghost(self.log@ + tokens::char_entries(text@));
    }

    fn push_bind(&mut self, value: Bound<B>) {
        proof {
            lemma_push_entry(self.log@, Entry::Bind(value));
            assert(tokens::written(self.log@.push(Entry::Bind(value))) =~= tokens::written(self.log@));
        }
        self.log = Ghost(self.log@.push(Entry::Bind(value)));
    }

    fn push_runtime_bind(&mut self, index: usize) {
        proof {
            let entry = Entry::<Bound<B>>::RuntimeBind(index as nat);
            lemma_push_entry(self.log@, entry);
            assert(tokens::written(self.log@.push(entry)) =~= tokens::written(self.log@));
        }
        self.log = Ghost(self.log@.push(Entry::RuntimeBind(index as nat)));
    }
}

/// A sink that collects encoded literals and lets SQL text go.
pub(crate) struct ParamCollector<B: Backend> {
    params: Vec<B::Param>,
    error: Option<B::Error>,
    log: Ghost<Seq<Entry<Bound<B>>>>,
}

impl<B: Backend> ParamCollector<B> {
    pub(crate) fn new() -> (sink: ParamCollector<B>)
        ensures
            sink.inv(),
            sink.log() == Seq::<Entry<Bound<B>>>::empty(),
    {
        let sink = ParamCollector { params: Vec::new(), error: None, log: Ghost(Seq::empty()) };
        proof {
            assert(sink.params@ =~= Seq::empty());
        }
        sink
    }

    /// Hands over what was collected: the literals up to the first encoding error, and that error.
    pub(crate) fn finish(self, params: &mut Vec<B::Param>) -> (done: Result<(), B::Error>)
        requires
            self.inv(),
        ensures
            final(params)@ == old(params)@ + tokens::literals(self.log()),
            match done {
                Ok(_) => tokens::first_error(self.log()) is None,
                Err(error) => tokens::first_error(self.log()) == Some(error),
            },
    {
        let mut collected = self.params;
        params.append(&mut collected);
        match self.error {
            Some(error) => Err(error),
            None => Ok(()),
        }
    }

    /// Collects the encoded parameters of one literal.
    fn push_params(&mut self, encoded: List<B::Param>)
        ensures
            final(self).params@ == old(self).params@ + encoded.seq(),
            final(self).error == old(self).error,
            final(self).log == old(self).log,
        decreases encoded,
    {
        let ghost start = self.params@;
        match encoded {
            List::Nil => {
                proof {
                    assert(start + Seq::<B::Param>::empty() =~= start);
                }
            },
            List::Cons { head, tail } => {
                let ghost first = *head;
                let ghost rest = tail.seq();
                self.params.push(*head);
                self.push_params(*tail);
                proof {
                    assert(start.push(first) + rest =~= start + (seq![first] + rest));
                }
            },
        }
    }
}

impl<B: Backend> SqlWriter<B> for ParamCollector<B> {
    closed spec fn log(&self) -> Seq<Entry<Bound<B>>> {
        self.log@
    }

    closed spec fn inv(&self) -> bool {
        &&& self.error == tokens::first_error(self.log@)
        &&& self.params@ == tokens::literals(self.log@)
    }

    fn write_str(&mut self, text: &str) {
        proof {
            tokens::lemma_chars_bind_nothing(self.log@, text@);
        }
        self.log = Ghost(self.log@ + tokens::char_entries(text@));
    }

    fn push_bind(&mut self, value: Bound<B>) {
        let ghost entry = Entry::Bind(value);
        proof {
            lemma_push_entry(self.log@, entry);
            assert(tokens::literals(self.log@) + Seq::<B::Param>::empty() =~= tokens::literals(self.log@));
        }
        if self.error.is_none() {
            match value.outcome {
                Ok(encoded) => self.push_params(encoded),
                Err(error) => self.error = Some(error),
            }
        }
        self.log = Ghost(self.log@.push(entry));
    }

    fn push_runtime_bind(&mut self, index: usize) {
        proof {
            lemma_push_entry(self.log@, Entry::<Bound<B>>::RuntimeBind(index as nat));
            assert(tokens::literals(self.log@) + Seq::<B::Param>::empty() =~= tokens::literals(self.log@));
        }
        self.log = Ghost(self.log@.push(Entry::RuntimeBind(index as nat)));
    }
}

} // verus!
