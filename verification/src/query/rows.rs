//! What becomes of the rows that a query streams back.
//!
//! A stream is read event by event: a row, an error, or its end. Each way of consuming it is a state
//! that takes one event at a time and says whether it wants another.
use crate::backend::Backend;
use vstd::prelude::*;

verus! {

/// A row stream that can tell, once it has ended, how many rows a statement affected.
pub trait RowsAffected {
    open spec fn affected(&self) -> Option<u64> {
        arbitrary()
    }

    fn rows_affected(&self) -> (affected: Option<u64>)
        ensures
            affected == self.affected(),
    ;
}

/// What a stream gives when it is asked.
pub enum StreamEvent<Row, E> {
    Row(Row),
    Failed(E),
    End,
}

/// What a consumer answers to an event.
pub enum Step<State, Outcome> {
    /// It wants the next event.
    More(State),
    /// It is done.
    Done(Outcome),
}

/// Collects all rows.
pub struct RowCollector<Row> {
    pub rows: Vec<Row>,
}

impl<Row> RowCollector<Row> {
    pub fn new() -> (collector: Self)
        ensures
            collector.rows@.len() == 0,
    {
        RowCollector { rows: Vec::new() }
    }

    /// Takes one event. The first error ends the collection; the end of the stream gives all rows.
    pub fn on_event<E>(self, event: StreamEvent<Row, E>) -> (step: Step<Self, Result<Vec<Row>, E>>)
        ensures
            match event {
                StreamEvent::Row(row) => step matches Step::More(next) && next.rows@
                    == self.rows@.push(row),
                StreamEvent::Failed(error) => step matches Step::Done(Err(given)) && given == error,
                StreamEvent::End => step matches Step::Done(Ok(rows)) && rows@ == self.rows@,
            },
            forall|rest: Seq<StreamEvent<Row, E>>|
                #![trigger collected(self.rows@, seq![event] + rest)]
                collected(self.rows@, seq![event] + rest) == (match step {
                    Step::More(next) => collected(next.rows@, rest),
                    Step::Done(Ok(rows)) => Some(Ok::<Seq<Row>, E>(rows@)),
                    Step::Done(Err(error)) => Some(Err::<Seq<Row>, E>(error)),
                }),
    {
        proof {
            assert forall|rest: Seq<StreamEvent<Row, E>>| #[trigger]
                (seq![event] + rest).drop_first() == rest by {
                assert((seq![event] + rest).drop_first() =~= rest);
            }
        }
        match event {
            StreamEvent::Row(row) => {
                let mut rows = self.rows;
                rows.push(row);
                Step::More(RowCollector { rows })
            },
            StreamEvent::Failed(error) => Step::Done(Err(error)),
            StreamEvent::End => Step::Done(Ok(self.rows)),
        }
    }
}

/// Keeps the first row, and reads on to the end of the stream, where the number of affected rows is
/// known.
pub struct FirstRow<Row> {
    pub first: Option<Row>,
}

impl<Row> FirstRow<Row> {
    pub fn new() -> (state: Self)
        ensures
            state.first is None,
    {
        FirstRow { first: None }
    }

    /// Takes one event. An error ends the reading, also one behind the first row.
    pub fn on_event<E>(self, event: StreamEvent<Row, E>) -> (step: Step<
        Self,
        Result<Option<Row>, E>,
    >)
        ensures
            match event {
                StreamEvent::Row(row) => step matches Step::More(next) && next.first == Some(
                    match self.first {
                        Some(first) => first,
                        None => row,
                    },
                ),
                StreamEvent::Failed(error) => step matches Step::Done(Err(given)) && given == error,
                StreamEvent::End => step matches Step::Done(Ok(row)) && row == self.first,
            },
            forall|rest: Seq<StreamEvent<Row, E>>|
                #![trigger first_read(self.first, seq![event] + rest)]
                first_read(self.first, seq![event] + rest) == (match step {
                    Step::More(next) => first_read(next.first, rest),
                    Step::Done(outcome) => Some(outcome),
                }),
    {
        proof {
            assert forall|rest: Seq<StreamEvent<Row, E>>| #[trigger]
                (seq![event] + rest).drop_first() == rest by {
                assert((seq![event] + rest).drop_first() =~= rest);
            }
        }
        match event {
            StreamEvent::Row(row) => match self.first {
                Some(first) => Step::More(FirstRow { first: Some(first) }),
                None => Step::More(FirstRow { first: Some(row) }),
            },
            StreamEvent::Failed(error) => Step::Done(Err(error)),
            StreamEvent::End => Step::Done(Ok(self.first)),
        }
    }
}

/// The row that the first event of a stream gives, if it gives one. Nothing more is read.
pub fn optional_row<Row, E>(event: StreamEvent<Row, E>) -> (result: Result<Option<Row>, E>)
    ensures
        result == (match event {
            StreamEvent::Row(row) => Ok::<Option<Row>, E>(Some(row)),
            StreamEvent::Failed(error) => Err::<Option<Row>, E>(error),
            StreamEvent::End => Ok::<Option<Row>, E>(None),
        }),
{
    match event {
        StreamEvent::Row(row) => Ok(Some(row)),
        StreamEvent::Failed(error) => Err(error),
        StreamEvent::End => Ok(None),
    }
}

/// The row where one is required: without a row, the backend's error says so.
pub fn required_row<B: Backend, Row>(row: Result<Option<Row>, B::Error>) -> (result: Result<
    Row,
    B::Error,
>)
    ensures
        match row {
            Ok(Some(row)) => result == Ok::<Row, B::Error>(row),
            Ok(None) => result matches Err(error) && B::is_no_rows(error),
            Err(error) => result == Err::<Row, B::Error>(error),
        },
{
    match row {
        Ok(Some(row)) => Ok(row),
        Ok(None) => Err(B::no_rows_error()),
        Err(error) => Err(error),
    }
}

/// What was read together with the number of affected rows, which counts as none where the stream
/// does not tell.
pub fn with_affected<T, E, S: RowsAffected>(read: Result<T, E>, stream: &S) -> (result: Result<
    (T, u64),
    E,
>)
    ensures
        match read {
            Ok(value) => result == Ok::<(T, u64), E>(
                (value, match stream.affected() {
                    Some(affected) => affected,
                    None => 0,
                }),
            ),
            Err(error) => result == Err::<(T, u64), E>(error),
        },
{
    match read {
        Ok(value) => {
            let affected: u64 = match stream.rows_affected() {
                Some(affected) => affected,
                None => 0,
            };
            Ok((value, affected))
        },
        Err(error) => Err(error),
    }
}

/// What collecting gives for a whole stream, when `rows` are there already: all rows up to the end, or
/// the first error.
pub open spec fn collected<Row, E>(rows: Seq<Row>, events: Seq<StreamEvent<Row, E>>) -> Option<
    Result<Seq<Row>, E>,
>
    decreases events.len(),
{
    if events.len() == 0 {
        None
    } else {
        match events[0] {
            StreamEvent::Row(row) => collected(rows.push(row), events.drop_first()),
            StreamEvent::Failed(error) => Some(Err(error)),
            StreamEvent::End => Some(Ok(rows)),
        }
    }
}

/// What reading a whole stream for its first row gives, when `first` is known already.
pub open spec fn first_read<Row, E>(
    first: Option<Row>,
    events: Seq<StreamEvent<Row, E>>,
) -> Option<Result<Option<Row>, E>>
    decreases events.len(),
{
    if events.len() == 0 {
        None
    } else {
        match events[0] {
            StreamEvent::Row(row) => first_read(
                match first {
                    Some(kept) => Some(kept),
                    None => Some(row),
                },
                events.drop_first(),
            ),
            StreamEvent::Failed(error) => Some(Err(error)),
            StreamEvent::End => Some(Ok(first)),
        }
    }
}

/// The events of a stream that gives `rows` and ends.
pub open spec fn row_events<Row, E>(rows: Seq<Row>) -> Seq<StreamEvent<Row, E>> {
    rows.map_values(|row: Row| StreamEvent::Row(row)).push(StreamEvent::End)
}

/// Collecting a stream that ends without an error gives all its rows in their order.
pub proof fn law_collecting_keeps_rows<Row, E>(before: Seq<Row>, rows: Seq<Row>)
    ensures
        collected::<Row, E>(before, row_events(rows)) == Some(Ok::<Seq<Row>, E>(before + rows)),
    decreases rows.len(),
{
    let events = row_events::<Row, E>(rows);
    if rows.len() == 0 {
        assert(before + rows =~= before);
    } else {
        law_collecting_keeps_rows::<Row, E>(before.push(rows[0]), rows.drop_first());
        assert(events.drop_first() =~= row_events::<Row, E>(rows.drop_first()));
        assert(before.push(rows[0]) + rows.drop_first() =~= before + rows);
    }
}

/// Reading a stream that ends without an error for its first row gives that row, and none where the
/// stream has no rows.
pub proof fn law_first_row_is_kept<Row, E>(rows: Seq<Row>)
    ensures
        first_read::<Row, E>(None, row_events(rows)) == Some(
            Ok::<Option<Row>, E>(
                if rows.len() == 0 {
                    None
                } else {
                    Some(rows[0])
                },
            ),
        ),
{
    let events = row_events::<Row, E>(rows);
    if rows.len() > 0 {
        lemma_first_row_stays::<Row, E>(rows[0], rows.drop_first());
        assert(events.drop_first() =~= row_events::<Row, E>(rows.drop_first()));
    }
}

proof fn lemma_first_row_stays<Row, E>(first: Row, rows: Seq<Row>)
    ensures
        first_read::<Row, E>(Some(first), row_events(rows)) == Some(
            Ok::<Option<Row>, E>(Some(first)),
        ),
    decreases rows.len(),
{
    let events = row_events::<Row, E>(rows);
    if rows.len() > 0 {
        lemma_first_row_stays::<Row, E>(first, rows.drop_first());
        assert(events.drop_first() =~= row_events::<Row, E>(rows.drop_first()));
    }
}

/// An error behind any number of rows is what collecting gives: no rows are handed out beside it.
pub proof fn law_collecting_fails_as_a_whole<Row, E>(
    before: Seq<Row>,
    rows: Seq<Row>,
    error: E,
    rest: Seq<StreamEvent<Row, E>>,
)
    ensures
        collected(
            before,
            rows.map_values(|row: Row| StreamEvent::<Row, E>::Row(row)).push(
                StreamEvent::Failed(error),
            ) + rest,
        ) == Some(Err::<Seq<Row>, E>(error)),
    decreases rows.len(),
{
    let events = rows.map_values(|row: Row| StreamEvent::<Row, E>::Row(row)).push(
        StreamEvent::Failed(error),
    ) + rest;
    if rows.len() > 0 {
        law_collecting_fails_as_a_whole(before.push(rows[0]), rows.drop_first(), error, rest);
        assert(events.drop_first() =~= rows.drop_first().map_values(
            |row: Row| StreamEvent::<Row, E>::Row(row),
        ).push(StreamEvent::Failed(error)) + rest);
    }
}

} // verus!
