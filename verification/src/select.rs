use vstd::prelude::*;

use crate::error::Error;
use crate::row::Row;
use crate::value::Value;
use crate::value::ValueModel;

verus! {

/// What one advance of the underlying cursor produced.
pub enum CursorEvent {
    /// The cursor produced one row of values.
    Row(Vec<Value>),
    /// The cursor is exhausted.
    End,
    /// The engine reported an error.
    Failed(Error),
}

/// Where a select sequence stands.
pub enum SelectPhase {
    /// Construction failed; the error is yielded by the first advance.
    Pending(Error),
    /// A live cursor is ready to be asked for events.
    Active,
    /// The sequence is finished; every further advance yields nothing.
    Done,
}

/// The phase an advance moves the sequence to.
pub open spec fn spec_phase_after(phase: SelectPhase, event: Option<CursorEvent>) -> SelectPhase {
    match phase {
        SelectPhase::Pending(_) => SelectPhase::Done,
        SelectPhase::Done => SelectPhase::Done,
        SelectPhase::Active => match event {
            Some(CursorEvent::Row(_)) => SelectPhase::Active,
            Some(CursorEvent::End) => SelectPhase::Done,
            Some(CursorEvent::Failed(_)) => SelectPhase::Done,
            None => SelectPhase::Active,
        },
    }
}

/// What an advance yields: nothing once finished, the deferred error once,
/// and otherwise whatever the cursor event carries.
pub open spec fn spec_yield(phase: SelectPhase, event: Option<CursorEvent>) -> Option<
    Result<Seq<ValueModel>, Error>,
> {
    match phase {
        SelectPhase::Pending(error) => Some(Err(error)),
        SelectPhase::Done => None,
        SelectPhase::Active => match event {
            Some(CursorEvent::Row(values)) => Some(Ok(values.deep_view())),
            Some(CursorEvent::End) => None,
            Some(CursorEvent::Failed(error)) => Some(Err(error)),
            None => None,
        },
    }
}

/// The decision core of a lazy, single-pass, never-restartable sequence of
/// rows. The unverified shell owns the cursor; this core decides, from its
/// phase and the cursor's events, what each advance yields and where the
/// sequence stands afterwards.
pub struct Select {
    phase: SelectPhase,
    columns: Vec<String>,
}

/// An owned copy of the column names, name for name.
fn clone_columns(columns: &Vec<String>) -> (result: Vec<String>)
    ensures
        result.deep_view() == columns.deep_view(),
{
    let mut out: Vec<String> = Vec::new();
    let n = columns.len();
    let mut i: usize = 0;
    while i < n
        invariant
            i <= n,
            n == columns@.len(),
            out@ == columns@.take(i as int),
        decreases n - i,
    {
        out.push(columns[i].clone());
        proof {
            assert(out@ =~= columns@.take(i + 1));
        }
        i = i + 1;
    }
    proof {
        assert(out@ =~= columns@);
        assert(out.deep_view() =~= columns.deep_view());
    }
    out
}

impl Select {
    /// Where the sequence stands.
    pub closed spec fn phase(&self) -> SelectPhase {
        self.phase
    }

    /// The column names every yielded row is addressed by.
    pub closed spec fn columns(&self) -> Seq<Seq<char>> {
        self.columns.deep_view()
    }

    /// Begin a sequence over a successfully compiled statement whose result
    /// set carries the given column names.
    pub fn with_columns(columns: Vec<String>) -> (select: Select)
        ensures
            select.phase() is Active,
            select.columns() == columns.deep_view(),
    {
        Select { phase: SelectPhase::Active, columns }
    }

    /// Begin a sequence whose construction failed: the error is deferred
    /// into the first yielded item rather than returned immediately.
    pub fn with_error(error: Error) -> (select: Select)
        ensures
            select.phase() == SelectPhase::Pending(error),
            select.columns() == Seq::<Seq<char>>::empty(),
    {
        let select = Select { phase: SelectPhase::Pending(error), columns: Vec::new() };
        proof {
            assert(select.columns() =~= Seq::<Seq<char>>::empty());
        }
        select
    }

    /// Whether the next advance needs an event from the cursor.
    pub fn wants_event(&self) -> (wants: bool)
        ensures
            wants == (self.phase() is Active),
    {
        match &self.phase {
            SelectPhase::Active => true,
            _ => false,
        }
    }

    /// Advance the sequence by one item. `event` is what the cursor
    /// produced, handed in exactly when the sequence is active; a finished
    /// or deferred-error sequence is advanced without consulting the cursor.
    pub fn advance(&mut self, event: Option<CursorEvent>) -> (item: Option<Result<Row, Error>>)
        requires
            (event is Some) <==> (old(self).phase() is Active),
        ensures
            final(self).columns() == old(self).columns(),
            final(self).phase() == spec_phase_after(old(self).phase(), event),
            match spec_yield(old(self).phase(), event) {
                None => item is None,
                Some(Err(error)) => item == Some(Err::<Row, Error>(error)),
                Some(Ok(values)) => item matches Some(Ok(row)) && row.values() == values
                    && row.names() == old(self).columns(),
            },
    {
        let mut phase = SelectPhase::Done;
        core::mem::swap(&mut phase, &mut self.phase);
        match phase {
            SelectPhase::Pending(error) => Some(Err(error)),
            SelectPhase::Done => None,
            SelectPhase::Active => match event {
                Some(CursorEvent::Row(values)) => {
                    self.phase = SelectPhase::Active;
                    Some(Ok(Row::new(clone_columns(&self.columns), values)))
                },
                Some(CursorEvent::End) => None,
                Some(CursorEvent::Failed(error)) => Some(Err(error)),
                None => vstd::pervasive::unreached(),
            },
        }
    }
}

/// Running a finished sequence through any events leaves it finished.
pub proof fn lemma_done_is_terminal(events: Seq<Option<CursorEvent>>)
    ensures
        spec_run(SelectPhase::Done, events) == SelectPhase::Done,
    decreases events.len(),
{
    if events.len() > 0 {
        lemma_done_is_terminal(events.drop_first());
    }
}

/// The phase a sequence reaches after a series of advances.
pub open spec fn spec_run(phase: SelectPhase, events: Seq<Option<CursorEvent>>) -> SelectPhase
    decreases events.len(),
{
    if events.len() == 0 {
        phase
    } else {
        spec_run(spec_phase_after(phase, events.first()), events.drop_first())
    }
}

/// Whether a cursor event ends the sequence: exhaustion or failure.
pub open spec fn is_terminal_event(event: Option<CursorEvent>) -> bool {
    event matches Some(e) && !(e is Row)
}

/// The sequence is single-pass: once it is finished — after cursor
/// exhaustion, after a cursor failure, or after the one advance that yields
/// a deferred construction error — every further advance yields nothing,
/// whatever events are handed in.
pub proof fn lemma_single_pass(phase: SelectPhase, events: Seq<Option<CursorEvent>>, next: Option<
    CursorEvent,
>)
    requires
        match phase {
            SelectPhase::Done => true,
            SelectPhase::Pending(_) => events.len() > 0,
            SelectPhase::Active => exists|i: int|
                0 <= i < events.len() && #[trigger] is_terminal_event(events[i]),
        },
    ensures
        spec_yield(spec_run(phase, events), next) is None,
    decreases events.len(),
{
    match phase {
        SelectPhase::Done => {
            lemma_done_is_terminal(events);
        },
        SelectPhase::Pending(_) => {
            lemma_done_is_terminal(events.drop_first());
        },
        SelectPhase::Active => {
            let i = choose|i: int| 0 <= i < events.len() && #[trigger] is_terminal_event(events[i]);
            let rest = events.drop_first();
            match events.first() {
                Some(CursorEvent::End) => {
                    lemma_done_is_terminal(rest);
                },
                Some(CursorEvent::Failed(_)) => {
                    lemma_done_is_terminal(rest);
                },
                _ => {
                    assert(i != 0);
                    assert(0 <= i - 1 < rest.len() && is_terminal_event(rest[i - 1])) by {
                        assert(rest[i - 1] == events[i]);
                    }
                    lemma_single_pass(SelectPhase::Active, rest, next);
                },
            }
        },
    }
}

} // verus!
