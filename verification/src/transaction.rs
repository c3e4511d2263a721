//! Writes of several statements, each carried out as one transaction: all of
//! its statements take effect, or none.

use vstd::prelude::*;
use crate::error::{DbError, Failure, outcome_view};
use crate::record::{answered, change};
use crate::store::{Database, Exchange, Statement, BEGIN, COMMIT, ROLLBACK, asked, done, plain};
use crate::value::{SqlValue, SqlDatum};

verus! {

/// The exchanges that `after` has beyond those of `before`.
pub open spec fn trace(before: Database, after: Database) -> Seq<Exchange> {
    after.journal().skip(before.journal().len() as int)
}

/// `after` is the same handle as `before`, later: nothing of the journal was
/// lost or rewritten.
pub open spec fn continues(before: Database, after: Database) -> bool {
    &&& after.is_open() == before.is_open()
    &&& after.location() == before.location()
    &&& before.journal().len() <= after.journal().len()
    &&& after.journal() == before.journal() + trace(before, after)
}

/// The statements were put to the store in order, up to the first that it
/// refused; the result is that refusal, or nothing once all were carried out.
pub open spec fn wrote_in_order(statements: Seq<Statement>, steps: Seq<Exchange>, result: Result<(), Failure>) -> bool {
    &&& 1 <= steps.len() <= statements.len()
    &&& forall|i: int| 0 <= i < steps.len() ==> (#[trigger] steps[i]).statement == statements[i]
    &&& forall|i: int| 0 <= i < steps.len() - 1 ==> done((#[trigger] steps[i]).reply) is Ok
    &&& result == done(steps.last().reply)
    &&& result is Ok ==> steps.len() == statements.len()
}

/// How a transaction ends: with `COMMIT` after a body that succeeded, and
/// with `ROLLBACK` after a body that failed or a `COMMIT` that was refused.
/// What `ROLLBACK` itself answers is not looked at.
pub open spec fn ended<V>(steps: Seq<Exchange>, inner: Result<V, Failure>, result: Result<V, Failure>) -> bool {
    match inner {
        Err(failure) => {
            &&& steps.len() == 1
            &&& steps[0].statement == plain(ROLLBACK@)
            &&& result == Err::<V, Failure>(failure)
        },
        Ok(value) => {
            &&& steps.len() >= 1
            &&& steps[0].statement == plain(COMMIT@)
            &&& match done(steps[0].reply) {
                Ok(_) => steps.len() == 1 && result == Ok::<V, Failure>(value),
                Err(failure) => {
                    &&& steps.len() == 2
                    &&& steps[1].statement == plain(ROLLBACK@)
                    &&& result == Err::<V, Failure>(failure)
                },
            }
        },
    }
}

/// `steps` is one transaction: `BEGIN`, then the exchanges of a body, then
/// the end that the body's result calls for. Where `BEGIN` is refused nothing
/// else is asked.
pub open spec fn transacted<V>(
    steps: Seq<Exchange>,
    result: Result<V, Failure>,
    body: spec_fn(Seq<Exchange>, Result<V, Failure>) -> bool,
) -> bool {
    &&& steps.len() >= 1
    &&& steps[0].statement == plain(BEGIN@)
    &&& match done(steps[0].reply) {
        Err(failure) => steps.len() == 1 && result == Err::<V, Failure>(failure),
        Ok(_) => exists|n: int, inner: Result<V, Failure>|
            1 <= n <= steps.len() && body(steps.subrange(1, n), inner) && #[trigger] ended(
                steps.skip(n),
                inner,
                result,
            ),
    }
}

/// What a write of several statements does to a handle: on an open one, one
/// transaction around `body`; on a closed one, nothing.
pub open spec fn in_transaction<V>(
    before: Database,
    after: Database,
    result: Result<V, Failure>,
    body: spec_fn(Seq<Exchange>, Result<V, Failure>) -> bool,
) -> bool {
    &&& continues(before, after)
    &&& if before.is_open() {
        transacted(trace(before, after), result, body)
    } else {
        after.journal() == before.journal() && result == Err::<V, Failure>(Failure::NotInitialized)
    }
}

/// Starts a transaction.
pub fn begin(db: &mut Database) -> (begun: Result<(), DbError>)
    ensures
        answered(*old(db), *final(db), plain(BEGIN@), begun, done(final(db).last_reply())),
{
    let params: Vec<SqlValue> = Vec::new();
    assert(params.deep_view() =~= Seq::<SqlDatum>::empty());
    change(db, BEGIN, &params)
}

/// Ends a transaction whose body gave `inner`.
pub(crate) fn finish<T: DeepView>(db: &mut Database, inner: Result<T, DbError>) -> (result: Result<T, DbError>)
    requires
        old(db).is_open(),
    ensures
        continues(*old(db), *final(db)),
        ended(trace(*old(db), *final(db)), outcome_view(inner), outcome_view(result)),
{
    let params: Vec<SqlValue> = Vec::new();
    assert(params.deep_view() =~= Seq::<SqlDatum>::empty());
    let ghost start = db.journal();
    match inner {
        Ok(value) => match change(db, COMMIT, &params) {
            Ok(()) => {
                assert(db.journal().skip(start.len() as int) =~= seq![db.journal().last()]);
                assert(db.journal() =~= start + db.journal().skip(start.len() as int));
                Ok(value)
            },
            Err(failure) => {
                let ghost committed = db.journal();
                let _ = change(db, ROLLBACK, &params);
                assert(db.journal().skip(start.len() as int) =~= seq![
                    committed.last(),
                    db.journal().last(),
                ]);
                assert(db.journal() =~= start + db.journal().skip(start.len() as int));
                Err(failure)
            },
        },
        Err(failure) => {
            let _ = change(db, ROLLBACK, &params);
            assert(db.journal().skip(start.len() as int) =~= seq![db.journal().last()]);
            assert(db.journal() =~= start + db.journal().skip(start.len() as int));
            Err(failure)
        },
    }
}

/// A statement ready to be put to the store.
#[derive(Debug)]
pub struct Prepared {
    pub sql: &'static str,
    pub params: Vec<SqlValue>,
}

impl View for Prepared {
    type V = Statement;

    open spec fn view(&self) -> Statement {
        Statement { sql: self.sql@, params: self.params.deep_view() }
    }
}

impl DeepView for Prepared {
    type V = Statement;

    open spec fn deep_view(&self) -> Statement {
        self@
    }
}

/// Puts the statements to the store in order, each only once the one before
/// it was carried out. On a closed handle, and without statements, nothing is
/// asked.
pub fn write_in_order(db: &mut Database, statements: &Vec<Prepared>) -> (written: Result<(), DbError>)
    ensures
        continues(*old(db), *final(db)),
        if !old(db).is_open() {
            final(db).journal() == old(db).journal() && written matches Err(DbError::NotInitialized)
        } else if statements.len() == 0 {
            final(db).journal() == old(db).journal() && written is Ok
        } else {
            wrote_in_order(statements.deep_view(), trace(*old(db), *final(db)), outcome_view(written))
        },
{
    if !db.is_initialized() {
        assert(db.journal() =~= db.journal() + trace(*db, *db));
        return Err(DbError::NotInitialized);
    }
    if statements.len() == 0 {
        assert(db.journal() =~= db.journal() + trace(*db, *db));
        return Ok(());
    }
    write_each(db, statements)
}

fn write_each(db: &mut Database, statements: &Vec<Prepared>) -> (written: Result<(), DbError>)
    requires
        old(db).is_open(),
        statements.len() >= 1,
    ensures
        continues(*old(db), *final(db)),
        wrote_in_order(statements.deep_view(), trace(*old(db), *final(db)), outcome_view(written)),
{
    let ghost start = db.journal();
    let ghost wanted = statements.deep_view();
    let mut i: usize = 0;
    assert(db.journal() =~= start + db.journal().skip(start.len() as int));
    while i < statements.len()
        invariant
            i <= statements.len(),
            statements.len() >= 1,
            wanted == statements.deep_view(),
            start == old(db).journal(),
            old(db).is_open(),
            db.is_open(),
            db.location() == old(db).location(),
            db.journal().len() == start.len() + i,
            db.journal() == start + db.journal().skip(start.len() as int),
            forall|k: int|
                0 <= k < i ==> (#[trigger] db.journal()[start.len() + k]).statement == wanted[k] && done(
                    db.journal()[start.len() + k].reply,
                ) is Ok,
        decreases statements.len() - i,
    {
        let ghost before = db.journal();
        let changed = change(db, statements[i].sql, &statements[i].params);
        proof {
            let now = db.journal();
            let steps = now.skip(start.len() as int);
            assert(now == before.push(now.last()));
            assert(now.last().statement == wanted[i as int]);
            assert(now =~= start + steps);
            assert forall|k: int| 0 <= k <= i implies (#[trigger] steps[k]).statement == wanted[k] by {
                if k < i {
                    assert(now[start.len() + k] == before[start.len() + k]);
                }
            }
            assert forall|k: int| 0 <= k < i implies done((#[trigger] steps[k]).reply) is Ok by {
                assert(now[start.len() + k] == before[start.len() + k]);
            }
            assert forall|k: int| 0 <= k < i + 1 && changed is Ok implies (#[trigger] now[start.len()
                + k]).statement == wanted[k] && done(now[start.len() + k].reply) is Ok by {
                if k < i {
                    assert(now[start.len() + k] == before[start.len() + k]);
                }
            }
            assert(steps.last() == now.last());
        }
        match changed {
            Ok(()) => {},
            Err(failure) => {
                return Err(failure);
            },
        }
        i = i + 1;
    }
    proof {
        let steps = db.journal().skip(start.len() as int);
        assert forall|k: int| 0 <= k < steps.len() implies (#[trigger] steps[k]).statement == wanted[k] by {
            assert(db.journal()[start.len() + k].statement == wanted[k]);
        }
        assert forall|k: int| 0 <= k < steps.len() - 1 implies done((#[trigger] steps[k]).reply) is Ok by {
            assert(done(db.journal()[start.len() + k].reply) is Ok);
        }
        assert(done(db.journal()[start.len() + (i - 1)].reply) is Ok);
        assert(steps.last() == db.journal()[start.len() + (i - 1)]);
    }
    Ok(())
}

/// What was asked between `a` and `c` is what was asked between `a` and `b`,
/// then what was asked between `b` and `c`.
pub proof fn lemma_continues(a: Database, b: Database, c: Database)
    requires
        continues(a, b),
        continues(b, c),
    ensures
        continues(a, c),
        trace(a, c) == trace(a, b) + trace(b, c),
        trace(a, c).take(trace(a, b).len() as int) == trace(a, b),
        trace(a, c).skip(trace(a, b).len() as int) == trace(b, c),
{
    assert(trace(a, c) =~= trace(a, b) + trace(b, c));
    assert(c.journal() =~= a.journal() + trace(a, c));
    assert(trace(a, c).take(trace(a, b).len() as int) =~= trace(a, b));
    assert(trace(a, c).skip(trace(a, b).len() as int) =~= trace(b, c));
}

/// One statement asked is a trace of one exchange; on a closed handle, of none.
pub proof fn lemma_asked(before: Database, after: Database, statement: Statement)
    requires
        asked(before, after, statement),
    ensures
        continues(before, after),
        before.is_open() ==> trace(before, after) == seq![after.journal().last()]
            && after.journal().last().statement == statement,
        !before.is_open() ==> trace(before, after) == Seq::<Exchange>::empty(),
{
    lemma_short_trace(before.journal(), after.journal());
}

/// A transaction that succeeded is `BEGIN`, the exchanges of a body that
/// succeeded with the same value, and `COMMIT`, all carried out.
pub proof fn lemma_committed<V>(
    steps: Seq<Exchange>,
    value: V,
    body: spec_fn(Seq<Exchange>, Result<V, Failure>) -> bool,
)
    requires
        transacted(steps, Ok::<V, Failure>(value), body),
    ensures
        steps.len() >= 2,
        steps[0].statement == plain(BEGIN@),
        done(steps[0].reply) is Ok,
        steps.last().statement == plain(COMMIT@),
        done(steps.last().reply) is Ok,
        body(steps.subrange(1, steps.len() - 1), Ok::<V, Failure>(value)),
{
    let (n, inner) = choose|n: int, inner: Result<V, Failure>|
        1 <= n <= steps.len() && body(steps.subrange(1, n), inner) && #[trigger] ended(
            steps.skip(n),
            inner,
            Ok::<V, Failure>(value),
        );
    assert(steps.skip(n).len() == 1);
    assert(steps.skip(n)[0] == steps.last());
}

/// A transaction that failed ended with `ROLLBACK`, unless `BEGIN` itself
/// was refused.
pub proof fn lemma_rolled_back<V>(
    steps: Seq<Exchange>,
    failure: Failure,
    body: spec_fn(Seq<Exchange>, Result<V, Failure>) -> bool,
)
    requires
        transacted(steps, Err::<V, Failure>(failure), body),
    ensures
        steps.len() >= 1,
        steps[0].statement == plain(BEGIN@),
        done(steps[0].reply) is Ok ==> steps.len() >= 2 && steps.last().statement == plain(ROLLBACK@),
        done(steps[0].reply) is Err ==> steps.len() == 1 && done(steps[0].reply) == Err::<(), Failure>(
            failure,
        ),
{
    if done(steps[0].reply) is Ok {
        let (n, inner) = choose|n: int, inner: Result<V, Failure>|
            1 <= n <= steps.len() && body(steps.subrange(1, n), inner) && #[trigger] ended(
                steps.skip(n),
                inner,
                Err::<V, Failure>(failure),
            );
        let end = steps.skip(n);
        assert(end.last() == steps.last());
    }
}

/// One more statement asked on an open handle lengthens the trace by its exchange.
pub proof fn lemma_step(start: Database, before: Database, after: Database, statement: Statement)
    requires
        continues(start, before),
        asked(before, after, statement),
        before.is_open(),
    ensures
        continues(start, after),
        trace(start, after) == trace(start, before).push(after.journal().last()),
        after.journal().last().statement == statement,
{
    lemma_asked(before, after, statement);
    lemma_continues(start, before, after);
    assert(trace(start, after) =~= trace(start, before).push(after.journal().last()));
}

/// A write that got no further than `BEGIN` is a transaction that failed at
/// its start.
pub proof fn lemma_not_begun<V>(
    start: Database,
    begun: Database,
    failure: Failure,
    body: spec_fn(Seq<Exchange>, Result<V, Failure>) -> bool,
)
    requires
        asked(start, begun, plain(BEGIN@)),
        failure == if start.is_open() {
            done(begun.last_reply())->Err_0
        } else {
            Failure::NotInitialized
        },
        start.is_open() ==> done(begun.last_reply()) is Err,
    ensures
        in_transaction(start, begun, Err::<V, Failure>(failure), body),
{
    lemma_asked(start, begun, plain(BEGIN@));
}

/// `BEGIN`, a body and an end make a transaction.
pub proof fn lemma_in_transaction<V>(
    start: Database,
    begun: Database,
    inside: Database,
    end: Database,
    inner: Result<V, Failure>,
    result: Result<V, Failure>,
    body: spec_fn(Seq<Exchange>, Result<V, Failure>) -> bool,
)
    requires
        start.is_open(),
        asked(start, begun, plain(BEGIN@)),
        done(begun.last_reply()) is Ok,
        continues(begun, inside),
        body(trace(begun, inside), inner),
        continues(inside, end),
        ended(trace(inside, end), inner, result),
    ensures
        in_transaction(start, end, result, body),
{
    lemma_asked(start, begun, plain(BEGIN@));
    lemma_continues(start, begun, inside);
    lemma_continues(start, inside, end);
    let steps = trace(start, end);
    let n = trace(start, inside).len() as int;
    assert(steps[0] == begun.journal().last());
    assert(steps.subrange(1, n) =~= trace(begun, inside));
    assert(steps.skip(n) == trace(inside, end));
    assert(1 <= n <= steps.len() && body(steps.subrange(1, n), inner) && ended(steps.skip(n), inner, result));
}

/// A journal that grew by one exchange, or not at all.
pub proof fn lemma_short_trace(start: Seq<Exchange>, now: Seq<Exchange>)
    requires
        now == start || now == start.push(now.last()),
    ensures
        now == start ==> now.skip(start.len() as int) == Seq::<Exchange>::empty(),
        now == start.push(now.last()) ==> now.skip(start.len() as int) == seq![now.last()],
        now == start + now.skip(start.len() as int),
{
    if now == start {
        assert(now.skip(start.len() as int) =~= Seq::<Exchange>::empty());
    }
    if now == start.push(now.last()) {
        assert(now.skip(start.len() as int) =~= seq![now.last()]);
    }
    assert(now =~= start + now.skip(start.len() as int));
}

} // verus!
