//! The prepared-statement cache and the course of a prepared query.
//!
//! Preparing a statement costs a round trip to the backing store, so the
//! handle of every statement that was run is kept in a cache, keyed by the
//! query text. The round trips themselves are the caller's: it performs each
//! [`Command`] and hands the answer back as the next [`Reply`].

use concread::arcache::{ARCache, ARCacheBuilder};
use scylla::statement::prepared::PreparedStatement;
use std::fmt::Debug;
use std::hash::Hash;
use vstd::prelude::*;

verus! {

/// `concread::arcache::ARCache`: a transactional adaptive replacement cache.
#[verifier::external_type_specification]
#[verifier::external_body]
#[verifier::reject_recursive_types(K)]
#[verifier::reject_recursive_types(V)]
pub struct ExARCache<K, V>(ARCache<K, V>) where
    K: Hash + Eq + Ord + Clone + Debug + Sync + Send + 'static,
    V: Clone + Debug + Sync + Send + 'static,
;

/// `scylla::statement::prepared::PreparedStatement`: the handle of a statement
/// that the backing store has parsed.
#[verifier::external_type_specification]
#[verifier::external_body]
pub struct ExPreparedStatement(PreparedStatement);

/// How many statements the cache is sized for.
pub const STATEMENT_CACHE_SIZE: usize = 50;

/// The id that the backing store gave a prepared statement, as
/// `PreparedStatement::get_id` of scylla returns it. A statement and its
/// clones have the same id. Other parts of a handle, such as the tracing ids
/// of its preparation, do not survive a clone and are no part of this.
pub uninterp spec fn statement_id(statement: PreparedStatement) -> Seq<u8>;

/// The statements that a cache holds: for each query text, the id of the
/// statement that is kept for it.
pub uninterp spec fn cached_statements(cache: ARCache<String, PreparedStatement>) -> Map<
    Seq<char>,
    Seq<u8>,
>;

/// The number of statements that a cache was sized for when it was built.
pub uninterp spec fn cache_capacity(cache: ARCache<String, PreparedStatement>) -> nat;

/// `num_cpus::get`: the number of logical processors, which is at least one.
#[verifier::external_body]
fn processor_count() -> (processors: usize)
    ensures
        processors >= 1,
{
    num_cpus::get()
}

/// `ARCacheBuilder::new().set_size(..).build()` of concread: with both sizes
/// set the builder always yields a cache, sized as asked, and the cache is
/// empty.
#[verifier::external_body]
fn cache_new(max: usize, read_max: usize) -> (made: Option<ARCache<String, PreparedStatement>>)
    ensures
        made is Some,
        cached_statements(made->0) == (Map::<Seq<char>, Seq<u8>>::empty()),
        cache_capacity(made->0) == max,
{
    ARCacheBuilder::new().set_size(max, read_max).build()
}

/// A read transaction on concread's `ARCache`: `read`, then `get`, then a
/// clone of what was found. A handle comes back exactly where the cache
/// holds the query text, and it is a clone of the statement kept there: it
/// has that statement's id. The cache may rewrite its entries with clones of
/// themselves on the way, which changes no id.
#[verifier::external_body]
fn cache_get(cache: &ARCache<String, PreparedStatement>, query: &str) -> (hit: Option<
    PreparedStatement,
>)
    ensures
        hit is Some <==> cached_statements(*cache).contains_key(query@),
        hit matches Some(handle) ==> statement_id(handle) == cached_statements(*cache)[query@],
{
    let mut reader = cache.read();
    reader.get(query).cloned()
}

/// A write transaction on concread's `ARCache`: `write`, `insert`, `commit`.
/// The statement takes the place of any that was held for the query text.
/// The cache evicts entries only where it holds more than it was sized for:
/// then any entry may go, the new one included. It adds no other entry, and
/// the entries that stay keep their ids.
#[verifier::external_body]
fn cache_insert(
    cache: &mut ARCache<String, PreparedStatement>,
    query: String,
    statement: PreparedStatement,
)
    ensures
        cached_statements(*final(cache)).submap_of(
            cached_statements(*old(cache)).insert(query@, statement_id(statement)),
        ),
        within_capacity(
            cached_statements(*old(cache)).insert(query@, statement_id(statement)),
            cache_capacity(*old(cache)),
        ) ==> cached_statements(*final(cache)) == cached_statements(*old(cache)).insert(
            query@,
            statement_id(statement),
        ),
        cache_capacity(*final(cache)) == cache_capacity(*old(cache)),
{
    let mut writer = cache.write();
    writer.insert(query, statement);
    writer.commit();
}

/// Whether a set of entries is one that a cache of the given capacity holds
/// without evicting: finitely many, and no more than the capacity.
pub open spec fn within_capacity<V>(entries: Map<Seq<char>, V>, capacity: nat) -> bool {
    entries.dom().finite() && entries.dom().len() <= capacity
}

/// The cache half of the session facade: the prepared statements that this
/// process has run, by query text. Its view gives, for each query text, the
/// id of the statement that is kept for it.
pub struct Session {
    cache: ARCache<String, PreparedStatement>,
}

impl View for Session {
    type V = Map<Seq<char>, Seq<u8>>;

    closed spec fn view(&self) -> Map<Seq<char>, Seq<u8>> {
        cached_statements(self.cache)
    }
}

impl Session {
    /// The number of statements the cache was sized for.
    pub closed spec fn capacity(&self) -> nat {
        cache_capacity(self.cache)
    }

    /// An empty cache, sized for fifty statements and one reader per
    /// processor.
    pub fn new() -> (session: Option<Session>)
        ensures
            session is Some,
            session->0@ == Map::<Seq<char>, Seq<u8>>::empty(),
            session->0.capacity() == STATEMENT_CACHE_SIZE,
    {
        match cache_new(STATEMENT_CACHE_SIZE, processor_count()) {
            Some(cache) => Some(Session { cache }),
            None => None,
        }
    }

    /// A handle for a query text, if the cache holds one: a clone of the
    /// statement that is kept for the text, with that statement's id. A
    /// lookup leaves every entry with the id it had.
    pub fn lookup(&self, query: &str) -> (hit: Option<PreparedStatement>)
        ensures
            hit is Some <==> self@.contains_key(query@),
            hit matches Some(handle) ==> statement_id(handle) == self@[query@],
    {
        cache_get(&self.cache, query)
    }

    /// Keeps a statement for a query text, in place of any that was kept for
    /// it. While the cache holds no more than it was sized for, that is all
    /// that happens. Beyond that the cache evicts as it sees fit, and
    /// promises no more than this: every entry it holds afterwards is the
    /// new one or one it held before, with the same id.
    pub fn store(&mut self, query: &str, statement: PreparedStatement)
        ensures
            final(self)@.submap_of(old(self)@.insert(query@, statement_id(statement))),
            within_capacity(
                old(self)@.insert(query@, statement_id(statement)),
                old(self).capacity(),
            ) ==> final(self)@ == old(self)@.insert(query@, statement_id(statement)),
            final(self).capacity() == old(self).capacity(),
    {
        cache_insert(&mut self.cache, query.to_owned(), statement)
    }
}

/// Where a prepared query stands.
#[derive(Copy, Clone, Debug, PartialEq, Eq, Structural)]
pub enum Stage {
    /// Not begun.
    Start,
    /// Waiting for the cache.
    Lookup,
    /// Waiting for the run of a cached statement.
    CachedRun,
    /// Waiting for the statement to be prepared.
    Preparing,
    /// Waiting for the run of a newly prepared statement.
    FreshRun,
    /// Concluded.
    Done,
}

/// The answer to the command given last. `H` is a statement handle, `R` the
/// result of a run, `E` the error of the backing store.
#[derive(Debug)]
pub enum Reply<H, R, E> {
    /// The query was asked for.
    Begin,
    /// What the cache holds for the query text.
    Cached(Option<H>),
    /// What preparing the query text came to.
    Prepared(Result<H, E>),
    /// What running the statement came to, with the handle that was run.
    Executed(H, Result<R, E>),
}

/// A round trip to the backing store that failed. The caller logs it with
/// the query text before it hands it on.
#[derive(Debug)]
pub enum BackendFailure<E> {
    /// The statement could not be prepared.
    Prepare(E),
    /// The statement could not be run.
    Execute(E),
    /// A reply did not answer the command given last.
    OutOfTurn,
}

/// What the caller is to do next.
#[derive(Debug)]
pub enum Command<H, R, E> {
    /// Look the query text up in the cache.
    Lookup,
    /// Run this statement with the caller's values.
    Execute(H),
    /// Prepare the query text.
    Prepare,
    /// Keep the handle for the query text, where one is given, then hand the
    /// outcome to whoever asked.
    Finish { keep: Option<H>, outcome: Result<R, BackendFailure<E>> },
}

/// A query that concludes without keeping a handle.
pub open spec fn concluded<H, R, E>(outcome: Result<R, BackendFailure<E>>) -> (
    Stage,
    Command<H, R, E>,
) {
    (Stage::Done, Command::Finish { keep: None, outcome })
}

/// One step of a prepared query. A cached handle is run as it is, and what
/// the run comes to is the outcome. Without one the query text is prepared,
/// the new handle is run, and only a run that succeeds has the handle kept.
pub open spec fn query_step<H, R, E>(stage: Stage, reply: Reply<H, R, E>) -> (
    Stage,
    Command<H, R, E>,
) {
    match (stage, reply) {
        (Stage::Start, Reply::Begin) => (Stage::Lookup, Command::Lookup),
        (Stage::Lookup, Reply::Cached(Some(handle))) => (
            Stage::CachedRun,
            Command::Execute(handle),
        ),
        (Stage::Lookup, Reply::Cached(None)) => (Stage::Preparing, Command::Prepare),
        (Stage::CachedRun, Reply::Executed(_, Ok(rows))) => concluded(Ok(rows)),
        (Stage::CachedRun, Reply::Executed(_, Err(error))) => concluded(
            Err(BackendFailure::Execute(error)),
        ),
        (Stage::Preparing, Reply::Prepared(Ok(handle))) => (
            Stage::FreshRun,
            Command::Execute(handle),
        ),
        (Stage::Preparing, Reply::Prepared(Err(error))) => concluded(
            Err(BackendFailure::Prepare(error)),
        ),
        (Stage::FreshRun, Reply::Executed(handle, Ok(rows))) => (
            Stage::Done,
            Command::Finish { keep: Some(handle), outcome: Ok(rows) },
        ),
        (Stage::FreshRun, Reply::Executed(_, Err(error))) => concluded(
            Err(BackendFailure::Execute(error)),
        ),
        _ => concluded(Err(BackendFailure::OutOfTurn)),
    }
}

/// The course of one prepared query.
#[derive(Debug)]
pub struct PreparedQuery {
    stage: Stage,
}

impl View for PreparedQuery {
    type V = Stage;

    closed spec fn view(&self) -> Stage {
        self.stage
    }
}

impl PreparedQuery {
    /// A query that has not begun.
    pub fn new() -> (query: PreparedQuery)
        ensures
            query@ == Stage::Start,
    {
        PreparedQuery { stage: Stage::Start }
    }

    /// The stage the query stands at.
    pub fn stage(&self) -> (stage: Stage)
        ensures
            stage == self@,
    {
        self.stage
    }

    fn conclude<H, R, E>(&mut self, outcome: Result<R, BackendFailure<E>>) -> (command: Command<
        H,
        R,
        E,
    >)
        ensures
            (final(self)@, command) == concluded::<H, R, E>(outcome),
    {
        self.stage = Stage::Done;
        Command::Finish { keep: None, outcome }
    }

    /// Takes the answer to the last command and decides the next one. The
    /// first reply is [`Reply::Begin`]; the last command is
    /// [`Command::Finish`].
    pub fn step<H, R, E>(&mut self, reply: Reply<H, R, E>) -> (command: Command<H, R, E>)
        ensures
            (final(self)@, command) == query_step(old(self)@, reply),
    {
        match self.stage {
            Stage::Start => match reply {
                Reply::Begin => {
                    self.stage = Stage::Lookup;
                    Command::Lookup
                },
                _ => self.conclude(Err(BackendFailure::OutOfTurn)),
            },
            Stage::Lookup => match reply {
                Reply::Cached(Some(handle)) => {
                    self.stage = Stage::CachedRun;
                    Command::Execute(handle)
                },
                Reply::Cached(None) => {
                    self.stage = Stage::Preparing;
                    Command::Prepare
                },
                _ => self.conclude(Err(BackendFailure::OutOfTurn)),
            },
            Stage::CachedRun => match reply {
                Reply::Executed(_, Ok(rows)) => self.conclude(Ok(rows)),
                Reply::Executed(_, Err(error)) => self.conclude(
                    Err(BackendFailure::Execute(error)),
                ),
                _ => self.conclude(Err(BackendFailure::OutOfTurn)),
            },
            Stage::Preparing => match reply {
                Reply::Prepared(Ok(handle)) => {
                    self.stage = Stage::FreshRun;
                    Command::Execute(handle)
                },
                Reply::Prepared(Err(error)) => self.conclude(Err(BackendFailure::Prepare(error))),
                _ => self.conclude(Err(BackendFailure::OutOfTurn)),
            },
            Stage::FreshRun => match reply {
                Reply::Executed(handle, Ok(rows)) => {
                    self.stage = Stage::Done;
                    Command::Finish { keep: Some(handle), outcome: Ok(rows) }
                },
                Reply::Executed(_, Err(error)) => self.conclude(
                    Err(BackendFailure::Execute(error)),
                ),
                _ => self.conclude(Err(BackendFailure::OutOfTurn)),
            },
            Stage::Done => self.conclude(Err(BackendFailure::OutOfTurn)),
        }
    }
}

/// The command that ends a prepared query, given what the cache holds for
/// the query text and what the backing store answers to a prepare and to a
/// run. The store is asked to prepare only where the cache holds nothing.
pub open spec fn conclusion<H, R, E>(
    cached: Option<H>,
    prepared: Result<H, E>,
    executed: Result<R, E>,
) -> Command<H, R, E> {
    let (looking, _) = query_step::<H, R, E>(Stage::Start, Reply::Begin);
    let (found, first) = query_step::<H, R, E>(looking, Reply::Cached(cached));
    match first {
        Command::Execute(handle) => query_step(found, Reply::Executed(handle, executed)).1,
        Command::Prepare => {
            let (ready, second) = query_step::<H, R, E>(found, Reply::Prepared(prepared));
            match second {
                Command::Execute(handle) => query_step(ready, Reply::Executed(handle, executed)).1,
                _ => second,
            }
        },
        _ => first,
    }
}

/// What a prepared query comes to does not depend on the cache: where the
/// backing store prepares and runs the statement, the outcome is the result
/// of the run, whether the cache held a handle or not. The cache decides
/// only whether a new handle is kept: it is, exactly where the cache held
/// none.
pub proof fn lemma_outcome_does_not_depend_on_cache<H, R, E>(
    cached: Option<H>,
    prepared: H,
    rows: R,
)
    ensures
        conclusion::<H, R, E>(cached, Ok(prepared), Ok(rows)) == (Command::<H, R, E>::Finish {
            keep: if cached is None {
                Some(prepared)
            } else {
                None
            },
            outcome: Ok(rows),
        }),
{
}

/// A failure of the backing store is handed on as it is, and no handle is
/// kept: a run that fails fails the query, and so does a prepare that fails
/// where the cache held nothing.
pub proof fn lemma_backend_failure_is_surfaced<H, R, E>(
    cached: Option<H>,
    prepared: Result<H, E>,
    executed: Result<R, E>,
)
    requires
        (cached is None && prepared is Err) || executed is Err,
    ensures
        conclusion(cached, prepared, executed) == (Command::<H, R, E>::Finish {
            keep: None,
            outcome: Err(
                if cached is None && prepared is Err {
                    BackendFailure::Prepare(prepared->Err_0)
                } else {
                    BackendFailure::Execute(executed->Err_0)
                },
            ),
        }),
{
}

/// A query whose text the cache holds goes to the backing store once: the
/// cached handle is run, nothing is prepared, and what the run comes to is
/// the outcome. No handle is kept anew, so with a lookup that changes no
/// entry, the statement kept for the text is still the one that was hit.
pub proof fn lemma_cache_hit_runs_the_cached_handle<H, R, E>(handle: H, executed: Result<R, E>)
    ensures
        ({
            let (looking, first) = query_step::<H, R, E>(Stage::Start, Reply::Begin);
            let (running, second) = query_step::<H, R, E>(
                looking,
                Reply::Cached(Some(handle)),
            );
            let (done, last) = query_step(running, Reply::Executed(handle, executed));
            &&& first == Command::<H, R, E>::Lookup
            &&& second == Command::<H, R, E>::Execute(handle)
            &&& done == Stage::Done
            &&& last == (Command::<H, R, E>::Finish {
                keep: None,
                outcome: match executed {
                    Ok(rows) => Ok(rows),
                    Err(error) => Err(BackendFailure::Execute(error)),
                },
            })
        }),
{
}

/// A handle that is kept while the cache has room is there for the next
/// lookup: the caller that comes second finds what the first one prepared.
pub proof fn lemma_kept_handle_is_found<V>(
    before: Map<Seq<char>, V>,
    after: Map<Seq<char>, V>,
    capacity: nat,
    query: Seq<char>,
    handle: V,
)
    requires
        before.dom().finite(),
        before.dom().len() < capacity,
        within_capacity(before.insert(query, handle), capacity) ==> after == before.insert(
            query,
            handle,
        ),
    ensures
        after.contains_key(query),
        after[query] == handle,
        within_capacity(after, capacity),
{
    assert(before.insert(query, handle).dom() =~= before.dom().insert(query));
}


/// With room in the cache, nothing is prepared twice. The first query of a
/// text that the cache does not hold prepares it, runs it and has the
/// statement kept. After that the cache holds the text, so the next lookup
/// hits, and the second query runs the handle it is given and prepares
/// nothing. Both come to the result of their run.
pub proof fn lemma_second_query_prepares_nothing<H, R, E>(
    before: Map<Seq<char>, Seq<u8>>,
    after: Map<Seq<char>, Seq<u8>>,
    capacity: nat,
    query: Seq<char>,
    id: Seq<u8>,
    prepared: H,
    found: H,
    rows: R,
    rows_again: R,
)
    requires
        before.dom().finite(),
        before.dom().len() < capacity,
        within_capacity(before.insert(query, id), capacity) ==> after == before.insert(query, id),
    ensures
        conclusion::<H, R, E>(None, Ok(prepared), Ok(rows)) == (Command::<H, R, E>::Finish {
            keep: Some(prepared),
            outcome: Ok(rows),
        }),
        after.contains_key(query) && after[query] == id,
        query_step::<H, R, E>(Stage::Lookup, Reply::Cached(Some(found))) == (
            Stage::CachedRun,
            Command::<H, R, E>::Execute(found),
        ),
        forall|reprepared: Result<H, E>|
            conclusion::<H, R, E>(Some(found), reprepared, Ok(rows_again)) == (Command::<
                H,
                R,
                E,
            >::Finish { keep: None, outcome: Ok(rows_again) }),
{
    lemma_kept_handle_is_found(before, after, capacity, query, id);
}

/// Keeping a handle twice for one query text, as two callers that both
/// missed the cache do, leaves nothing behind that keeping the later one
/// alone could not: every entry is the later handle or an entry from before.
pub proof fn lemma_later_store_overwrites<V>(
    before: Map<Seq<char>, V>,
    between: Map<Seq<char>, V>,
    after: Map<Seq<char>, V>,
    query: Seq<char>,
    earlier: V,
    later: V,
)
    requires
        between.submap_of(before.insert(query, earlier)),
        after.submap_of(between.insert(query, later)),
    ensures
        after.submap_of(before.insert(query, later)),
{
    assert forall|key: Seq<char>| #[trigger] after.dom().contains(key) implies before.insert(
        query,
        later,
    ).dom().contains(key) && after[key] == before.insert(query, later)[key] by {
        assert(between.insert(query, later).dom().contains(key));
        if key != query {
            assert(between.dom().contains(key));
            assert(before.insert(query, earlier).dom().contains(key));
        }
    }
}

} // verus!
