use vstd::prelude::*;
use crate::error::Error;
use crate::opengl::features::Features;
use crate::ownership::{check_owner, spec_check_owner};
use crate::query::{OcclusionTest, QueryType};

verus! {

/// Which kinds of query are active; one query of each kind may be active at a time, and
/// all occlusion tests share one kind.
#[derive(Debug, Clone, Copy, PartialEq, Eq, Structural)]
pub struct QueryFlags {
    /// An elapsed-time query is active.
    pub timestamp: bool,
    /// A primitive-count query is active.
    pub primitives: bool,
    /// An occlusion query is active.
    pub occlusion: bool,
}

/// The state of one query object.
#[derive(Debug, Clone, Copy, PartialEq, Eq, Structural)]
pub enum QueryState {
    /// Begun on the given query object and not yet ended.
    Begun(u32),
    /// Ended on the given query object; the result may not be available yet.
    Ended(u32),
    /// The result has been read.
    Available(u64),
}

/// The next step of reading a query.
#[derive(Debug, Clone, Copy, PartialEq, Eq, Structural)]
pub enum ReadStep {
    /// The result is known.
    Ready(u64),
    /// Ask the query object whether its result is available.
    Poll(u32),
}

/// The active query kinds of a context and the query objects it keeps for reuse.
#[derive(Debug, Clone)]
pub struct QueryTracker {
    /// The active query kinds.
    pub flags: QueryFlags,
    /// Query objects that are free to be reused, the most recently freed last.
    pub pool: Vec<u32>,
}

/// Whether the context supports queries of the given kind.
pub open spec fn spec_query_supported(features: Features, kind: QueryType) -> bool {
    match kind {
        QueryType::Primitives => features.query_samples_primitives,
        QueryType::Elapsed => features.query_time_elapsed,
        QueryType::Occlusion(OcclusionTest::Samples) => features.query_samples_primitives,
        QueryType::Occlusion(OcclusionTest::Exact) => features.query_occlusion,
        QueryType::Occlusion(OcclusionTest::Conservative) => features.query_occlusion_conservative,
    }
}

/// Whether a query of the given kind is active.
pub open spec fn spec_active(flags: QueryFlags, kind: QueryType) -> bool {
    match kind {
        QueryType::Primitives => flags.primitives,
        QueryType::Elapsed => flags.timestamp,
        QueryType::Occlusion(_) => flags.occlusion,
    }
}

/// The flags with the given kind marked active or inactive.
pub open spec fn spec_set_active(flags: QueryFlags, kind: QueryType, value: bool) -> QueryFlags {
    match kind {
        QueryType::Primitives => QueryFlags { primitives: value, ..flags },
        QueryType::Elapsed => QueryFlags { timestamp: value, ..flags },
        QueryType::Occlusion(_) => QueryFlags { occlusion: value, ..flags },
    }
}

/// Two query kinds share one active flag.
pub open spec fn same_slot(a: QueryType, b: QueryType) -> bool {
    match (a, b) {
        (QueryType::Primitives, QueryType::Primitives) => true,
        (QueryType::Elapsed, QueryType::Elapsed) => true,
        (QueryType::Occlusion(_), QueryType::Occlusion(_)) => true,
        _ => false,
    }
}

/// The outcome of beginning a query of the given kind: `UnsupportedFeature` when the
/// context lacks it, `InvalidOperation` when a query of that kind is active.
pub open spec fn spec_begin_outcome(features: Features, flags: QueryFlags, kind: QueryType) -> Result<(), Error> {
    if !spec_query_supported(features, kind) {
        Err(Error::UnsupportedFeature)
    } else if spec_active(flags, kind) {
        Err(Error::InvalidOperation)
    } else {
        Ok(())
    }
}

/// Whether the context supports queries of the given kind.
pub fn query_supported(features: &Features, kind: QueryType) -> (r: bool)
    ensures
        r == spec_query_supported(*features, kind),
{
    match kind {
        QueryType::Primitives => features.query_samples_primitives,
        QueryType::Elapsed => features.query_time_elapsed,
        QueryType::Occlusion(OcclusionTest::Samples) => features.query_samples_primitives,
        QueryType::Occlusion(OcclusionTest::Exact) => features.query_occlusion,
        QueryType::Occlusion(OcclusionTest::Conservative) => features.query_occlusion_conservative,
    }
}

/// Where the next read of a query goes: a read result is returned again, a begun query
/// cannot be read (`InvalidOperation`), an ended query is polled.
pub open spec fn spec_read_step(state: QueryState) -> Result<ReadStep, Error> {
    match state {
        QueryState::Available(result) => Ok(ReadStep::Ready(result)),
        QueryState::Begun(_) => Err(Error::InvalidOperation),
        QueryState::Ended(query) => Ok(ReadStep::Poll(query)),
    }
}

/// Decides the next step of reading a query.
pub fn read_step(state: QueryState) -> (r: Result<ReadStep, Error>)
    ensures
        r == spec_read_step(state),
{
    match state {
        QueryState::Available(result) => Ok(ReadStep::Ready(result)),
        QueryState::Begun(_) => Err(Error::InvalidOperation),
        QueryState::Ended(query) => Ok(ReadStep::Poll(query)),
    }
}

/// The next step of reading a query on the context `context`: a query made by another
/// context is refused with `InvalidResource`; otherwise as [`read_step`].
pub open spec fn spec_read_owned_step(context: u64, owner: u64, state: QueryState) -> Result<ReadStep, Error> {
    match spec_check_owner(context, owner) {
        Err(e) => Err(e),
        Ok(()) => spec_read_step(state),
    }
}

/// Decides the next step of reading, on the context `context`, a query made by `owner`.
pub fn read_owned_step(context: u64, owner: u64, state: QueryState) -> (r: Result<ReadStep, Error>)
    ensures
        r == spec_read_owned_step(context, owner, state),
{
    match check_owner(context, owner) {
        Err(e) => Err(e),
        Ok(()) => read_step(state),
    }
}

impl QueryTracker {
    /// A tracker with no active query and no free query object.
    pub fn new() -> (r: Self)
        ensures
            r.flags == (QueryFlags { timestamp: false, primitives: false, occlusion: false }),
            r.pool@.len() == 0,
    {
        QueryTracker { flags: QueryFlags { timestamp: false, primitives: false, occlusion: false }, pool: Vec::new() }
    }

    /// Checks that a query of the given kind can begin, and takes the query object to use:
    /// the most recently freed one, taken from the pool, or `None` when a new one must be
    /// created. The kind is not marked active yet: that is [`QueryTracker::commit_begin`],
    /// once the query object exists, so a failed creation leaves every kind as it was. On
    /// failure nothing changes.
    pub fn begin(&mut self, features: &Features, kind: QueryType) -> (r: Result<Option<u32>, Error>)
        ensures
            final(self).flags == old(self).flags,
            match spec_begin_outcome(*features, old(self).flags, kind) {
                Err(e) => r == Err::<Option<u32>, Error>(e) && final(self).pool@ == old(self).pool@,
                Ok(()) => if old(self).pool@.len() > 0 {
                    r == Ok::<Option<u32>, Error>(Some(old(self).pool@.last())) && final(self).pool@
                        == old(self).pool@.drop_last()
                } else {
                    r == Ok::<Option<u32>, Error>(None) && final(self).pool@ == old(self).pool@
                },
            },
    {
        if !query_supported(features, kind) {
            return Err(Error::UnsupportedFeature);
        }
        let active = match kind {
            QueryType::Primitives => self.flags.primitives,
            QueryType::Elapsed => self.flags.timestamp,
            QueryType::Occlusion(_) => self.flags.occlusion,
        };
        if active {
            return Err(Error::InvalidOperation);
        }
        Ok(self.pool.pop())
    }

    /// Marks the kind active once its query object exists, and returns the state of the
    /// begun query.
    pub fn commit_begin(&mut self, kind: QueryType, query: u32) -> (r: QueryState)
        ensures
            final(self).flags == spec_set_active(old(self).flags, kind, true),
            final(self).pool@ == old(self).pool@,
            r == QueryState::Begun(query),
    {
        match kind {
            QueryType::Primitives => self.flags.primitives = true,
            QueryType::Elapsed => self.flags.timestamp = true,
            QueryType::Occlusion(_) => self.flags.occlusion = true,
        }
        QueryState::Begun(query)
    }

    /// Ends a query of the given kind in the given state: only a begun query can be ended
    /// (`InvalidOperation` otherwise, with nothing changed); its kind becomes inactive and
    /// the query becomes ended on the same object.
    pub fn end(&mut self, state: QueryState, kind: QueryType) -> (r: Result<QueryState, Error>)
        ensures
            match state {
                QueryState::Begun(query) => r == Ok::<QueryState, Error>(QueryState::Ended(query))
                    && final(self).flags == spec_set_active(old(self).flags, kind, false),
                _ => r == Err::<QueryState, Error>(Error::InvalidOperation) && final(self).flags == old(
                    self,
                ).flags,
            },
            final(self).pool@ == old(self).pool@,
    {
        match state {
            QueryState::Begun(query) => {
                match kind {
                    QueryType::Primitives => self.flags.primitives = false,
                    QueryType::Elapsed => self.flags.timestamp = false,
                    QueryType::Occlusion(_) => self.flags.occlusion = false,
                }
                Ok(QueryState::Ended(query))
            },
            _ => Err(Error::InvalidOperation),
        }
    }

    /// Ends, on the context `context`, a query made by `owner`: a query of another context
    /// is refused with `InvalidResource` and nothing changes; otherwise as
    /// [`QueryTracker::end`].
    pub fn end_owned(&mut self, context: u64, owner: u64, state: QueryState, kind: QueryType) -> (r: Result<
        QueryState,
        Error,
    >)
        ensures
            owner != context ==> r == Err::<QueryState, Error>(Error::InvalidResource) && *final(self) == *old(
                self,
            ),
            owner == context ==> match state {
                QueryState::Begun(query) => r == Ok::<QueryState, Error>(QueryState::Ended(query))
                    && final(self).flags == spec_set_active(old(self).flags, kind, false),
                _ => r == Err::<QueryState, Error>(Error::InvalidOperation) && final(self).flags == old(
                    self,
                ).flags,
            },
            final(self).pool@ == old(self).pool@,
    {
        match check_owner(context, owner) {
            Err(e) => Err(e),
            Ok(()) => self.end(state, kind),
        }
    }

    /// Completes a poll of an ended query: when its result is available, the result is
    /// returned and kept, and the query object is freed for reuse; otherwise nothing
    /// changes and no result is returned yet.
    pub fn complete_read(&mut self, query: u32, available: bool, result: u64) -> (r: (
        Option<u64>,
        QueryState,
    ))
        ensures
            final(self).flags == old(self).flags,
            available ==> r == (Some(result), QueryState::Available(result)) && final(self).pool@ == old(
                self,
            ).pool@.push(query),
            !available ==> r == (None::<u64>, QueryState::Ended(query)) && final(self).pool@ == old(
                self,
            ).pool@,
    {
        if !available {
            return (None, QueryState::Ended(query));
        }
        self.pool.push(query);
        (Some(result), QueryState::Available(result))
    }

    /// Releases a query that is dropped: a query object that is still held is freed for
    /// reuse.
    pub fn release(&mut self, state: QueryState)
        ensures
            final(self).flags == old(self).flags,
            match state {
                QueryState::Begun(q) => final(self).pool@ == old(self).pool@.push(q),
                QueryState::Ended(q) => final(self).pool@ == old(self).pool@.push(q),
                QueryState::Available(_) => final(self).pool@ == old(self).pool@,
            },
    {
        match state {
            QueryState::Begun(q) => self.pool.push(q),
            QueryState::Ended(q) => self.pool.push(q),
            QueryState::Available(_) => {},
        }
    }
}

/// Law: while a query is active, no other query that shares its kind can begin; once it
/// ends, a query of that kind can begin again.
pub proof fn law_one_active_query_per_kind(features: Features, flags: QueryFlags, kind: QueryType, other: QueryType)
    requires
        spec_begin_outcome(features, flags, kind) is Ok,
        spec_query_supported(features, other),
        same_slot(kind, other),
    ensures
        spec_begin_outcome(features, spec_set_active(flags, kind, true), other) == Err::<(), Error>(
            Error::InvalidOperation,
        ),
        spec_begin_outcome(features, spec_set_active(spec_set_active(flags, kind, true), kind, false), other)
            is Ok,
{
}

/// Law: beginning or ending a query of one kind leaves the other kinds as they are.
pub proof fn law_query_kinds_independent(flags: QueryFlags, kind: QueryType, other: QueryType, value: bool)
    requires
        !same_slot(kind, other),
    ensures
        spec_active(spec_set_active(flags, kind, value), other) == spec_active(flags, other),
{
}

/// Law: once a read finds the result of a query available, every later read returns the
/// same result without asking the query object again.
pub proof fn law_read_result_is_kept(result: u64)
    ensures
        spec_read_step(QueryState::Available(result)) == Ok::<ReadStep, Error>(ReadStep::Ready(result)),
{
}


/// Law: reading a query made by another context is refused with `InvalidResource`,
/// whatever state the query is in; a query of the context reads as before.
pub proof fn law_foreign_query_refused(context: u64, owner: u64, state: QueryState)
    ensures
        owner != context ==> spec_read_owned_step(context, owner, state) == Err::<ReadStep, Error>(
            Error::InvalidResource,
        ),
        owner == context ==> spec_read_owned_step(context, owner, state) == spec_read_step(state),
{
}


/// Law: a query begins only on a context that supports its kind — primitive counts and
/// sample counts with sample/primitive queries, elapsed time with timer queries, "any
/// samples" and conservative occlusion each with their own feature — and only while no
/// query of its kind (all occlusion tests being one kind) is active; an unsupported kind
/// is refused first.
pub proof fn law_query_begins_only_when_supported(features: Features, flags: QueryFlags, kind: QueryType)
    ensures
        ({
            let supported = match kind {
                QueryType::Primitives => features.query_samples_primitives,
                QueryType::Elapsed => features.query_time_elapsed,
                QueryType::Occlusion(OcclusionTest::Samples) => features.query_samples_primitives,
                QueryType::Occlusion(OcclusionTest::Exact) => features.query_occlusion,
                QueryType::Occlusion(OcclusionTest::Conservative) => features.query_occlusion_conservative,
            };
            let active = match kind {
                QueryType::Primitives => flags.primitives,
                QueryType::Elapsed => flags.timestamp,
                QueryType::Occlusion(_) => flags.occlusion,
            };
            &&& !supported ==> spec_begin_outcome(features, flags, kind) == Err::<(), Error>(
                Error::UnsupportedFeature,
            )
            &&& supported && active ==> spec_begin_outcome(features, flags, kind) == Err::<(), Error>(
                Error::InvalidOperation,
            )
            &&& supported && !active ==> spec_begin_outcome(features, flags, kind) == Ok::<(), Error>(())
            &&& spec_query_supported(features, kind) == supported
        }),
{
}


/// Law: a read result that is known is returned as it is; a query that has not ended
/// cannot be read (`InvalidOperation`); an ended query is polled on its own object.
pub proof fn law_read_steps(query: u32, result: u64)
    ensures
        spec_read_step(QueryState::Available(result)) == Ok::<ReadStep, Error>(ReadStep::Ready(result)),
        spec_read_step(QueryState::Begun(query)) == Err::<ReadStep, Error>(Error::InvalidOperation),
        spec_read_step(QueryState::Ended(query)) == Ok::<ReadStep, Error>(ReadStep::Poll(query)),
{
}

} // verus!
