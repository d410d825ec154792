//! Token pagination: one remote list operation turned into a sequence of
//! pages, fetched one by one as they are asked for.
//!
//! The operation takes a state and an optional continuation token, makes one
//! round trip, and answers with a page, the next state and the next token.
//! The first call carries no token. A token that comes back present and
//! non-empty asks for another call; an absent or empty one ends the
//! sequence. A failure is handed on once and ends the sequence too.

use vstd::prelude::*;

verus! {

/// Where a paginated sequence stands.
#[derive(Debug, PartialEq, Eq)]
pub enum PaginationState<S> {
    /// Nothing was fetched yet.
    Start(S),
    /// The last page came with this token.
    HasMore(S, String),
    /// The sequence has ended; no further call is made.
    Done,
}

/// Whether an answer of the operation asks for another call.
pub open spec fn continues<T, S, E>(outcome: Result<(T, S, Option<String>), E>) -> bool {
    outcome matches Ok((_, _, Some(token))) && token@.len() > 0
}

impl<S> PaginationState<S> {
    /// The arguments of the call that this state asks for; `None` where the
    /// sequence has ended. An empty token ends it as an absent one does.
    pub open spec fn pending(self) -> Option<(S, Option<String>)> {
        match self {
            PaginationState::Start(seed) => Some((seed, None)),
            PaginationState::HasMore(state, token) => if token@.len() > 0 {
                Some((state, Some(token)))
            } else {
                None
            },
            PaginationState::Done => None,
        }
    }

    /// The state that an answer of the operation leads to.
    pub open spec fn after<T, E>(outcome: Result<(T, S, Option<String>), E>) -> PaginationState<
        S,
    > {
        match outcome {
            Ok((_, state, Some(token))) => PaginationState::HasMore(state, token),
            Ok((_, _, None)) => PaginationState::Done,
            Err(_) => PaginationState::Done,
        }
    }

    /// What an answer of the operation hands to the consumer: its page, or
    /// its failure.
    pub open spec fn yielded<T, E>(outcome: Result<(T, S, Option<String>), E>) -> Result<T, E> {
        match outcome {
            Ok((page, _, _)) => Ok(page),
            Err(e) => Err(e),
        }
    }

    /// The arguments of the next call, or `None` where the sequence has ended.
    pub fn request(self) -> (r: Option<(S, Option<String>)>)
        ensures
            r == self.pending(),
    {
        match self {
            PaginationState::Start(seed) => Some((seed, None)),
            PaginationState::HasMore(state, token) => {
                if token.as_str().is_empty() {
                    None
                } else {
                    Some((state, Some(token)))
                }
            },
            PaginationState::Done => None,
        }
    }

    /// Takes the answer to the call that `request` asked for: what to hand
    /// to the consumer, and where the sequence stands then.
    pub fn advance<T, E>(outcome: Result<(T, S, Option<String>), E>) -> (r: (
        Result<T, E>,
        PaginationState<S>,
    ))
        ensures
            r.0 == Self::yielded(outcome),
            r.1 == Self::after(outcome),
    {
        match outcome {
            Ok((page, state, Some(token))) => (Ok(page), PaginationState::HasMore(state, token)),
            Ok((page, _, None)) => (Ok(page), PaginationState::Done),
            Err(e) => (Err(e), PaginationState::Done),
        }
    }
}

/// A paginated sequence that is pulled page by page. It is consumed once,
/// from its first page to its end.
#[derive(Debug)]
pub struct Paginator<S> {
    state: PaginationState<S>,
}

impl<S> Paginator<S> {
    /// Where the sequence stands.
    pub closed spec fn state(self) -> PaginationState<S> {
        self.state
    }

    /// A sequence that has fetched nothing yet.
    pub fn new(seed: S) -> (p: Paginator<S>)
        ensures
            p.state() == PaginationState::Start(seed),
    {
        Paginator { state: PaginationState::Start(seed) }
    }

    /// Whether the sequence has ended.
    pub fn is_done(&self) -> (done: bool)
        ensures
            done == (self.state().pending() is None),
    {
        match &self.state {
            PaginationState::Start(_) => false,
            PaginationState::HasMore(_, token) => token.as_str().is_empty(),
            PaginationState::Done => true,
        }
    }

    /// Fetches the next page with one call of `op`, or returns `None`
    /// without calling it where the sequence has ended.
    pub fn next_page<T, E, F>(&mut self, op: F) -> (item: Option<Result<T, E>>) where
        F: FnOnce(S, Option<String>) -> Result<(T, S, Option<String>), E>,

        requires
            old(self).state().pending() matches Some(arguments) ==> op.requires(arguments),
        ensures
            match old(self).state().pending() {
                Some(arguments) => exists|outcome: Result<(T, S, Option<String>), E>|
                    {
                        &&& op.ensures(arguments, outcome)
                        &&& item == Some(PaginationState::<S>::yielded(outcome))
                        &&& final(self).state() == PaginationState::<S>::after(outcome)
                    },
                None => item is None && final(self).state() == PaginationState::<S>::Done,
            },
    {
        let mut current = PaginationState::Done;
        core::mem::swap(&mut self.state, &mut current);
        match current.request() {
            Some((state, token)) => {
                let outcome = op(state, token);
                let (item, next) = PaginationState::advance(outcome);
                self.state = next;
                Some(item)
            },
            None => None,
        }
    }
}

/// How often the operation is called when the sequence is pulled to its end
/// from `state` and the operation answers its calls, in order, with the
/// entries of `script`. Where the script runs out, the run stops there.
pub open spec fn calls<T, S, E>(
    state: PaginationState<S>,
    script: Seq<Result<(T, S, Option<String>), E>>,
) -> nat
    decreases script.len(),
{
    if state.pending() is None || script.len() == 0 {
        0
    } else {
        1 + calls(PaginationState::<S>::after(script[0]), script.drop_first())
    }
}

/// What the consumer is handed on such a run, in order.
pub open spec fn pages<T, S, E>(
    state: PaginationState<S>,
    script: Seq<Result<(T, S, Option<String>), E>>,
) -> Seq<Result<T, E>>
    decreases script.len(),
{
    if state.pending() is None || script.len() == 0 {
        Seq::empty()
    } else {
        seq![PaginationState::<S>::yielded(script[0])] + pages(
            PaginationState::<S>::after(script[0]),
            script.drop_first(),
        )
    }
}

/// How many answers at the start of `script` ask for another call: those
/// before the first failure and the first absent or empty token.
pub open spec fn leading_continues<T, S, E>(
    script: Seq<Result<(T, S, Option<String>), E>>,
) -> nat
    decreases script.len(),
{
    if script.len() == 0 || !continues(script[0]) {
        0
    } else {
        1 + leading_continues(script.drop_first())
    }
}

/// From a state that asks for a call, the operation is called once, and once
/// more for each answer that asks for another call, until the first answer
/// that does not.
pub proof fn lemma_calls<T, S, E>(
    state: PaginationState<S>,
    script: Seq<Result<(T, S, Option<String>), E>>,
)
    requires
        state.pending() is Some,
    ensures
        leading_continues(script) < script.len() ==> calls(state, script) == 1 + leading_continues(
            script,
        ),
        leading_continues(script) >= script.len() ==> calls(state, script) == script.len(),
    decreases script.len(),
{
    if script.len() > 0 {
        let rest = script.drop_first();
        let next = PaginationState::<S>::after(script[0]);
        if continues(script[0]) {
            lemma_calls(next, rest);
        } else {
            assert(next.pending() is None);
            assert(calls(next, rest) == 0);
        }
    }
}

/// Pulled from its start, a sequence calls the operation once plus once for
/// every non-empty token that came back before the first empty or absent
/// token or failure.
pub proof fn lemma_calls_from_start<T, S, E>(
    seed: S,
    script: Seq<Result<(T, S, Option<String>), E>>,
)
    requires
        leading_continues(script) < script.len(),
    ensures
        calls(PaginationState::Start(seed), script) == 1 + leading_continues(script),
{
    lemma_calls(PaginationState::Start(seed), script);
}

/// The consumer is handed one item per call, each the page or failure of
/// that call, in order. Every item but the last is a page: a failure is
/// handed on once and nothing follows it.
pub proof fn lemma_failure_ends<T, S, E>(
    state: PaginationState<S>,
    script: Seq<Result<(T, S, Option<String>), E>>,
)
    ensures
        pages(state, script).len() == calls(state, script),
        calls(state, script) <= script.len(),
        forall|i: int|
            0 <= i < pages(state, script).len() ==> #[trigger] pages(state, script)[i]
                == PaginationState::<S>::yielded(script[i]),
        forall|i: int|
            0 <= i < pages(state, script).len() - 1 ==> (#[trigger] pages(state, script)[i]) is Ok,
    decreases script.len(),
{
    if state.pending() is Some && script.len() > 0 {
        let rest = script.drop_first();
        let next = PaginationState::<S>::after(script[0]);
        lemma_failure_ends(next, rest);
        let all = pages(state, script);
        let later = pages(next, rest);
        assert forall|i: int| 0 <= i < all.len() implies #[trigger] all[i]
            == PaginationState::<S>::yielded(script[i]) by {
            if i > 0 {
                assert(all[i] == later[i - 1]);
                assert(rest[i - 1] == script[i]);
            }
        }
        assert forall|i: int| 0 <= i < all.len() - 1 implies (#[trigger] all[i]) is Ok by {
            if i > 0 {
                assert(all[i] == later[i - 1]);
            } else {
                assert(later.len() > 0);
                assert(next.pending() is Some);
            }
        }
    }
}

/// A state that holds an empty token is at its end, exactly as `Done` is:
/// it asks for no call, and pulling it calls nothing and yields nothing.
pub proof fn lemma_empty_token_ends<T, S, E>(
    state: S,
    token: String,
    script: Seq<Result<(T, S, Option<String>), E>>,
)
    requires
        token@.len() == 0,
    ensures
        PaginationState::HasMore(state, token).pending() == PaginationState::<S>::Done.pending(),
        PaginationState::HasMore(state, token).pending() is None,
        calls(PaginationState::HasMore(state, token), script) == calls(
            PaginationState::<S>::Done,
            script,
        ),
        calls(PaginationState::HasMore(state, token), script) == 0,
        pages(PaginationState::HasMore(state, token), script) == pages(
            PaginationState::<S>::Done,
            script,
        ),
{
}

/// An answer with an empty token and one without a token both end the
/// sequence: neither leads to a state that asks for a call.
pub proof fn lemma_empty_token_as_absent<T, S, E>(page: T, state: S, token: String)
    requires
        token@.len() == 0,
    ensures
        PaginationState::<S>::after(Ok::<(T, S, Option<String>), E>((page, state, Some(token))))
            .pending() is None,
        PaginationState::<S>::after(Ok::<(T, S, Option<String>), E>((page, state, None)))
            .pending() is None,
{
}

} // verus!
