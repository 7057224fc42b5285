//! Finding the match record on a page that may still be filling in.
//!
//! The page is asked for its match records again and again, with a pause
//! before each query, until one query is answered with a record, the
//! attempts allowed are used up, or a query fails. The one who runs the queries feeds each
//! answer to [`step`] and does what it says.

use vstd::prelude::*;

verus! {

/// The number of attempts that is recommended.
pub const RECOMMENDED_ATTEMPTS: u32 = 10;

/// The pause before each attempt that is recommended, in milliseconds.
pub const RECOMMENDED_DELAY_MS: u64 = 200;

/// How often the page is asked, and how long the pause before each query is.
#[derive(Clone, Copy, Debug, PartialEq, Eq, Structural)]
pub struct RetryPolicy {
    pub max_attempts: u32,
    pub delay_ms: u64,
}

/// A search for the match record: its policy, and the number of queries that
/// were made and answered so far.
#[derive(Clone, Copy, Debug, PartialEq, Eq, Structural)]
pub struct Locator {
    pub policy: RetryPolicy,
    pub attempts: u32,
}

/// What happened in a search.
#[derive(Clone, Copy, Debug, PartialEq, Eq, Structural)]
pub enum LocatorEvent {
    /// The search begins.
    Started,
    /// The query that was asked for came back with this many records.
    Answered { records: usize },
    /// The query that was asked for failed: the page could not be asked.
    Failed,
}

/// What a search asks for next.
#[derive(Clone, Copy, Debug, PartialEq, Eq, Structural)]
pub enum LocatorAction {
    /// Pause this long, then query the page.
    Query { delay_ms: u64 },
    /// The search is over: the first record of the last answer is the one.
    TakeFirst,
    /// The search is over: there is no record.
    GiveUp,
    /// The search is over: the page cannot be asked.
    Abort,
}

/// How a search ended, and after how many queries.
pub enum Located {
    Found { queries: nat },
    NotFound { queries: nat },
    Aborted { queries: nat },
}

impl RetryPolicy {
    /// Ten attempts, a fifth of a second apart.
    pub fn recommended() -> (policy: RetryPolicy)
        ensures
            policy == (RetryPolicy {
                max_attempts: RECOMMENDED_ATTEMPTS,
                delay_ms: RECOMMENDED_DELAY_MS,
            }),
    {
        RetryPolicy { max_attempts: RECOMMENDED_ATTEMPTS, delay_ms: RECOMMENDED_DELAY_MS }
    }
}

impl Locator {
    /// Another query while attempts are left, else the end of the search.
    pub open spec fn query_or_give_up(self) -> LocatorAction {
        if self.attempts < self.policy.max_attempts {
            LocatorAction::Query { delay_ms: self.policy.delay_ms }
        } else {
            LocatorAction::GiveUp
        }
    }

    /// The search after `event`, and what it asks for.
    ///
    /// An answer counts as one attempt. With a record in it the search is
    /// over. An answer that no query asked for, the attempts being used up,
    /// changes nothing. A query that fails ends the search at once, and is not
    /// tried again.
    pub open spec fn after(self, event: LocatorEvent) -> (Locator, LocatorAction) {
        match event {
            LocatorEvent::Started => (self, self.query_or_give_up()),
            LocatorEvent::Failed => (self, LocatorAction::Abort),
            LocatorEvent::Answered { records } => if self.attempts >= self.policy.max_attempts {
                (self, LocatorAction::GiveUp)
            } else {
                let next = Locator { policy: self.policy, attempts: (self.attempts + 1) as u32 };
                if records > 0 {
                    (next, LocatorAction::TakeFirst)
                } else {
                    (next, next.query_or_give_up())
                }
            },
        }
    }

    /// How the search ends from here when it asks for `action` and its queries
    /// are answered with `answers`, each a number of records, one after the
    /// other. A search that asks for more queries than there are answers ends
    /// as not found.
    pub open spec fn run(self, action: LocatorAction, answers: Seq<usize>) -> Located
        decreases answers.len(),
    {
        match action {
            LocatorAction::TakeFirst => Located::Found { queries: self.attempts as nat },
            LocatorAction::GiveUp => Located::NotFound { queries: self.attempts as nat },
            LocatorAction::Abort => Located::Aborted { queries: self.attempts as nat },
            LocatorAction::Query { .. } => if answers.len() == 0 {
                Located::NotFound { queries: self.attempts as nat }
            } else {
                let (next, action) = self.after(
                    LocatorEvent::Answered { records: answers[0] },
                );
                next.run(action, answers.drop_first())
            },
        }
    }

    /// A search that has made no query yet.
    pub fn new(policy: RetryPolicy) -> (locator: Locator)
        ensures
            locator == (Locator { policy, attempts: 0 }),
    {
        Locator { policy, attempts: 0 }
    }

    /// Takes `event` in, and says what to do next.
    pub fn step(self, event: LocatorEvent) -> (r: (Locator, LocatorAction))
        ensures
            r == self.after(event),
            r.0.policy == self.policy,
            r.0.attempts <= self.policy.max_attempts || r.0.attempts == self.attempts,
            r.1 is Abort <==> event is Failed,
    {
        match event {
            LocatorEvent::Started => (self, self.next_query()),
            LocatorEvent::Failed => (self, LocatorAction::Abort),
            LocatorEvent::Answered { records } => {
                if self.attempts >= self.policy.max_attempts {
                    (self, LocatorAction::GiveUp)
                } else {
                    let next = Locator { policy: self.policy, attempts: self.attempts + 1 };
                    if records > 0 {
                        (next, LocatorAction::TakeFirst)
                    } else {
                        (next, next.next_query())
                    }
                }
            },
        }
    }

    fn next_query(self) -> (action: LocatorAction)
        ensures
            action == self.query_or_give_up(),
    {
        if self.attempts < self.policy.max_attempts {
            LocatorAction::Query { delay_ms: self.policy.delay_ms }
        } else {
            LocatorAction::GiveUp
        }
    }
}

/// A search that is under way goes on as a fresh one would: it finds the
/// record with the first answer that holds one, if that answer comes within
/// the attempts left.
proof fn lemma_run_finds(locator: Locator, answers: Seq<usize>, k: int)
    requires
        0 <= k < answers.len(),
        locator.attempts + k < locator.policy.max_attempts,
        forall|i: int| 0 <= i < k ==> answers[i] == 0,
        answers[k] > 0,
    ensures
        locator.run(locator.query_or_give_up(), answers) == (Located::Found {
            queries: (locator.attempts + k + 1) as nat,
        }),
    decreases k,
{
    let (next, action) = locator.after(LocatorEvent::Answered { records: answers[0] });
    let rest = answers.drop_first();
    if k > 0 {
        lemma_run_finds(next, rest, k - 1);
    } else {
        assert(next.run(action, rest) == Located::Found { queries: next.attempts as nat });
    }
}

/// A search whose queries all come back empty ends as not found when its
/// attempts are used up.
proof fn lemma_run_gives_up(locator: Locator, answers: Seq<usize>)
    requires
        locator.attempts <= locator.policy.max_attempts,
        answers.len() >= locator.policy.max_attempts - locator.attempts,
        forall|i: int| 0 <= i < locator.policy.max_attempts - locator.attempts ==> answers[i] == 0,
    ensures
        locator.run(locator.query_or_give_up(), answers) == (Located::NotFound {
            queries: locator.policy.max_attempts as nat,
        }),
    decreases locator.policy.max_attempts - locator.attempts,
{
    if locator.attempts < locator.policy.max_attempts {
        let (next, action) = locator.after(LocatorEvent::Answered { records: answers[0] });
        let rest = answers.drop_first();
        lemma_run_gives_up(next, rest);
    }
}

/// The record is found as soon as a query is answered with one.
///
/// Where the queries before number `k` come back empty and query number `k`,
/// counted from 0 and within the attempts allowed, comes back with a record,
/// the search ends as found after `k + 1` queries, whatever the later answers
/// would have been.
pub proof fn law_found_at_first_answer(policy: RetryPolicy, answers: Seq<usize>, k: int)
    requires
        0 <= k < answers.len(),
        k < policy.max_attempts,
        forall|i: int| 0 <= i < k ==> answers[i] == 0,
        answers[k] > 0,
    ensures
        ({
            let locator = Locator { policy, attempts: 0 };
            let (begun, action) = locator.after(LocatorEvent::Started);
            begun.run(action, answers) == (Located::Found { queries: (k + 1) as nat })
        }),
{
    lemma_run_finds(Locator { policy, attempts: 0 }, answers, k);
}

/// No record is no failure: where every query allowed comes back empty, the
/// search ends as not found, after exactly the attempts allowed.
pub proof fn law_not_found_after_all_attempts(policy: RetryPolicy, answers: Seq<usize>)
    requires
        answers.len() >= policy.max_attempts,
        forall|i: int| 0 <= i < policy.max_attempts ==> answers[i] == 0,
    ensures
        ({
            let locator = Locator { policy, attempts: 0 };
            let (begun, action) = locator.after(LocatorEvent::Started);
            begun.run(action, answers) == (Located::NotFound {
                queries: policy.max_attempts as nat,
            })
        }),
{
    lemma_run_gives_up(Locator { policy, attempts: 0 }, answers);
}

} // verus!
