//! Adaptive polling interval: poll active feeds more often, quiet feeds less often.
use vstd::prelude::*;

verus! {

/// Shortest polling interval: one hour.
pub const MIN_INTERVAL_MINUTES: i64 = 60;

/// Longest polling interval: one week.
pub const MAX_INTERVAL_MINUTES: i64 = 10080;

/// Largest value of the consecutive "had new articles" counter.
pub const MAX_CONSECUTIVE: i64 = 2;

/// The polling state of a feed in adaptive mode.
#[derive(Clone, Copy, Debug, PartialEq, Eq, Structural)]
pub struct AdaptiveState {
    pub fetch_interval_minutes: i64,
    pub consecutive_new_articles: i64,
}

/// An interval within `[MIN_INTERVAL_MINUTES, MAX_INTERVAL_MINUTES]`.
pub open spec fn valid_interval(minutes: int) -> bool {
    MIN_INTERVAL_MINUTES <= minutes <= MAX_INTERVAL_MINUTES
}

impl AdaptiveState {
    /// The invariant of every adaptive feed.
    pub open spec fn wf(&self) -> bool {
        &&& valid_interval(self.fetch_interval_minutes as int)
        &&& 0 <= self.consecutive_new_articles <= MAX_CONSECUTIVE
    }
}

/// The state after one fetch attempt that found `new_articles` new articles
/// (zero for "not modified" and for any error).
pub open spec fn next_state(s: AdaptiveState, new_articles: nat) -> AdaptiveState {
    if new_articles > 0 {
        if s.consecutive_new_articles >= 1 {
            let halved = (s.fetch_interval_minutes / 2) as i64;
            AdaptiveState {
                fetch_interval_minutes: if halved < MIN_INTERVAL_MINUTES {
                    MIN_INTERVAL_MINUTES
                } else {
                    halved
                },
                consecutive_new_articles: MAX_CONSECUTIVE,
            }
        } else {
            AdaptiveState { consecutive_new_articles: 1, ..s }
        }
    } else {
        AdaptiveState {
            fetch_interval_minutes: if 2 * s.fetch_interval_minutes > MAX_INTERVAL_MINUTES {
                MAX_INTERVAL_MINUTES
            } else {
                (2 * s.fetch_interval_minutes) as i64
            },
            consecutive_new_articles: 0,
        }
    }
}

/// The state after a whole sequence of fetch outcomes, each given as its count
/// of new articles.
pub open spec fn run_outcomes(s: AdaptiveState, outcomes: Seq<nat>) -> AdaptiveState
    decreases outcomes.len(),
{
    if outcomes.len() == 0 {
        s
    } else {
        run_outcomes(next_state(s, outcomes[0]), outcomes.drop_first())
    }
}

/// Computes the state that follows one fetch attempt with `new_articles_count`
/// new articles.
pub fn next_adaptive_state(s: AdaptiveState, new_articles_count: usize) -> (r: AdaptiveState)
    requires
        valid_interval(s.fetch_interval_minutes as int),
    ensures
        r == next_state(s, new_articles_count as nat),
        r.wf(),
{
    if new_articles_count > 0 {
        if s.consecutive_new_articles >= 1 {
            let halved = s.fetch_interval_minutes / 2;
            let interval = if halved < MIN_INTERVAL_MINUTES {
                MIN_INTERVAL_MINUTES
            } else {
                halved
            };
            AdaptiveState { fetch_interval_minutes: interval, consecutive_new_articles: MAX_CONSECUTIVE }
        } else {
            AdaptiveState { fetch_interval_minutes: s.fetch_interval_minutes, consecutive_new_articles: 1 }
        }
    } else {
        let doubled = s.fetch_interval_minutes * 2;
        let interval = if doubled > MAX_INTERVAL_MINUTES {
            MAX_INTERVAL_MINUTES
        } else {
            doubled
        };
        AdaptiveState { fetch_interval_minutes: interval, consecutive_new_articles: 0 }
    }
}

/// The interval stays within `[60, 10080]` and the counter within `[0, 2]`
/// after every update, for any starting feed whose interval is valid and any
/// sequence of fetch outcomes.
pub proof fn lemma_interval_stays_in_bounds(s: AdaptiveState, outcomes: Seq<nat>)
    requires
        valid_interval(s.fetch_interval_minutes as int),
    ensures
        forall|k: int| 0 < k <= outcomes.len() ==> #[trigger] run_outcomes(s, outcomes.take(k)).wf(),
        outcomes.len() > 0 ==> run_outcomes(s, outcomes).wf(),
    decreases outcomes.len(),
{
    if outcomes.len() > 0 {
        let t = next_state(s, outcomes[0]);
        assert(t.wf());
        lemma_interval_stays_in_bounds(t, outcomes.drop_first());
        assert forall|k: int| 0 < k <= outcomes.len() implies #[trigger] run_outcomes(s, outcomes.take(k)).wf() by {
            let p = outcomes.take(k);
            assert(p[0] == outcomes[0]);
            if k == 1 {
                assert(p.drop_first() =~= Seq::<nat>::empty());
                assert(run_outcomes(t, p.drop_first()) == t);
            } else {
                assert(p.drop_first() =~= outcomes.drop_first().take(k - 1));
                assert(run_outcomes(t, outcomes.drop_first().take(k - 1)).wf());
            }
            assert(run_outcomes(s, p) == run_outcomes(t, p.drop_first()));
        }
        assert(outcomes.take(outcomes.len() as int) =~= outcomes);
    }
}

/// One outcome with new articles after one without leaves the interval as it
/// was and sets the counter to 1; a second consecutive one halves the interval,
/// never below 60 minutes, and sets the counter to 2.
pub proof fn lemma_new_articles_twice_halves(s: AdaptiveState, first: nat, second: nat)
    requires
        s.wf(),
        s.consecutive_new_articles == 0,
        first > 0,
        second > 0,
    ensures
        next_state(s, first).fetch_interval_minutes == s.fetch_interval_minutes,
        next_state(s, first).consecutive_new_articles == 1,
        next_state(next_state(s, first), second).fetch_interval_minutes == if s.fetch_interval_minutes / 2 < MIN_INTERVAL_MINUTES {
            MIN_INTERVAL_MINUTES as int
        } else {
            s.fetch_interval_minutes / 2
        },
        next_state(next_state(s, first), second).consecutive_new_articles == 2,
{
}

/// An outcome without new articles (not modified, an error, or nothing new)
/// doubles the interval, never above 10080 minutes, and resets the counter.
pub proof fn lemma_no_new_articles_doubles(s: AdaptiveState)
    requires
        valid_interval(s.fetch_interval_minutes as int),
    ensures
        next_state(s, 0).fetch_interval_minutes == if 2 * s.fetch_interval_minutes > MAX_INTERVAL_MINUTES {
            MAX_INTERVAL_MINUTES as int
        } else {
            2 * s.fetch_interval_minutes
        },
        next_state(s, 0).consecutive_new_articles == 0,
{
}

} // verus!
