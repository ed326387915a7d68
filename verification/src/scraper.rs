//! The decisions of the scraping loop, as a state machine.
//!
//! Each round walks the configured users, exporting every illustration of
//! theirs not yet seen in the round and waiting between items, then the
//! standalone works not yet seen, fetching and exporting each with a wait
//! after it, and finally ends the round and waits for the next one. A
//! shutdown that arrives during a wait stops the loop.
//!
//! The caller performs each [`ScrapeAction`] (fetching, exporting, waiting)
//! and hands back what came of it as a [`ScrapeEvent`].

use vstd::prelude::*;
use std::collections::HashSet;
use crate::config::TargetConfig;

verus! {

broadcast use vstd::std_specs::hash::group_hash_axioms;

/// Which interval to wait after an item.
#[derive(Clone, Copy, PartialEq, Eq, Structural, Debug)]
pub enum WaitKind {
    /// After an illustration of a user.
    UserItem,
    /// After a standalone work.
    IndependentItem,
}

/// What the scraping loop asks its caller to do next.
#[derive(Clone, Copy, PartialEq, Eq, Structural, Debug)]
pub enum ScrapeAction {
    /// A round begins; answer `Proceed`.
    BeginRound { round: i32 },
    /// Start listing the illustrations of `user` and fetch the first one;
    /// answer `Fetched`, `FetchFailed` or `Exhausted`.
    FetchUserIllusts { user: u64 },
    /// Fetch the next illustration of the listing of `user`;
    /// answer `Fetched`, `FetchFailed` or `Exhausted`.
    FetchNextUserIllust { user: u64 },
    /// Fetch the detail of the work `work`; answer `Fetched` or `FetchFailed`.
    FetchWork { work: u64 },
    /// Export the illustration just fetched, whose id is `id`; answer `Proceed`.
    Export { id: u64 },
    /// Wait an interval of the given kind; answer `Proceed`, or `Shutdown`
    /// when a shutdown signal came during the wait.
    Wait { kind: WaitKind },
    /// The round ends with `items` distinct items seen; wait for the next
    /// round and answer `Proceed`, or `Shutdown`.
    EndRound { round: i32, items: usize },
    /// Stop scraping.
    Stop,
}

/// What came of the last action.
#[derive(Clone, Copy, PartialEq, Eq, Structural, Debug)]
pub enum ScrapeEvent {
    /// The action is done.
    Proceed,
    /// An illustration with this id was fetched.
    Fetched { id: u64 },
    /// Fetching failed.
    FetchFailed,
    /// The listing of the user has no more illustrations.
    Exhausted,
    /// A shutdown signal arrived while waiting.
    Shutdown,
}

/// Where the scraping loop stands: which action it waits on the outcome of.
#[derive(Clone, Copy, PartialEq, Eq, Structural, Debug)]
pub enum Phase {
    BeginningRound,
    FetchingUserIllust { user_index: usize },
    ExportingUserIllust { user_index: usize },
    WaitingAfterUserIllust { user_index: usize },
    FetchingWork { work_index: usize },
    ExportingWork { work_index: usize },
    WaitingAfterWork { work_index: usize },
    EndingRound,
    Stopped,
}

/// The state of the scraping loop.
pub struct Scraper {
    users: Vec<u64>,
    works: Vec<u64>,
    round: i32,
    visited: HashSet<u64>,
    phase: Phase,
}

/// The state of the scraping loop as a mathematical value.
pub struct ScraperView {
    /// The configured users, in order.
    pub users: Seq<u64>,
    /// The configured standalone works, in order.
    pub works: Seq<u64>,
    /// The number of the current round, from 0.
    pub round: int,
    /// The ids seen in the current round.
    pub visited: Set<u64>,
    pub phase: Phase,
}

impl View for Scraper {
    type V = ScraperView;

    closed spec fn view(&self) -> ScraperView {
        ScraperView {
            users: self.users@,
            works: self.works@,
            round: self.round as int,
            visited: self.visited@,
            phase: self.phase,
        }
    }
}

impl ScraperView {
    /// Every work up to index `j` has been seen in this round.
    pub open spec fn works_seen_through(self, j: int) -> bool {
        forall|k: int| 0 <= k <= j && k < self.works.len() ==> self.visited.contains(#[trigger] self.works[k])
    }

    /// The invariant of the scraping state: the round number is a
    /// non-negative `i32`, the lists fit in memory, the seen ids form a finite set that is empty when
    /// a round begins, the phase points
    /// into the configured lists, and once the works are being walked every
    /// work so far has been seen.
    pub open spec fn wf(self) -> bool {
        &&& 0 <= self.round <= i32::MAX
        &&& self.users.len() <= usize::MAX
        &&& self.works.len() <= usize::MAX
        &&& self.visited.finite()
        &&& (self.phase is BeginningRound ==> self.visited == Set::<u64>::empty())
        &&& match self.phase {
            Phase::FetchingUserIllust { user_index } => user_index < self.users.len(),
            Phase::ExportingUserIllust { user_index } => user_index < self.users.len(),
            Phase::WaitingAfterUserIllust { user_index } => user_index < self.users.len(),
            Phase::FetchingWork { work_index } => work_index < self.works.len() && self.works_seen_through(work_index as int),
            Phase::ExportingWork { work_index } => work_index < self.works.len() && self.works_seen_through(work_index as int),
            Phase::WaitingAfterWork { work_index } => work_index < self.works.len() && self.works_seen_through(work_index as int),
            Phase::EndingRound => self.works_seen_through(self.works.len() - 1),
            _ => true,
        }
    }

    /// The events the state waits for: those its pending action can come to.
    pub open spec fn accepts(self, e: ScrapeEvent) -> bool {
        match self.phase {
            Phase::BeginningRound => e is Proceed,
            Phase::FetchingUserIllust { .. } => e is Fetched || e is FetchFailed || e is Exhausted,
            Phase::ExportingUserIllust { .. } => e is Proceed,
            Phase::WaitingAfterUserIllust { .. } => e is Proceed || e is Shutdown,
            Phase::FetchingWork { .. } => e is Fetched || e is FetchFailed,
            Phase::ExportingWork { .. } => e is Proceed,
            Phase::WaitingAfterWork { .. } => e is Proceed || e is Shutdown,
            Phase::EndingRound => e is Proceed || e is Shutdown,
            Phase::Stopped => false,
        }
    }

    /// The state can take event `e`: it waits for it, and a new round
    /// number still fits in an `i32`.
    pub open spec fn can_step(self, e: ScrapeEvent) -> bool {
        &&& self.accepts(e)
        &&& (self.phase is EndingRound && e is Proceed ==> self.round < i32::MAX)
    }

    pub open spec fn with_phase(self, phase: Phase) -> ScraperView {
        ScraperView { phase, ..self }
    }
}

/// Moves on to the standalone works from index `j`: works already seen in
/// the round are skipped; the first unseen one is marked seen and fetched;
/// past the last work the round ends.
pub open spec fn enter_work(s: ScraperView, j: int) -> (ScraperView, ScrapeAction)
    decreases s.works.len() - j,
{
    if j >= s.works.len() {
        (s.with_phase(Phase::EndingRound), ScrapeAction::EndRound { round: s.round as i32, items: s.visited.len() as usize })
    } else if s.visited.contains(s.works[j]) {
        enter_work(s, j + 1)
    } else {
        (
            ScraperView { visited: s.visited.insert(s.works[j]), phase: Phase::FetchingWork { work_index: j as usize }, ..s },
            ScrapeAction::FetchWork { work: s.works[j] },
        )
    }
}

/// Moves on to the user at index `i`, or to the works past the last user.
pub open spec fn enter_user(s: ScraperView, i: int) -> (ScraperView, ScrapeAction) {
    if 0 <= i < s.users.len() {
        (s.with_phase(Phase::FetchingUserIllust { user_index: i as usize }), ScrapeAction::FetchUserIllusts { user: s.users[i] })
    } else {
        enter_work(s, 0)
    }
}

/// The stopped state.
pub open spec fn stop(s: ScraperView) -> (ScraperView, ScrapeAction) {
    (s.with_phase(Phase::Stopped), ScrapeAction::Stop)
}

/// The next state and action of the scraping loop after event `e`.
pub open spec fn next(s: ScraperView, e: ScrapeEvent) -> (ScraperView, ScrapeAction) {
    match s.phase {
        Phase::BeginningRound => enter_user(s, 0),
        Phase::FetchingUserIllust { user_index } => match e {
            ScrapeEvent::Fetched { id } => if s.visited.contains(id) {
                (s.with_phase(Phase::WaitingAfterUserIllust { user_index }), ScrapeAction::Wait { kind: WaitKind::UserItem })
            } else {
                (
                    ScraperView { visited: s.visited.insert(id), phase: Phase::ExportingUserIllust { user_index }, ..s },
                    ScrapeAction::Export { id },
                )
            },
            _ => enter_user(s, user_index + 1),
        },
        Phase::ExportingUserIllust { user_index } =>
            (s.with_phase(Phase::WaitingAfterUserIllust { user_index }), ScrapeAction::Wait { kind: WaitKind::UserItem }),
        Phase::WaitingAfterUserIllust { user_index } => match e {
            ScrapeEvent::Shutdown => stop(s),
            _ => (
                s.with_phase(Phase::FetchingUserIllust { user_index }),
                ScrapeAction::FetchNextUserIllust { user: s.users[user_index as int] },
            ),
        },
        Phase::FetchingWork { work_index } => match e {
            ScrapeEvent::Fetched { id } => (s.with_phase(Phase::ExportingWork { work_index }), ScrapeAction::Export { id }),
            _ => enter_work(s, work_index + 1),
        },
        Phase::ExportingWork { work_index } =>
            (s.with_phase(Phase::WaitingAfterWork { work_index }), ScrapeAction::Wait { kind: WaitKind::IndependentItem }),
        Phase::WaitingAfterWork { work_index } => match e {
            ScrapeEvent::Shutdown => stop(s),
            _ => enter_work(s, work_index + 1),
        },
        Phase::EndingRound => match e {
            ScrapeEvent::Shutdown => stop(s),
            _ => (
                ScraperView { round: s.round + 1, visited: Set::empty(), phase: Phase::BeginningRound, ..s },
                ScrapeAction::BeginRound { round: (s.round + 1) as i32 },
            ),
        },
        Phase::Stopped => stop(s),
    }
}

/// The state before the first round of scraping `users` and `works`.
pub open spec fn initial(users: Seq<u64>, works: Seq<u64>) -> ScraperView {
    ScraperView { users, works, round: 0, visited: Set::empty(), phase: Phase::BeginningRound }
}

impl Scraper {
    pub open spec fn wf(&self) -> bool {
        self@.wf()
    }

    /// A scraper for the configured targets, and its first action: the
    /// beginning of round 0.
    pub fn new(target: &TargetConfig) -> (res: (Scraper, ScrapeAction))
        ensures
            res.0.wf(),
            res.0@ == initial(target.users@, target.works@),
            res.1 == (ScrapeAction::BeginRound { round: 0 }),
    {
        let users = target.users.clone();
        let works = target.works.clone();
        assert(users@ =~= target.users@);
        assert(works@ =~= target.works@);
        let s = Scraper { users, works, round: 0, visited: HashSet::new(), phase: Phase::BeginningRound };
        assert(s@.visited =~= Set::<u64>::empty());
        (s, ScrapeAction::BeginRound { round: 0 })
    }

    /// The number of the current round.
    pub fn round(&self) -> (round: i32)
        ensures
            round as int == self@.round,
    {
        self.round
    }

    /// Whether the scraper can take `event` now (see [`ScraperView::can_step`]).
    pub fn can_step(&self, event: &ScrapeEvent) -> (ok: bool)
        ensures
            ok == self@.can_step(*event),
    {
        let accepted = match self.phase {
            Phase::BeginningRound => matches!(event, ScrapeEvent::Proceed),
            Phase::FetchingUserIllust { .. } => matches!(event, ScrapeEvent::Fetched { .. } | ScrapeEvent::FetchFailed | ScrapeEvent::Exhausted),
            Phase::ExportingUserIllust { .. } => matches!(event, ScrapeEvent::Proceed),
            Phase::WaitingAfterUserIllust { .. } => matches!(event, ScrapeEvent::Proceed | ScrapeEvent::Shutdown),
            Phase::FetchingWork { .. } => matches!(event, ScrapeEvent::Fetched { .. } | ScrapeEvent::FetchFailed),
            Phase::ExportingWork { .. } => matches!(event, ScrapeEvent::Proceed),
            Phase::WaitingAfterWork { .. } => matches!(event, ScrapeEvent::Proceed | ScrapeEvent::Shutdown),
            Phase::EndingRound => matches!(event, ScrapeEvent::Proceed | ScrapeEvent::Shutdown),
            Phase::Stopped => false,
        };
        let round_fits = match (self.phase, event) {
            (Phase::EndingRound, ScrapeEvent::Proceed) => self.round < i32::MAX,
            _ => true,
        };
        accepted && round_fits
    }

    fn enter_work(&mut self, j: usize) -> (action: ScrapeAction)
        requires
            j <= old(self).works.len(),
        ensures
            (final(self)@, action) == enter_work(old(self)@, j as int),
    {
        let mut k = j;
        let n = self.works.len();
        while k < n
            invariant
                j <= k <= n,
                n == self.works.len(),
                self@ == old(self)@,
                enter_work(old(self)@, j as int) == enter_work(self@, k as int),
            decreases n - k,
        {
            let w = self.works[k];
            if !self.visited.contains(&w) {
                self.visited.insert(w);
                self.phase = Phase::FetchingWork { work_index: k };
                assert(self@.visited =~= old(self)@.visited.insert(w));
                return ScrapeAction::FetchWork { work: w };
            }
            k = k + 1;
        }
        self.phase = Phase::EndingRound;
        ScrapeAction::EndRound { round: self.round, items: self.visited.len() }
    }

    fn enter_user(&mut self, i: usize) -> (action: ScrapeAction)
        requires
            i <= old(self).users.len(),
        ensures
            (final(self)@, action) == enter_user(old(self)@, i as int),
    {
        if i < self.users.len() {
            self.phase = Phase::FetchingUserIllust { user_index: i };
            ScrapeAction::FetchUserIllusts { user: self.users[i] }
        } else {
            self.enter_work(0)
        }
    }

    /// Takes the outcome of the last action and gives the next action.
    pub fn step(&mut self, event: ScrapeEvent) -> (action: ScrapeAction)
        requires
            old(self).wf(),
            old(self)@.can_step(event),
        ensures
            final(self).wf(),
            (final(self)@, action) == next(old(self)@, event),
    {
        proof { lemma_next_preserves_wf(self@, event); }
        assert(self@.phase == self.phase && self@.users.len() == self.users.len() && self@.works.len() == self.works.len());
        match self.phase {
            Phase::BeginningRound => self.enter_user(0),
            Phase::FetchingUserIllust { user_index } => match event {
                ScrapeEvent::Fetched { id } => {
                    if self.visited.contains(&id) {
                        self.phase = Phase::WaitingAfterUserIllust { user_index };
                        ScrapeAction::Wait { kind: WaitKind::UserItem }
                    } else {
                        self.visited.insert(id);
                        self.phase = Phase::ExportingUserIllust { user_index };
                        ScrapeAction::Export { id }
                    }
                },
                _ => self.enter_user(user_index + 1),
            },
            Phase::ExportingUserIllust { user_index } => {
                self.phase = Phase::WaitingAfterUserIllust { user_index };
                ScrapeAction::Wait { kind: WaitKind::UserItem }
            },
            Phase::WaitingAfterUserIllust { user_index } => match event {
                ScrapeEvent::Shutdown => {
                    self.phase = Phase::Stopped;
                    ScrapeAction::Stop
                },
                _ => {
                    self.phase = Phase::FetchingUserIllust { user_index };
                    ScrapeAction::FetchNextUserIllust { user: self.users[user_index] }
                },
            },
            Phase::FetchingWork { work_index } => match event {
                ScrapeEvent::Fetched { id } => {
                    self.phase = Phase::ExportingWork { work_index };
                    ScrapeAction::Export { id }
                },
                _ => self.enter_work(work_index + 1),
            },
            Phase::ExportingWork { work_index } => {
                self.phase = Phase::WaitingAfterWork { work_index };
                ScrapeAction::Wait { kind: WaitKind::IndependentItem }
            },
            Phase::WaitingAfterWork { work_index } => match event {
                ScrapeEvent::Shutdown => {
                    self.phase = Phase::Stopped;
                    ScrapeAction::Stop
                },
                _ => self.enter_work(work_index + 1),
            },
            Phase::EndingRound => match event {
                ScrapeEvent::Shutdown => {
                    self.phase = Phase::Stopped;
                    ScrapeAction::Stop
                },
                _ => {
                    self.round = self.round + 1;
                    self.visited = HashSet::new();
                    self.phase = Phase::BeginningRound;
                    assert(self@.visited =~= Set::<u64>::empty());
                    ScrapeAction::BeginRound { round: self.round }
                },
            },
            Phase::Stopped => {
                self.phase = Phase::Stopped;
                ScrapeAction::Stop
            },
        }
    }
}

/// Moving on to the works from `j` keeps the invariant, given that the
/// works before `j` have been seen.
proof fn lemma_enter_work_wf(s: ScraperView, j: int)
    requires
        0 <= j <= s.works.len(),
        0 <= s.round <= i32::MAX,
        s.users.len() <= usize::MAX,
        s.works.len() <= usize::MAX,
        s.visited.finite(),
        s.works_seen_through(j - 1),
    ensures
        enter_work(s, j).0.wf(),
        enter_work(s, j).0.users == s.users,
        enter_work(s, j).0.works == s.works,
        enter_work(s, j).0.round == s.round,
        s.visited.subset_of(enter_work(s, j).0.visited),
    decreases s.works.len() - j,
{
    if j < s.works.len() {
        if s.visited.contains(s.works[j]) {
            lemma_enter_work_wf(s, j + 1);
        } else {
            let s2 = enter_work(s, j).0;
            assert(s2.works_seen_through(j));
        }
    }
}

/// The invariant of the scraping state holds in every state the loop
/// reaches: each step from a state that keeps it to one that keeps it.
pub proof fn lemma_next_preserves_wf(s: ScraperView, e: ScrapeEvent)
    requires
        s.wf(),
        s.can_step(e),
    ensures
        next(s, e).0.wf(),
{
    match s.phase {
        Phase::BeginningRound => lemma_enter_work_wf(s, 0),
        Phase::FetchingUserIllust { user_index } => lemma_enter_work_wf(s, 0),
        Phase::FetchingWork { work_index } => lemma_enter_work_wf(s, work_index + 1),
        Phase::WaitingAfterWork { work_index } => lemma_enter_work_wf(s, work_index + 1),
        _ => {},
    }
}

/// The initial state keeps the invariant.
pub proof fn lemma_initial_wf(users: Seq<u64>, works: Seq<u64>)
    requires
        users.len() <= usize::MAX,
        works.len() <= usize::MAX,
    ensures
        initial(users, works).wf(),
{
}

/// What moving on to the works from `j` can do: fetch an unseen work,
/// marking it seen, or end the round; nothing else changes.
proof fn lemma_enter_work_actions(s: ScraperView, j: int)
    requires
        0 <= j,
        s.works.len() <= usize::MAX,
    ensures
        enter_work(s, j).0.round == s.round,
        enter_work(s, j).0.users == s.users,
        enter_work(s, j).0.works == s.works,
        enter_work(s, j).1 is FetchWork || enter_work(s, j).1 is EndRound,
        enter_work(s, j).1 matches ScrapeAction::FetchWork { work } ==> !s.visited.contains(work)
            && enter_work(s, j).0.visited == s.visited.insert(work)
            && enter_work(s, j).0.phase is FetchingWork
            && j <= enter_work(s, j).0.phase->FetchingWork_work_index < s.works.len()
            && s.works[enter_work(s, j).0.phase->FetchingWork_work_index as int] == work,
        enter_work(s, j).1 is EndRound ==> enter_work(s, j).0.visited == s.visited
            && enter_work(s, j).0.phase == Phase::EndingRound
            && enter_work(s, j).1 == (ScrapeAction::EndRound { round: s.round as i32, items: s.visited.len() as usize }),
    decreases s.works.len() - j,
{
    if j < s.works.len() && s.visited.contains(s.works[j]) {
        lemma_enter_work_actions(s, j + 1);
    }
}

/// A user's illustration is exported only the first time its id is seen in
/// a round; either way its id counts as seen afterwards.
pub proof fn lemma_user_illust_exported_once(s: ScraperView, id: u64)
    requires
        s.wf(),
        s.phase is FetchingUserIllust,
    ensures
        (next(s, ScrapeEvent::Fetched { id }).1 == ScrapeAction::Export { id }) <==> !s.visited.contains(id),
        next(s, ScrapeEvent::Fetched { id }).0.visited == s.visited.insert(id),
{
    if s.visited.contains(id) {
        assert(s.visited.insert(id) =~= s.visited);
    }
}

/// A standalone work is fetched only when its id has not been seen in the
/// round, and it counts as seen from then on.
pub proof fn lemma_work_fetched_only_unseen(s: ScraperView, e: ScrapeEvent, work: u64)
    requires
        s.wf(),
        s.can_step(e),
        next(s, e).1 == (ScrapeAction::FetchWork { work }),
    ensures
        !s.visited.contains(work),
        next(s, e).0.visited == s.visited.insert(work),
{
    match s.phase {
        Phase::BeginningRound => lemma_enter_work_actions(s, 0),
        Phase::FetchingUserIllust { user_index } => lemma_enter_work_actions(s, 0),
        Phase::FetchingWork { work_index } => lemma_enter_work_actions(s, work_index + 1),
        Phase::WaitingAfterWork { work_index } => lemma_enter_work_actions(s, work_index + 1),
        _ => {},
    }
}

/// What is exported is the illustration that was just fetched.
pub proof fn lemma_export_follows_fetch(s: ScraperView, e: ScrapeEvent, id: u64)
    requires
        s.wf(),
        s.can_step(e),
        next(s, e).1 == (ScrapeAction::Export { id }),
    ensures
        e == (ScrapeEvent::Fetched { id }),
{
    match s.phase {
        Phase::BeginningRound => lemma_enter_work_actions(s, 0),
        Phase::FetchingUserIllust { user_index } => lemma_enter_work_actions(s, 0),
        Phase::FetchingWork { work_index } => lemma_enter_work_actions(s, work_index + 1),
        Phase::WaitingAfterWork { work_index } => lemma_enter_work_actions(s, work_index + 1),
        _ => {},
    }
}

/// Within a round the round number stays and the set of seen ids only
/// grows; a new round has the next number and starts with nothing seen.
/// The configured users and works never change.
pub proof fn lemma_round_progress(s: ScraperView, e: ScrapeEvent)
    requires
        s.wf(),
        s.can_step(e),
    ensures
        next(s, e).0.users == s.users,
        next(s, e).0.works == s.works,
        next(s, e).1 is BeginRound ==> {
            &&& next(s, e).0.round == s.round + 1
            &&& next(s, e).0.visited == Set::<u64>::empty()
            &&& next(s, e).1 == (ScrapeAction::BeginRound { round: (s.round + 1) as i32 })
        },
        !(next(s, e).1 is BeginRound) ==> {
            &&& next(s, e).0.round == s.round
            &&& s.visited.subset_of(next(s, e).0.visited)
        },
{
    match s.phase {
        Phase::BeginningRound => lemma_enter_work_actions(s, 0),
        Phase::FetchingUserIllust { user_index } => lemma_enter_work_actions(s, 0),
        Phase::FetchingWork { work_index } => lemma_enter_work_actions(s, work_index + 1),
        Phase::WaitingAfterWork { work_index } => lemma_enter_work_actions(s, work_index + 1),
        _ => {},
    }
}

/// A round ends reporting its own number and the number of distinct ids
/// seen in it, and by then every configured standalone work has been seen.
pub proof fn lemma_round_end_report(s: ScraperView, e: ScrapeEvent, round: i32, items: usize)
    requires
        s.wf(),
        s.can_step(e),
        next(s, e).1 == (ScrapeAction::EndRound { round, items }),
        next(s, e).0.visited.len() <= usize::MAX,
    ensures
        round as int == s.round,
        items as int == next(s, e).0.visited.len(),
        forall|k: int| 0 <= k < s.works.len() ==> next(s, e).0.visited.contains(#[trigger] s.works[k]),
{
    lemma_next_preserves_wf(s, e);
    match s.phase {
        Phase::BeginningRound => lemma_enter_work_actions(s, 0),
        Phase::FetchingUserIllust { user_index } => lemma_enter_work_actions(s, 0),
        Phase::FetchingWork { work_index } => lemma_enter_work_actions(s, work_index + 1),
        Phase::WaitingAfterWork { work_index } => lemma_enter_work_actions(s, work_index + 1),
        _ => {},
    }
    let t = next(s, e).0;
    assert forall|k: int| 0 <= k < s.works.len() implies t.visited.contains(#[trigger] s.works[k]) by {
        assert(t.works_seen_through(t.works.len() - 1));
        assert(t.works[k] == s.works[k]);
    }
}

/// A shutdown during a wait stops the loop for good: the next action is
/// `Stop`, and the stopped loop waits for nothing more.
pub proof fn lemma_shutdown_stops(s: ScraperView)
    requires
        s.wf(),
        s.can_step(ScrapeEvent::Shutdown),
    ensures
        next(s, ScrapeEvent::Shutdown).1 == ScrapeAction::Stop,
        next(s, ScrapeEvent::Shutdown).0.phase == Phase::Stopped,
        forall|e: ScrapeEvent| !next(s, ScrapeEvent::Shutdown).0.accepts(e),
{
}

/// Every wait can be interrupted: in each waiting phase (after a user's
/// illustration, after a standalone work, between rounds) the loop takes a
/// shutdown, and that shutdown stops it.
pub proof fn lemma_waits_take_shutdown(s: ScraperView)
    requires
        s.wf(),
        s.phase is WaitingAfterUserIllust || s.phase is WaitingAfterWork || s.phase is EndingRound,
    ensures
        s.can_step(ScrapeEvent::Shutdown),
        next(s, ScrapeEvent::Shutdown).1 == ScrapeAction::Stop,
        next(s, ScrapeEvent::Shutdown).0.phase == Phase::Stopped,
{
}

/// The loop takes every outcome its pending action can have, so it never
/// gets stuck short of stopping: a fetch of a user's illustration may give
/// any illustration, fail, or run out; a fetch of a work may give any
/// illustration or fail; the beginning of a round and an export complete;
/// a wait completes (between rounds only while the next round number fits
/// in an `i32`) or is cut short by a shutdown.
pub proof fn lemma_pending_outcomes_taken(s: ScraperView, id: u64)
    requires
        s.wf(),
    ensures
        s.phase is BeginningRound ==> s.can_step(ScrapeEvent::Proceed),
        s.phase is FetchingUserIllust ==> {
            &&& s.can_step(ScrapeEvent::Fetched { id })
            &&& s.can_step(ScrapeEvent::FetchFailed)
            &&& s.can_step(ScrapeEvent::Exhausted)
        },
        s.phase is FetchingWork ==> s.can_step(ScrapeEvent::Fetched { id }) && s.can_step(ScrapeEvent::FetchFailed),
        s.phase is ExportingUserIllust || s.phase is ExportingWork ==> s.can_step(ScrapeEvent::Proceed),
        s.phase is WaitingAfterUserIllust || s.phase is WaitingAfterWork ==>
            s.can_step(ScrapeEvent::Proceed) && s.can_step(ScrapeEvent::Shutdown),
        s.phase is EndingRound ==> s.can_step(ScrapeEvent::Shutdown)
            && (s.round < i32::MAX ==> s.can_step(ScrapeEvent::Proceed)),
        !(s.phase is Stopped) ==> exists|e: ScrapeEvent| s.can_step(e),
{
    if s.phase is EndingRound {
        assert(s.can_step(ScrapeEvent::Shutdown));
    } else if !(s.phase is Stopped) {
        assert(s.can_step(ScrapeEvent::Proceed) || s.can_step(ScrapeEvent::FetchFailed));
    }
}

/// The state after the first `k` events of `es`, from `s`.
pub open spec fn state_after(s: ScraperView, es: Seq<ScrapeEvent>, k: int) -> ScraperView
    decreases k,
{
    if k <= 0 {
        s
    } else {
        next(state_after(s, es, k - 1), es[k - 1]).0
    }
}

/// The action answering the event at index `k` of `es`, from `s`.
pub open spec fn action_at(s: ScraperView, es: Seq<ScrapeEvent>, k: int) -> ScrapeAction {
    next(state_after(s, es, k), es[k]).1
}

/// `es` is a run from `s` that stays within one round: every event is one
/// the state then takes, and no new round begins.
pub open spec fn within_round(s: ScraperView, es: Seq<ScrapeEvent>) -> bool {
    forall|k: int| #![trigger state_after(s, es, k)]
        0 <= k < es.len() ==> state_after(s, es, k).can_step(es[k]) && !(action_at(s, es, k) is BeginRound)
}

/// The id a step acts on, if any: the work it fetches, or the user's
/// illustration it exports.
pub open spec fn step_claim(t: ScraperView, a: ScrapeAction) -> Option<u64> {
    match a {
        ScrapeAction::FetchWork { work } => Some(work),
        ScrapeAction::Export { id } => if t.phase is FetchingUserIllust { Some(id) } else { None },
        _ => None,
    }
}

/// The id acted on by the step at index `k` of `es`, from `s`.
pub open spec fn claim_at(s: ScraperView, es: Seq<ScrapeEvent>, k: int) -> Option<u64> {
    step_claim(state_after(s, es, k), action_at(s, es, k))
}

pub open spec fn option_set(o: Option<u64>) -> Set<u64> {
    match o {
        Some(x) => set![x],
        None => Set::empty(),
    }
}

/// The ids acted on by the first `k` steps.
pub open spec fn claimed_before(s: ScraperView, es: Seq<ScrapeEvent>, k: int) -> Set<u64>
    decreases k,
{
    if k <= 0 {
        Set::empty()
    } else {
        claimed_before(s, es, k - 1) + option_set(claim_at(s, es, k - 1))
    }
}

/// How many users the first `k` steps started listing.
pub open spec fn starts_before(s: ScraperView, es: Seq<ScrapeEvent>, k: int) -> int
    decreases k,
{
    if k <= 0 {
        0
    } else {
        starts_before(s, es, k - 1) + if action_at(s, es, k - 1) is FetchUserIllusts { 1int } else { 0int }
    }
}

/// Every state of a run within a round keeps the invariant and the
/// configured lists.
proof fn lemma_run_wf(s: ScraperView, es: Seq<ScrapeEvent>, k: int)
    requires
        s.wf(),
        within_round(s, es),
        0 <= k <= es.len(),
    ensures
        state_after(s, es, k).wf(),
        state_after(s, es, k).users == s.users,
        state_after(s, es, k).works == s.works,
    decreases k,
{
    if k > 0 {
        lemma_run_wf(s, es, k - 1);
        let t = state_after(s, es, k - 1);
        assert(t.can_step(es[k - 1]));
        lemma_next_preserves_wf(t, es[k - 1]);
        lemma_round_progress(t, es[k - 1]);
    }
}

/// Within a round a step adds to the seen ids exactly the id it acts on,
/// which was not seen before.
proof fn lemma_step_claim(t: ScraperView, e: ScrapeEvent)
    requires
        t.wf(),
        t.can_step(e),
        !(next(t, e).1 is BeginRound),
    ensures
        next(t, e).0.visited == t.visited + option_set(step_claim(t, next(t, e).1)),
        step_claim(t, next(t, e).1) matches Some(x) ==> !t.visited.contains(x),
{
    let a = next(t, e).1;
    match t.phase {
        Phase::BeginningRound => lemma_enter_work_actions(t, 0),
        Phase::FetchingUserIllust { user_index } => lemma_enter_work_actions(t, 0),
        Phase::FetchingWork { work_index } => lemma_enter_work_actions(t, work_index + 1),
        Phase::WaitingAfterWork { work_index } => lemma_enter_work_actions(t, work_index + 1),
        _ => {},
    }
    assert(next(t, e).0.visited =~= t.visited + option_set(step_claim(t, a)));
}

/// The seen ids after `k` steps are those seen at the start and those the
/// steps acted on.
proof fn lemma_claimed_visited(s: ScraperView, es: Seq<ScrapeEvent>, k: int)
    requires
        s.wf(),
        within_round(s, es),
        0 <= k <= es.len(),
    ensures
        state_after(s, es, k).visited == s.visited + claimed_before(s, es, k),
    decreases k,
{
    if k == 0 {
        assert(s.visited + Set::<u64>::empty() =~= s.visited);
    } else {
        lemma_claimed_visited(s, es, k - 1);
        lemma_run_wf(s, es, k - 1);
        let t = state_after(s, es, k - 1);
        assert(t.can_step(es[k - 1]));
        lemma_step_claim(t, es[k - 1]);
        assert(state_after(s, es, k).visited =~= s.visited + claimed_before(s, es, k));
    }
}

proof fn lemma_claim_in_claimed(s: ScraperView, es: Seq<ScrapeEvent>, j: int, k: int)
    requires
        0 <= j < k,
        claim_at(s, es, j) is Some,
    ensures
        claimed_before(s, es, k).contains(claim_at(s, es, j)->0),
    decreases k,
{
    if j < k - 1 {
        lemma_claim_in_claimed(s, es, j, k - 1);
    }
}

proof fn lemma_claimed_has_witness(s: ScraperView, es: Seq<ScrapeEvent>, k: int, x: u64)
    requires
        claimed_before(s, es, k).contains(x),
    ensures
        exists|j: int| 0 <= j < k && claim_at(s, es, j) == Some(x),
    decreases k,
{
    if k > 0 {
        if claimed_before(s, es, k - 1).contains(x) {
            lemma_claimed_has_witness(s, es, k - 1, x);
        } else {
            assert(claim_at(s, es, k - 1) == Some(x));
        }
    }
}

/// Within a round no id is acted on twice: the ids of the users'
/// illustrations that are exported and of the works that are fetched,
/// taken together, are pairwise distinct.
pub proof fn lemma_round_acts_on_each_id_once(s: ScraperView, es: Seq<ScrapeEvent>, j1: int, j2: int)
    requires
        s.wf(),
        within_round(s, es),
        0 <= j1 < j2 < es.len(),
        claim_at(s, es, j1) is Some,
        claim_at(s, es, j2) is Some,
    ensures
        claim_at(s, es, j1) != claim_at(s, es, j2),
{
    lemma_claim_in_claimed(s, es, j1, j2);
    lemma_claimed_visited(s, es, j2);
    lemma_run_wf(s, es, j2);
    let t = state_after(s, es, j2);
    assert(t.can_step(es[j2]));
    lemma_step_claim(t, es[j2]);
}

/// When a round that began with nothing seen ends, every configured work
/// has been acted on in it: fetched as a work, or exported as a user's
/// illustration. With the law above, each exactly once.
pub proof fn lemma_round_covers_works(s: ScraperView, es: Seq<ScrapeEvent>, k: int, i: int)
    requires
        s.wf(),
        s.phase is BeginningRound,
        within_round(s, es),
        0 <= k < es.len(),
        action_at(s, es, k) is EndRound,
        0 <= i < s.works.len(),
    ensures
        exists|j: int| 0 <= j <= k && claim_at(s, es, j) == Some(s.works[i]),
{
    lemma_run_wf(s, es, k);
    let t = state_after(s, es, k);
    assert(t.can_step(es[k]));
    lemma_next_preserves_wf(t, es[k]);
    lemma_round_progress(t, es[k]);
    lemma_enter_round_end_phase(t, es[k]);
    let u = next(t, es[k]).0;
    assert(u == state_after(s, es, k + 1));
    assert(u.works_seen_through(u.works.len() - 1));
    assert(u.visited.contains(s.works[i]));
    lemma_claimed_visited(s, es, k + 1);
    assert(s.visited + claimed_before(s, es, k + 1) =~= claimed_before(s, es, k + 1));
    lemma_claimed_has_witness(s, es, k + 1, s.works[i]);
}

/// A step that ends the round leaves the loop waiting for the next round.
proof fn lemma_enter_round_end_phase(t: ScraperView, e: ScrapeEvent)
    requires
        t.wf(),
        t.can_step(e),
        next(t, e).1 is EndRound,
    ensures
        next(t, e).0.phase is EndingRound,
{
    match t.phase {
        Phase::BeginningRound => lemma_enter_work_actions(t, 0),
        Phase::FetchingUserIllust { user_index } => lemma_enter_work_actions(t, 0),
        Phase::FetchingWork { work_index } => lemma_enter_work_actions(t, work_index + 1),
        Phase::WaitingAfterWork { work_index } => lemma_enter_work_actions(t, work_index + 1),
        _ => {},
    }
}

/// How many users have been started, as the phase shows it.
pub open spec fn users_started(t: ScraperView, c: int) -> bool {
    match t.phase {
        Phase::BeginningRound => c == 0,
        Phase::FetchingUserIllust { user_index } => c == user_index + 1,
        Phase::ExportingUserIllust { user_index } => c == user_index + 1,
        Phase::WaitingAfterUserIllust { user_index } => c == user_index + 1,
        Phase::Stopped => true,
        _ => c == t.users.len(),
    }
}

proof fn lemma_step_users_started(t: ScraperView, e: ScrapeEvent, c: int)
    requires
        t.wf(),
        t.can_step(e),
        !(next(t, e).1 is BeginRound),
        users_started(t, c),
    ensures
        users_started(next(t, e).0, c + if next(t, e).1 is FetchUserIllusts { 1int } else { 0int }),
        next(t, e).1 matches ScrapeAction::FetchUserIllusts { user } ==> 0 <= c < t.users.len() && user == t.users[c],
{
    let u = next(t, e).0;
    let a = next(t, e).1;
    match t.phase {
        Phase::BeginningRound => {
            lemma_enter_work_actions(t, 0);
            if t.users.len() == 0 {
                assert(!(a is FetchUserIllusts));
                assert(users_started(u, c));
            } else {
                assert(users_started(u, c + 1));
            }
        },
        Phase::FetchingUserIllust { user_index } => {
            lemma_enter_work_actions(t, 0);
            if e is Fetched {
                assert(users_started(u, c));
            } else if user_index + 1 < t.users.len() {
                assert(users_started(u, c + 1));
            } else {
                assert(!(a is FetchUserIllusts));
                assert(users_started(u, c));
            }
        },
        Phase::FetchingWork { work_index } => {
            lemma_enter_work_actions(t, work_index + 1);
            assert(users_started(u, c));
        },
        Phase::WaitingAfterWork { work_index } => {
            lemma_enter_work_actions(t, work_index + 1);
            assert(users_started(u, c));
        },
        _ => {
            assert(users_started(u, c));
        },
    }
}

proof fn lemma_run_users_started(s: ScraperView, es: Seq<ScrapeEvent>, k: int)
    requires
        s.wf(),
        s.phase is BeginningRound,
        within_round(s, es),
        0 <= k <= es.len(),
    ensures
        users_started(state_after(s, es, k), starts_before(s, es, k)),
    decreases k,
{
    if k > 0 {
        lemma_run_users_started(s, es, k - 1);
        lemma_run_wf(s, es, k - 1);
        let t = state_after(s, es, k - 1);
        assert(t.can_step(es[k - 1]));
        lemma_step_users_started(t, es[k - 1], starts_before(s, es, k - 1));
        lemma_round_progress(t, es[k - 1]);
    }
}

/// A round walks the configured users in order, each once: the n-th
/// listing it starts is that of the n-th user, and when the round ends
/// every user has been started.
pub proof fn lemma_round_walks_users_in_order(s: ScraperView, es: Seq<ScrapeEvent>, k: int)
    requires
        s.wf(),
        s.phase is BeginningRound,
        within_round(s, es),
        0 <= k < es.len(),
    ensures
        action_at(s, es, k) matches ScrapeAction::FetchUserIllusts { user } ==>
            0 <= starts_before(s, es, k) < s.users.len() && user == s.users[starts_before(s, es, k)],
        action_at(s, es, k) is EndRound ==> starts_before(s, es, k) == s.users.len(),
{
    lemma_run_users_started(s, es, k);
    lemma_run_users_started(s, es, k + 1);
    lemma_run_wf(s, es, k);
    let t = state_after(s, es, k);
    assert(t.can_step(es[k]));
    lemma_step_users_started(t, es[k], starts_before(s, es, k));
    if action_at(s, es, k) is EndRound {
        lemma_enter_round_end_phase(t, es[k]);
        lemma_round_progress(t, es[k]);
        assert(state_after(s, es, k + 1) == next(t, es[k]).0);
    }
}

/// How far the walk through the standalone works has come: before the
/// works, at a work's index, past the last work, or stopped.
pub open spec fn work_position(t: ScraperView) -> int {
    match t.phase {
        Phase::FetchingWork { work_index } => work_index as int,
        Phase::ExportingWork { work_index } => work_index as int,
        Phase::WaitingAfterWork { work_index } => work_index as int,
        Phase::EndingRound => t.works.len() as int,
        Phase::Stopped => t.works.len() + 1int,
        _ => -1,
    }
}

proof fn lemma_step_work_position(t: ScraperView, e: ScrapeEvent)
    requires
        t.wf(),
        t.can_step(e),
        !(next(t, e).1 is BeginRound),
    ensures
        work_position(t) <= work_position(next(t, e).0),
        next(t, e).1 matches ScrapeAction::FetchWork { work } ==> {
            &&& work_position(t) < work_position(next(t, e).0) < t.works.len()
            &&& t.works[work_position(next(t, e).0)] == work
        },
{
    match t.phase {
        Phase::BeginningRound => lemma_enter_work_actions(t, 0),
        Phase::FetchingUserIllust { user_index } => lemma_enter_work_actions(t, 0),
        Phase::FetchingWork { work_index } => lemma_enter_work_actions(t, work_index + 1),
        Phase::WaitingAfterWork { work_index } => lemma_enter_work_actions(t, work_index + 1),
        _ => {},
    }
}

proof fn lemma_run_work_position(s: ScraperView, es: Seq<ScrapeEvent>, j: int, k: int)
    requires
        s.wf(),
        within_round(s, es),
        0 <= j <= k <= es.len(),
    ensures
        work_position(state_after(s, es, j)) <= work_position(state_after(s, es, k)),
    decreases k - j,
{
    if j < k {
        lemma_run_work_position(s, es, j, k - 1);
        lemma_run_wf(s, es, k - 1);
        let t = state_after(s, es, k - 1);
        assert(t.can_step(es[k - 1]));
        lemma_step_work_position(t, es[k - 1]);
    }
}

/// Within a round the standalone works are fetched in the order they are
/// configured: each fetch is of the work at a position past that of every
/// earlier fetch, so a work listed twice is fetched at its first place only.
pub proof fn lemma_round_fetches_works_in_order(s: ScraperView, es: Seq<ScrapeEvent>, j1: int, j2: int)
    requires
        s.wf(),
        within_round(s, es),
        0 <= j1 < j2 < es.len(),
        action_at(s, es, j1) is FetchWork,
        action_at(s, es, j2) is FetchWork,
    ensures
        0 <= work_position(state_after(s, es, j1 + 1)) < work_position(state_after(s, es, j2 + 1)) < s.works.len(),
        s.works[work_position(state_after(s, es, j1 + 1))] == action_at(s, es, j1)->work,
        s.works[work_position(state_after(s, es, j2 + 1))] == action_at(s, es, j2)->work,
{
    lemma_run_wf(s, es, j1);
    lemma_run_wf(s, es, j2);
    let t1 = state_after(s, es, j1);
    let t2 = state_after(s, es, j2);
    assert(t1.can_step(es[j1]));
    assert(t2.can_step(es[j2]));
    lemma_step_work_position(t1, es[j1]);
    lemma_step_work_position(t2, es[j2]);
    lemma_run_work_position(s, es, j1 + 1, j2);
    lemma_run_wf(s, es, j1 + 1);
    assert(work_position(t1) >= -1);
}

} // verus!
