//! The automation engine: one poll of the gameflow phase, and in champion
//! select one cycle of the pick/ban protocol. The caller performs the I/O
//! (fetching the session, grid statuses, sending the returned requests).
use vstd::prelude::*;
use vstd::string::*;
use crate::draft::{
    ActionKind, Commit, CommitStage, CycleView, LocalActions, commit_step,
    commit_step_spec, stage_rank,
};
use crate::phase::{GameflowPhase, PhasePlan, plan_matches, plan_phase};
use crate::selection::{Choice, Selection};
use crate::text::same_text;

verus! {

/// `c` can be committed: it is not a skip and nobody else picked or banned it.
pub open spec fn usable(c: Choice, unavailable: Seq<u32>) -> bool {
    c.name@.len() != 0 && !unavailable.contains(c.champion_id)
}

/// Champion to ban, from the ban preference.
pub open spec fn ban_target_of(ban: Option<Choice>, unavailable: Seq<u32>) -> Option<u32> {
    match ban {
        Some(c) => if usable(c, unavailable) {
            Some(c.champion_id)
        } else {
            None
        },
        None => None,
    }
}

/// Champion to pick, looking from position `i` on: skips are passed over; the
/// first named entry is the candidate, and where it is taken by someone else
/// there is no pick (no substitution by a later entry).
pub open spec fn pick_target_from(picks: Seq<Choice>, unavailable: Seq<u32>, i: int) -> Option<
    u32,
>
    decreases picks.len() - i,
{
    if i < 0 || i >= picks.len() {
        None
    } else if picks[i].name@.len() == 0 {
        pick_target_from(picks, unavailable, i + 1)
    } else if unavailable.contains(picks[i].champion_id) {
        None
    } else {
        Some(picks[i].champion_id)
    }
}

/// Ids of the non-skip entries of `picks`, in order.
pub open spec fn named_ids(picks: Seq<Choice>) -> Seq<u32>
    decreases picks.len(),
{
    if picks.len() == 0 {
        Seq::empty()
    } else if picks.last().name@.len() != 0 {
        named_ids(picks.drop_last()).push(picks.last().champion_id)
    } else {
        named_ids(picks.drop_last())
    }
}

/// Champions whose grid status a cycle needs: the ban, then the picks,
/// skips left out.
pub open spec fn grid_ids(sel: Selection) -> Seq<u32> {
    let b = match sel.ban_view() {
        Some(c) => if c.name@.len() != 0 {
            seq![c.champion_id]
        } else {
            Seq::empty()
        },
        None => Seq::empty(),
    };
    b + named_ids(sel.picks_view())
}

/// The cycle view for a selection, given the champions reported taken.
pub open spec fn cycle_view_of(
    sel: Selection,
    unavailable: Seq<u32>,
    actions: LocalActions,
    planning: bool,
) -> CycleView {
    CycleView {
        ban_target: ban_target_of(sel.ban_view(), unavailable),
        pick_target: pick_target_from(sel.picks_view(), unavailable, 0),
        actions,
        planning,
    }
}

fn contains_id(ids: &Vec<u32>, id: u32) -> (r: bool)
    ensures
        r == ids@.contains(id),
{
    let mut i: usize = 0;
    while i < ids.len()
        invariant
            i <= ids@.len(),
            forall|k: int| 0 <= k < i ==> ids@[k] != id,
        decreases ids@.len() - i,
    {
        if ids[i] == id {
            assert(ids@[i as int] == id);
            return true;
        }
        i = i + 1;
    }
    false
}

fn is_usable(c: &Choice, unavailable: &Vec<u32>) -> (r: bool)
    ensures
        r == usable(*c, unavailable@),
{
    !c.is_skip() && !contains_id(unavailable, c.champion_id)
}

/// The champion to ban this cycle, if any.
pub fn ban_target(sel: &Selection, unavailable: &Vec<u32>) -> (r: Option<u32>)
    ensures
        r == ban_target_of(sel.ban_view(), unavailable@),
{
    match sel.ban() {
        Some(c) => if is_usable(c, unavailable) {
            Some(c.champion_id)
        } else {
            None
        },
        None => None,
    }
}

/// The champion to pick this cycle: the first queued one that is not a
/// skip, unless someone else has taken it.
pub fn pick_target(sel: &Selection, unavailable: &Vec<u32>) -> (r: Option<u32>)
    ensures
        r == pick_target_from(sel.picks_view(), unavailable@, 0),
{
    let picks = sel.picks();
    let mut i: usize = 0;
    while i < picks.len()
        invariant
            picks@ == sel.picks_view(),
            i <= picks@.len(),
            pick_target_from(picks@, unavailable@, 0) == pick_target_from(picks@, unavailable@, i as int),
        decreases picks@.len() - i,
    {
        if !picks[i].is_skip() {
            if contains_id(unavailable, picks[i].champion_id) {
                return None;
            }
            return Some(picks[i].champion_id);
        }
        i = i + 1;
    }
    None
}

/// Champions whose grid status the caller must fetch before a cycle.
pub fn grid_queries(sel: &Selection) -> (r: Vec<u32>)
    ensures
        r@ == grid_ids(*sel),
{
    let mut r: Vec<u32> = Vec::new();
    match sel.ban() {
        Some(c) => if !c.is_skip() {
            r.push(c.champion_id);
        },
        None => {},
    }
    let ghost head = r@;
    let picks = sel.picks();
    let mut i: usize = 0;
    while i < picks.len()
        invariant
            picks@ == sel.picks_view(),
            i <= picks@.len(),
            r@ == head + named_ids(picks@.take(i as int)),
        decreases picks@.len() - i,
    {
        proof {
            assert(picks@.take(i as int + 1).drop_last() =~= picks@.take(i as int));
        }
        if !picks[i].is_skip() {
            r.push(picks[i].champion_id);
            proof {
                assert(head + named_ids(picks@.take(i as int)).push(picks@[i as int].champion_id)
                    =~= (head + named_ids(picks@.take(i as int))).push(picks@[i as int].champion_id));
            }
        }
        i = i + 1;
    }
    proof {
        assert(picks@.take(picks@.len() as int) =~= picks@);
    }
    r
}

/// Whether the session timer reports its planning phase.
pub fn is_planning(timer_phase: &str) -> (r: bool)
    ensures
        r == (timer_phase@ == "PLANNING"@),
{
    same_text(timer_phase, "PLANNING")
}

/// The outcome of one champion-select cycle.
#[derive(Clone, Debug)]
pub struct DraftPlan {
    /// Status text to publish.
    pub status: String,
    /// The ban or pick to send, if any.
    pub commit: Option<Commit>,
    /// Every queued entry is a skip: clear the selection and turn auto
    /// pick/ban off.
    pub opt_out: bool,
}

/// Status text of the champion-select cycle.
pub open spec fn draft_status(auto_pick_ban: bool) -> Seq<char> {
    if auto_pick_ban {
        "Champion Selection with Auto-pick/ban ON"@
    } else {
        "Champion Selection"@
    }
}

/// The engine's own state: whether the current ready check was accepted,
/// the champion-select session it is tracking and how far it has committed
/// in it.
pub struct Engine {
    accepted: bool,
    stage: CommitStage,
    session: Option<i64>,
}

impl Engine {
    /// The commit stage of the current session.
    pub closed spec fn stage_view(&self) -> CommitStage {
        self.stage
    }

    /// Whether the current ready check has been accepted.
    pub closed spec fn accepted_view(&self) -> bool {
        self.accepted
    }

    /// Identifier of the session the stage belongs to, if any.
    pub closed spec fn session_view(&self) -> Option<i64> {
        self.session
    }

    /// The stage a cycle of session `session_id` starts from: the recorded
    /// one for the same session, nothing committed for another.
    pub open spec fn start_stage(&self, session_id: i64) -> CommitStage {
        if self.session_view() == Some(session_id) {
            self.stage_view()
        } else {
            CommitStage::Idle
        }
    }

    /// An engine that has committed nothing.
    pub fn new() -> (r: Engine)
        ensures
            r.stage_view() is Idle,
            r.session_view() is None,
            !r.accepted_view(),
    {
        Engine { accepted: false, stage: CommitStage::Idle, session: None }
    }

    /// The commit stage of the current session.
    pub fn stage(&self) -> (r: CommitStage)
        ensures
            r == self.stage_view(),
    {
        self.stage
    }

    /// Whether the current ready check has been accepted.
    pub fn accepted(&self) -> (r: bool)
        ensures
            r == self.accepted_view(),
    {
        self.accepted
    }

    /// One poll: the plan for `phase`. A ready check is accepted once; the
    /// record of it lasts while the phase stays ready check. Leaving champion
    /// select ends the session, so the commit record is reset.
    pub fn observe_phase(&mut self, phase: &GameflowPhase, auto_accept: bool) -> (r: PhasePlan)
        ensures
            plan_matches(r, *phase, auto_accept, old(self).accepted_view()),
            r.accept == (phase is ReadyCheck && auto_accept && !old(self).accepted_view()),
            final(self).accepted_view() == (phase is ReadyCheck && (old(self).accepted_view()
                || r.accept)),
            phase is ChampSelect ==> final(self).stage_view() == old(self).stage_view()
                && final(self).session_view() == old(self).session_view(),
            !(phase is ChampSelect) ==> final(self).stage_view() is Idle,
            !(phase is ChampSelect) ==> final(self).session_view() is None,
    {
        let plan = plan_phase(phase, auto_accept, self.accepted);
        let ready = match phase {
            GameflowPhase::ReadyCheck => true,
            _ => false,
        };
        self.accepted = ready && (self.accepted || plan.accept);
        if plan.reset_session {
            self.stage = CommitStage::Idle;
            self.session = None;
        }
        plan
    }

    /// One champion-select cycle of session `session_id`. `actions` are the
    /// local player's actions of the freshly fetched session, `timer_phase`
    /// its timer phase, and `unavailable` the champions among
    /// `grid_queries(sel)` whose grid status reports them picked by another
    /// player or banned. A new session identifier starts a fresh record.
    pub fn champ_select_cycle(
        &mut self,
        auto_pick_ban: bool,
        sel: &Selection,
        session_id: i64,
        actions: LocalActions,
        timer_phase: &str,
        unavailable: &Vec<u32>,
    ) -> (r: DraftPlan)
        ensures
            r.status@ == draft_status(auto_pick_ban),
            final(self).session_view() == Some(session_id),
            !auto_pick_ban ==> r.commit is None && !r.opt_out && final(self).stage_view()
                == old(self).start_stage(session_id),
            auto_pick_ban ==> ({
                let step = commit_step_spec(
                    old(self).start_stage(session_id),
                    cycle_view_of(*sel, unavailable@, actions, timer_phase@ == "PLANNING"@),
                );
                &&& r.commit == step.commit
                &&& final(self).stage_view() == step.stage
                &&& r.opt_out == sel.fully_skipped_spec()
            }),
    {
        let same = match self.session {
            Some(id) => id == session_id,
            None => false,
        };
        if !same {
            self.stage = CommitStage::Idle;
            self.session = Some(session_id);
        }
        if !auto_pick_ban {
            return DraftPlan {
                status: String::from_str("Champion Selection"),
                commit: None,
                opt_out: false,
            };
        }
        let view = CycleView {
            ban_target: ban_target(sel, unavailable),
            pick_target: pick_target(sel, unavailable),
            actions,
            planning: is_planning(timer_phase),
        };
        let step = commit_step(self.stage, view);
        self.stage = step.stage;
        DraftPlan {
            status: String::from_str("Champion Selection with Auto-pick/ban ON"),
            commit: step.commit,
            opt_out: sel.is_fully_skipped(),
        }
    }
}

/// Runs consecutive polls of one ready check, each with the auto-accept
/// toggle as it stood then, from a record of no accept; yields whether the
/// ready check ends up accepted and the number of accept requests.
pub open spec fn ready_check_run(toggles: Seq<bool>) -> (bool, nat)
    decreases toggles.len(),
{
    if toggles.len() == 0 {
        (false, 0)
    } else {
        let (accepted, sent) = ready_check_run(toggles.drop_last());
        let accept = toggles.last() && !accepted;
        (accepted || accept, sent + if accept {
            1nat
        } else {
            0nat
        })
    }
}

/// However many polls observe one ready check, and however the toggle
/// changes between them, at most one accept request is sent, and one is sent
/// exactly when the toggle was on at some poll.
pub proof fn lemma_one_accept_per_ready_check(toggles: Seq<bool>)
    ensures
        ready_check_run(toggles).1 <= 1,
        ready_check_run(toggles).1 == 1 <==> ready_check_run(toggles).0,
        ready_check_run(toggles).0 <==> exists|i: int| 0 <= i < toggles.len() && #[trigger] toggles[i],
    decreases toggles.len(),
{
    if toggles.len() > 0 {
        let t = toggles.drop_last();
        lemma_one_accept_per_ready_check(t);
        if ready_check_run(t).0 {
            let i = choose|i: int| 0 <= i < t.len() && #[trigger] t[i];
            assert(toggles[i]);
        }
        if toggles.last() {
            assert(toggles[toggles.len() - 1]);
        }
        assert forall|i: int| 0 <= i < toggles.len() && #[trigger] toggles[i] implies ready_check_run(
            toggles,
        ).0 by {
            if i < toggles.len() - 1 {
                assert(t[i]);
            }
        }
    }
}

/// Runs the commit decision over the cycles of one session, from `stage`;
/// yields the final stage and the numbers of ban and pick commits.
pub open spec fn run_session(stage: CommitStage, cycles: Seq<CycleView>) -> (CommitStage, nat, nat)
    decreases cycles.len(),
{
    if cycles.len() == 0 {
        (stage, 0, 0)
    } else {
        let (s, bans, picks) = run_session(stage, cycles.drop_last());
        let step = commit_step_spec(s, cycles.last());
        let b: nat = if step.commit is Some && step.commit->0.kind == ActionKind::Ban {
            1
        } else {
            0
        };
        let p: nat = if step.commit is Some && step.commit->0.kind == ActionKind::Pick {
            1
        } else {
            0
        };
        (step.stage, bans + b, picks + p)
    }
}

/// Within one session, however many cycles observe eligible conditions, the
/// ban is committed at most once and the pick at most once.
pub proof fn lemma_one_commit_per_kind(cycles: Seq<CycleView>)
    ensures
        run_session(CommitStage::Idle, cycles).1 <= 1,
        run_session(CommitStage::Idle, cycles).2 <= 1,
{
    lemma_commits_bounded_by_stage(cycles);
}

proof fn lemma_commits_bounded_by_stage(cycles: Seq<CycleView>)
    ensures
        ({
            let (s, bans, picks) = run_session(CommitStage::Idle, cycles);
            &&& bans <= (if stage_rank(s) >= 1 {
                1nat
            } else {
                0nat
            })
            &&& picks <= (if s is PickCommitted {
                1nat
            } else {
                0nat
            })
        }),
    decreases cycles.len(),
{
    if cycles.len() > 0 {
        lemma_commits_bounded_by_stage(cycles.drop_last());
    }
}

/// A pick is committed only when the ban action reports completed and is no
/// longer in progress, whatever the states of the actions.
pub proof fn lemma_pick_after_completed_ban(stage: CommitStage, v: CycleView)
    ensures
        ({
            let step = commit_step_spec(stage, v);
            step.commit is Some && step.commit->0.kind == ActionKind::Pick ==> v.actions.ban.completed
                && !v.actions.ban.in_progress
        }),
{
}

/// After the operator clears the selection, no later cycle commits anything.
pub proof fn lemma_cleared_selection_commits_nothing(
    sel: Selection,
    stage: CommitStage,
    unavailable: Seq<u32>,
    actions: LocalActions,
    planning: bool,
)
    requires
        sel.picks_view().len() == 0,
        sel.ban_view() is None,
    ensures
        commit_step_spec(stage, cycle_view_of(sel, unavailable, actions, planning)).commit is None,
        grid_ids(sel).len() == 0,
{
    assert(grid_ids(sel) =~= Seq::<u32>::empty());
}

} // verus!
