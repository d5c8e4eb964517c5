//! Champion-select decisions: the local player's ban and pick actions, the
//! champions to commit, and the per-session commit record that keeps every
//! kind of action to one commit per session.
use vstd::prelude::*;

verus! {

/// Kind of a champion-select action.
#[derive(Clone, Copy, PartialEq, Eq, Structural, Debug)]
pub enum ActionKind {
    Pick,
    Ban,
    Other,
}

/// One entry of the session's action queues.
#[derive(Clone, Copy, PartialEq, Eq, Structural, Debug)]
pub struct Action {
    pub id: i64,
    pub actor_cell_id: i64,
    pub kind: ActionKind,
    pub in_progress: bool,
    pub completed: bool,
}

/// State of one of the local player's actions.
#[derive(Clone, Copy, PartialEq, Eq, Structural, Debug)]
pub struct ActionState {
    pub id: i64,
    pub in_progress: bool,
    pub completed: bool,
}

/// The local player's ban action (first owned action) and pick action
/// (second owned action).
#[derive(Clone, Copy, PartialEq, Eq, Structural, Debug)]
pub struct LocalActions {
    pub ban: ActionState,
    pub pick: ActionState,
}

/// The action queues flattened in order.
pub open spec fn flat(qs: Seq<Vec<Action>>) -> Seq<Action>
    decreases qs.len(),
{
    if qs.len() == 0 {
        Seq::empty()
    } else {
        flat(qs.drop_last()) + qs.last()@
    }
}

/// The actions of `s` owned by seat `cell`, in order.
pub open spec fn owned_by(s: Seq<Action>, cell: i64) -> Seq<Action>
    decreases s.len(),
{
    if s.len() == 0 {
        Seq::empty()
    } else if s.last().actor_cell_id == cell {
        owned_by(s.drop_last(), cell).push(s.last())
    } else {
        owned_by(s.drop_last(), cell)
    }
}

/// The sentinel used for a missing action.
pub open spec fn no_action() -> ActionState {
    ActionState { id: 0, in_progress: false, completed: false }
}

/// The state of entry `i` of `s`, or the sentinel where there is none.
pub open spec fn state_at(s: Seq<Action>, i: int) -> ActionState {
    if 0 <= i < s.len() {
        ActionState { id: s[i].id, in_progress: s[i].in_progress, completed: s[i].completed }
    } else {
        no_action()
    }
}

/// The local player's two actions in the queues `qs`.
pub open spec fn local_actions_of(qs: Seq<Vec<Action>>, cell: i64) -> LocalActions {
    let owned = owned_by(flat(qs), cell);
    LocalActions { ban: state_at(owned, 0), pick: state_at(owned, 1) }
}

/// Finds the local player's ban and pick actions: the first two actions of
/// the flattened queues owned by seat `local_cell`, a sentinel standing for
/// each that is missing.
pub fn local_actions(queues: &Vec<Vec<Action>>, local_cell: i64) -> (r: LocalActions)
    ensures
        r == local_actions_of(queues@, local_cell),
{
    let mut owned: Vec<Action> = Vec::new();
    let mut i: usize = 0;
    while i < queues.len()
        invariant
            i <= queues@.len(),
            owned@ == owned_by(flat(queues@.take(i as int)), local_cell),
        decreases queues@.len() - i,
    {
        let q = &queues[i];
        let mut j: usize = 0;
        while j < q.len()
            invariant
                i < queues@.len(),
                *q == queues@[i as int],
                j <= q@.len(),
                owned@ == owned_by(flat(queues@.take(i as int)) + q@.take(j as int), local_cell),
            decreases q@.len() - j,
        {
            let a = q[j];
            proof {
                let pre = flat(queues@.take(i as int));
                let cur = pre + q@.take(j as int);
                assert(pre + q@.take(j as int + 1) =~= cur.push(a));
                assert(cur.push(a).drop_last() =~= cur);
                assert(cur.push(a).last() == a);
            }
            if a.actor_cell_id == local_cell {
                owned.push(a);
            }
            j = j + 1;
        }
        proof {
            assert(queues@.take(i as int + 1).drop_last() =~= queues@.take(i as int));
            assert(q@.take(q@.len() as int) =~= q@);
        }
        i = i + 1;
    }
    proof {
        assert(queues@.take(queues@.len() as int) =~= queues@);
    }
    let ban = if owned.len() > 0 {
        ActionState { id: owned[0].id, in_progress: owned[0].in_progress, completed: owned[0].completed }
    } else {
        ActionState { id: 0, in_progress: false, completed: false }
    };
    let pick = if owned.len() > 1 {
        ActionState { id: owned[1].id, in_progress: owned[1].in_progress, completed: owned[1].completed }
    } else {
        ActionState { id: 0, in_progress: false, completed: false }
    };
    LocalActions { ban, pick }
}

/// How far the engine has committed in the current champion-select session.
/// It only moves forward within a session and is reset between sessions.
#[derive(Clone, Copy, PartialEq, Eq, Structural, Debug)]
pub enum CommitStage {
    /// Nothing committed yet.
    Idle,
    /// The ban has been committed.
    BanCommitted,
    /// The pick has been committed.
    PickCommitted,
}

/// Position of a stage in the forward order.
pub open spec fn stage_rank(s: CommitStage) -> nat {
    match s {
        CommitStage::Idle => 0,
        CommitStage::BanCommitted => 1,
        CommitStage::PickCommitted => 2,
    }
}

/// A ban or pick to lock in: a PATCH of action `action_id` with `champion_id`.
#[derive(Clone, Copy, PartialEq, Eq, Structural, Debug)]
pub struct Commit {
    pub kind: ActionKind,
    pub action_id: i64,
    pub champion_id: u32,
    /// Seconds to pause after the request, so as not to race the client.
    pub pause_secs: u64,
}

/// What one champion-select cycle observes, reduced to what the commit
/// decision reads.
#[derive(Clone, Copy, PartialEq, Eq, Structural, Debug)]
pub struct CycleView {
    /// Champion to ban: set, not a skip, and not picked or banned by others.
    pub ban_target: Option<u32>,
    /// Champion to pick: the first queued one that is not a skip, provided
    /// it is not picked or banned by others.
    pub pick_target: Option<u32>,
    pub actions: LocalActions,
    /// Whether the session timer is in its planning phase.
    pub planning: bool,
}

/// Outcome of one commit decision.
#[derive(Clone, Copy, PartialEq, Eq, Structural, Debug)]
pub struct CommitStep {
    pub stage: CommitStage,
    pub commit: Option<Commit>,
}

/// The ban may be committed in this cycle.
pub open spec fn ban_eligible(stage: CommitStage, v: CycleView) -> bool {
    &&& stage is Idle
    &&& v.ban_target is Some
    &&& v.actions.ban.in_progress
    &&& !v.actions.ban.completed
    &&& !v.planning
}

/// The pick may be committed in this cycle.
pub open spec fn pick_eligible(stage: CommitStage, v: CycleView) -> bool {
    &&& !(stage is PickCommitted)
    &&& v.pick_target is Some
    &&& v.actions.pick.in_progress
    &&& !v.actions.pick.completed
    &&& !v.actions.ban.in_progress
    &&& v.actions.ban.completed
    &&& !v.planning
}

/// The commit decision of one cycle: the ban is evaluated first, then the pick.
pub open spec fn commit_step_spec(stage: CommitStage, v: CycleView) -> CommitStep {
    if ban_eligible(stage, v) {
        CommitStep {
            stage: CommitStage::BanCommitted,
            commit: Some(
                Commit {
                    kind: ActionKind::Ban,
                    action_id: v.actions.ban.id,
                    champion_id: v.ban_target->0,
                    pause_secs: 10,
                },
            ),
        }
    } else if pick_eligible(stage, v) {
        CommitStep {
            stage: CommitStage::PickCommitted,
            commit: Some(
                Commit {
                    kind: ActionKind::Pick,
                    action_id: v.actions.pick.id,
                    champion_id: v.pick_target->0,
                    pause_secs: 1,
                },
            ),
        }
    } else {
        CommitStep { stage, commit: None }
    }
}

/// Decides whether this cycle commits the ban, the pick, or nothing.
pub fn commit_step(stage: CommitStage, v: CycleView) -> (r: CommitStep)
    ensures
        r == commit_step_spec(stage, v),
        stage_rank(stage) <= stage_rank(r.stage),
        r.commit is Some ==> stage_rank(stage) < stage_rank(r.stage),
{
    let idle = match stage {
        CommitStage::Idle => true,
        _ => false,
    };
    let picked = match stage {
        CommitStage::PickCommitted => true,
        _ => false,
    };
    let a = v.actions;
    if idle && v.ban_target.is_some() && a.ban.in_progress && !a.ban.completed && !v.planning {
        let champion_id = v.ban_target.unwrap();
        CommitStep {
            stage: CommitStage::BanCommitted,
            commit: Some(Commit { kind: ActionKind::Ban, action_id: a.ban.id, champion_id, pause_secs: 10 }),
        }
    } else if !picked && v.pick_target.is_some() && a.pick.in_progress && !a.pick.completed
        && !a.ban.in_progress && a.ban.completed && !v.planning {
        let champion_id = v.pick_target.unwrap();
        CommitStep {
            stage: CommitStage::PickCommitted,
            commit: Some(Commit { kind: ActionKind::Pick, action_id: a.pick.id, champion_id, pause_secs: 1 }),
        }
    } else {
        CommitStep { stage, commit: None }
    }
}

/// One roster entry of the local team.
#[derive(Clone, Debug)]
pub struct TeamMember {
    pub cell_id: i64,
    pub assigned_position: String,
    pub spell1_id: u32,
    pub spell2_id: u32,
}

/// Position of the first roster entry of seat `cell`, from position `i` on.
pub open spec fn member_index_from(team: Seq<TeamMember>, cell: i64, i: int) -> Option<usize>
    decreases team.len() - i,
{
    if i < 0 || i >= team.len() {
        None
    } else if team[i].cell_id == cell {
        Some(i as usize)
    } else {
        member_index_from(team, cell, i + 1)
    }
}

/// Finds the local player's roster entry.
pub fn local_member(team: &Vec<TeamMember>, local_cell: i64) -> (r: Option<usize>)
    ensures
        r == member_index_from(team@, local_cell, 0),
        r is Some ==> r->0 < team@.len() && team@[r->0 as int].cell_id == local_cell,
{
    let mut i: usize = 0;
    while i < team.len()
        invariant
            i <= team@.len(),
            member_index_from(team@, local_cell, 0) == member_index_from(team@, local_cell, i as int),
        decreases team@.len() - i,
    {
        if team[i].cell_id == local_cell {
            return Some(i);
        }
        i = i + 1;
    }
    None
}

} // verus!
