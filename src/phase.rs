//! Classification of the client's gameflow phase and the per-phase plan:
//! status text, side effects and the wait before the next poll.
use vstd::prelude::*;
use vstd::string::*;
use crate::text::same_text;

verus! {

/// Top-level state of a match session as reported by the client.
#[derive(Clone, Debug)]
pub enum GameflowPhase {
    /// The client reports no session (`"None"`, or no phase at all).
    Idle,
    Matchmaking,
    Lobby,
    ReadyCheck,
    ChampSelect,
    InProgress,
    WaitingForStats,
    PreEndOfGame,
    EndOfGame,
    /// A phase name this engine does not know.
    Unimplemented(String),
}

/// The name under which the client reports each phase.
pub open spec fn phase_name(p: GameflowPhase) -> Seq<char> {
    match p {
        GameflowPhase::Idle => "None"@,
        GameflowPhase::Matchmaking => "Matchmaking"@,
        GameflowPhase::Lobby => "Lobby"@,
        GameflowPhase::ReadyCheck => "ReadyCheck"@,
        GameflowPhase::ChampSelect => "ChampSelect"@,
        GameflowPhase::InProgress => "InProgress"@,
        GameflowPhase::WaitingForStats => "WaitingForStats"@,
        GameflowPhase::PreEndOfGame => "PreEndOfGame"@,
        GameflowPhase::EndOfGame => "EndOfGame"@,
        GameflowPhase::Unimplemented(n) => n@,
    }
}

/// `true` when `s` is the name of one of the known phases.
pub open spec fn is_known_phase_name(s: Seq<char>) -> bool {
    s == "None"@ || s == "Matchmaking"@ || s == "Lobby"@ || s == "ReadyCheck"@ || s
        == "ChampSelect"@ || s == "InProgress"@ || s == "WaitingForStats"@ || s
        == "PreEndOfGame"@ || s == "EndOfGame"@
}

/// Classifies the `phase` field of the gameflow session resource; an absent
/// field counts as no session.
pub fn classify_phase(name: Option<&str>) -> (r: GameflowPhase)
    ensures
        name is None ==> r is Idle,
        name is Some ==> phase_name(r) == name->0@,
        name is Some ==> (r is Unimplemented <==> !is_known_phase_name(name->0@)),
{
    match name {
        None => GameflowPhase::Idle,
        Some(s) => {
            if same_text(s, "None") {
                GameflowPhase::Idle
            } else if same_text(s, "Matchmaking") {
                GameflowPhase::Matchmaking
            } else if same_text(s, "Lobby") {
                GameflowPhase::Lobby
            } else if same_text(s, "ReadyCheck") {
                GameflowPhase::ReadyCheck
            } else if same_text(s, "ChampSelect") {
                GameflowPhase::ChampSelect
            } else if same_text(s, "InProgress") {
                GameflowPhase::InProgress
            } else if same_text(s, "WaitingForStats") {
                GameflowPhase::WaitingForStats
            } else if same_text(s, "PreEndOfGame") {
                GameflowPhase::PreEndOfGame
            } else if same_text(s, "EndOfGame") {
                GameflowPhase::EndOfGame
            } else {
                GameflowPhase::Unimplemented(String::from_str(s))
            }
        },
    }
}

/// Status text published for a phase; `None` for champion select, whose
/// status comes from the champion-select cycle.
pub open spec fn phase_status(p: GameflowPhase) -> Option<Seq<char>> {
    match p {
        GameflowPhase::Idle => Some("Idling..."@),
        GameflowPhase::Matchmaking => Some("Looking for a match"@),
        GameflowPhase::Lobby => Some("In Lobby"@),
        GameflowPhase::ReadyCheck => Some("Match Found"@),
        GameflowPhase::ChampSelect => None,
        GameflowPhase::InProgress => Some("Game in progress..."@),
        GameflowPhase::WaitingForStats => Some("Waiting for Stats"@),
        GameflowPhase::PreEndOfGame => Some("Game in progress..."@),
        GameflowPhase::EndOfGame => Some("Game Ending..."@),
        GameflowPhase::Unimplemented(n) => Some("Unimplemented Phase: "@ + n@),
    }
}

/// Seconds to wait before the next poll in each phase.
pub open spec fn phase_wait(p: GameflowPhase) -> u64 {
    match p {
        GameflowPhase::InProgress => 20,
        GameflowPhase::WaitingForStats => 2,
        GameflowPhase::PreEndOfGame => 10,
        GameflowPhase::EndOfGame => 5,
        GameflowPhase::Unimplemented(_) => 10,
        _ => 0,
    }
}

/// Phases on entering which the published role is cleared.
pub open spec fn phase_clears_role(p: GameflowPhase) -> bool {
    p is Matchmaking || p is Lobby || p is EndOfGame || p is Unimplemented
}

/// The view of an optional string.
pub open spec fn opt_text(o: Option<String>) -> Option<Seq<char>> {
    match o {
        Some(s) => Some(s@),
        None => None,
    }
}

/// What one poll in a given phase does.
#[derive(Clone, Debug)]
pub struct PhasePlan {
    /// Final status text; `None` in champion select, which publishes its own.
    pub status: Option<String>,
    /// Status shown while the match is being accepted.
    pub accepting_status: Option<String>,
    /// Whether to accept the pending match now (one request, sent only if
    /// this ready check has not been accepted yet).
    pub accept: bool,
    /// Whether to clear the published assigned role.
    pub clear_role: bool,
    /// Whether the per-session commit record is reset.
    pub reset_session: bool,
    /// Whether the champion-select cycle runs in this poll.
    pub champ_select: bool,
    /// Seconds to wait before the next poll.
    pub wait_secs: u64,
}

/// The plan for a phase is determined by the phase and, in ready check only,
/// by the auto-accept toggle and whether this ready check was already
/// accepted.
pub open spec fn plan_matches(
    r: PhasePlan,
    p: GameflowPhase,
    auto_accept: bool,
    already_accepted: bool,
) -> bool {
    &&& opt_text(r.status) == phase_status(p)
    &&& r.accept == (p is ReadyCheck && auto_accept && !already_accepted)
    &&& opt_text(r.accepting_status) == (if r.accept {
        Some("Accepting match"@)
    } else {
        None
    })
    &&& r.clear_role == phase_clears_role(p)
    &&& r.reset_session == !(p is ChampSelect)
    &&& r.champ_select == (p is ChampSelect)
    &&& r.wait_secs == phase_wait(p)
}

/// Seconds to wait before the next poll in phase `p`.
pub fn wait_secs(p: &GameflowPhase) -> (r: u64)
    ensures
        r == phase_wait(*p),
{
    match p {
        GameflowPhase::InProgress => 20,
        GameflowPhase::WaitingForStats => 2,
        GameflowPhase::PreEndOfGame => 10,
        GameflowPhase::EndOfGame => 5,
        GameflowPhase::Unimplemented(_) => 10,
        _ => 0,
    }
}

/// Status text for phase `p` (none for champion select).
pub fn status_text(p: &GameflowPhase) -> (r: Option<String>)
    ensures
        opt_text(r) == phase_status(*p),
{
    match p {
        GameflowPhase::Idle => Some(String::from_str("Idling...")),
        GameflowPhase::Matchmaking => Some(String::from_str("Looking for a match")),
        GameflowPhase::Lobby => Some(String::from_str("In Lobby")),
        GameflowPhase::ReadyCheck => Some(String::from_str("Match Found")),
        GameflowPhase::ChampSelect => None,
        GameflowPhase::InProgress => Some(String::from_str("Game in progress...")),
        GameflowPhase::WaitingForStats => Some(String::from_str("Waiting for Stats")),
        GameflowPhase::PreEndOfGame => Some(String::from_str("Game in progress...")),
        GameflowPhase::EndOfGame => Some(String::from_str("Game Ending...")),
        GameflowPhase::Unimplemented(n) => {
            let mut s = String::from_str("Unimplemented Phase: ");
            s.append(n.as_str());
            Some(s)
        },
    }
}

/// The plan for one poll in phase `p`; `already_accepted` tells whether the
/// current ready check has been accepted by an earlier poll.
pub fn plan_phase(p: &GameflowPhase, auto_accept: bool, already_accepted: bool) -> (r: PhasePlan)
    ensures
        plan_matches(r, *p, auto_accept, already_accepted),
{
    let ready = match p {
        GameflowPhase::ReadyCheck => true,
        _ => false,
    };
    let accept = ready && auto_accept && !already_accepted;
    let clear_role = match p {
        GameflowPhase::Matchmaking | GameflowPhase::Lobby | GameflowPhase::EndOfGame
        | GameflowPhase::Unimplemented(_) => true,
        _ => false,
    };
    let champ_select = match p {
        GameflowPhase::ChampSelect => true,
        _ => false,
    };
    PhasePlan {
        status: status_text(p),
        accepting_status: if accept {
            Some(String::from_str("Accepting match"))
        } else {
            None
        },
        accept,
        clear_role,
        reset_session: !champ_select,
        champ_select,
        wait_secs: wait_secs(p),
    }
}

/// Planning is a pure function: two plans for the same inputs agree in every
/// field; the status text, the role clearing and the wait depend on the phase
/// alone; and outside ready check nothing is accepted.
pub proof fn lemma_phase_plan_is_pure(
    p: GameflowPhase,
    auto_accept: bool,
    already_accepted: bool,
    other_toggle: bool,
    other_accepted: bool,
    a: PhasePlan,
    b: PhasePlan,
    c: PhasePlan,
)
    requires
        plan_matches(a, p, auto_accept, already_accepted),
        plan_matches(b, p, auto_accept, already_accepted),
        plan_matches(c, p, other_toggle, other_accepted),
    ensures
        opt_text(a.status) == opt_text(b.status),
        opt_text(a.accepting_status) == opt_text(b.accepting_status),
        a.accept == b.accept && a.clear_role == b.clear_role && a.reset_session == b.reset_session
            && a.champ_select == b.champ_select && a.wait_secs == b.wait_secs,
        opt_text(a.status) == opt_text(c.status),
        a.wait_secs == c.wait_secs && a.clear_role == c.clear_role,
        !(p is ReadyCheck) ==> !a.accept && !c.accept,
{
}

} // verus!
