//! The operator's champion selection: a queue of at most two picks and at
//! most one ban, where an entry with an empty name is an explicit skip.
use vstd::prelude::*;
use crate::text::same_text;

verus! {

/// A champion chosen by the operator; an empty name marks a skip.
#[derive(Clone, Debug)]
pub struct Choice {
    pub champion_id: u32,
    pub name: String,
}

impl Choice {
    /// The skip placeholder.
    pub fn skip() -> (r: Choice)
        ensures
            r.champion_id == 0,
            r.name@.len() == 0,
    {
        Choice { champion_id: 0, name: String::new() }
    }

    /// Whether this entry is a skip.
    pub fn is_skip(&self) -> (r: bool)
        ensures
            r == (self.name@.len() == 0),
    {
        self.name.as_str().unicode_len() == 0
    }
}

/// Two choices name the same champion entry.
pub open spec fn same_choice(a: Choice, b: Choice) -> bool {
    a.champion_id == b.champion_id && a.name@ == b.name@
}

/// `c` is already among `picks`.
pub open spec fn queued(picks: Seq<Choice>, c: Choice) -> bool {
    exists|i: int| 0 <= i < picks.len() && same_choice(#[trigger] picks[i], c)
}

/// Why an operator selection was refused.
#[derive(Clone, Copy, PartialEq, Eq, Structural, Debug)]
pub enum SelectionError {
    /// Two picks are already queued.
    QueueFull,
    /// The champion is already queued as a pick.
    AlreadySelected,
    /// A ban is already set.
    BanAlreadySet,
}

/// Picks and ban chosen by the operator.
#[derive(Clone, Debug)]
pub struct Selection {
    picks: Vec<Choice>,
    ban: Option<Choice>,
}

impl Selection {
    /// At most two picks are queued.
    pub open spec fn wf(&self) -> bool {
        self.picks_view().len() <= 2
    }

    /// The queued picks, in order.
    pub closed spec fn picks_view(&self) -> Seq<Choice> {
        self.picks@
    }

    /// The ban preference.
    pub closed spec fn ban_view(&self) -> Option<Choice> {
        self.ban
    }

    /// An empty selection.
    pub fn new() -> (r: Selection)
        ensures
            r.wf(),
            r.picks_view().len() == 0,
            r.ban_view() is None,
    {
        Selection { picks: Vec::new(), ban: None }
    }

    /// The queued picks, in order.
    pub fn picks(&self) -> (r: &Vec<Choice>)
        ensures
            r@ == self.picks_view(),
    {
        &self.picks
    }

    /// The ban preference, if set.
    pub fn ban(&self) -> (r: &Option<Choice>)
        ensures
            *r == self.ban_view(),
    {
        &self.ban
    }

    /// Whether `c` is already queued as a pick.
    pub fn is_queued(&self, c: &Choice) -> (r: bool)
        ensures
            r == queued(self.picks_view(), *c),
    {
        let mut i: usize = 0;
        while i < self.picks.len()
            invariant
                i <= self.picks@.len(),
                forall|k: int| 0 <= k < i ==> !same_choice(#[trigger] self.picks@[k], *c),
            decreases self.picks@.len() - i,
        {
            let p = &self.picks[i];
            if p.champion_id == c.champion_id && same_text(p.name.as_str(), c.name.as_str()) {
                assert(same_choice(self.picks@[i as int], *c));
                return true;
            }
            i = i + 1;
        }
        false
    }

    /// Queues a pick. A skip is always queued while there is room; a champion
    /// already queued is refused.
    pub fn queue_pick(&mut self, c: Choice) -> (r: Result<(), SelectionError>)
        requires
            old(self).wf(),
        ensures
            final(self).wf(),
            final(self).ban_view() == old(self).ban_view(),
            old(self).picks_view().len() >= 2 ==> r == Err::<(), SelectionError>(
                SelectionError::QueueFull,
            ),
            old(self).picks_view().len() < 2 && c.name@.len() != 0 && queued(
                old(self).picks_view(),
                c,
            ) ==> r == Err::<(), SelectionError>(SelectionError::AlreadySelected),
            r is Ok <==> (old(self).picks_view().len() < 2 && (c.name@.len() == 0 || !queued(
                old(self).picks_view(),
                c,
            ))),
            r is Ok ==> final(self).picks_view() == old(self).picks_view().push(c),
            r is Err ==> final(self).picks_view() == old(self).picks_view(),
    {
        if self.picks.len() >= 2 {
            return Err(SelectionError::QueueFull);
        }
        if !c.is_skip() && self.is_queued(&c) {
            return Err(SelectionError::AlreadySelected);
        }
        self.picks.push(c);
        Ok(())
    }

    /// Sets the ban. A skip is always accepted while no ban is set; a
    /// champion already queued as a pick is refused.
    pub fn set_ban(&mut self, c: Choice) -> (r: Result<(), SelectionError>)
        requires
            old(self).wf(),
        ensures
            final(self).wf(),
            final(self).picks_view() == old(self).picks_view(),
            old(self).ban_view() is Some ==> r == Err::<(), SelectionError>(
                SelectionError::BanAlreadySet,
            ),
            old(self).ban_view() is None && c.name@.len() != 0 && queued(
                old(self).picks_view(),
                c,
            ) ==> r == Err::<(), SelectionError>(SelectionError::AlreadySelected),
            r is Ok <==> (old(self).ban_view() is None && (c.name@.len() == 0 || !queued(
                old(self).picks_view(),
                c,
            ))),
            r is Ok ==> final(self).ban_view() == Some(c),
            r is Err ==> final(self).ban_view() == old(self).ban_view(),
    {
        if self.ban.is_some() {
            return Err(SelectionError::BanAlreadySet);
        }
        if !c.is_skip() && self.is_queued(&c) {
            return Err(SelectionError::AlreadySelected);
        }
        self.ban = Some(c);
        Ok(())
    }

    /// Clears picks and ban together.
    pub fn clear(&mut self)
        ensures
            final(self).wf(),
            final(self).picks_view().len() == 0,
            final(self).ban_view() is None,
    {
        self.picks = Vec::new();
        self.ban = None;
    }

    /// Whether anything is queued at all.
    pub fn has_any(&self) -> (r: bool)
        ensures
            r == (self.picks_view().len() > 0 || self.ban_view() is Some),
    {
        self.picks.len() > 0 || self.ban.is_some()
    }

    /// Both picks and the ban are present and all are skips: the operator
    /// opted out of this game.
    pub open spec fn fully_skipped_spec(&self) -> bool {
        &&& self.picks_view().len() == 2
        &&& self.picks_view()[0].name@.len() == 0
        &&& self.picks_view()[1].name@.len() == 0
        &&& self.ban_view() is Some
        &&& self.ban_view()->0.name@.len() == 0
    }

    /// Whether the selection consists of skips only, two picks and the ban.
    pub fn is_fully_skipped(&self) -> (r: bool)
        ensures
            r == self.fully_skipped_spec(),
    {
        if self.picks.len() != 2 {
            return false;
        }
        match &self.ban {
            Some(b) => b.is_skip() && self.picks[0].is_skip() && self.picks[1].is_skip(),
            None => false,
        }
    }
}

} // verus!
