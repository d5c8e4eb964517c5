//! Loadout (summoner spell) resolution: the operator's two slots, the
//! role-aware override for junglers, and the lookup of numeric spell ids.
use vstd::prelude::*;
use vstd::string::*;
use crate::text::{contains_seq, contains_text, same_text};

verus! {

/// Two spell names, slot 1 and slot 2.
#[derive(Debug)]
pub struct SpellPair {
    pub first: String,
    pub second: String,
}

impl PartialEq for SpellPair {
    fn eq(&self, o: &SpellPair) -> (r: bool) {
        same_text(self.first.as_str(), o.first.as_str()) && same_text(
            self.second.as_str(),
            o.second.as_str(),
        )
    }
}

impl vstd::std_specs::cmp::PartialEqSpecImpl for SpellPair {
    open spec fn obeys_eq_spec() -> bool {
        true
    }

    open spec fn eq_spec(&self, o: &SpellPair) -> bool {
        self.first@ == o.first@ && self.second@ == o.second@
    }
}

impl SpellPair {
    /// A pair from two names.
    pub fn new(first: &str, second: &str) -> (r: SpellPair)
        ensures
            r.first@ == first@,
            r.second@ == second@,
    {
        SpellPair { first: String::from_str(first), second: String::from_str(second) }
    }

    /// Exchanges the two slots.
    pub fn swap(&mut self)
        ensures
            final(self).first@ == old(self).second@,
            final(self).second@ == old(self).first@,
    {
        core::mem::swap(&mut self.first, &mut self.second);
    }
}

/// The operator's spell choice: two slots, each possibly unset.
#[derive(Debug)]
pub struct SpellSlots {
    pub first: Option<String>,
    pub second: Option<String>,
}

/// The view of an optional name.
pub open spec fn opt_name(o: Option<String>) -> Option<Seq<char>> {
    match o {
        Some(s) => Some(s@),
        None => None,
    }
}

impl SpellSlots {
    /// Both slots unset.
    pub fn new() -> (r: SpellSlots)
        ensures
            r.first is None,
            r.second is None,
    {
        SpellSlots { first: None, second: None }
    }

    /// Puts `name` in slot 1; where slot 2 already holds it, the slots are
    /// exchanged instead.
    pub fn choose_first(&mut self, name: &str)
        ensures
            opt_name(old(self).second) == Some(name@) ==> opt_name(final(self).first) == opt_name(
                old(self).second,
            ) && opt_name(final(self).second) == opt_name(old(self).first),
            opt_name(old(self).second) != Some(name@) ==> opt_name(final(self).first) == Some(
                name@,
            ) && opt_name(final(self).second) == opt_name(old(self).second),
    {
        let clash = match &self.second {
            Some(s) => same_text(s.as_str(), name),
            None => false,
        };
        if clash {
            core::mem::swap(&mut self.first, &mut self.second);
        } else {
            self.first = Some(String::from_str(name));
        }
    }

    /// Puts `name` in slot 2; where slot 1 already holds it, the slots are
    /// exchanged instead.
    pub fn choose_second(&mut self, name: &str)
        ensures
            opt_name(old(self).first) == Some(name@) ==> opt_name(final(self).first) == opt_name(
                old(self).second,
            ) && opt_name(final(self).second) == opt_name(old(self).first),
            opt_name(old(self).first) != Some(name@) ==> opt_name(final(self).second) == Some(
                name@,
            ) && opt_name(final(self).first) == opt_name(old(self).first),
    {
        let clash = match &self.first {
            Some(s) => same_text(s.as_str(), name),
            None => false,
        };
        if clash {
            core::mem::swap(&mut self.first, &mut self.second);
        } else {
            self.second = Some(String::from_str(name));
        }
    }
}

/// The override for junglers applies: the role is a jungle role and neither
/// slot holds Smite.
pub open spec fn override_applies(s1: Seq<char>, s2: Seq<char>, role: Seq<char>) -> bool {
    contains_seq(role, "jungle"@) && s1 != "Smite"@ && s2 != "Smite"@
}

/// The pair to use for slots `s1`, `s2` and role `role`. A jungler without
/// Smite keeps Flash or Ghost (slot 1 first) and takes Smite beside it, or
/// else takes Smite in slot 1.
pub open spec fn resolved_pair(s1: Seq<char>, s2: Seq<char>, role: Seq<char>) -> (
    Seq<char>,
    Seq<char>,
) {
    if override_applies(s1, s2, role) {
        if s1 == "Flash"@ {
            ("Flash"@, "Smite"@)
        } else if s1 == "Ghost"@ {
            ("Ghost"@, "Smite"@)
        } else if s2 == "Flash"@ {
            ("Smite"@, "Flash"@)
        } else if s2 == "Ghost"@ {
            ("Smite"@, "Ghost"@)
        } else {
            ("Smite"@, s2)
        }
    } else {
        (s1, s2)
    }
}

/// Applies the role-aware override to the slot pair.
pub fn resolve_pair(first: &str, second: &str, role: &str) -> (r: SpellPair)
    ensures
        (r.first@, r.second@) == resolved_pair(first@, second@, role@),
{
    if contains_text(role, "jungle") && !same_text(first, "Smite") && !same_text(second, "Smite") {
        if same_text(first, "Flash") {
            SpellPair::new("Flash", "Smite")
        } else if same_text(first, "Ghost") {
            SpellPair::new("Ghost", "Smite")
        } else if same_text(second, "Flash") {
            SpellPair::new("Smite", "Flash")
        } else if same_text(second, "Ghost") {
            SpellPair::new("Smite", "Ghost")
        } else {
            SpellPair::new("Smite", second)
        }
    } else {
        SpellPair::new(first, second)
    }
}

/// One entry of the spell catalog: numeric id and name.
#[derive(Clone, Debug)]
pub struct SpellEntry {
    pub key: u32,
    pub name: String,
}

/// Id of the first catalog entry named `name`, from position `i` on.
pub open spec fn catalog_key_from(cat: Seq<SpellEntry>, name: Seq<char>, i: int) -> Option<u32>
    decreases cat.len() - i,
{
    if i < 0 || i >= cat.len() {
        None
    } else if cat[i].name@ == name {
        Some(cat[i].key)
    } else {
        catalog_key_from(cat, name, i + 1)
    }
}

/// Looks a spell's id up by name.
pub fn spell_id(catalog: &Vec<SpellEntry>, name: &str) -> (r: Option<u32>)
    ensures
        r == catalog_key_from(catalog@, name@, 0),
{
    let mut i: usize = 0;
    while i < catalog.len()
        invariant
            i <= catalog@.len(),
            catalog_key_from(catalog@, name@, 0) == catalog_key_from(catalog@, name@, i as int),
        decreases catalog@.len() - i,
    {
        if same_text(catalog[i].name.as_str(), name) {
            return Some(catalog[i].key);
        }
        i = i + 1;
    }
    None
}

/// What the loadout step of a champion-select cycle does.
#[derive(Debug)]
pub struct SpellPlan {
    /// Auto-selection is on but a slot is unset: warn, send nothing.
    pub both_required: bool,
    /// The slot pair to keep as the operator's preference (adjusted where the
    /// override applied).
    pub preference: Option<SpellPair>,
    /// Whether the override changed the pair.
    pub adjusted: bool,
    /// Ids to send together as slot 1 and slot 2.
    pub submit: Option<(u32, u32)>,
}

/// Ids of a pair of names in the catalog, when both are there.
pub open spec fn pair_ids(cat: Seq<SpellEntry>, p: (Seq<char>, Seq<char>)) -> Option<(u32, u32)> {
    match (catalog_key_from(cat, p.0, 0), catalog_key_from(cat, p.1, 0)) {
        (Some(a), Some(b)) => Some((a, b)),
        _ => None,
    }
}

/// The loadout step: with auto-selection on and both slots set, resolves the
/// pair for `role` and the ids to submit.
pub fn plan_spells(auto_select: bool, slots: &SpellSlots, role: &str, catalog: &Vec<SpellEntry>) -> (r:
    SpellPlan)
    ensures
        !auto_select ==> !r.both_required && r.preference is None && !r.adjusted && r.submit is None,
        auto_select && (slots.first is None || slots.second is None) ==> r.both_required
            && r.preference is None && !r.adjusted && r.submit is None,
        auto_select && slots.first is Some && slots.second is Some ==> ({
            let want = resolved_pair(slots.first->0@, slots.second->0@, role@);
            &&& !r.both_required
            &&& r.preference is Some
            &&& (r.preference->0.first@, r.preference->0.second@) == want
            &&& r.adjusted == override_applies(slots.first->0@, slots.second->0@, role@)
            &&& r.submit == pair_ids(catalog@, want)
        }),
{
    if !auto_select {
        return SpellPlan { both_required: false, preference: None, adjusted: false, submit: None };
    }
    match (&slots.first, &slots.second) {
        (Some(a), Some(b)) => {
            let adjusted = contains_text(role, "jungle") && !same_text(a.as_str(), "Smite")
                && !same_text(b.as_str(), "Smite");
            let pair = resolve_pair(a.as_str(), b.as_str(), role);
            let id1 = spell_id(catalog, pair.first.as_str());
            let id2 = spell_id(catalog, pair.second.as_str());
            let submit = match (id1, id2) {
                (Some(x), Some(y)) => Some((x, y)),
                _ => None,
            };
            SpellPlan { both_required: false, preference: Some(pair), adjusted, submit }
        },
        _ => SpellPlan { both_required: true, preference: None, adjusted: false, submit: None },
    }
}

} // verus!
