use circuit_watcher::spells::{plan_spells, resolve_pair, spell_id, SpellEntry, SpellPair, SpellSlots};

fn catalog() -> Vec<SpellEntry> {
    [("Barrier", 21), ("Exhaust", 3), ("Flash", 4), ("Ghost", 6), ("Heal", 7), ("Ignite", 14), ("Smite", 11), ("Teleport", 12)]
        .iter()
        .map(|(n, k)| SpellEntry { key: *k, name: n.to_string() })
        .collect()
}

fn slots(a: &str, b: &str) -> SpellSlots {
    SpellSlots { first: Some(a.to_string()), second: Some(b.to_string()) }
}

#[test]
fn jungle_flash_heal_becomes_flash_smite() {
    let plan = plan_spells(true, &slots("Flash", "Heal"), "jungle", &catalog());
    assert!(!plan.both_required);
    assert!(plan.adjusted);
    assert_eq!(plan.preference, Some(SpellPair::new("Flash", "Smite")));
    assert_eq!(plan.submit, Some((4, 11)));
}

#[test]
fn top_heal_ignite_unchanged() {
    let plan = plan_spells(true, &slots("Heal", "Ignite"), "top", &catalog());
    assert!(!plan.adjusted);
    assert_eq!(plan.preference, Some(SpellPair::new("Heal", "Ignite")));
    assert_eq!(plan.submit, Some((7, 14)));
}

#[test]
fn jungle_override_order() {
    let r = |a: &str, b: &str| resolve_pair(a, b, "jungle");
    assert_eq!(r("Ghost", "Heal"), SpellPair::new("Ghost", "Smite"));
    assert_eq!(r("Heal", "Flash"), SpellPair::new("Smite", "Flash"));
    assert_eq!(r("Heal", "Ghost"), SpellPair::new("Smite", "Ghost"));
    assert_eq!(r("Heal", "Ignite"), SpellPair::new("Smite", "Ignite"));
    assert_eq!(r("Flash", "Ghost"), SpellPair::new("Flash", "Smite"));
    assert_eq!(r("Smite", "Heal"), SpellPair::new("Smite", "Heal"));
    assert_eq!(r("Heal", "Smite"), SpellPair::new("Heal", "Smite"));
    assert_eq!(resolve_pair("Heal", "Ignite", "myjunglerole"), SpellPair::new("Smite", "Ignite"));
    assert_eq!(resolve_pair("Heal", "Ignite", "Jungle"), SpellPair::new("Heal", "Ignite"));
    assert_eq!(resolve_pair("Heal", "Ignite", ""), SpellPair::new("Heal", "Ignite"));
}

#[test]
fn adjusted_pair_is_stable_next_cycle() {
    let first = plan_spells(true, &slots("Exhaust", "Heal"), "jungle", &catalog());
    let kept = first.preference.unwrap();
    assert_eq!(kept, SpellPair::new("Smite", "Heal"));
    let again = plan_spells(true, &slots(&kept.first, &kept.second), "jungle", &catalog());
    assert!(!again.adjusted);
    assert_eq!(again.submit, Some((11, 7)));
}

#[test]
fn missing_slot_sends_nothing() {
    let half = SpellSlots { first: Some("Flash".to_string()), second: None };
    let plan = plan_spells(true, &half, "top", &catalog());
    assert!(plan.both_required);
    assert!(plan.preference.is_none());
    assert_eq!(plan.submit, None);
    let off = plan_spells(false, &half, "top", &catalog());
    assert!(!off.both_required);
    assert_eq!(off.submit, None);
}

#[test]
fn unknown_spell_is_not_submitted() {
    let plan = plan_spells(true, &slots("Heal", "Clarity"), "top", &catalog());
    assert_eq!(plan.submit, None);
    assert_eq!(spell_id(&catalog(), "Teleport"), Some(12));
    assert_eq!(spell_id(&catalog(), "teleport"), None);
}

#[test]
fn pair_swap_and_equality() {
    let mut p = SpellPair::new("Flash", "Heal");
    p.swap();
    assert_eq!(p, SpellPair::new("Heal", "Flash"));
    assert_ne!(p, SpellPair::new("Flash", "Heal"));
}

#[test]
fn choosing_a_name_from_the_other_slot_swaps() {
    let mut s = SpellSlots::new();
    s.choose_first("Flash");
    s.choose_second("Heal");
    assert_eq!(s.first.as_deref(), Some("Flash"));
    assert_eq!(s.second.as_deref(), Some("Heal"));
    s.choose_first("Heal");
    assert_eq!(s.first.as_deref(), Some("Heal"));
    assert_eq!(s.second.as_deref(), Some("Flash"));
    s.choose_second("Heal");
    assert_eq!(s.first.as_deref(), Some("Flash"));
    assert_eq!(s.second.as_deref(), Some("Heal"));
    s.choose_second("Ignite");
    assert_eq!(s.first.as_deref(), Some("Flash"));
    assert_eq!(s.second.as_deref(), Some("Ignite"));
}
