use counter_doom::{
    cooldown_system, find_id, setup_level, use_tool, Body, CastOutcome, Caster, CombatSkill,
    Cooldown, FireBlastSpell, Rot, TryTool, Vitals,
};

fn hero_body() -> Body {
    Body { x: 12_000, y: -3_000, rot: Rot::Upright, scale_x: 4_000, scale_y: 4_000 }
}

fn ready_blast() -> FireBlastSpell {
    FireBlastSpell { cooldown: 0 }
}

#[test]
fn fire_blast_exposes_its_capability_set() {
    let spell = FireBlastSpell::default();
    assert_eq!(spell.cooldown, 0);
    assert!(CombatSkill::ready(&spell));
    assert_eq!(spell.cost(), Vitals { mana: 0, life: 0, stamina: 10_000 });
    let waiting = FireBlastSpell { cooldown: 350 };
    assert!(!CombatSkill::ready(&waiting));
    assert!(!Cooldown::ready(&waiting));
}

#[test]
fn preform_rewinds_the_cooldown_and_fires_from_the_origin() {
    let mut spell = ready_blast();
    let origin = hero_body();
    let eff = spell.preform(&origin);
    assert_eq!(spell.cooldown, 1_000);
    assert_eq!(eff.origin, origin);
    assert_eq!(eff.bolt.velocity, 1_000_000);
    assert_eq!(eff.bolt.power, 30_000);
}

#[test]
fn cooldown_decays_only_while_not_ready() {
    let mut q = vec![
        FireBlastSpell { cooldown: 0 },
        FireBlastSpell { cooldown: 1_000 },
        FireBlastSpell { cooldown: -250 },
    ];
    cooldown_system(&mut q, 400);
    assert_eq!(q[0].cooldown, 0);
    assert_eq!(q[1].cooldown, 600);
    assert_eq!(q[2].cooldown, -250);
}

#[test]
fn find_id_returns_the_first_match() {
    let store: Vec<(u64, i8)> = vec![(9, 1), (4, 2), (9, 3)];
    assert_eq!(find_id(&store, 9), Some(0));
    assert_eq!(find_id(&store, 4), Some(1));
    assert_eq!(find_id(&store, 7), None);
}

#[test]
fn a_full_cast_debits_fires_and_rewinds() {
    let mut skills = vec![(7u64, ready_blast())];
    let mut casters = vec![(
        1u64,
        Caster { vitals: Vitals { mana: 3, life: 100_000, stamina: 100_000 }, body: hero_body() },
    )];
    let requests = vec![TryTool { tool: 7, user: 1 }];
    let outcomes = use_tool(&requests, &mut skills, &mut casters);
    assert_eq!(outcomes.len(), 1);
    match outcomes[0] {
        CastOutcome::Fired(eff) => {
            assert_eq!(eff.origin, hero_body());
            assert_eq!(eff.bolt.velocity, 1_000_000);
            assert_eq!(eff.bolt.power, 30_000);
        }
        _ => panic!("the cast should have fired"),
    }
    assert_eq!(casters[0].1.vitals, Vitals { mana: 3, life: 100_000, stamina: 90_000 });
    assert_eq!(skills[0].1.cooldown, 1_000);
}

#[test]
fn short_vitals_discard_the_cast_untouched() {
    let mut skills = vec![(7u64, ready_blast())];
    let mut casters = vec![(
        1u64,
        Caster { vitals: Vitals { mana: 3, life: 100_000, stamina: 9_999 }, body: hero_body() },
    )];
    let outcomes = use_tool(&vec![TryTool { tool: 7, user: 1 }], &mut skills, &mut casters);
    assert_eq!(outcomes, vec![CastOutcome::ShortOfVitals]);
    // vitals and cooldown state are byte-for-byte unchanged
    assert_eq!(casters[0].1.vitals, Vitals { mana: 3, life: 100_000, stamina: 9_999 });
    assert_eq!(skills[0].1, ready_blast());
}

#[test]
fn a_cooling_skill_discards_the_cast_untouched() {
    let mut skills = vec![(7u64, FireBlastSpell { cooldown: 600 })];
    let mut casters = vec![(
        1u64,
        Caster { vitals: Vitals { mana: 3, life: 100_000, stamina: 100_000 }, body: hero_body() },
    )];
    let outcomes = use_tool(&vec![TryTool { tool: 7, user: 1 }], &mut skills, &mut casters);
    assert_eq!(outcomes, vec![CastOutcome::NotReady]);
    assert_eq!(casters[0].1.vitals, Vitals { mana: 3, life: 100_000, stamina: 100_000 });
    assert_eq!(skills[0].1.cooldown, 600);
}

#[test]
fn stale_references_are_silently_dropped() {
    let mut skills = vec![(7u64, ready_blast())];
    let mut casters = vec![(
        1u64,
        Caster { vitals: Vitals { mana: 3, life: 100_000, stamina: 100_000 }, body: hero_body() },
    )];
    let requests = vec![TryTool { tool: 8, user: 1 }, TryTool { tool: 7, user: 2 }];
    let outcomes = use_tool(&requests, &mut skills, &mut casters);
    assert_eq!(outcomes, vec![CastOutcome::Stale, CastOutcome::Stale]);
    assert_eq!(skills[0].1, ready_blast());
    assert_eq!(casters[0].1.vitals.stamina, 100_000);
}

#[test]
fn requests_are_consumed_in_enqueue_order() {
    let mut skills = vec![(7u64, ready_blast())];
    let mut casters = vec![(
        1u64,
        Caster { vitals: Vitals { mana: 3, life: 100_000, stamina: 100_000 }, body: hero_body() },
    )];
    let requests = vec![TryTool { tool: 7, user: 1 }, TryTool { tool: 7, user: 1 }];
    let outcomes = use_tool(&requests, &mut skills, &mut casters);
    // the first cast fires and rewinds the cooldown; the second finds the
    // skill cooling and is discarded without a further debit
    assert!(matches!(outcomes[0], CastOutcome::Fired(_)));
    assert_eq!(outcomes[1], CastOutcome::NotReady);
    assert_eq!(casters[0].1.vitals.stamina, 90_000);
    assert_eq!(skills[0].1.cooldown, 1_000);
}

#[test]
fn the_level_setup_end_to_end_cast() {
    let fire_blaster_id: u64 = 77;
    let hero_id: u64 = 1;
    let hero = setup_level(fire_blaster_id);
    assert_eq!(hero.vitals, Vitals { mana: 3, life: 100_000, stamina: 100_000 });
    assert_eq!(hero.walk.speed, 100);
    assert_eq!(hero.skill_cost.vitals, Vitals { mana: 0, life: 0, stamina: 10_000 });
    assert_eq!(hero.body.scale_x, 4_000);
    // press the cast key: the active slot names the equipped blast
    let request = counter_doom::player_use_kit(hero_id, &hero.kit, true).unwrap();
    assert_eq!(request, TryTool { tool: fire_blaster_id, user: hero_id });
    let mut skills = vec![(fire_blaster_id, hero.skill)];
    let mut casters = vec![(hero_id, Caster { vitals: hero.vitals, body: hero.body })];
    let outcomes = use_tool(&vec![request], &mut skills, &mut casters);
    match outcomes[0] {
        CastOutcome::Fired(eff) => assert_eq!(eff.origin, hero.body),
        _ => panic!("the cast should have fired"),
    }
    assert_eq!(casters[0].1.vitals, Vitals { mana: 3, life: 100_000, stamina: 90_000 });
    assert_eq!(skills[0].1.cooldown, 1_000);
}
