//! The skill dispatch pipeline: consumes this tick's queued cast requests
//! in enqueue order. For each request it resolves the skill and the caster
//! by entity reference — a stale reference silently discards the request —
//! then gates on vitals sufficiency and on the cooldown, and only then
//! debits the caster, fires the effect, and rewinds the skill's cooldown.

use vstd::prelude::*;
use crate::body::Body;
use crate::skills::CombatSkill;
use crate::skills::SkillEffect;
use crate::toolkit::TryTool;
use crate::vitals::Vitals;

verus! {

/// The resolvable state of one caster entity: its vitals pool and its
/// current transform (the origin handed to a fired effect).
#[derive(PartialEq, Eq, Structural, Clone, Copy, Debug)]
pub struct Caster {
    pub vitals: Vitals,
    pub body: Body,
}

/// How the pipeline disposed of one cast request.
#[derive(PartialEq, Eq, Structural, Clone, Copy, Debug)]
pub enum CastOutcome {
    /// Skill or caster reference was stale: silently discarded.
    Stale,
    /// The caster could not pay the skill's cost; nothing was changed.
    ShortOfVitals,
    /// The skill's cooldown had not elapsed; nothing was changed.
    NotReady,
    /// The cast went through, producing this effect.
    Fired(SkillEffect),
}

/// Index of the first entry carrying `id`, scanning in order.
pub open spec fn spec_find_id<T>(s: Seq<(u64, T)>, id: u64) -> Option<int>
    decreases s.len(),
{
    if s.len() == 0 {
        None
    } else if s.first().0 == id {
        Some(0int)
    } else {
        match spec_find_id(s.drop_first(), id) {
            Some(i) => Some(i + 1),
            None => None,
        }
    }
}

/// `spec_find_id` names the first match: the returned index carries the
/// id, everything before it does not, and `None` means nothing does.
pub proof fn lemma_find_id_first<T>(s: Seq<(u64, T)>, id: u64)
    ensures
        match spec_find_id(s, id) {
            Some(i) => 0 <= i < s.len() && s[i].0 == id && forall|j: int|
                0 <= j < i ==> (#[trigger] s[j]).0 != id,
            None => forall|j: int| 0 <= j < s.len() ==> (#[trigger] s[j]).0 != id,
        },
    decreases s.len(),
{
    if s.len() != 0 {
        assert(s.first() == s[0]);
        if s.first().0 != id {
            lemma_find_id_first(s.drop_first(), id);
            match spec_find_id(s.drop_first(), id) {
                Some(i) => {
                    assert(s.drop_first()[i] == s[i + 1]);
                    assert forall|j: int| 0 <= j < i + 1 implies (#[trigger] s[j]).0 != id by {
                        if j > 0 {
                            assert(s.drop_first()[j - 1] == s[j]);
                        }
                    }
                },
                None => {
                    assert forall|j: int| 0 <= j < s.len() implies (#[trigger] s[j]).0 != id by {
                        if j > 0 {
                            assert(s.drop_first()[j - 1] == s[j]);
                        }
                    }
                },
            }
        }
    }
}

/// Resolves an entity reference in a keyed store: the first entry whose
/// key equals `id`, as the ECS lookup would.
pub fn find_id<T>(s: &Vec<(u64, T)>, id: u64) -> (r: Option<usize>)
    ensures
        match r {
            Some(i) => spec_find_id(s@, id) == Some(i as int),
            None => spec_find_id(s@, id) is None,
        },
{
    let n = s.len();
    let mut i: usize = 0;
    while i < n
        invariant
            i <= n,
            n == s.len(),
            forall|j: int| 0 <= j < i ==> (#[trigger] s@[j]).0 != id,
        decreases n - i,
    {
        if s[i].0 == id {
            proof {
                lemma_find_id_first(s@, id);
            }
            return Some(i);
        }
        i = i + 1;
    }
    proof {
        lemma_find_id_first(s@, id);
    }
    None
}

/// What one cast request does to the stores: resolve both references,
/// gate on cost then on readiness, and on success debit the caster,
/// advance the skill, and fire the effect from the caster's transform.
pub open spec fn spec_step_cast<T: CombatSkill>(
    skills: Seq<(u64, T)>,
    casters: Seq<(u64, Caster)>,
    req: TryTool,
) -> (Seq<(u64, T)>, Seq<(u64, Caster)>, CastOutcome) {
    match (spec_find_id(skills, req.tool), spec_find_id(casters, req.user)) {
        (Some(si), Some(ci)) => {
            let sk = skills[si].1;
            let cv = casters[ci].1;
            let cost = sk.spec_cost();
            if !cv.vitals.spec_sufficient(cost) {
                (skills, casters, CastOutcome::ShortOfVitals)
            } else if !sk.spec_ready() {
                (skills, casters, CastOutcome::NotReady)
            } else {
                (
                    skills.update(si, (skills[si].0, sk.spec_performed())),
                    casters.update(
                        ci,
                        (casters[ci].0, Caster { vitals: cv.vitals.spec_sub(cost), body: cv.body }),
                    ),
                    CastOutcome::Fired(sk.spec_effect(cv.body)),
                )
            }
        },
        _ => (skills, casters, CastOutcome::Stale),
    }
}

/// The whole pipeline pass: the requests applied in enqueue order, each to
/// the stores the previous requests left behind, with one outcome each.
pub open spec fn spec_pipeline<T: CombatSkill>(
    reqs: Seq<TryTool>,
    skills: Seq<(u64, T)>,
    casters: Seq<(u64, Caster)>,
) -> (Seq<(u64, T)>, Seq<(u64, Caster)>, Seq<CastOutcome>)
    decreases reqs.len(),
{
    if reqs.len() == 0 {
        (skills, casters, Seq::<CastOutcome>::empty())
    } else {
        let prev = spec_pipeline(reqs.drop_last(), skills, casters);
        let step = spec_step_cast(prev.0, prev.1, reqs.last());
        (step.0, step.1, prev.2.push(step.2))
    }
}

/// Rejection changes nothing: a cast request that the pipeline does not
/// fire — a stale reference, a caster short of vitals, or a skill whose
/// cooldown has not elapsed — leaves every skill (its cooldown state
/// included) and every caster's vitals exactly as they were.
pub proof fn lemma_rejected_cast_unchanged<T: CombatSkill>(
    skills: Seq<(u64, T)>,
    casters: Seq<(u64, Caster)>,
    req: TryTool,
)
    ensures
        !(spec_step_cast(skills, casters, req).2 is Fired) ==> spec_step_cast(
            skills,
            casters,
            req,
        ).0 == skills && spec_step_cast(skills, casters, req).1 == casters,
{
}

/// Consumes this tick's cast requests against the skill and caster
/// stores. A rejected request — stale reference, short vitals, cooldown
/// not elapsed — changes nothing at all; a fired one debits exactly the
/// skill's cost and rewinds exactly that skill's cooldown.
pub fn use_tool<T: CombatSkill>(
    tool_uses: &Vec<TryTool>,
    q_ability: &mut Vec<(u64, T)>,
    user_q: &mut Vec<(u64, Caster)>,
) -> (outcomes: Vec<CastOutcome>)
    ensures
        final(q_ability)@ == spec_pipeline(tool_uses@, old(q_ability)@, old(user_q)@).0,
        final(user_q)@ == spec_pipeline(tool_uses@, old(q_ability)@, old(user_q)@).1,
        outcomes@ == spec_pipeline(tool_uses@, old(q_ability)@, old(user_q)@).2,
{
    let n = tool_uses.len();
    let mut outcomes: Vec<CastOutcome> = Vec::new();
    let mut r: usize = 0;
    while r < n
        invariant
            r <= n,
            n == tool_uses.len(),
            outcomes.len() == r,
            q_ability@ == spec_pipeline(tool_uses@.take(r as int), old(q_ability)@, old(user_q)@).0,
            user_q@ == spec_pipeline(tool_uses@.take(r as int), old(q_ability)@, old(user_q)@).1,
            outcomes@ == spec_pipeline(tool_uses@.take(r as int), old(q_ability)@, old(user_q)@).2,
        decreases n - r,
    {
        let ghost prev_skills = q_ability@;
        let ghost prev_casters = user_q@;
        let req = tool_uses[r];
        let found_skill = find_id(q_ability, req.tool);
        let found_caster = find_id(user_q, req.user);
        match (found_skill, found_caster) {
            (Some(si), Some(ci)) => {
                proof {
                    lemma_find_id_first(q_ability@, req.tool);
                    lemma_find_id_first(user_q@, req.user);
                }
                let cost = q_ability[si].1.cost();
                if !user_q[ci].1.vitals.sufficient(&cost) {
                    outcomes.push(CastOutcome::ShortOfVitals);
                } else if !q_ability[si].1.ready() {
                    outcomes.push(CastOutcome::NotReady);
                } else {
                    let caster_body: Body = user_q[ci].1.body;
                    let user_entry = &mut user_q[ci];
                    user_entry.1.vitals.sub_assign(&cost);
                    let skill_entry = &mut q_ability[si];
                    let eff = skill_entry.1.preform(&caster_body);
                    outcomes.push(CastOutcome::Fired(eff));
                }
            },
            _ => {
                outcomes.push(CastOutcome::Stale);
            },
        }
        proof {
            assert(tool_uses@.take(r + 1).drop_last() =~= tool_uses@.take(r as int));
            assert(tool_uses@.take(r + 1).last() == tool_uses@[r as int]);
            let step = spec_step_cast(prev_skills, prev_casters, tool_uses@[r as int]);
            assert(q_ability@ =~= step.0);
            assert(user_q@ =~= step.1);
        }
        r = r + 1;
    }
    proof {
        assert(tool_uses@.take(n as int) =~= tool_uses@);
    }
    outcomes
}

} // verus!
