//! The tool kit: an actor's fixed-capacity, slot-indexed set of equipped
//! skill entities, an active-slot index driven by the digit keys, and the
//! cast request the active slot produces when the cast key is pressed.

use vstd::prelude::*;

verus! {

/// Number of slots a kit carries.
pub const KIT_SLOTS: usize = 9;

/// An input symbol the kit logic reads: a digit key selecting a slot, the
/// cast key, the four walk directions, or anything else.
#[derive(PartialEq, Eq, Structural, Clone, Copy, Debug)]
pub enum KeyInput {
    Digit1,
    Digit2,
    Digit3,
    Digit4,
    Digit5,
    Digit6,
    Digit7,
    Digit8,
    Digit9,
    Cast,
    MoveUp,
    MoveDown,
    MoveLeft,
    MoveRight,
    Other,
}

/// The slot a digit key selects; `None` for every non-digit key.
pub open spec fn spec_slot_of(k: KeyInput) -> Option<u8> {
    match k {
        KeyInput::Digit1 => Some(0u8),
        KeyInput::Digit2 => Some(1u8),
        KeyInput::Digit3 => Some(2u8),
        KeyInput::Digit4 => Some(3u8),
        KeyInput::Digit5 => Some(4u8),
        KeyInput::Digit6 => Some(5u8),
        KeyInput::Digit7 => Some(6u8),
        KeyInput::Digit8 => Some(7u8),
        KeyInput::Digit9 => Some(8u8),
        _ => None,
    }
}

/// A transient cast request: which skill entity to activate, on behalf of
/// which caster entity. Queued once per cast and consumed once.
#[derive(PartialEq, Eq, Structural, Clone, Copy, Debug)]
pub struct TryTool {
    pub tool: u64,
    pub user: u64,
}

/// The equipped kit: nine optional skill-entity references and the index
/// of the active slot.
#[derive(PartialEq, Eq, Clone, Copy, Debug)]
pub struct ToolKit {
    pub slots: [Option<u64>; 9],
    pub active: u8,
}

/// The entry of `stuff` at `i`, or `None` past its end.
fn slot_at(stuff: &Vec<u64>, i: usize) -> (r: Option<u64>)
    ensures
        r == (if i < stuff.len() {
            Some(stuff[i as int])
        } else {
            None::<u64>
        }),
{
    if i < stuff.len() {
        Some(stuff[i])
    } else {
        None
    }
}

impl ToolKit {
    /// The skill reference the active slot holds, if the index addresses a
    /// slot and that slot is equipped.
    pub open spec fn spec_get_active(self) -> Option<u64> {
        if self.active < 9 {
            self.slots@[self.active as int]
        } else {
            None
        }
    }

    /// Equips the first nine entries of `stuff` into the slots, in order,
    /// leaving the rest empty, with slot zero active.
    pub fn new(stuff: Vec<u64>) -> (r: ToolKit)
        ensures
            r.active == 0,
            forall|i: int|
                0 <= i < 9 ==> r.slots@[i] == (if i < stuff.len() {
                    Some(stuff[i])
                } else {
                    None::<u64>
                }),
    {
        let slots = [
            slot_at(&stuff, 0),
            slot_at(&stuff, 1),
            slot_at(&stuff, 2),
            slot_at(&stuff, 3),
            slot_at(&stuff, 4),
            slot_at(&stuff, 5),
            slot_at(&stuff, 6),
            slot_at(&stuff, 7),
            slot_at(&stuff, 8),
        ];
        ToolKit { slots, active: 0 }
    }

    /// Reads the active slot; an out-of-range index behaves like an empty
    /// slot.
    pub fn get_active(&self) -> (r: Option<u64>)
        ensures
            r == self.spec_get_active(),
    {
        if self.active < 9 {
            self.slots[self.active as usize]
        } else {
            None
        }
    }
}

/// Where the active index stands after the just-pressed keys are applied
/// in order: each digit key selects its slot, later presses win, and
/// non-digit keys change nothing.
pub open spec fn spec_active_after(a0: u8, keys: Seq<KeyInput>) -> u8
    decreases keys.len(),
{
    if keys.len() == 0 {
        a0
    } else {
        match spec_slot_of(keys.last()) {
            Some(d) => d,
            None => spec_active_after(a0, keys.drop_last()),
        }
    }
}

/// Applies this tick's just-pressed keys to the kit's active-slot index.
/// The equipped slots are untouched.
pub fn player_change_kit(kit: &mut ToolKit, keys: &Vec<KeyInput>)
    ensures
        final(kit).slots == old(kit).slots,
        final(kit).active == spec_active_after(old(kit).active, keys@),
{
    let n = keys.len();
    let mut i: usize = 0;
    while i < n
        invariant
            i <= n,
            n == keys.len(),
            kit.slots == old(kit).slots,
            kit.active == spec_active_after(old(kit).active, keys@.take(i as int)),
        decreases n - i,
    {
        match keys[i] {
            KeyInput::Digit1 => kit.active = 0,
            KeyInput::Digit2 => kit.active = 1,
            KeyInput::Digit3 => kit.active = 2,
            KeyInput::Digit4 => kit.active = 3,
            KeyInput::Digit5 => kit.active = 4,
            KeyInput::Digit6 => kit.active = 5,
            KeyInput::Digit7 => kit.active = 6,
            KeyInput::Digit8 => kit.active = 7,
            KeyInput::Digit9 => kit.active = 8,
            _ => {}
        }
        proof {
            assert(keys@.take(i + 1).drop_last() =~= keys@.take(i as int));
            assert(keys@.take(i + 1).last() == keys@[i as int]);
        }
        i = i + 1;
    }
    proof {
        assert(keys@.take(n as int) =~= keys@);
    }
}

/// Turns this tick's cast input into at most one cast request: pressing
/// the cast key with an equipped active slot names that skill and the
/// caster; otherwise no request is produced.
pub fn player_use_kit(user: u64, kit: &ToolKit, cast_pressed: bool) -> (r: Option<TryTool>)
    ensures
        r == (if cast_pressed {
            match kit.spec_get_active() {
                Some(tool) => Some(TryTool { tool, user }),
                None => None::<TryTool>,
            }
        } else {
            None::<TryTool>
        }),
{
    if !cast_pressed {
        return None;
    }
    match kit.get_active() {
        Some(tool) => Some(TryTool { tool, user }),
        None => None,
    }
}

} // verus!
