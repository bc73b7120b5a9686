use counter_doom::{player_change_kit, player_use_kit, KeyInput, ToolKit, TryTool};

#[test]
fn new_kit_equips_in_order_and_activates_slot_zero() {
    let kit = ToolKit::new(vec![41, 42]);
    assert_eq!(kit.active, 0);
    assert_eq!(kit.slots[0], Some(41));
    assert_eq!(kit.slots[1], Some(42));
    for i in 2..9 {
        assert_eq!(kit.slots[i], None);
    }
    assert_eq!(kit.get_active(), Some(41));
}

#[test]
fn new_kit_drops_everything_past_nine() {
    let kit = ToolKit::new((100..115).collect());
    for i in 0..9u64 {
        assert_eq!(kit.slots[i as usize], Some(100 + i));
    }
}

#[test]
fn digit_keys_select_slots_and_the_last_press_wins() {
    let mut kit = ToolKit::new(vec![7, 8, 9]);
    player_change_kit(&mut kit, &vec![KeyInput::Digit3]);
    assert_eq!(kit.active, 2);
    assert_eq!(kit.get_active(), Some(9));
    player_change_kit(&mut kit, &vec![KeyInput::Digit9, KeyInput::Other, KeyInput::Digit2]);
    assert_eq!(kit.active, 1);
    assert_eq!(kit.get_active(), Some(8));
}

#[test]
fn non_digit_keys_leave_the_kit_alone() {
    let mut kit = ToolKit::new(vec![7]);
    let before = kit;
    player_change_kit(
        &mut kit,
        &vec![KeyInput::Cast, KeyInput::MoveUp, KeyInput::MoveLeft, KeyInput::Other],
    );
    assert_eq!(kit, before);
}

#[test]
fn an_unequipped_or_out_of_range_slot_yields_nothing() {
    let mut kit = ToolKit::new(vec![7]);
    player_change_kit(&mut kit, &vec![KeyInput::Digit5]);
    assert_eq!(kit.get_active(), None);
    let stray = ToolKit { slots: [None; 9], active: 12 };
    assert_eq!(stray.get_active(), None);
}

#[test]
fn the_cast_key_names_the_active_tool_and_the_user() {
    let kit = ToolKit::new(vec![41, 42]);
    assert_eq!(player_use_kit(5, &kit, true), Some(TryTool { tool: 41, user: 5 }));
    assert_eq!(player_use_kit(5, &kit, false), None);
    let empty = ToolKit::new(vec![]);
    assert_eq!(player_use_kit(5, &empty, true), None);
}
