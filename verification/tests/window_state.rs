use desktop_config::window_state_flags;
use desktop_config::StateFlags;
use desktop_config::WindowAttribute;

#[test]
fn persisted_set_holds_the_four_attributes() {
    let flags = window_state_flags();
    assert!(flags.contains(WindowAttribute::Position));
    assert!(flags.contains(WindowAttribute::Size));
    assert!(flags.contains(WindowAttribute::Maximized));
    assert!(flags.contains(WindowAttribute::Fullscreen));
}

#[test]
fn persisted_set_leaves_out_decorations_and_visibility() {
    let flags = window_state_flags();
    assert!(!flags.contains(WindowAttribute::Decorations));
    assert!(!flags.contains(WindowAttribute::Visible));
}

#[test]
fn persisted_set_is_the_union_of_the_four() {
    let expected = StateFlags::of(WindowAttribute::Position)
        .union(StateFlags::of(WindowAttribute::Size))
        .union(StateFlags::of(WindowAttribute::Maximized))
        .union(StateFlags::of(WindowAttribute::Fullscreen));
    assert_eq!(window_state_flags(), expected);
}

#[test]
fn persisted_set_has_bits_39() {
    let bits: u32 = window_state_flags().bits();
    assert_eq!(bits, 0b10_0111);
}

#[test]
fn persisted_set_is_less_than_all() {
    let flags = window_state_flags();
    let all = StateFlags::all();
    assert_ne!(flags, all);
    assert_eq!(flags.union(all), all);
    assert_eq!(flags.difference(all).bits(), 0);
}

#[test]
fn two_calls_return_the_same_set() {
    let first = window_state_flags();
    let second = window_state_flags();
    assert_eq!(first, second);
    assert_eq!(first.bits(), second.bits());
}

#[test]
fn leaving_out_again_changes_nothing() {
    let flags = window_state_flags();
    let again = flags
        .difference(StateFlags::of(WindowAttribute::Decorations))
        .difference(StateFlags::of(WindowAttribute::Visible));
    assert_eq!(again, flags);
}

#[test]
fn all_holds_every_attribute() {
    let all = StateFlags::all();
    assert!(all.contains(WindowAttribute::Size));
    assert!(all.contains(WindowAttribute::Position));
    assert!(all.contains(WindowAttribute::Maximized));
    assert!(all.contains(WindowAttribute::Visible));
    assert!(all.contains(WindowAttribute::Decorations));
    assert!(all.contains(WindowAttribute::Fullscreen));
    assert_eq!(all.bits(), 63);
}

#[test]
fn each_attribute_has_its_bit() {
    assert_eq!(WindowAttribute::Size.bit(), 1);
    assert_eq!(WindowAttribute::Position.bit(), 2);
    assert_eq!(WindowAttribute::Maximized.bit(), 4);
    assert_eq!(WindowAttribute::Visible.bit(), 8);
    assert_eq!(WindowAttribute::Decorations.bit(), 16);
    assert_eq!(WindowAttribute::Fullscreen.bit(), 32);
}

#[test]
fn set_of_one_attribute_holds_only_it() {
    let flags = StateFlags::of(WindowAttribute::Visible);
    assert!(flags.contains(WindowAttribute::Visible));
    assert!(!flags.contains(WindowAttribute::Size));
    assert!(!flags.contains(WindowAttribute::Position));
    assert!(!flags.contains(WindowAttribute::Maximized));
    assert!(!flags.contains(WindowAttribute::Decorations));
    assert!(!flags.contains(WindowAttribute::Fullscreen));
    assert_eq!(flags.bits(), 8);
}

#[test]
fn union_holds_the_attributes_of_both() {
    let size_and_position =
        StateFlags::of(WindowAttribute::Size).union(StateFlags::of(WindowAttribute::Position));
    let position_and_visible =
        StateFlags::of(WindowAttribute::Position).union(StateFlags::of(WindowAttribute::Visible));
    let both = size_and_position.union(position_and_visible);
    assert_eq!(both.bits(), 1 + 2 + 8);
    assert_eq!(both, position_and_visible.union(size_and_position));
}

#[test]
fn difference_removes_only_what_the_other_holds() {
    let size_and_position =
        StateFlags::of(WindowAttribute::Size).union(StateFlags::of(WindowAttribute::Position));
    let position_and_visible =
        StateFlags::of(WindowAttribute::Position).union(StateFlags::of(WindowAttribute::Visible));
    let left = size_and_position.difference(position_and_visible);
    assert_eq!(left, StateFlags::of(WindowAttribute::Size));
    let right = position_and_visible.difference(size_and_position);
    assert_eq!(right, StateFlags::of(WindowAttribute::Visible));
    assert_eq!(size_and_position.difference(size_and_position).bits(), 0);
}
