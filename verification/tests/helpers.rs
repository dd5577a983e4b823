use state_machine_atm::atm::{calculate_withdrawal_amount, Atm, Auth, Key};

#[test]
fn amount_of_a_single_digit() {
    assert_eq!(calculate_withdrawal_amount(&[Key::One]), Some(1));
    assert_eq!(calculate_withdrawal_amount(&[Key::Four]), Some(4));
}

#[test]
fn amount_concatenates_digits_in_insertion_order() {
    assert_eq!(calculate_withdrawal_amount(&[Key::One, Key::Four]), Some(14));
    assert_eq!(calculate_withdrawal_amount(&[Key::Four, Key::One]), Some(41));
    assert_eq!(
        calculate_withdrawal_amount(&[Key::Two, Key::Three, Key::Four]),
        Some(234)
    );
}

#[test]
fn amount_of_an_empty_register_is_none() {
    assert_eq!(calculate_withdrawal_amount(&[]), None);
}

#[test]
fn amount_stops_at_the_first_enter() {
    assert_eq!(
        calculate_withdrawal_amount(&[Key::One, Key::Enter, Key::Four]),
        Some(1)
    );
    assert_eq!(calculate_withdrawal_amount(&[Key::Enter, Key::Four]), None);
}

#[test]
fn amount_too_large_for_a_word_is_none() {
    // Twenty digits of 4 spell a 20-digit decimal number, beyond u64::MAX.
    let register = vec![Key::Four; 20];
    assert_eq!(calculate_withdrawal_amount(&register), None);

    // Nineteen digits still fit.
    let register = vec![Key::One; 19];
    assert_eq!(calculate_withdrawal_amount(&register), Some(1111111111111111111));
}

#[test]
fn with_cash_inside_keeps_the_phase_and_clears_the_register() {
    let state = Atm {
        cash_inside: 10,
        expected_pin_hash: Auth::Authenticating(77),
        keystroke_register: vec![Key::Two, Key::Two],
    };
    let updated = state.with_cash_inside(3);
    let expected = Atm {
        cash_inside: 3,
        expected_pin_hash: Auth::Authenticating(77),
        keystroke_register: Vec::new(),
    };

    assert_eq!(updated, expected);
}

#[test]
fn keys_carry_their_printed_label() {
    assert_eq!(Key::One.label(), "1");
    assert_eq!(Key::Two.label(), "2");
    assert_eq!(Key::Three.label(), "3");
    assert_eq!(Key::Four.label(), "4");
    assert_eq!(Key::Enter.label(), "Enter");
}

#[test]
fn default_phase_is_waiting() {
    assert_eq!(Auth::default(), Auth::Waiting);
}
