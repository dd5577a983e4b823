//! Laws of the ATM transition function, each stated over the mathematical
//! model and proved once for every state and event.

use vstd::prelude::*;

use crate::atm::atm_next;
use crate::atm::spec_hash;
use crate::atm::spec_withdrawal_amount;
use crate::atm::Action;
use crate::atm::AtmView;
use crate::atm::Auth;
use crate::atm::Key;

verus! {

/// The (phase, event) pairs the protocol table gives an effect for; every
/// other pair is absorbed into an explicit no-op.
pub open spec fn covered_by_table(s: AtmView, t: Action) -> bool {
    match (s.expected_pin_hash, t) {
        (Auth::Waiting, Action::SwipeCard(_)) => true,
        (Auth::Authenticating(_), Action::PressKey(_)) => true,
        (Auth::Authenticated, Action::PressKey(_)) => true,
        _ => false,
    }
}

/// A session state is well formed when the keystroke register is non-empty
/// only while the phase is `Authenticating` or `Authenticated`.
pub open spec fn wf(s: AtmView) -> bool {
    s.expected_pin_hash is Waiting ==> s.keystroke_register.len() == 0
}

/// Swiping a card mid-authentication is ignored: the originally captured
/// credential is retained and nothing at all changes, whatever the new
/// card's fingerprint and whatever keystrokes have accumulated.
pub proof fn lemma_swipe_mid_authentication_ignored(s: AtmView, c: u64)
    requires
        s.expected_pin_hash is Authenticating,
    ensures
        atm_next(s, Action::SwipeCard(c)) == s,
{
}

/// A keypad press before any card swipe leaves the state completely
/// unchanged.
pub proof fn lemma_press_before_swipe_ignored(s: AtmView, k: Key)
    requires
        s.expected_pin_hash is Waiting,
    ensures
        atm_next(s, Action::PressKey(k)) == s,
{
}

/// Pressing a digit key while authenticating or authenticated appends that
/// digit to the keystroke register; the phase and the cash inside are
/// untouched.
pub proof fn lemma_digit_press_appends(s: AtmView, k: Key)
    requires
        s.expected_pin_hash is Authenticating || s.expected_pin_hash is Authenticated,
        k.is_digit(),
    ensures
        atm_next(s, Action::PressKey(k)) == (AtmView {
            keystroke_register: s.keystroke_register.push(k),
            ..s
        }),
{
}

/// Correct-credential acceptance: when the stored credential equals the
/// fingerprint of the current keystroke register, `Enter` unlocks the
/// session — phase `Authenticated`, register cleared, cash untouched.
pub proof fn lemma_correct_pin_accepted(s: AtmView)
    requires
        s.expected_pin_hash == Auth::Authenticating(spec_hash(s.keystroke_register)),
    ensures
        atm_next(s, Action::PressKey(Key::Enter)) == (AtmView {
            cash_inside: s.cash_inside,
            expected_pin_hash: Auth::Authenticated,
            keystroke_register: Seq::empty(),
        }),
{
}

/// Wrong-credential rejection: when the stored credential differs from the
/// fingerprint of the current keystroke register, `Enter` resets the phase
/// to `Waiting` with the register cleared and the cash untouched.
pub proof fn lemma_wrong_pin_rejected(s: AtmView, expected: u64)
    requires
        s.expected_pin_hash == Auth::Authenticating(expected),
        expected != spec_hash(s.keystroke_register),
    ensures
        atm_next(s, Action::PressKey(Key::Enter)) == (AtmView {
            cash_inside: s.cash_inside,
            expected_pin_hash: Auth::Waiting,
            keystroke_register: Seq::empty(),
        }),
{
}

/// Withdrawal within funds: when the register spells a valid amount no
/// larger than the cash inside, `Enter` dispenses exactly that amount and
/// ends the session.
pub proof fn lemma_withdrawal_within_funds(s: AtmView, amount: u64)
    requires
        s.expected_pin_hash is Authenticated,
        spec_withdrawal_amount(s.keystroke_register) == Some(amount),
        amount <= s.cash_inside,
    ensures
        atm_next(s, Action::PressKey(Key::Enter)) == (AtmView {
            cash_inside: (s.cash_inside - amount) as u64,
            expected_pin_hash: Auth::Waiting,
            keystroke_register: Seq::empty(),
        }),
{
}

/// Rejected withdrawal: when the register spells no valid amount, or one
/// beyond the cash inside, `Enter` still ends the session — phase reset,
/// register cleared — but no cash leaves the machine.
pub proof fn lemma_withdrawal_rejected(s: AtmView)
    requires
        s.expected_pin_hash is Authenticated,
        (match spec_withdrawal_amount(s.keystroke_register) {
            Some(amount) => amount > s.cash_inside,
            None => true,
        }),
    ensures
        atm_next(s, Action::PressKey(Key::Enter)) == (AtmView {
            cash_inside: s.cash_inside,
            expected_pin_hash: Auth::Waiting,
            keystroke_register: Seq::empty(),
        }),
{
}

/// Totality of the no-op branch: any (phase, event) pair the protocol table
/// does not cover returns a state equal, by value, to the input state.
pub proof fn lemma_uncovered_is_noop(s: AtmView, t: Action)
    requires
        !covered_by_table(s, t),
    ensures
        atm_next(s, t) == s,
{
}

/// Every transition preserves well-formedness: starting from a well-formed
/// state, the next state is well formed again.
pub proof fn lemma_wf_preserved(s: AtmView, t: Action)
    requires
        wf(s),
    ensures
        wf(atm_next(s, t)),
{
}

} // verus!
