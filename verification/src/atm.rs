//! The concrete ATM machine: its keypad, its input events, its session state,
//! and the transition function implementing authentication and withdrawal.

use vstd::prelude::*;

use crate::traits::StateMachine;

verus! {

/// The keys on the ATM keypad.
#[derive(Clone, Copy, Debug, PartialEq, Eq)]
pub enum Key {
    One,
    Two,
    Three,
    Four,
    Enter,
}

/// Something you can do to the ATM.
#[derive(Clone, Copy, Debug)]
pub enum Action {
    SwipeCard(u64),
    PressKey(Key),
}

/// The various states of authentication possible with the ATM.
#[derive(Clone, Copy, Debug, PartialEq, Eq)]
pub enum Auth {
    Waiting,
    Authenticating(u64),
    Authenticated,
}

/// The full session state of the machine: cash inventory, authentication
/// phase, and the keystrokes entered since the last phase-clearing event.
#[derive(Clone, Debug, PartialEq, Eq)]
pub struct Atm {
    pub cash_inside: u64,
    pub expected_pin_hash: Auth,
    pub keystroke_register: Vec<Key>,
}

/// The mathematical model of a session state: the same three components,
/// with the keystroke register as a sequence.
#[verifier::ext_equal]
pub ghost struct AtmView {
    pub cash_inside: u64,
    pub expected_pin_hash: Auth,
    pub keystroke_register: Seq<Key>,
}

impl View for Atm {
    type V = AtmView;

    open spec fn view(&self) -> AtmView {
        AtmView {
            cash_inside: self.cash_inside,
            expected_pin_hash: self.expected_pin_hash,
            keystroke_register: self.keystroke_register@,
        }
    }
}

impl Key {
    /// Whether this key is one of the digit keys (everything but `Enter`).
    pub open spec fn spec_is_digit(&self) -> bool {
        !(*self is Enter)
    }

    /// Executable twin of [`Key::spec_is_digit`].
    #[verifier::when_used_as_spec(spec_is_digit)]
    pub fn is_digit(&self) -> (r: bool)
        ensures
            r == self.spec_is_digit(),
    {
        match self {
            Key::Enter => false,
            _ => true,
        }
    }

    /// Numeric code of a key: digit keys carry their digit value, and
    /// `Enter` gets a code of its own so that every key hashes distinctly.
    pub open spec fn spec_code(&self) -> u64 {
        match self {
            Key::One => 1,
            Key::Two => 2,
            Key::Three => 3,
            Key::Four => 4,
            Key::Enter => 5,
        }
    }

    /// The text printed on a key: each digit key shows its digit, and the
    /// confirmation key is spelled out.
    pub open spec fn spec_label(&self) -> Seq<char> {
        match self {
            Key::One => seq!['1'],
            Key::Two => seq!['2'],
            Key::Three => seq!['3'],
            Key::Four => seq!['4'],
            Key::Enter => seq!['E', 'n', 't', 'e', 'r'],
        }
    }

    /// Executable twin of [`Key::spec_label`].
    pub fn label(&self) -> (r: &'static str)
        ensures
            r@ == self.spec_label(),
    {
        match self {
            Key::One => {
                let s = "1";
                proof {
                    reveal_strlit("1");
                    assert(s@ =~= seq!['1']);
                }
                s
            },
            Key::Two => {
                let s = "2";
                proof {
                    reveal_strlit("2");
                    assert(s@ =~= seq!['2']);
                }
                s
            },
            Key::Three => {
                let s = "3";
                proof {
                    reveal_strlit("3");
                    assert(s@ =~= seq!['3']);
                }
                s
            },
            Key::Four => {
                let s = "4";
                proof {
                    reveal_strlit("4");
                    assert(s@ =~= seq!['4']);
                }
                s
            },
            Key::Enter => {
                let s = "Enter";
                proof {
                    reveal_strlit("Enter");
                    assert(s@ =~= seq!['E', 'n', 't', 'e', 'r']);
                }
                s
            },
        }
    }

    /// Executable twin of [`Key::spec_code`].
    #[verifier::when_used_as_spec(spec_code)]
    pub fn code(&self) -> (r: u64)
        ensures
            r == self.spec_code(),
    {
        match self {
            Key::One => 1,
            Key::Two => 2,
            Key::Three => 3,
            Key::Four => 4,
            Key::Enter => 5,
        }
    }
}

/// Seed of the keystroke fingerprint fold.
pub const HASH_SEED: u64 = 0xcbf29ce484222325;

/// Multiplier of the keystroke fingerprint fold.
pub const HASH_FACTOR: u64 = 1099511628211;

/// Fingerprint of a key sequence: a left fold of a wrapping
/// multiply-and-add over the key codes. A stand-in for a real credential
/// digest; the machine only ever compares fingerprints for equality.
pub open spec fn spec_hash(keys: Seq<Key>) -> u64
    decreases keys.len(),
{
    if keys.len() == 0 {
        HASH_SEED
    } else {
        spec_hash(keys.drop_last()).wrapping_mul(HASH_FACTOR).wrapping_add(
            keys.last().spec_code(),
        )
    }
}

/// Number of digit keys at the front of the register, before the first
/// `Enter`.
pub open spec fn digit_prefix_len(keys: Seq<Key>) -> int
    decreases keys.len(),
{
    if keys.len() == 0 || !keys[0].is_digit() {
        0
    } else {
        1 + digit_prefix_len(keys.drop_first())
    }
}

/// The digit keys preceding the first `Enter` in the register.
pub open spec fn digit_prefix(keys: Seq<Key>) -> Seq<Key> {
    keys.subrange(0, digit_prefix_len(keys))
}

/// Decimal value of a sequence of digit keys, most significant digit first.
pub open spec fn seq_value(digits: Seq<Key>) -> int
    decreases digits.len(),
{
    if digits.len() == 0 {
        0
    } else {
        seq_value(digits.drop_last()) * 10 + digits.last().spec_code()
    }
}

/// The amount the keystroke register asks to withdraw: the decimal number
/// spelled by the digits before the first `Enter`. An empty digit run, or a
/// value too large for the machine's word size, yields no valid amount.
pub open spec fn spec_withdrawal_amount(keys: Seq<Key>) -> Option<u64> {
    if digit_prefix(keys).len() == 0 || seq_value(digit_prefix(keys)) > u64::MAX {
        None
    } else {
        Some(seq_value(digit_prefix(keys)) as u64)
    }
}

/// The digit-prefix length is in bounds, everything before it is a digit,
/// and the key at it (if any) is `Enter`.
proof fn lemma_digit_prefix_len_props(keys: Seq<Key>)
    ensures
        0 <= digit_prefix_len(keys) <= keys.len(),
        forall|j: int| 0 <= j < digit_prefix_len(keys) ==> keys[j].is_digit(),
        digit_prefix_len(keys) < keys.len() ==> !keys[digit_prefix_len(keys)].is_digit(),
    decreases keys.len(),
{
    if keys.len() > 0 && keys[0].is_digit() {
        lemma_digit_prefix_len_props(keys.drop_first());
        assert forall|j: int| 0 <= j < digit_prefix_len(keys) implies keys[j].is_digit() by {
            if j >= 1 {
                assert(keys.drop_first()[j - 1].is_digit());
            }
        }
    }
}

/// A decimal value is never negative.
proof fn lemma_seq_value_nonneg(digits: Seq<Key>)
    ensures
        seq_value(digits) >= 0,
    decreases digits.len(),
{
    if digits.len() > 0 {
        lemma_seq_value_nonneg(digits.drop_last());
    }
}

/// Extending a digit run never shrinks its decimal value.
proof fn lemma_seq_value_prefix_monotone(digits: Seq<Key>, i: int, j: int)
    requires
        0 <= i <= j <= digits.len(),
    ensures
        seq_value(digits.subrange(0, i)) <= seq_value(digits.subrange(0, j)),
    decreases j - i,
{
    if i < j {
        lemma_seq_value_prefix_monotone(digits, i, j - 1);
        assert(digits.subrange(0, j).drop_last() =~= digits.subrange(0, j - 1));
        lemma_seq_value_nonneg(digits.subrange(0, j - 1));
    }
}

/// Scans the keystroke register in insertion order and parses the digits
/// preceding the first `Enter` as a decimal amount, exactly as
/// [`spec_withdrawal_amount`] defines it.
pub fn calculate_withdrawal_amount(keystroke_register: &[Key]) -> (r: Option<u64>)
    ensures
        r == spec_withdrawal_amount(keystroke_register@),
{
    let ghost keys = keystroke_register@;
    let ghost l = digit_prefix_len(keys);
    proof {
        lemma_digit_prefix_len_props(keys);
    }
    let mut amount: u64 = 0;
    let mut i: usize = 0;
    while i < keystroke_register.len() && keystroke_register[i].is_digit()
        invariant
            keys == keystroke_register@,
            l == digit_prefix_len(keys),
            0 <= l <= keys.len(),
            forall|j: int| 0 <= j < l ==> keys[j].is_digit(),
            l < keys.len() ==> !keys[l].is_digit(),
            0 <= i <= l,
            amount == seq_value(keys.subrange(0, i as int)),
        decreases keys.len() - i,
    {
        let d = keystroke_register[i].code();
        proof {
            assert(keys.subrange(0, i + 1).drop_last() =~= keys.subrange(0, i as int));
            assert(keys.subrange(0, i + 1).last() == keys[i as int]);
            if i + 1 > l {
                assert(keys[l].is_digit());
            }
        }
        let stepped = amount.checked_mul(10);
        let next = match stepped {
            Some(m) => m.checked_add(d),
            None => None,
        };
        match next {
            Some(v) => {
                amount = v;
                i = i + 1;
            },
            None => {
                proof {
                    lemma_seq_value_prefix_monotone(keys, i + 1, l);
                    assert(keys.subrange(0, l) =~= digit_prefix(keys));
                }
                return None;
            },
        }
    }
    proof {
        assert(i == l);
        assert(keys.subrange(0, l) =~= digit_prefix(keys));
    }
    if i == 0 {
        None
    } else {
        Some(amount)
    }
}

/// Computes the fingerprint of a sequence of keypad keys, exactly as
/// [`spec_hash`] defines it.
pub fn hash(keys: &Vec<Key>) -> (r: u64)
    ensures
        r == spec_hash(keys@),
{
    let mut h: u64 = HASH_SEED;
    let mut i: usize = 0;
    while i < keys.len()
        invariant
            i <= keys.len(),
            h == spec_hash(keys@.subrange(0, i as int)),
        decreases keys.len() - i,
    {
        proof {
            assert(keys@.subrange(0, i + 1).drop_last() =~= keys@.subrange(0, i as int));
            assert(keys@.subrange(0, i + 1).last() == keys@[i as int]);
        }
        h = h.wrapping_mul(HASH_FACTOR).wrapping_add(keys[i].code());
        i = i + 1;
    }
    proof {
        assert(keys@.subrange(0, keys@.len() as int) =~= keys@);
    }
    h
}

impl Default for Auth {
    /// The initial phase: no card inserted.
    fn default() -> (r: Self)
        ensures
            r == Auth::Waiting,
    {
        Auth::Waiting
    }
}

/// A copy of a keystroke register.
fn copy_register(keys: &Vec<Key>) -> (r: Vec<Key>)
    ensures
        r@ == keys@,
{
    let mut r: Vec<Key> = Vec::new();
    let mut i: usize = 0;
    while i < keys.len()
        invariant
            i <= keys.len(),
            r@ == keys@.subrange(0, i as int),
        decreases keys.len() - i,
    {
        proof {
            assert(keys@.subrange(0, i + 1) =~= keys@.subrange(0, i as int).push(keys@[i as int]));
        }
        r.push(keys[i]);
        i = i + 1;
    }
    proof {
        assert(keys@.subrange(0, keys@.len() as int) =~= keys@);
    }
    r
}

/// The ATM transition function over the mathematical model, one row per
/// entry of the protocol table:
///
/// - `Waiting` + swipe: capture the card's credential and start
///   authenticating; nothing else changes.
/// - `Authenticating` + digit: append the digit to the register.
/// - `Authenticating` + `Enter`: clear the register; become `Authenticated`
///   if the register's fingerprint equals the stored credential, else fall
///   back to `Waiting`. Cash is untouched.
/// - `Authenticated` + digit: append the digit to the register.
/// - `Authenticated` + `Enter`: clear the register and fall back to
///   `Waiting`; if the register spelled a valid amount no larger than the
///   cash inside, that amount is dispensed, otherwise the cash is untouched.
/// - Every other pair is a no-op: the state comes back unchanged.
pub open spec fn atm_next(s: AtmView, t: Action) -> AtmView {
    match (s.expected_pin_hash, t) {
        (Auth::Waiting, Action::SwipeCard(pin_hash)) => AtmView {
            expected_pin_hash: Auth::Authenticating(pin_hash),
            ..s
        },
        (Auth::Authenticating(expected), Action::PressKey(Key::Enter)) => AtmView {
            expected_pin_hash: if spec_hash(s.keystroke_register) == expected {
                Auth::Authenticated
            } else {
                Auth::Waiting
            },
            keystroke_register: Seq::empty(),
            ..s
        },
        (Auth::Authenticating(_), Action::PressKey(k)) => AtmView {
            keystroke_register: s.keystroke_register.push(k),
            ..s
        },
        (Auth::Authenticated, Action::PressKey(Key::Enter)) => AtmView {
            cash_inside: match spec_withdrawal_amount(s.keystroke_register) {
                Some(amount) => if amount <= s.cash_inside {
                    (s.cash_inside - amount) as u64
                } else {
                    s.cash_inside
                },
                None => s.cash_inside,
            },
            expected_pin_hash: Auth::Waiting,
            keystroke_register: Seq::empty(),
        },
        (Auth::Authenticated, Action::PressKey(k)) => AtmView {
            keystroke_register: s.keystroke_register.push(k),
            ..s
        },
        _ => s,
    }
}

impl Atm {
    /// A copy of this state with the given cash amount, the same phase, and
    /// a cleared keystroke register.
    pub fn with_cash_inside(&self, cash_inside: u64) -> (r: Atm)
        ensures
            r.cash_inside == cash_inside,
            r.expected_pin_hash == self.expected_pin_hash,
            r.keystroke_register@ == Seq::<Key>::empty(),
    {
        Atm {
            cash_inside,
            expected_pin_hash: self.expected_pin_hash,
            keystroke_register: Vec::new(),
        }
    }
}

impl StateMachine for Atm {
    type State = Atm;

    type Transition = Action;

    open spec fn spec_next(s: AtmView, t: Action) -> AtmView {
        atm_next(s, t)
    }

    fn next_state(starting_state: &Atm, t: &Action) -> (r: Atm) {
        let r = match (starting_state.expected_pin_hash, *t) {
            (Auth::Waiting, Action::SwipeCard(pin_hash)) => Atm {
                cash_inside: starting_state.cash_inside,
                expected_pin_hash: Auth::Authenticating(pin_hash),
                keystroke_register: copy_register(&starting_state.keystroke_register),
            },
            (Auth::Authenticating(expected), Action::PressKey(Key::Enter)) => {
                let current_hash = hash(&starting_state.keystroke_register);
                Atm {
                    cash_inside: starting_state.cash_inside,
                    expected_pin_hash: if current_hash == expected {
                        Auth::Authenticated
                    } else {
                        Auth::Waiting
                    },
                    keystroke_register: Vec::new(),
                }
            },
            (Auth::Authenticating(_), Action::PressKey(k)) => {
                let mut register = copy_register(&starting_state.keystroke_register);
                register.push(k);
                Atm {
                    cash_inside: starting_state.cash_inside,
                    expected_pin_hash: starting_state.expected_pin_hash,
                    keystroke_register: register,
                }
            },
            (Auth::Authenticated, Action::PressKey(Key::Enter)) => {
                let amount = calculate_withdrawal_amount(
                    starting_state.keystroke_register.as_slice(),
                );
                let cash_inside = match amount {
                    Some(amount) => if amount <= starting_state.cash_inside {
                        starting_state.cash_inside - amount
                    } else {
                        starting_state.cash_inside
                    },
                    None => starting_state.cash_inside,
                };
                Atm {
                    cash_inside,
                    expected_pin_hash: Auth::Waiting,
                    keystroke_register: Vec::new(),
                }
            },
            (Auth::Authenticated, Action::PressKey(k)) => {
                let mut register = copy_register(&starting_state.keystroke_register);
                register.push(k);
                Atm {
                    cash_inside: starting_state.cash_inside,
                    expected_pin_hash: starting_state.expected_pin_hash,
                    keystroke_register: register,
                }
            },
            _ => Atm {
                cash_inside: starting_state.cash_inside,
                expected_pin_hash: starting_state.expected_pin_hash,
                keystroke_register: copy_register(&starting_state.keystroke_register),
            },
        };
        proof {
            assert(r@ =~= atm_next(starting_state@, *t));
        }
        r
    }
}

} // verus!
