//! The keyboard: the set of keys that are currently held down.

use vstd::prelude::*;
use crate::input::nes::Nes;
use crate::input::{InputCombine, InputConvert, InputDevice, InputDeviceType, InputDeviceView};

verus! {

/// Key and scan codes.
#[derive(Debug, Clone, Copy, PartialEq, Eq, Structural)]
pub enum KeyCode {
    _1,
    _2,
    _3,
    _4,
    _5,
    _6,
    _7,
    _8,
    _9,
    _0,
    A,
    B,
    C,
    D,
    E,
    F,
    G,
    H,
    I,
    J,
    K,
    L,
    M,
    N,
    O,
    P,
    Q,
    R,
    S,
    T,
    U,
    V,
    W,
    X,
    Y,
    Z,
    Up,
    Down,
    Left,
    Right,
    Enter,
    Tab,
    LeftBracket,
    RightBracket,
    Slash,
    Backslash,
    Comma,
    Period,
    Semicolon,
    Quote,
}

/// A key that can be pressed on a keyboard: where it sits (the scan code,
/// which no locale changes) and what it produces (the key code, which the
/// locale decides).
#[derive(Debug, Clone, Copy, PartialEq, Eq, Structural)]
pub struct Key {
    pub scan_code: KeyCode,
    pub key_code: KeyCode,
}

impl Key {
    /// Create a key from a scan code and a key code.
    pub fn new(scan_code: KeyCode, key_code: KeyCode) -> (key: Key)
        ensures
            key.scan_code == scan_code,
            key.key_code == key_code,
    {
        Key { scan_code, key_code }
    }

    /// The scan code of the key.
    pub fn scan_code(&self) -> (code: KeyCode)
        ensures
            code == self.scan_code,
    {
        self.scan_code
    }

    /// The key code of the key.
    pub fn key_code(&self) -> (code: KeyCode)
        ensures
            code == self.key_code,
    {
        self.key_code
    }
}

/// The keys held down, as a map from scan code to key code, when the keys in
/// `pressed` went down in that order: a later key replaces an earlier one with
/// the same scan code.
pub open spec fn keys_of(pressed: Seq<Key>) -> Map<KeyCode, KeyCode>
    decreases pressed.len(),
{
    if pressed.len() == 0 {
        Map::empty()
    } else {
        keys_of(pressed.drop_last()).insert(pressed.last().scan_code, pressed.last().key_code)
    }
}

/// No two keys of the sequence share a scan code.
pub open spec fn distinct_scan_codes(pressed: Seq<Key>) -> bool {
    forall|i: int, j: int|
        0 <= i < j < pressed.len() ==> pressed[i].scan_code != pressed[j].scan_code
}

/// The NES pad that a keyboard with the keys `keys` down stands for. Each
/// button has a fixed set of scan codes, and is pressed when any of them is.
pub open spec fn nes_of_keys(keys: Map<KeyCode, KeyCode>) -> Nes {
    Nes {
        a: keys.contains_key(KeyCode::K) || keys.contains_key(KeyCode::X) || keys.contains_key(
            KeyCode::J,
        ),
        b: keys.contains_key(KeyCode::J) || keys.contains_key(KeyCode::Z) || keys.contains_key(
            KeyCode::N,
        ),
        up: keys.contains_key(KeyCode::W) || keys.contains_key(KeyCode::Up) || keys.contains_key(
            KeyCode::F,
        ),
        down: keys.contains_key(KeyCode::S) || keys.contains_key(KeyCode::Down),
        left: keys.contains_key(KeyCode::A) || keys.contains_key(KeyCode::Left)
            || keys.contains_key(KeyCode::R),
        right: keys.contains_key(KeyCode::D) || keys.contains_key(KeyCode::Right)
            || keys.contains_key(KeyCode::T),
        start: keys.contains_key(KeyCode::Enter),
        select: keys.contains_key(KeyCode::Tab),
    }
}

/// A scan code is in `keys_of(pressed)` exactly when some key of `pressed` has it.
pub proof fn lemma_keys_of_dom(pressed: Seq<Key>, scan_code: KeyCode)
    ensures
        keys_of(pressed).contains_key(scan_code) <==> exists|i: int|
            0 <= i < pressed.len() && #[trigger] pressed[i].scan_code == scan_code,
    decreases pressed.len(),
{
    if pressed.len() > 0 {
        let init = pressed.drop_last();
        lemma_keys_of_dom(init, scan_code);
        if keys_of(pressed).contains_key(scan_code) {
            if pressed.last().scan_code == scan_code {
                assert(pressed[pressed.len() - 1].scan_code == scan_code);
            } else {
                let i = choose|i: int| 0 <= i < init.len() && #[trigger] init[i].scan_code == scan_code;
                assert(pressed[i].scan_code == scan_code);
            }
        }
        if exists|i: int| 0 <= i < pressed.len() && #[trigger] pressed[i].scan_code == scan_code {
            let i = choose|i: int|
                0 <= i < pressed.len() && #[trigger] pressed[i].scan_code == scan_code;
            if i < init.len() {
                assert(init[i].scan_code == scan_code);
            }
        }
    }
}

/// Where no two keys share a scan code, each key's scan code maps to its own key code.
pub proof fn lemma_keys_of_value(pressed: Seq<Key>, i: int)
    requires
        distinct_scan_codes(pressed),
        0 <= i < pressed.len(),
    ensures
        keys_of(pressed).contains_key(pressed[i].scan_code),
        keys_of(pressed)[pressed[i].scan_code] == pressed[i].key_code,
    decreases pressed.len(),
{
    let init = pressed.drop_last();
    if i < pressed.len() - 1 {
        assert(distinct_scan_codes(init)) by {
            assert forall|a: int, b: int| 0 <= a < b < init.len() implies init[a].scan_code
                != init[b].scan_code by {
                assert(pressed[a].scan_code != pressed[b].scan_code);
            }
        }
        lemma_keys_of_value(init, i);
        assert(init[i] == pressed[i]);
        assert(pressed[i].scan_code != pressed[pressed.len() - 1].scan_code);
    }
}

/// A keyboard: the keys that are currently held down, at most one for each
/// scan code. Its view is the map from each scan code that is down to the key
/// code it was pressed with.
#[derive(Debug)]
pub struct Keyboard {
    pressed: Vec<Key>,
}

impl View for Keyboard {
    type V = Map<KeyCode, KeyCode>;

    closed spec fn view(&self) -> Map<KeyCode, KeyCode> {
        keys_of(self.pressed@)
    }
}

impl Default for Keyboard {
    /// A keyboard with no key down.
    fn default() -> (keyboard: Keyboard)
        ensures
            keyboard@ == Map::<KeyCode, KeyCode>::empty(),
    {
        Keyboard { pressed: Vec::new() }
    }
}

impl Clone for Keyboard {
    fn clone(&self) -> (copy: Keyboard)
        ensures
            copy@ == self@,
    {
        proof {
            use_type_invariant(self);
        }
        let pressed = self.pressed.clone();
        assert(pressed@ =~= self.pressed@);
        Keyboard { pressed }
    }
}

impl Keyboard {
    #[verifier::type_invariant]
    spec fn well_formed(&self) -> bool {
        distinct_scan_codes(self.pressed@)
    }

    /// A keyboard with no key down.
    pub fn new() -> (keyboard: Keyboard)
        ensures
            keyboard@ == Map::<KeyCode, KeyCode>::empty(),
    {
        Keyboard { pressed: Vec::new() }
    }

    /// Record that a key went down. A key already down with the same scan
    /// code is replaced.
    pub fn key_down(&mut self, key: Key)
        ensures
            final(self)@ == old(self)@.insert(key.scan_code, key.key_code),
    {
        self.key_up(key.scan_code);
        proof {
            use_type_invariant(&*self);
            lemma_keys_of_dom(self.pressed@, key.scan_code);
        }
        let mut pressed = Vec::new();
        std::mem::swap(&mut pressed, &mut self.pressed);
        let ghost before = pressed@;
        pressed.push(key);
        proof {
            assert(pressed@.drop_last() =~= before);
            assert(old(self)@.remove(key.scan_code).insert(key.scan_code, key.key_code) =~= old(
                self,
            )@.insert(key.scan_code, key.key_code));
        }
        self.pressed = pressed;
    }

    /// Record that the key with this scan code went up.
    pub fn key_up(&mut self, scan_code: KeyCode)
        ensures
            final(self)@ == old(self)@.remove(scan_code),
    {
        proof {
            use_type_invariant(&*self);
        }
        let mut kept: Vec<Key> = Vec::new();
        let mut i: usize = 0;
        while i < self.pressed.len()
            invariant
                i <= self.pressed.len(),
                distinct_scan_codes(self.pressed@),
                distinct_scan_codes(kept@),
                forall|a: int|
                    0 <= a < kept.len() ==> exists|j: int|
                        0 <= j < i && self.pressed@[j] == #[trigger] kept@[a],
                keys_of(kept@) == keys_of(self.pressed@.take(i as int)).remove(scan_code),
            decreases self.pressed.len() - i,
        {
            let key = self.pressed[i];
            let ghost seen = self.pressed@.take(i as int);
            let ghost kept_before = kept@;
            proof {
                assert(self.pressed@.take(i + 1).drop_last() =~= seen);
            }
            if key.scan_code != scan_code {
                kept.push(key);
                proof {
                    assert(kept@.drop_last() =~= kept_before);
                    assert(keys_of(kept@) =~= keys_of(self.pressed@.take(i + 1)).remove(
                        scan_code,
                    ));
                    assert forall|a: int, b: int| 0 <= a < b < kept.len() implies kept@[a].scan_code
                        != kept@[b].scan_code by {
                        if b == kept.len() - 1 {
                            let j = choose|j: int|
                                0 <= j < i && self.pressed@[j] == kept_before[a];
                            assert(self.pressed@[j].scan_code != self.pressed@[i as int].scan_code);
                        } else {
                            assert(kept_before[a].scan_code != kept_before[b].scan_code);
                        }
                    }
                    assert forall|a: int| 0 <= a < kept.len() implies exists|j: int|
                        0 <= j < i + 1 && self.pressed@[j] == #[trigger] kept@[a] by {
                        if a == kept.len() - 1 {
                            assert(self.pressed@[i as int] == kept@[a]);
                        } else {
                            let j = choose|j: int|
                                0 <= j < i && self.pressed@[j] == kept_before[a];
                            assert(self.pressed@[j] == kept@[a]);
                        }
                    }
                }
            } else {
                proof {
                    assert(keys_of(kept@) =~= keys_of(self.pressed@.take(i + 1)).remove(
                        scan_code,
                    ));
                }
            }
            i += 1;
        }
        proof {
            assert(self.pressed@.take(i as int) =~= self.pressed@);
        }
        self.pressed = kept;
    }

    /// Whether the key with this scan code is down. The locale has no part in it.
    pub fn is_down_scan(&self, scan_code: KeyCode) -> (down: bool)
        ensures
            down == self@.contains_key(scan_code),
    {
        let mut i: usize = 0;
        while i < self.pressed.len()
            invariant
                i <= self.pressed.len(),
                forall|j: int| 0 <= j < i ==> self.pressed@[j].scan_code != scan_code,
            decreases self.pressed.len() - i,
        {
            if self.pressed[i].scan_code == scan_code {
                proof {
                    lemma_keys_of_dom(self.pressed@, scan_code);
                }
                return true;
            }
            i += 1;
        }
        proof {
            lemma_keys_of_dom(self.pressed@, scan_code);
        }
        false
    }

    /// Whether a key that produces this key code is down. The locale decides
    /// which keys do.
    pub fn is_down_key(&self, key_code: KeyCode) -> (down: bool)
        ensures
            down == self@.contains_value(key_code),
    {
        proof {
            use_type_invariant(self);
        }
        let mut i: usize = 0;
        while i < self.pressed.len()
            invariant
                i <= self.pressed.len(),
                distinct_scan_codes(self.pressed@),
                forall|j: int| 0 <= j < i ==> self.pressed@[j].key_code != key_code,
            decreases self.pressed.len() - i,
        {
            if self.pressed[i].key_code == key_code {
                proof {
                    lemma_keys_of_value(self.pressed@, i as int);
                }
                return true;
            }
            i += 1;
        }
        proof {
            if self@.contains_value(key_code) {
                let scan = choose|scan: KeyCode|
                    self@.contains_key(scan) && self@[scan] == key_code;
                lemma_keys_of_dom(self.pressed@, scan);
                let j = choose|j: int|
                    0 <= j < self.pressed@.len() && #[trigger] self.pressed@[j].scan_code == scan;
                lemma_keys_of_value(self.pressed@, j);
            }
        }
        false
    }

    /// The keys that are down, one for each scan code.
    pub fn pressed(&self) -> (keys: Vec<Key>)
        ensures
            distinct_scan_codes(keys@),
            keys_of(keys@) == self@,
    {
        proof {
            use_type_invariant(self);
        }
        let keys = self.pressed.clone();
        assert(keys@ =~= self.pressed@);
        keys
    }

    /// The NES pad that this keyboard stands for, by fixed key bindings.
    pub fn to_nes(&self) -> (nes: Nes)
        ensures
            nes == nes_of_keys(self@),
    {
        Nes {
            a: self.is_down_scan(KeyCode::K) || self.is_down_scan(KeyCode::X) || self.is_down_scan(
                KeyCode::J,
            ),
            b: self.is_down_scan(KeyCode::J) || self.is_down_scan(KeyCode::Z) || self.is_down_scan(
                KeyCode::N,
            ),
            up: self.is_down_scan(KeyCode::W) || self.is_down_scan(KeyCode::Up)
                || self.is_down_scan(KeyCode::F),
            down: self.is_down_scan(KeyCode::S) || self.is_down_scan(KeyCode::Down),
            left: self.is_down_scan(KeyCode::A) || self.is_down_scan(KeyCode::Left)
                || self.is_down_scan(KeyCode::R),
            right: self.is_down_scan(KeyCode::D) || self.is_down_scan(KeyCode::Right)
                || self.is_down_scan(KeyCode::T),
            start: self.is_down_scan(KeyCode::Enter),
            select: self.is_down_scan(KeyCode::Tab),
        }
    }
}

impl InputConvert for Keyboard {
    open spec fn affinity_of(state: Map<KeyCode, KeyCode>, device_type: InputDeviceType) -> Option<
        i32,
    > {
        InputDeviceView::Keyboard(state).affinity(device_type)
    }

    open spec fn conversion_of(
        state: Map<KeyCode, KeyCode>,
        device_type: InputDeviceType,
    ) -> Option<InputDeviceView> {
        InputDeviceView::Keyboard(state).convert(device_type)
    }

    fn affinity(&self, device_type: InputDeviceType) -> (score: Option<i32>) {
        match device_type {
            InputDeviceType::Nes => Some(2),
            InputDeviceType::Keyboard => Some(0),
            _ => None,
        }
    }

    fn convert(&self, device_type: InputDeviceType) -> (converted: Option<InputDevice>) {
        match device_type {
            InputDeviceType::Nes => Some(InputDevice::Nes(self.to_nes())),
            InputDeviceType::Keyboard => Some(InputDevice::Keyboard(self.clone())),
            _ => None,
        }
    }
}

impl InputCombine for Keyboard {
    open spec fn combination_of(
        state: Map<KeyCode, KeyCode>,
        with: Map<KeyCode, KeyCode>,
    ) -> Map<KeyCode, KeyCode> {
        state.union_prefer_right(with)
    }

    fn combine(&self, with: &Keyboard) -> (combined: Keyboard) {
        let mut result = self.clone();
        let mut i: usize = 0;
        assert(with.pressed@.take(0) =~= Seq::<Key>::empty());
        assert(self@.union_prefer_right(Map::<KeyCode, KeyCode>::empty()) =~= self@);
        while i < with.pressed.len()
            invariant
                i <= with.pressed.len(),
                result@ == self@.union_prefer_right(keys_of(with.pressed@.take(i as int))),
            decreases with.pressed.len() - i,
        {
            let key = with.pressed[i];
            result.key_down(key);
            proof {
                let seen = with.pressed@.take(i as int);
                assert(with.pressed@.take(i + 1).drop_last() =~= seen);
                assert(self@.union_prefer_right(keys_of(seen)).insert(key.scan_code, key.key_code)
                    =~= self@.union_prefer_right(keys_of(with.pressed@.take(i + 1))));
            }
            i += 1;
        }
        assert(with.pressed@.take(i as int) =~= with.pressed@);
        result
    }
}

} // verus!
