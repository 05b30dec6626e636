use vstd::prelude::*;

verus! {

/// The keys held down now, by their codes (`"ArrowRight"`).
#[derive(Clone, Debug)]
pub struct KeyState {
    pressed_keys: Vec<String>,
}

impl KeyState {
    /// The codes of the keys held down.
    pub closed spec fn keys(&self) -> Set<Seq<char>> {
        Set::new(|k: Seq<char>| exists|i: int| 0 <= i < self.pressed_keys@.len() && #[trigger] self.pressed_keys@[i]@ == k)
    }

    pub fn new() -> (r: Self)
        ensures
            r.keys() == Set::<Seq<char>>::empty(),
    {
        let r = KeyState { pressed_keys: Vec::new() };
        assert(r.keys() =~= Set::<Seq<char>>::empty());
        r
    }

    pub fn is_pressed(&self, key: &str) -> (r: bool)
        ensures
            r == self.keys().contains(key@),
    {
        let code = key.to_owned();
        let mut i: usize = 0;
        while i < self.pressed_keys.len()
            invariant
                i <= self.pressed_keys@.len(),
                code@ == key@,
                forall|j: int| 0 <= j < i ==> #[trigger] self.pressed_keys@[j]@ != key@,
            decreases self.pressed_keys@.len() - i,
        {
            if self.pressed_keys[i] == code {
                return true;
            }
            i = i + 1;
        }
        false
    }

    /// Records that the key `code` went down.
    pub fn set_pressed(&mut self, code: &str)
        ensures
            final(self).keys() == old(self).keys().insert(code@),
    {
        if !self.is_pressed(code) {
            self.pressed_keys.push(code.to_owned());
            assert forall|k: Seq<char>| #[trigger] self.keys().contains(k) implies old(self).keys().insert(code@).contains(k) by {
                let i = choose|i: int| 0 <= i < self.pressed_keys@.len() && self.pressed_keys@[i]@ == k;
                if i < old(self).pressed_keys@.len() {
                    assert(old(self).pressed_keys@[i]@ == k);
                }
            }
            assert forall|k: Seq<char>| old(self).keys().insert(code@).contains(k) implies #[trigger] self.keys().contains(k) by {
                if k == code@ {
                    assert(self.pressed_keys@[old(self).pressed_keys@.len() as int]@ == k);
                } else {
                    let i = choose|i: int| 0 <= i < old(self).pressed_keys@.len() && old(self).pressed_keys@[i]@ == k;
                    assert(self.pressed_keys@[i]@ == k);
                }
            }
        }
        assert(self.keys() =~= old(self).keys().insert(code@));
    }

    /// Records that the key `code` went up.
    pub fn set_released(&mut self, code: &str)
        ensures
            final(self).keys() == old(self).keys().remove(code@),
    {
        let target = code.to_owned();
        let mut kept: Vec<String> = Vec::new();
        let mut i: usize = 0;
        while i < self.pressed_keys.len()
            invariant
                i <= self.pressed_keys@.len(),
                self.pressed_keys == old(self).pressed_keys,
                target@ == code@,
                forall|j: int| 0 <= j < kept@.len() ==> #[trigger] kept@[j]@ != code@,
                forall|j: int| #![trigger kept@[j]] 0 <= j < kept@.len() ==> exists|m: int| #![trigger self.pressed_keys@[m]] 0 <= m < i && self.pressed_keys@[m]@ == kept@[j]@,
                forall|m: int| #![trigger self.pressed_keys@[m]] 0 <= m < i && self.pressed_keys@[m]@ != code@ ==> exists|j: int| #![trigger kept@[j]] 0 <= j < kept@.len() && kept@[j]@ == self.pressed_keys@[m]@,
            decreases self.pressed_keys@.len() - i,
        {
            let ghost prev = kept@;
            if self.pressed_keys[i] != target {
                let key = self.pressed_keys[i].clone();
                kept.push(key);
                assert(kept@[kept@.len() - 1]@ == self.pressed_keys@[i as int]@);
            }
            assert forall|m: int| 0 <= m < i + 1 && #[trigger] self.pressed_keys@[m]@ != code@ implies exists|j: int|
                0 <= j < kept@.len() && #[trigger] kept@[j]@ == self.pressed_keys@[m]@ by {
                if m < i {
                    let j = choose|j: int| 0 <= j < prev.len() && #[trigger] prev[j]@ == self.pressed_keys@[m]@;
                    assert(kept@[j] == prev[j]);
                } else {
                    assert(kept@[kept@.len() - 1]@ == self.pressed_keys@[m]@);
                }
            }
            i = i + 1;
        }
        self.pressed_keys = kept;
        assert forall|k: Seq<char>| #[trigger] self.keys().contains(k) implies old(self).keys().remove(code@).contains(k) by {
            let j = choose|j: int| 0 <= j < self.pressed_keys@.len() && self.pressed_keys@[j]@ == k;
            assert(self.pressed_keys@[j]@ != code@);
        }
        assert forall|k: Seq<char>| old(self).keys().remove(code@).contains(k) implies #[trigger] self.keys().contains(k) by {
            let m = choose|m: int| 0 <= m < old(self).pressed_keys@.len() && old(self).pressed_keys@[m]@ == k;
            assert(old(self).pressed_keys@[m]@ != code@);
        }
        assert(self.keys() =~= old(self).keys().remove(code@));
    }
}

} // verus!
