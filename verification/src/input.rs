//! Keyboard input state: the set of keys currently held down.

use vstd::prelude::*;

verus! {

/// The set of keys (as key codes) currently pressed.  The key list is kept
/// free of duplicates, so it behaves as a set.
pub struct Input {
    keys: Vec<u8>,
}

impl Input {
    /// The set of pressed keys, as seen by specifications.
    pub closed spec fn view(&self) -> Set<u8> {
        self.keys@.to_set()
    }

    /// No key code occurs twice in the backing list.
    pub closed spec fn wf(&self) -> bool {
        forall|i: int, j: int|
            0 <= i < j < self.keys@.len() ==> self.keys@[i] != self.keys@[j]
    }

    pub fn new() -> (r: Input)
        ensures
            r.wf(),
            r.view() == Set::<u8>::empty(),
    {
        let r = Input { keys: Vec::new() };
        proof {
            assert(r.keys@.to_set() =~= Set::<u8>::empty());
        }
        r
    }

    pub fn is_key_down(&self, k: u8) -> (r: bool)
        ensures
            r == self.view().contains(k),
    {
        let mut i: usize = 0;
        while i < self.keys.len()
            invariant
                i <= self.keys@.len(),
                forall|j: int| 0 <= j < i ==> self.keys@[j] != k,
            decreases self.keys@.len() - i,
        {
            if self.keys[i] == k {
                proof {
                    assert(self.keys@.contains(k));
                }
                return true;
            }
            i += 1;
        }
        proof {
            assert(!self.keys@.contains(k));
        }
        false
    }

    pub fn add_key(&mut self, k: u8)
        requires
            old(self).wf(),
        ensures
            final(self).wf(),
            final(self).view() == old(self).view().insert(k),
    {
        if !self.is_key_down(k) {
            self.keys.push(k);
            proof {
                let s0 = old(self).keys@;
                let s1 = self.keys@;
                assert forall|a: u8| s1.contains(a) implies s0.contains(a) || a == k by {
                    let i = choose|i: int| 0 <= i < s1.len() && s1[i] == a;
                    if i < s0.len() {
                        assert(s0[i] == a);
                    }
                }
                assert forall|a: u8| s0.contains(a) implies s1.contains(a) by {
                    let i = choose|i: int| 0 <= i < s0.len() && s0[i] == a;
                    assert(s1[i] == a);
                }
                assert(s1[s1.len() - 1] == k);
                assert(s1.to_set() =~= s0.to_set().insert(k));
            }
        } else {
            proof {
                assert(self.keys@.to_set().contains(k));
                assert(self.keys@.to_set() =~= self.keys@.to_set().insert(k));
            }
        }
    }

    pub fn clear(&mut self)
        ensures
            final(self).wf(),
            final(self).view() == Set::<u8>::empty(),
    {
        self.keys.clear();
        proof {
            assert(self.keys@.to_set() =~= Set::<u8>::empty());
        }
    }
}

} // verus!
