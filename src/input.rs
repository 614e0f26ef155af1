use vstd::prelude::*;

verus! {

/// The set of keys held down, each identified by the platform's key code.
/// Changed by the event loop, read by the render loop, under one lock.
pub struct PressedKeys {
    keys: Vec<u32>,
}

impl View for PressedKeys {
    type V = Set<u32>;

    closed spec fn view(&self) -> Set<u32> {
        self.keys@.to_set()
    }
}

impl PressedKeys {
    /// Each key is held at most once.
    #[verifier::type_invariant]
    spec fn wf(&self) -> bool {
        self.keys@.no_duplicates()
    }

    /// No key pressed.
    pub fn new() -> (r: PressedKeys)
        ensures
            r@ == Set::<u32>::empty(),
    {
        let r = PressedKeys { keys: Vec::new() };
        assert(r.keys@.to_set() =~= Set::<u32>::empty());
        r
    }

    /// Whether `key` is held.
    pub fn contains(&self, key: u32) -> (r: bool)
        ensures
            r == self@.contains(key),
    {
        let mut i: usize = 0;
        while i < self.keys.len()
            invariant
                i <= self.keys@.len(),
                forall|j: int| 0 <= j < i ==> self.keys@[j] != key,
            decreases self.keys@.len() - i,
        {
            if self.keys[i] == key {
                assert(self.keys@.contains(key));
                return true;
            }
            i = i + 1;
        }
        false
    }

    /// The number of keys held.
    pub fn len(&self) -> (r: usize)
        ensures
            r == self@.len(),
    {
        proof {
            use_type_invariant(self);
            self.keys@.unique_seq_to_set();
        }
        self.keys.len()
    }

    /// The keys held, in the order they were pressed.
    pub fn to_vec(&self) -> (r: Vec<u32>)
        ensures
            r@.to_set() == self@,
            r@.no_duplicates(),
            r@.len() == self@.len(),
    {
        proof {
            use_type_invariant(self);
            self.keys@.unique_seq_to_set();
        }
        self.keys.clone()
    }

    /// A key went down: it is held from now on.
    pub fn press(&mut self, key: u32)
        ensures
            final(self)@ == old(self)@.insert(key),
    {
        proof {
            use_type_invariant(&*self);
        }
        if !self.contains(key) {
            let mut keys = self.keys.clone();
            assert(keys@ =~= old(self).keys@);
            keys.push(key);
            assert(keys@.no_duplicates()) by {
                assert forall|a: int, b: int| 0 <= a < b < keys@.len() implies keys@[a] != keys@[b] by {
                    if b == keys@.len() - 1 {
                        assert(old(self).keys@.contains(keys@[a]));
                    }
                }
            }
            self.keys = keys;
            assert(self.keys@.to_set() =~= old(self).keys@.to_set().insert(key)) by {
                assert forall|x: u32| self.keys@.contains(x) <==> (old(self).keys@.contains(x) || x == key) by {
                    if old(self).keys@.contains(x) {
                        let j = choose|j: int| 0 <= j < old(self).keys@.len() && old(self).keys@[j] == x;
                        assert(self.keys@[j] == x);
                    }
                    if x == key {
                        assert(self.keys@[self.keys@.len() - 1] == x);
                    }
                }
            }
        } else {
            assert(old(self)@.insert(key) =~= old(self)@);
        }
    }

    /// A key went up: it is no longer held.
    pub fn release(&mut self, key: u32)
        ensures
            final(self)@ == old(self)@.remove(key),
    {
        proof {
            use_type_invariant(&*self);
        }
        let mut i: usize = 0;
        while i < self.keys.len()
            invariant
                self.keys@ == old(self).keys@,
                old(self).keys@.no_duplicates(),
                i <= self.keys@.len(),
                forall|j: int| 0 <= j < i ==> self.keys@[j] != key,
            decreases self.keys@.len() - i,
        {
            if self.keys[i] == key {
                let ghost before = self.keys@;
                let mut keys = self.keys.clone();
                assert(keys@ =~= before);
                keys.remove(i);
                self.keys = keys;
                assert(self.keys@ == before.remove(i as int));
                assert forall|j: int| 0 <= j < self.keys@.len() implies self.keys@[j] == before[if j < i { j } else { j + 1 }] by {
                    if j < i {
                        assert(self.keys@[j] == before.subrange(0, i as int)[j]);
                    } else {
                        assert(self.keys@[j] == before.subrange(i + 1, before.len() as int)[j - i]);
                    }
                }
                assert(self.keys@.no_duplicates()) by {
                    assert forall|a: int, b: int| 0 <= a < b < self.keys@.len() implies self.keys@[a] != self.keys@[b] by {
                        let a2 = if a < i { a } else { a + 1 };
                        let b2 = if b < i { b } else { b + 1 };
                        assert(self.keys@[a] == before[a2]);
                        assert(self.keys@[b] == before[b2]);
                    }
                }
                assert(self.keys@.to_set() =~= before.to_set().remove(key)) by {
                    assert forall|x: u32| self.keys@.contains(x) <==> (before.contains(x) && x != key) by {
                        if self.keys@.contains(x) {
                            let j = choose|j: int| 0 <= j < self.keys@.len() && self.keys@[j] == x;
                            let j2 = if j < i { j } else { j + 1 };
                            assert(before[j2] == x);
                            assert(j2 != i);
                        }
                        if before.contains(x) && x != key {
                            let j = choose|j: int| 0 <= j < before.len() && before[j] == x;
                            assert(j != i);
                            let j2 = if j < i { j } else { j - 1 };
                            assert(self.keys@[j2] == x);
                        }
                    }
                }
                return;
            }
            i = i + 1;
        }
        assert(old(self)@.remove(key) =~= old(self)@);
    }

    /// A key changed state: `pressed` for down, otherwise up.
    pub fn key_event(&mut self, key: u32, pressed: bool)
        ensures
            pressed ==> final(self)@ == old(self)@.insert(key),
            !pressed ==> final(self)@ == old(self)@.remove(key),
    {
        if pressed {
            self.press(key);
        } else {
            self.release(key);
        }
    }
}

/// A key that was not held, pressed and then released, leaves the held keys
/// as they were; pressing a held key again changes nothing, its count included.
pub proof fn lemma_press_release_round_trip(keys: Set<u32>, key: u32)
    ensures
        !keys.contains(key) ==> keys.insert(key).remove(key) == keys,
        keys.contains(key) ==> keys.insert(key) == keys && keys.insert(key).len() == keys.len(),
{
    assert(!keys.contains(key) ==> keys.insert(key).remove(key) =~= keys);
    assert(keys.contains(key) ==> keys.insert(key) =~= keys);
}

/// Whether the render thread is still alive: starts true, and turns false once,
/// when the render thread is seen to have ended abnormally; it never turns back.
pub struct HealthFlag {
    healthy: bool,
}

impl View for HealthFlag {
    type V = bool;

    closed spec fn view(&self) -> bool {
        self.healthy
    }
}

impl HealthFlag {
    pub fn new() -> (r: HealthFlag)
        ensures
            r@,
    {
        HealthFlag { healthy: true }
    }

    pub fn is_healthy(&self) -> (r: bool)
        ensures
            r == self@,
    {
        self.healthy
    }

    /// Record how joining the render thread went (`joined_normally`: it did not
    /// panic). Returns whether the flag turned false on this call.
    pub fn record_join(&mut self, joined_normally: bool) -> (flipped: bool)
        ensures
            final(self)@ == after_joins(old(self)@, seq![joined_normally]),
            flipped == (old(self)@ && !joined_normally),
    {
        proof {
            reveal_with_fuel(after_joins, 2);
            assert(seq![joined_normally].drop_last() =~= Seq::<bool>::empty());
        }
        let flipped = self.healthy && !joined_normally;
        if !joined_normally {
            self.healthy = false;
        }
        flipped
    }
}

/// The flag after a series of join reports, in order (`true`: normal end).
pub open spec fn after_joins(healthy: bool, reports: Seq<bool>) -> bool
    decreases reports.len(),
{
    if reports.len() == 0 {
        healthy
    } else {
        after_joins(healthy, reports.drop_last()) && reports.last()
    }
}

/// The flag never returns to true: once false it stays false whatever is
/// reported, and it is true only while every report was a normal end.
pub proof fn lemma_health_monotonic(healthy: bool, reports: Seq<bool>)
    ensures
        !healthy ==> !after_joins(healthy, reports),
        after_joins(healthy, reports) == (healthy && forall|i: int| 0 <= i < reports.len() ==> reports[i]),
    decreases reports.len(),
{
    if reports.len() > 0 {
        let rest = reports.drop_last();
        lemma_health_monotonic(healthy, rest);
        if healthy && forall|i: int| 0 <= i < reports.len() ==> reports[i] {
            assert forall|i: int| 0 <= i < rest.len() implies rest[i] by {
                assert(reports[i]);
            }
            assert(reports[reports.len() - 1]);
        }
        if after_joins(healthy, reports) {
            assert forall|i: int| 0 <= i < reports.len() implies reports[i] by {
                if i < rest.len() {
                    assert(rest[i] == reports[i]);
                }
            }
        }
    }
}

/// A window event, as far as the event loop's decisions go.
#[derive(Clone, Copy, Debug, PartialEq, Eq, Structural)]
pub enum WindowInput {
    /// The user asked to close the window.
    CloseRequested,
    /// A key changed state.
    Key { key: u32, pressed: bool },
    /// Anything else.
    Other,
}

/// Whether the event loop must stop after this event: when the render thread
/// is no longer healthy, when closing was asked for, or on the escape key.
pub open spec fn exit_requested(healthy: bool, event: WindowInput, escape: u32) -> bool {
    !healthy || event == WindowInput::CloseRequested || (event matches WindowInput::Key { key, .. } && key == escape)
}

/// One step of the event loop: track a key event in the held keys, and say
/// whether the loop must stop.
pub fn handle_event(keys: &mut PressedKeys, healthy: bool, event: WindowInput, escape: u32) -> (exit: bool)
    ensures
        exit == exit_requested(healthy, event, escape),
        event matches WindowInput::Key { key, pressed } ==> if pressed {
            final(keys)@ == old(keys)@.insert(key)
        } else {
            final(keys)@ == old(keys)@.remove(key)
        },
        !(event is Key) ==> final(keys)@ == old(keys)@,
{
    let mut exit = !healthy;
    match event {
        WindowInput::CloseRequested => {
            exit = true;
        },
        WindowInput::Key { key, pressed } => {
            keys.key_event(key, pressed);
            if key == escape {
                exit = true;
            }
        },
        WindowInput::Other => {},
    }
    exit
}

} // verus!
