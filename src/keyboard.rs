use vstd::prelude::*;

verus! {

/// Number of logical keys of the virtual machine's keypad.
pub const NUM_KEYS: usize = 16;

/// One raw key transition reported by the platform, named by the character
/// printed on the physical key.
#[derive(Clone, Copy, Debug, PartialEq, Eq, Structural)]
pub struct KeyEvent {
    pub code: char,
    pub pressed: bool,
}

/// The logical key that a physical key stands for, in the conventional
/// 4x4 layout (`1234 / qwer / asdf / zxcv`); other keys are unmapped.
pub open spec fn slot_of(c: char) -> Option<int> {
    if c == '1' { Some(0x1) }
    else if c == '2' { Some(0x2) }
    else if c == '3' { Some(0x3) }
    else if c == '4' { Some(0xC) }
    else if c == 'q' { Some(0x4) }
    else if c == 'w' { Some(0x5) }
    else if c == 'e' { Some(0x6) }
    else if c == 'r' { Some(0xD) }
    else if c == 'a' { Some(0x7) }
    else if c == 's' { Some(0x8) }
    else if c == 'd' { Some(0x9) }
    else if c == 'f' { Some(0xE) }
    else if c == 'z' { Some(0xA) }
    else if c == 'x' { Some(0x0) }
    else if c == 'c' { Some(0xB) }
    else if c == 'v' { Some(0xF) }
    else { None }
}

/// Whether `batch` holds an event that moves logical key `k` to `down`.
pub open spec fn touches(batch: Seq<KeyEvent>, k: int, down: bool) -> bool {
    exists|j: int| 0 <= j < batch.len() && batch[j].pressed == down && slot_of(#[trigger] batch[j].code) == Some(k)
}

/// The key matrix after one batch: a key pressed anywhere in the batch is
/// down, else a key released in it is up, else it keeps its state. The
/// result depends only on which events the batch holds, not on their order.
pub open spec fn merged(keys: Seq<bool>, batch: Seq<KeyEvent>) -> Seq<bool> {
    Seq::new(keys.len(), |k: int| if touches(batch, k, true) { true } else if touches(batch, k, false) { false } else { keys[k] })
}

/// The logical key that the physical key `c` is mapped to, if any.
pub fn map_key(c: char) -> (r: Option<usize>)
    ensures
        r matches Some(k) ==> k < NUM_KEYS,
        r.is_some() == slot_of(c).is_some(),
        r matches Some(k) ==> slot_of(c) == Some(k as int),
{
    match c {
        '1' => Some(0x1),
        '2' => Some(0x2),
        '3' => Some(0x3),
        '4' => Some(0xC),
        'q' => Some(0x4),
        'w' => Some(0x5),
        'e' => Some(0x6),
        'r' => Some(0xD),
        'a' => Some(0x7),
        's' => Some(0x8),
        'd' => Some(0x9),
        'f' => Some(0xE),
        'z' => Some(0xA),
        'x' => Some(0x0),
        'c' => Some(0xB),
        'v' => Some(0xF),
        _ => None,
    }
}

/// The key matrix: one held/released flag per logical key.
pub struct Keyboard {
    keys: Vec<bool>,
}

impl View for Keyboard {
    type V = Seq<bool>;

    closed spec fn view(&self) -> Seq<bool> {
        self.keys@
    }
}

impl Keyboard {
    pub open spec fn wf(&self) -> bool {
        self@.len() == NUM_KEYS
    }

    /// A matrix with every key released.
    pub fn new() -> (r: Keyboard)
        ensures
            r.wf(),
            forall|k: int| 0 <= k < NUM_KEYS ==> !#[trigger] r@[k],
    {
        let mut keys: Vec<bool> = Vec::new();
        let mut i: usize = 0;
        while i < NUM_KEYS
            invariant
                i <= NUM_KEYS,
                keys@.len() == i,
                forall|k: int| 0 <= k < i ==> !#[trigger] keys@[k],
            decreases NUM_KEYS - i,
        {
            keys.push(false);
            i = i + 1;
        }
        Keyboard { keys }
    }

    /// Whether logical key `k` is held.
    pub fn is_pressed(&self, k: usize) -> (r: bool)
        requires
            self.wf(),
            k < NUM_KEYS,
        ensures
            r == self@[k as int],
    {
        self.keys[k]
    }

    /// Applies one batch of raw key events; unmapped keys are ignored.
    pub fn handle_input(&mut self, batch: &Vec<KeyEvent>)
        requires
            old(self).wf(),
        ensures
            final(self).wf(),
            final(self)@ == merged(old(self)@, batch@),
    {
        let mut down: Vec<bool> = Vec::new();
        let mut up: Vec<bool> = Vec::new();
        let mut i: usize = 0;
        while i < NUM_KEYS
            invariant
                i <= NUM_KEYS,
                down@.len() == i,
                up@.len() == i,
                forall|k: int| 0 <= k < i ==> !#[trigger] down@[k],
                forall|k: int| 0 <= k < i ==> !#[trigger] up@[k],
            decreases NUM_KEYS - i,
        {
            down.push(false);
            up.push(false);
            i = i + 1;
        }
        let mut j: usize = 0;
        while j < batch.len()
            invariant
                j <= batch@.len(),
                down@.len() == NUM_KEYS,
                up@.len() == NUM_KEYS,
                forall|k: int| 0 <= k < NUM_KEYS ==> #[trigger] down@[k] == touches(batch@.subrange(0, j as int), k, true),
                forall|k: int| 0 <= k < NUM_KEYS ==> #[trigger] up@[k] == touches(batch@.subrange(0, j as int), k, false),
            decreases batch@.len() - j,
        {
            let ev = batch[j];
            let ghost prev = batch@.subrange(0, j as int);
            let ghost next = batch@.subrange(0, j + 1);
            assert(next == prev.push(ev));
            match map_key(ev.code) {
                Some(k) => {
                    if ev.pressed {
                        down.set(k, true);
                    } else {
                        up.set(k, true);
                    }
                },
                None => {},
            }
            assert forall|k: int| #![trigger down@[k]] #![trigger up@[k]] 0 <= k < NUM_KEYS implies
                (down@[k] == touches(next, k, true) && up@[k] == touches(next, k, false)) by {
                if touches(prev, k, true) {
                    let w = choose|w: int| 0 <= w < prev.len() && prev[w].pressed == true && slot_of(#[trigger] prev[w].code) == Some(k);
                    assert(next[w] == prev[w]);
                }
                if touches(prev, k, false) {
                    let w = choose|w: int| 0 <= w < prev.len() && prev[w].pressed == false && slot_of(#[trigger] prev[w].code) == Some(k);
                    assert(next[w] == prev[w]);
                }
                if touches(next, k, true) && !touches(prev, k, true) {
                    let w = choose|w: int| 0 <= w < next.len() && next[w].pressed == true && slot_of(#[trigger] next[w].code) == Some(k);
                    if w < prev.len() {
                        assert(prev[w] == next[w]);
                    }
                }
                if touches(next, k, false) && !touches(prev, k, false) {
                    let w = choose|w: int| 0 <= w < next.len() && next[w].pressed == false && slot_of(#[trigger] next[w].code) == Some(k);
                    if w < prev.len() {
                        assert(prev[w] == next[w]);
                    }
                }
                if slot_of(ev.code) == Some(k) {
                    assert(next[prev.len() as int] == ev);
                }
            }
            j = j + 1;
        }
        assert(batch@.subrange(0, batch@.len() as int) == batch@);
        let ghost before = self@;
        let mut k: usize = 0;
        while k < NUM_KEYS
            invariant
                k <= NUM_KEYS,
                self.wf(),
                down@.len() == NUM_KEYS,
                up@.len() == NUM_KEYS,
                before.len() == NUM_KEYS,
                forall|x: int| 0 <= x < NUM_KEYS ==> #[trigger] down@[x] == touches(batch@, x, true),
                forall|x: int| 0 <= x < NUM_KEYS ==> #[trigger] up@[x] == touches(batch@, x, false),
                forall|x: int| 0 <= x < k ==> #[trigger] self@[x] == merged(before, batch@)[x],
                forall|x: int| k <= x < NUM_KEYS ==> #[trigger] self@[x] == before[x],
            decreases NUM_KEYS - k,
        {
            if down[k] {
                self.keys.set(k, true);
            } else if up[k] {
                self.keys.set(k, false);
            }
            k = k + 1;
        }
        assert(self@ =~= merged(before, batch@));
    }
}

/// Key-matrix merging is commutative: two batches that hold the same events,
/// in any order, leave the same matrix.
pub proof fn lemma_batch_order_irrelevant(keys: Seq<bool>, a: Seq<KeyEvent>, b: Seq<KeyEvent>)
    requires
        a.to_multiset() == b.to_multiset(),
    ensures
        merged(keys, a) == merged(keys, b),
{
    assert forall|e: KeyEvent| a.contains(e) <==> b.contains(e) by {
        a.to_multiset_ensures();
        b.to_multiset_ensures();
        assert(a.to_multiset().count(e) == b.to_multiset().count(e));
        assert(a.contains(e) <==> a.to_multiset().count(e) > 0);
        assert(b.contains(e) <==> b.to_multiset().count(e) > 0);
    }
    assert forall|k: int, down: bool| touches(a, k, down) <==> touches(b, k, down) by {
        if touches(a, k, down) {
            let w = choose|w: int| 0 <= w < a.len() && a[w].pressed == down && slot_of(#[trigger] a[w].code) == Some(k);
            assert(a.contains(a[w]));
            let v = choose|v: int| 0 <= v < b.len() && b[v] == a[w];
            assert(b[v].pressed == down && slot_of(b[v].code) == Some(k));
        }
        if touches(b, k, down) {
            let w = choose|w: int| 0 <= w < b.len() && b[w].pressed == down && slot_of(#[trigger] b[w].code) == Some(k);
            assert(b.contains(b[w]));
            let v = choose|v: int| 0 <= v < a.len() && a[v] == b[w];
            assert(a[v].pressed == down && slot_of(a[v].code) == Some(k));
        }
    }
    assert(merged(keys, a) =~= merged(keys, b));
}

} // verus!
