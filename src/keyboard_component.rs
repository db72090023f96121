//! The keyboard overlay: the keys held down, and a cue that shows the keys of
//! a sequence one after another.
use vstd::prelude::*;

use crate::config::{Key, Keyboard, Location, PressedKeyCoord};
use crate::event::Event;

verus! {

/// What the keyboard overlay reacts to.
#[derive(Debug, Clone)]
pub enum Message {
    /// A keyboard event.
    Event(Event),
    /// The periodic tick, which moves the cue on.
    Tick,
    /// Forgets the sequence and every lit key.
    ClearKeys,
    /// Starts cueing a new sequence from its first key.
    SetShowKeys(Vec<PressedKeyCoord>),
}

/// `keys` with `k` added, if it was not there.
pub open spec fn with_key(keys: Seq<PressedKeyCoord>, k: PressedKeyCoord) -> Seq<PressedKeyCoord> {
    if keys.contains(k) {
        keys
    } else {
        keys.push(k)
    }
}

/// `keys` with every `k` taken out.
pub open spec fn without_key(keys: Seq<PressedKeyCoord>, k: PressedKeyCoord) -> Seq<PressedKeyCoord> {
    keys.filter(other_than(k))
}

pub open spec fn other_than(k: PressedKeyCoord) -> spec_fn(PressedKeyCoord) -> bool {
    |x: PressedKeyCoord| x != k
}

/// The overlay's state, as plain values.
pub struct KeyboardModel {
    /// The sequence of keys to cue.
    pub queue: Seq<PressedKeyCoord>,
    /// The position in the sequence of the key cued now.
    pub cursor: int,
    /// Whether the next tick hides the cued key (else it shows it).
    pub hide: bool,
    /// The keys that the cue lights.
    pub active: Seq<PressedKeyCoord>,
    /// The keys held down.
    pub pressed: Seq<PressedKeyCoord>,
    /// The layout in which keys are found.
    pub layout: Keyboard,
}

impl KeyboardModel {
    /// An overlay for `layout`, with no key lit and no sequence.
    pub open spec fn start(layout: Keyboard) -> KeyboardModel {
        KeyboardModel {
            queue: Seq::empty(),
            cursor: 0,
            hide: false,
            active: Seq::empty(),
            pressed: Seq::empty(),
            layout,
        }
    }

    /// What holds between ticks: the cue lights exactly the key it showed,
    /// and only while that key waits to be hidden.
    pub open spec fn wf(self) -> bool {
        &&& 0 <= self.cursor
        &&& self.hide ==> self.cursor < self.queue.len()
        &&& self.active == if self.hide {
            seq![self.queue[self.cursor]]
        } else {
            Seq::<PressedKeyCoord>::empty()
        }
        &&& self.pressed.no_duplicates()
    }

    /// A tick: the key at the cursor is shown, or hidden and the cursor moves
    /// on; past the end of the sequence the cursor goes back to its start.
    pub open spec fn on_tick(self) -> KeyboardModel {
        if self.queue.len() == 0 {
            self
        } else if self.cursor < self.queue.len() {
            let k = self.queue[self.cursor];
            if self.hide {
                KeyboardModel {
                    active: without_key(self.active, k),
                    cursor: self.cursor + 1,
                    hide: false,
                    ..self
                }
            } else {
                KeyboardModel { active: with_key(self.active, k), hide: true, ..self }
            }
        } else {
            KeyboardModel { cursor: 0, hide: false, ..self }
        }
    }

    /// A new sequence, cued from its start.
    pub open spec fn with_queue(self, queue: Seq<PressedKeyCoord>) -> KeyboardModel {
        KeyboardModel { queue, cursor: 0, hide: false, active: Seq::empty(), ..self }
    }

    pub open spec fn cleared(self) -> KeyboardModel {
        KeyboardModel {
            queue: Seq::empty(),
            cursor: 0,
            hide: false,
            active: Seq::empty(),
            pressed: Seq::empty(),
            ..self
        }
    }

    /// A key event: a key of the layout that goes down is lit, one that goes
    /// up is no longer; keys the layout lacks change nothing.
    pub open spec fn on_event(self, event: Event) -> KeyboardModel {
        match event {
            Event::KeyPressed { key, location, .. } => match self.layout.locate(key, location) {
                Some(c) => KeyboardModel { pressed: with_key(self.pressed, c), ..self },
                None => self,
            },
            Event::KeyReleased { key, location } => match self.layout.locate(key, location) {
                Some(c) => KeyboardModel { pressed: without_key(self.pressed, c), ..self },
                None => self,
            },
            Event::Other => self,
        }
    }

    pub open spec fn on_message(self, message: Message) -> KeyboardModel {
        match message {
            Message::Event(event) => self.on_event(event),
            Message::Tick => self.on_tick(),
            Message::ClearKeys => self.cleared(),
            Message::SetShowKeys(keys) => self.with_queue(keys@),
        }
    }
}

/// The cue lights only keys of its sequence.
pub proof fn lemma_active_keys_in_queue(m: KeyboardModel)
    requires
        m.wf(),
    ensures
        forall|k: PressedKeyCoord| m.active.contains(k) ==> m.queue.contains(k),
{
    assert forall|k: PressedKeyCoord| m.active.contains(k) implies m.queue.contains(k) by {
        assert(m.active[0] == m.queue[m.cursor]);
    }
}

/// Every tick keeps the overlay's invariant.
pub proof fn lemma_tick_keeps_wf(m: KeyboardModel)
    requires
        m.wf(),
    ensures
        m.on_tick().wf(),
{
    if m.queue.len() > 0 && m.cursor < m.queue.len() {
        let k = m.queue[m.cursor];
        let none = Seq::<PressedKeyCoord>::empty();
        none.lemma_filter_push(k, other_than(k));
        assert(none.filter(other_than(k)) =~= none) by {
            reveal(Seq::filter);
        }
        if m.hide {
            assert(m.active =~= none.push(k));
        } else {
            assert(with_key(m.active, k) =~= seq![k]);
        }
    }
}

/// A sequence of two keys is cued in a loop: show the first, hide it, show
/// the second, hide it; the fifth tick goes back to the start, and the sixth
/// shows the first key again.
pub proof fn lemma_two_key_loop(m: KeyboardModel, k1: PressedKeyCoord, k2: PressedKeyCoord)
    requires
        m.wf(),
    ensures
        ({
            let m0 = m.with_queue(seq![k1, k2]);
            let m1 = m0.on_tick();
            let m2 = m1.on_tick();
            let m3 = m2.on_tick();
            let m4 = m3.on_tick();
            let m5 = m4.on_tick();
            let m6 = m5.on_tick();
            &&& m1.active == seq![k1] && m1.hide && m1.cursor == 0
            &&& m2.active == Seq::<PressedKeyCoord>::empty() && !m2.hide && m2.cursor == 1
            &&& m3.active == seq![k2] && m3.hide && m3.cursor == 1
            &&& m4.active == Seq::<PressedKeyCoord>::empty() && !m4.hide && m4.cursor == 2
            &&& m5.active == Seq::<PressedKeyCoord>::empty() && !m5.hide && m5.cursor == 0
            &&& m6 == m1
        }),
{
    let m0 = m.with_queue(seq![k1, k2]);
    assert(m0.wf());
    lemma_tick_keeps_wf(m0);
    let m1 = m0.on_tick();
    lemma_tick_keeps_wf(m1);
    let m2 = m1.on_tick();
    lemma_tick_keeps_wf(m2);
    let m3 = m2.on_tick();
    lemma_tick_keeps_wf(m3);
    let m4 = m3.on_tick();
    lemma_tick_keeps_wf(m4);
    let m5 = m4.on_tick();
    lemma_tick_keeps_wf(m5);
    let m6 = m5.on_tick();
    assert(m5 == m0);
}

/// The keyboard overlay.
pub struct KeyboardComponent {
    config: Keyboard,
    pressed_keys: Vec<PressedKeyCoord>,
    active_keys: Vec<PressedKeyCoord>,
    show_keys: Vec<PressedKeyCoord>,
    key_to_show: usize,
    hide: bool,
}

impl View for KeyboardComponent {
    type V = KeyboardModel;

    closed spec fn view(&self) -> KeyboardModel {
        KeyboardModel {
            queue: self.show_keys@,
            cursor: self.key_to_show as int,
            hide: self.hide,
            active: self.active_keys@,
            pressed: self.pressed_keys@,
            layout: self.config,
        }
    }
}

impl KeyboardComponent {
    /// An overlay for `config`, with no key lit and no sequence.
    pub fn new(config: Keyboard) -> (r: KeyboardComponent)
        ensures
            r@ == KeyboardModel::start(config),
            r@.wf(),
    {
        KeyboardComponent {
            config,
            pressed_keys: Vec::new(),
            active_keys: Vec::new(),
            show_keys: Vec::new(),
            key_to_show: 0,
            hide: false,
        }
    }

    /// Handles a keyboard event.
    pub fn handle_event(&mut self, event: &Event)
        ensures
            final(self)@ == old(self)@.on_event(*event),
            old(self)@.wf() ==> final(self)@.wf(),
    {
        match event {
            Event::KeyPressed { key, location, .. } => {
                if let Some((row, key)) = self.config.find_key(key, *location) {
                    add_key(&mut self.pressed_keys, PressedKeyCoord { row, key });
                }
            },
            Event::KeyReleased { key, location } => {
                if let Some((row, key)) = self.config.find_key(key, *location) {
                    remove_key(&mut self.pressed_keys, PressedKeyCoord { row, key });
                }
            },
            Event::Other => {},
        }
    }

    pub fn update(&mut self, message: Message)
        ensures
            final(self)@ == old(self)@.on_message(message),
            old(self)@.wf() ==> final(self)@.wf(),
    {
        proof {
            if old(self)@.wf() {
                lemma_tick_keeps_wf(old(self)@);
            }
        }
        match message {
            Message::Event(event) => self.handle_event(&event),
            Message::SetShowKeys(keys) => {
                self.show_keys = keys;
                self.key_to_show = 0;
                self.hide = false;
                self.active_keys = Vec::new();
            },
            Message::Tick => {
                if self.show_keys.len() > 0 {
                    if self.key_to_show < self.show_keys.len() {
                        let k = self.show_keys[self.key_to_show];
                        if self.hide {
                            remove_key(&mut self.active_keys, k);
                            self.key_to_show = self.key_to_show + 1;
                        } else {
                            add_key(&mut self.active_keys, k);
                        }
                        self.hide = !self.hide;
                    } else {
                        self.key_to_show = 0;
                        self.hide = false;
                    }
                }
            },
            Message::ClearKeys => {
                self.show_keys.clear();
                self.pressed_keys.clear();
                self.active_keys.clear();
                self.key_to_show = 0;
                self.hide = false;
            },
        }
    }

    /// The keys that the cue lights now.
    pub fn active_keys(&self) -> (r: &Vec<PressedKeyCoord>)
        ensures
            r@ == self@.active,
    {
        &self.active_keys
    }

    /// The keys held down now.
    pub fn pressed_keys(&self) -> (r: &Vec<PressedKeyCoord>)
        ensures
            r@ == self@.pressed,
    {
        &self.pressed_keys
    }

    /// The sequence being cued.
    pub fn show_keys(&self) -> (r: &Vec<PressedKeyCoord>)
        ensures
            r@ == self@.queue,
    {
        &self.show_keys
    }

    /// Whether the key at `row`, `key` is lit, by the cue or because it is
    /// held down.
    pub fn is_lit(&self, row: usize, key: usize) -> (r: bool)
        ensures
            r == (self@.active.contains(PressedKeyCoord { row, key })
                || self@.pressed.contains(PressedKeyCoord { row, key })),
    {
        let k = PressedKeyCoord { row, key };
        contains_key(&self.active_keys, k) || contains_key(&self.pressed_keys, k)
    }

    /// The layout.
    pub fn layout(&self) -> (r: &Keyboard)
        ensures
            *r == self@.layout,
    {
        &self.config
    }
}

fn contains_key(keys: &Vec<PressedKeyCoord>, k: PressedKeyCoord) -> (r: bool)
    ensures
        r == keys@.contains(k),
{
    let mut i: usize = 0;
    while i < keys.len()
        invariant
            i <= keys@.len(),
            forall|j: int| 0 <= j < i ==> keys@[j] != k,
        decreases keys@.len() - i,
    {
        if keys[i] == k {
            assert(keys@[i as int] == k);
            return true;
        }
        i += 1;
    }
    false
}

/// The cue's position in its sequence is never negative.
pub proof fn lemma_cursor_nonnegative(k: &KeyboardComponent)
    ensures
        0 <= k@.cursor,
{
}

fn add_key(keys: &mut Vec<PressedKeyCoord>, k: PressedKeyCoord)
    ensures
        final(keys)@ == with_key(old(keys)@, k),
        old(keys)@.no_duplicates() ==> final(keys)@.no_duplicates(),
{
    let mut i: usize = 0;
    while i < keys.len()
        invariant
            i <= keys@.len(),
            forall|j: int| 0 <= j < i ==> keys@[j] != k,
        decreases keys@.len() - i,
    {
        if keys[i] == k {
            assert(keys@.contains(k));
            return;
        }
        i += 1;
    }
    keys.push(k);
}

fn remove_key(keys: &mut Vec<PressedKeyCoord>, k: PressedKeyCoord)
    ensures
        final(keys)@ == without_key(old(keys)@, k),
        old(keys)@.no_duplicates() ==> final(keys)@.no_duplicates(),
{
    let mut kept: Vec<PressedKeyCoord> = Vec::new();
    let mut i: usize = 0;
    while i < keys.len()
        invariant
            i <= keys@.len(),
            kept@ == without_key(keys@.subrange(0, i as int), k),
            keys@.no_duplicates() ==> kept@.no_duplicates(),
            forall|x: PressedKeyCoord| kept@.contains(x) ==> keys@.subrange(0, i as int).contains(x),
        decreases keys@.len() - i,
    {
        let x = keys[i];
        let ghost seen = keys@.subrange(0, i as int);
        let ghost kept_before = kept@;
        proof {
            seen.lemma_filter_push(x, other_than(k));
            assert(keys@.subrange(0, i + 1) =~= seen.push(x));
        }
        if x != k {
            proof {
                if keys@.no_duplicates() && kept@.contains(x) {
                    let j = choose|j: int| 0 <= j < seen.len() && seen[j] == x;
                    assert(keys@[j] == keys@[i as int]);
                }
            }
            kept.push(x);
        }
        proof {
            assert forall|y: PressedKeyCoord| kept@.contains(y) implies keys@.subrange(
                0,
                i + 1,
            ).contains(y) by {
                let j = choose|j: int| 0 <= j < kept@.len() && kept@[j] == y;
                if y == x {
                    assert(keys@.subrange(0, i + 1)[i as int] == y);
                } else {
                    assert(kept_before.contains(y)) by {
                        assert(kept@[j] == y);
                    }
                }
            }
        }
        i += 1;
    }
    assert(keys@.subrange(0, keys@.len() as int) =~= keys@);
    *keys = kept;
}

} // verus!
