//! Input tracking: a level-triggered "held" state per key, and a one-frame
//! edge snapshot rebuilt from the events of each frame.

use vstd::prelude::*;

verus! {

/// Number of logical keys that are tracked.
pub const KEY_COUNT: usize = 10;

/// The logical keys the game reacts to.
#[derive(Clone, Copy, Debug, PartialEq, Eq, Structural)]
pub enum Key {
    Escape,
    Up,
    Down,
    Left,
    Right,
    Space,
    Enter,
    Num1,
    Num2,
    Num3,
}

impl Key {
    /// The slot of this key in the per-key tables.
    pub open spec fn slot(self) -> int {
        match self {
            Key::Escape => 0,
            Key::Up => 1,
            Key::Down => 2,
            Key::Left => 3,
            Key::Right => 4,
            Key::Space => 5,
            Key::Enter => 6,
            Key::Num1 => 7,
            Key::Num2 => 8,
            Key::Num3 => 9,
        }
    }

    /// The slot of this key in the per-key tables.
    pub fn index(&self) -> (r: usize)
        ensures
            r as int == self.slot(),
            r < KEY_COUNT,
    {
        match self {
            Key::Escape => 0,
            Key::Up => 1,
            Key::Down => 2,
            Key::Left => 3,
            Key::Right => 4,
            Key::Space => 5,
            Key::Enter => 6,
            Key::Num1 => 7,
            Key::Num2 => 8,
            Key::Num3 => 9,
        }
    }
}

/// One raw event, as the event source reports it.
#[derive(Clone, Copy, Debug, PartialEq, Eq, Structural)]
pub enum InputEvent {
    KeyDown(Key),
    KeyUp(Key),
    /// The output was resized to the given width and height.
    Resized(u32, u32),
    Quit,
    /// Anything the game does not track (an unknown key, a mouse move).
    Other,
}

/// What happened during the current frame only.
#[derive(Clone, Debug)]
pub struct ImmediateEvents {
    /// New output size, if the output was resized during the frame.
    pub resize: Option<(u32, u32)>,
    /// Per key: `Some(true)` on the frame it went down, `Some(false)` on the
    /// frame it went up, `None` otherwise.
    pub keys: Vec<Option<bool>>,
    pub quit: bool,
}

/// The persistent key state together with the snapshot of the current frame.
#[derive(Clone, Debug)]
pub struct Events {
    pub now: ImmediateEvents,
    /// Per key: whether it is currently held down.
    pub held: Vec<bool>,
}

/// Mathematical form of the input state.
pub struct InputModel {
    pub held: Seq<bool>,
    pub edges: Seq<Option<bool>>,
    pub resize: Option<(u32, u32)>,
    pub quit: bool,
}

impl InputModel {
    pub open spec fn wf(self) -> bool {
        self.held.len() == KEY_COUNT && self.edges.len() == KEY_COUNT
    }

    /// The state at the start of a frame: keys still held, no edges.
    pub open spec fn fresh(held: Seq<bool>) -> InputModel {
        InputModel {
            held,
            edges: Seq::new(KEY_COUNT as nat, |i: int| None),
            resize: None,
            quit: false,
        }
    }

    /// The effect of one event.
    pub open spec fn apply(self, e: InputEvent) -> InputModel {
        match e {
            InputEvent::KeyDown(k) => InputModel {
                held: self.held.update(k.slot(), true),
                edges: if self.held[k.slot()] {
                    self.edges
                } else {
                    self.edges.update(k.slot(), Some(true))
                },
                ..self
            },
            InputEvent::KeyUp(k) => InputModel {
                held: self.held.update(k.slot(), false),
                edges: self.edges.update(k.slot(), Some(false)),
                ..self
            },
            InputEvent::Resized(w, h) => InputModel { resize: Some((w, h)), ..self },
            InputEvent::Quit => InputModel { quit: true, ..self },
            InputEvent::Other => self,
        }
    }

    /// The effect of a sequence of events, in order.
    pub open spec fn apply_all(self, es: Seq<InputEvent>) -> InputModel
        decreases es.len(),
    {
        if es.len() == 0 {
            self
        } else {
            self.apply_all(es.drop_last()).apply(es.last())
        }
    }

    /// The state after a frame whose events were `es`.
    pub open spec fn pumped(self, es: Seq<InputEvent>) -> InputModel {
        InputModel::fresh(self.held).apply_all(es)
    }

    /// The state after `n` frames without any event.
    pub open spec fn idle_frames(self, n: nat) -> InputModel
        decreases n,
    {
        if n == 0 {
            self
        } else {
            self.idle_frames((n - 1) as nat).pumped(Seq::empty())
        }
    }
}

impl View for Events {
    type V = InputModel;

    open spec fn view(&self) -> InputModel {
        InputModel {
            held: self.held@,
            edges: self.now.keys@,
            resize: self.now.resize,
            quit: self.now.quit,
        }
    }
}

impl ImmediateEvents {
    /// A snapshot in which nothing happened.
    pub fn new() -> (r: ImmediateEvents)
        ensures
            r.keys@ == Seq::new(KEY_COUNT as nat, |i: int| None::<bool>),
            r.resize.is_none(),
            !r.quit,
    {
        let mut keys: Vec<Option<bool>> = Vec::new();
        let mut i: usize = 0;
        while i < KEY_COUNT
            invariant
                i <= KEY_COUNT,
                keys@ == Seq::new(i as nat, |j: int| None::<bool>),
            decreases KEY_COUNT - i,
        {
            keys.push(None);
            i += 1;
            assert(keys@ =~= Seq::new(i as nat, |j: int| None::<bool>));
        }
        ImmediateEvents { resize: None, keys, quit: false }
    }

    /// The edge of `k` during this frame.
    pub fn key(&self, k: Key) -> (r: Option<bool>)
        requires
            self.keys@.len() == KEY_COUNT,
        ensures
            r == self.keys@[k.slot()],
    {
        self.keys[k.index()]
    }

    /// Whether `k` went down during this frame.
    pub fn pressed(&self, k: Key) -> (r: bool)
        requires
            self.keys@.len() == KEY_COUNT,
        ensures
            r == (self.keys@[k.slot()] == Some(true)),
    {
        match self.keys[k.index()] {
            Some(b) => b,
            None => false,
        }
    }
}

impl Events {
    /// No key held and nothing happened yet.
    pub fn new() -> (r: Events)
        ensures
            r@.wf(),
            r@ == InputModel::fresh(Seq::new(KEY_COUNT as nat, |i: int| false)),
    {
        let mut held: Vec<bool> = Vec::new();
        let mut i: usize = 0;
        while i < KEY_COUNT
            invariant
                i <= KEY_COUNT,
                held@ == Seq::new(i as nat, |j: int| false),
            decreases KEY_COUNT - i,
        {
            held.push(false);
            i += 1;
            assert(held@ =~= Seq::new(i as nat, |j: int| false));
        }
        let r = Events { now: ImmediateEvents::new(), held };
        assert(r@ =~= InputModel::fresh(Seq::new(KEY_COUNT as nat, |i: int| false)));
        r
    }

    /// Whether `k` is currently held down.
    pub fn is_down(&self, k: Key) -> (r: bool)
        requires
            self@.wf(),
        ensures
            r == self@.held[k.slot()],
    {
        self.held[k.index()]
    }

    fn apply(&mut self, e: InputEvent)
        requires
            old(self)@.wf(),
        ensures
            final(self)@ == old(self)@.apply(e),
            final(self)@.wf(),
    {
        match e {
            InputEvent::KeyDown(k) => {
                let i = k.index();
                if !self.held[i] {
                    self.now.keys.set(i, Some(true));
                }
                self.held.set(i, true);
            },
            InputEvent::KeyUp(k) => {
                let i = k.index();
                self.now.keys.set(i, Some(false));
                self.held.set(i, false);
            },
            InputEvent::Resized(w, h) => {
                self.now.resize = Some((w, h));
            },
            InputEvent::Quit => {
                self.now.quit = true;
            },
            InputEvent::Other => {},
        }
        assert(self@ =~= old(self)@.apply(e));
    }

    /// Starts a new frame and takes in the events polled for it, in order.
    pub fn pump(&mut self, events: &Vec<InputEvent>)
        requires
            old(self)@.wf(),
        ensures
            final(self)@ == old(self)@.pumped(events@),
            final(self)@.wf(),
    {
        self.now = ImmediateEvents::new();
        assert(self@ =~= InputModel::fresh(old(self)@.held));
        let mut i: usize = 0;
        while i < events.len()
            invariant
                i <= events@.len(),
                self@.wf(),
                self@ == InputModel::fresh(old(self)@.held).apply_all(events@.take(i as int)),
            decreases events@.len() - i,
        {
            let e = events[i];
            self.apply(e);
            assert(events@.take(i + 1).drop_last() =~= events@.take(i as int));
            i += 1;
        }
        assert(events@.take(i as int) =~= events@);
    }
}

/// A key that was up and goes down gives `Some(true)` on that frame only: on
/// every later frame without events its edge is `None`, while it stays held.
pub proof fn lemma_single_press_edge(m: InputModel, k: Key, n: nat)
    requires
        m.wf(),
        !m.held[k.slot()],
    ensures
        m.pumped(seq![InputEvent::KeyDown(k)]).edges[k.slot()] == Some(true),
        m.pumped(seq![InputEvent::KeyDown(k)]).held[k.slot()],
        n > 0 ==> m.pumped(seq![InputEvent::KeyDown(k)]).idle_frames(n).edges[k.slot()] == None::<bool>,
        m.pumped(seq![InputEvent::KeyDown(k)]).idle_frames(n).held[k.slot()],
        m.pumped(seq![InputEvent::KeyDown(k)]).idle_frames(n).wf(),
    decreases n,
{
    let es = seq![InputEvent::KeyDown(k)];
    let f = InputModel::fresh(m.held);
    assert(es.drop_last() =~= Seq::<InputEvent>::empty());
    assert(f.apply_all(es.drop_last()) == f);
    assert(es.last() == InputEvent::KeyDown(k));
    assert(m.pumped(es) == f.apply(InputEvent::KeyDown(k)));
    assert(0 <= k.slot() < KEY_COUNT);
    if n > 0 {
        lemma_single_press_edge(m, k, (n - 1) as nat);
        let p = m.pumped(es).idle_frames((n - 1) as nat);
        assert(p.pumped(Seq::empty()) == InputModel::fresh(p.held));
    }
}

} // verus!
