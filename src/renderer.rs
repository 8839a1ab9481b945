use vstd::prelude::*;
use crate::ready_set::ReadySet;

verus! {

/// The interval at which the slideshow advances, in milliseconds.
pub const TICK_MS: u64 = 3000;

/// How the selected item is drawn.
#[derive(Debug, Clone, Copy, PartialEq, Eq, Structural)]
pub enum DisplayMode {
    /// As ASCII art text.
    Ascii,
    /// As a native terminal image.
    Image,
}

impl DisplayMode {
    pub open spec fn flipped(self) -> DisplayMode {
        match self {
            DisplayMode::Ascii => DisplayMode::Image,
            DisplayMode::Image => DisplayMode::Ascii,
        }
    }

    /// The other mode.
    pub fn toggled(self) -> (r: DisplayMode)
        ensures
            r == self.flipped(),
    {
        match self {
            DisplayMode::Ascii => DisplayMode::Image,
            DisplayMode::Image => DisplayMode::Ascii,
        }
    }
}

/// A key press, as far as the slideshow tells keys apart.
#[derive(Debug, Clone, Copy, PartialEq, Eq, Structural)]
pub enum Key {
    /// Switch between ASCII art and native image.
    Toggle,
    /// Leave the slideshow.
    Quit,
    /// Any other key; ignored.
    Other,
}

/// What the render loop does next.
#[derive(Debug, Clone, Copy, PartialEq, Eq, Structural)]
pub enum Action {
    /// Redraw and keep going.
    Draw,
    /// Stop displaying and hand over to shutdown.
    Exit,
}

/// What the renderer's state is, over plain values.
pub ghost struct RendererModel {
    pub cursor: nat,
    pub mode: DisplayMode,
    pub tick_ms: nat,
    pub last_tick_ms: nat,
}

/// Milliseconds since the last tick; a clock reading before it counts as none.
pub open spec fn elapsed(last_tick_ms: nat, now_ms: nat) -> nat {
    if now_ms >= last_tick_ms { (now_ms - last_tick_ms) as nat } else { 0 }
}

/// The action a pass of the loop ends with: only the quit key leaves.
pub open spec fn action_for(input: Option<Key>) -> Action {
    if input == Some(Key::Quit) { Action::Exit } else { Action::Draw }
}

impl RendererModel {
    /// Whether a full tick interval has passed at `now_ms`.
    pub open spec fn tick_due(self, now_ms: nat) -> bool {
        elapsed(self.last_tick_ms, now_ms) >= self.tick_ms
    }

    /// How long input may be waited for at `now_ms` before the next tick.
    pub open spec fn remaining(self, now_ms: nat) -> nat {
        if self.tick_due(now_ms) {
            0
        } else {
            (self.tick_ms - elapsed(self.last_tick_ms, now_ms)) as nat
        }
    }

    /// The state after a key press.
    pub open spec fn after_key(self, key: Key) -> RendererModel {
        if key == Key::Toggle {
            RendererModel { mode: self.mode.flipped(), ..self }
        } else {
            self
        }
    }

    /// The state after a tick at `now_ms` over a set of `len` items.
    pub open spec fn after_tick(self, len: nat, now_ms: nat) -> RendererModel {
        RendererModel { cursor: (self.cursor + 1) % len, last_tick_ms: now_ms, ..self }
    }

    /// The state after one pass of the loop: the input, if any, then the
    /// tick if one is due.
    pub open spec fn after_step(self, input: Option<Key>, len: nat, now_ms: nat) -> RendererModel {
        let s = match input {
            Some(k) => self.after_key(k),
            None => self,
        };
        if input == Some(Key::Quit) {
            s
        } else if s.tick_due(now_ms) {
            s.after_tick(len, now_ms)
        } else {
            s
        }
    }
}

/// The foreground loop's own state: the cursor over the ready set, the display
/// mode and the tick clock.
pub struct Renderer {
    cursor: usize,
    mode: DisplayMode,
    tick_ms: u64,
    last_tick_ms: u64,
}

impl View for Renderer {
    type V = RendererModel;

    closed spec fn view(&self) -> RendererModel {
        RendererModel {
            cursor: self.cursor as nat,
            mode: self.mode,
            tick_ms: self.tick_ms as nat,
            last_tick_ms: self.last_tick_ms as nat,
        }
    }
}

impl Renderer {
    /// A renderer at the first item, in the requested mode, whose tick clock
    /// starts at `now_ms`.
    pub fn new(mode: DisplayMode, tick_ms: u64, now_ms: u64) -> (r: Renderer)
        ensures
            r@ == (RendererModel {
                cursor: 0,
                mode,
                tick_ms: tick_ms as nat,
                last_tick_ms: now_ms as nat,
            }),
    {
        Renderer { cursor: 0, mode, tick_ms, last_tick_ms: now_ms }
    }

    /// The index of the selected item.
    pub fn cursor(&self) -> (r: usize)
        ensures
            r == self@.cursor,
    {
        self.cursor
    }

    /// The current display mode.
    pub fn mode(&self) -> (r: DisplayMode)
        ensures
            r == self@.mode,
    {
        self.mode
    }

    fn elapsed_ms(&self, now_ms: u64) -> (r: u64)
        ensures
            r == elapsed(self@.last_tick_ms, now_ms as nat),
    {
        if now_ms >= self.last_tick_ms {
            now_ms - self.last_tick_ms
        } else {
            0
        }
    }

    /// Whether the tick interval has fully passed at `now_ms`.
    pub fn tick_due(&self, now_ms: u64) -> (r: bool)
        ensures
            r == self@.tick_due(now_ms as nat),
    {
        self.elapsed_ms(now_ms) >= self.tick_ms
    }

    /// How long the loop may wait for input at `now_ms`: the rest of the tick
    /// interval, never more.
    pub fn poll_timeout(&self, now_ms: u64) -> (r: u64)
        ensures
            r == self@.remaining(now_ms as nat),
            r <= self@.tick_ms,
    {
        let e = self.elapsed_ms(now_ms);
        if e >= self.tick_ms {
            0
        } else {
            self.tick_ms - e
        }
    }

    /// Reacts to a key press: the toggle key flips the mode at once, the quit
    /// key ends the loop, any other key is ignored. The cursor and the tick
    /// clock stay as they are.
    pub fn on_key(&mut self, key: Key) -> (r: Action)
        ensures
            final(self)@ == old(self)@.after_key(key),
            r == (if key == Key::Quit { Action::Exit } else { Action::Draw }),
    {
        match key {
            Key::Toggle => {
                self.mode = self.mode.toggled();
                Action::Draw
            },
            Key::Quit => Action::Exit,
            Key::Other => Action::Draw,
        }
    }

    /// Advances the cursor by one over `len` items, wrapping, and restarts the
    /// tick clock at `now_ms`.
    pub fn on_tick(&mut self, len: usize, now_ms: u64)
        requires
            len > 0,
        ensures
            final(self)@ == old(self)@.after_tick(len as nat, now_ms as nat),
            final(self)@.cursor < len,
    {
        let c = self.cursor % len;
        self.cursor = (c + 1) % len;
        proof {
            vstd::arithmetic::div_mod::lemma_add_mod_noop_right(
                1,
                old(self)@.cursor as int,
                len as int,
            );
        }
        self.last_tick_ms = now_ms;
    }

    /// One pass of the loop once the wait for input is over: the key pressed,
    /// if any, is handled first; unless it was the quit key, the cursor then
    /// advances over the `len` items if the tick interval has passed.
    pub fn step(&mut self, input: Option<Key>, len: usize, now_ms: u64) -> (r: Action)
        requires
            len > 0,
        ensures
            final(self)@ == old(self)@.after_step(input, len as nat, now_ms as nat),
            r == action_for(input),
    {
        if let Some(key) = input {
            if self.on_key(key) == Action::Exit {
                return Action::Exit;
            }
        }
        if self.tick_due(now_ms) {
            self.on_tick(len, now_ms);
        }
        Action::Draw
    }

    /// A copy of the item under the cursor, if the cursor is inside `set`.
    pub fn selected(&self, set: &ReadySet) -> (r: Option<String>)
        ensures
            r == (if self@.cursor < set@.items.len() {
                Some(set@.items[self@.cursor as int])
            } else {
                None
            }),
    {
        set.get(self.cursor)
    }
}

/// Whether the prepared image, made for the item `prepared` if any, no longer
/// shows the item `selected` and has to be made again.
pub fn is_stale(prepared: &Option<String>, selected: &String) -> (r: bool)
    ensures
        r == !(prepared matches Some(p) && p@ == selected@),
{
    match prepared {
        Some(p) => !(*p == *selected),
        None => true,
    }
}

} // verus!
