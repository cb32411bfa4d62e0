use vstd::prelude::*;

use crate::modifiers::ModKey;

verus! {

/// Hands out output ids in increasing order, so that none is used twice in
/// one process.
#[derive(Debug)]
pub struct IdCounter {
    next: u64,
}

impl View for IdCounter {
    type V = u64;

    closed spec fn view(&self) -> u64 {
        self.next
    }
}

impl IdCounter {
    pub fn new() -> (r: IdCounter)
        ensures
            r@ == 1,
    {
        IdCounter { next: 1 }
    }

    /// The next id; each call gives a larger one than the last.
    pub fn next(&mut self) -> (r: u64)
        requires
            old(self)@ < u64::MAX,
        ensures
            r == old(self)@,
            final(self)@ == old(self)@ + 1,
    {
        let r = self.next;
        self.next = r + 1;
        r
    }
}

/// The id of an output, unique within one process.
#[derive(Debug, Clone, Copy, PartialEq, Eq, Hash, Structural)]
pub struct OutputId(u64);

impl View for OutputId {
    type V = u64;

    closed spec fn view(&self) -> u64 {
        self.0
    }
}

impl OutputId {
    /// A fresh id from the process's counter.
    pub fn next(counter: &mut IdCounter) -> (r: OutputId)
        requires
            old(counter)@ < u64::MAX,
        ensures
            r@ == old(counter)@,
            final(counter)@ == old(counter)@ + 1,
    {
        OutputId(counter.next())
    }

    pub fn get(self) -> (r: u64)
        ensures
            r == self@,
    {
        self.0
    }
}

/// How rendering a frame went.
#[derive(Debug, Clone, Copy, PartialEq, Eq, Structural)]
pub enum RenderResult {
    /// The frame was submitted to the backend for presentation.
    Submitted,
    /// Rendering succeeded, but there was no damage.
    NoDamage,
    /// The frame was not rendered and submitted, due to an error or otherwise.
    Skipped,
}

/// A session request that the TTY backend hands to the session layer.
#[derive(Debug, Clone, Copy, PartialEq, Eq, Structural)]
pub enum SessionRequest {
    ChangeVt(i32),
    Suspend,
}

/// The state of the backend that runs on a TTY, as far as the compositor's
/// decisions go; the session layer carries out its pending requests.
#[derive(Debug)]
pub struct Tty {
    pub seat_name: String,
    pub debug_tint: bool,
    pub monitors_active: bool,
    pub pending: Vec<SessionRequest>,
}

/// The state of the backend that runs nested in a window.
#[derive(Debug)]
pub struct Winit {
    pub debug_tint: bool,
}

/// The state of the backend that runs with no outputs of its own.
#[derive(Debug)]
pub struct Headless {}

/// The backend the compositor runs on.
#[derive(Debug)]
pub enum Backend {
    Tty(Tty),
    Winit(Winit),
    Headless(Headless),
}

/// The Mod key on a backend: the configured one, where set. Nested in a
/// window, the default is Alt, or Super where the host compositor's own Mod
/// key is Alt.
pub open spec fn mod_key_for(b: Backend, mod_key: Option<ModKey>, nested: Option<ModKey>) -> ModKey {
    match b {
        Backend::Winit(_) => match nested {
            Some(k) => k,
            None => if mod_key == Some(ModKey::Alt) {
                ModKey::Super
            } else {
                ModKey::Alt
            },
        },
        _ => match mod_key {
            Some(k) => k,
            None => ModKey::Super,
        },
    }
}

impl Backend {
    /// The name of the seat: the session's on a TTY, else the backend's name.
    pub fn seat_name(&self) -> (r: String)
        ensures
            match self {
                Backend::Tty(t) => r@ == t.seat_name@,
                Backend::Winit(_) => r@ == "winit"@,
                Backend::Headless(_) => r@ == "headless"@,
            },
    {
        match self {
            Backend::Tty(t) => t.seat_name.clone(),
            Backend::Winit(_) => String::from_str("winit"),
            Backend::Headless(_) => String::from_str("headless"),
        }
    }

    /// The Mod key, from the configured `mod_key` and `mod_key_nested`.
    pub fn mod_key(&self, mod_key: Option<ModKey>, mod_key_nested: Option<ModKey>) -> (r: ModKey)
        ensures
            r == mod_key_for(*self, mod_key, mod_key_nested),
    {
        match self {
            Backend::Winit(_) => match mod_key_nested {
                Some(k) => k,
                None => if mod_key == Some(ModKey::Alt) {
                    ModKey::Super
                } else {
                    ModKey::Alt
                },
            },
            _ => match mod_key {
                Some(k) => k,
                None => ModKey::Super,
            },
        }
    }

    /// Asks to switch to another virtual terminal; only a TTY can.
    pub fn change_vt(&mut self, vt: i32)
        ensures
            match *old(self) {
                Backend::Tty(t) => *final(self) matches Backend::Tty(u) && u.pending@ == t.pending@.push(
                    SessionRequest::ChangeVt(vt),
                ) && u.seat_name == t.seat_name && u.debug_tint == t.debug_tint
                    && u.monitors_active == t.monitors_active,
                _ => *final(self) == *old(self),
            },
    {
        if let Backend::Tty(t) = self {
            t.pending.push(SessionRequest::ChangeVt(vt));
        }
    }

    /// Asks to suspend the machine; only a TTY can.
    pub fn suspend(&mut self)
        ensures
            match *old(self) {
                Backend::Tty(t) => *final(self) matches Backend::Tty(u) && u.pending@ == t.pending@.push(
                    SessionRequest::Suspend,
                ) && u.seat_name == t.seat_name && u.debug_tint == t.debug_tint
                    && u.monitors_active == t.monitors_active,
                _ => *final(self) == *old(self),
            },
    {
        if let Backend::Tty(t) = self {
            t.pending.push(SessionRequest::Suspend);
        }
    }

    /// Turns the debug tint on or off, where the backend renders one.
    pub fn toggle_debug_tint(&mut self)
        ensures
            match *old(self) {
                Backend::Tty(t) => *final(self) matches Backend::Tty(u) && u.debug_tint == !t.debug_tint
                    && u.seat_name == t.seat_name && u.monitors_active == t.monitors_active
                    && u.pending == t.pending,
                Backend::Winit(w) => *final(self) matches Backend::Winit(v) && v.debug_tint
                    == !w.debug_tint,
                Backend::Headless(_) => *final(self) == *old(self),
            },
    {
        match self {
            Backend::Tty(t) => {
                t.debug_tint = !t.debug_tint;
            },
            Backend::Winit(w) => {
                w.debug_tint = !w.debug_tint;
            },
            Backend::Headless(_) => {},
        }
    }

    /// Powers the monitors on or off; only a TTY drives monitors.
    pub fn set_monitors_active(&mut self, active: bool)
        ensures
            match *old(self) {
                Backend::Tty(t) => *final(self) matches Backend::Tty(u) && u.monitors_active == active
                    && u.seat_name == t.seat_name && u.debug_tint == t.debug_tint && u.pending
                    == t.pending,
                _ => *final(self) == *old(self),
            },
    {
        if let Backend::Tty(t) = self {
            t.monitors_active = active;
        }
    }

    /// The TTY backend, where this is one.
    pub fn tty_checked(&mut self) -> (r: Option<&mut Tty>)
        ensures
            (r is Some) == (*old(self) is Tty),
            r is None ==> *final(self) == *old(self),
            r matches Some(t) ==> *t == old(self)->Tty_0 && *final(self) == Backend::Tty(*final(t)),
    {
        match self {
            Backend::Tty(v) => Some(v),
            _ => None,
        }
    }

    pub fn tty(&mut self) -> (r: &mut Tty)
        requires
            *old(self) is Tty,
        ensures
            *r == old(self)->Tty_0,
            *final(self) == Backend::Tty(*final(r)),
    {
        match self {
            Backend::Tty(v) => v,
            _ => vstd::pervasive::unreached(),
        }
    }

    pub fn winit(&mut self) -> (r: &mut Winit)
        requires
            *old(self) is Winit,
        ensures
            *r == old(self)->Winit_0,
            *final(self) == Backend::Winit(*final(r)),
    {
        match self {
            Backend::Winit(v) => v,
            _ => vstd::pervasive::unreached(),
        }
    }

    pub fn headless(&mut self) -> (r: &mut Headless)
        requires
            *old(self) is Headless,
        ensures
            *r == old(self)->Headless_0,
            *final(self) == Backend::Headless(*final(r)),
    {
        match self {
            Backend::Headless(v) => v,
            _ => vstd::pervasive::unreached(),
        }
    }
}

} // verus!
