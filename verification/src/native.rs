//! The display state every backend keeps, and the quit negotiation on it.
use vstd::prelude::*;

pub mod android;
pub mod channel;
pub mod gl;
pub mod lifecycle;
pub mod macos;
pub mod trace;
pub mod windows;

verus! {

/// Bit pattern of the single-precision number one: the scale of a display
/// whose framebuffer pixels and logical pixels coincide.
pub const DPI_SCALE_ONE: u32 = 0x3F80_0000;

/// Bit pattern of the largest finite single-precision number.
pub const DPI_SCALE_LIMIT: u32 = 0x7F7F_FFFF;

/// The portable display state as a plain value.
///
/// `dpi_scale` is the bit pattern of a single-precision number. For numbers
/// that are finite and not below one, the order of the bit patterns is the
/// order of the numbers, so the range from `DPI_SCALE_ONE` to
/// `DPI_SCALE_LIMIT` holds exactly the finite scales of at least one.
#[derive(Clone, Copy, Debug, PartialEq, Eq, Structural)]
pub struct DisplayState {
    pub screen_width: i32,
    pub screen_height: i32,
    pub dpi_scale: u32,
    pub high_dpi: bool,
    pub quit_requested: bool,
    pub quit_ordered: bool,
}

/// One change that a backend or the application can make to the display state.
#[derive(Clone, Copy, Debug)]
pub enum DisplayOp {
    /// The application finalizes quitting.
    OrderQuit,
    /// The application asks to quit; the event handler may still veto.
    RequestQuit,
    /// The application takes a pending request back.
    CancelQuit,
    /// A close attempt starts.
    CloseRequested,
    /// A close attempt ends, after the event handler had its say.
    CloseDecided,
    /// The operating system reports a framebuffer size, or fails to.
    Resize { size: Option<(i32, i32)> },
    /// The operating system reports a scale, as a bit pattern.
    Rescale { reported: u32 },
}

/// A framebuffer measure as it is stored: never below one.
pub open spec fn at_least_one(v: i32) -> i32 {
    if v < 1 {
        1
    } else {
        v
    }
}

/// The size that is stored for a report of the operating system. A failed
/// query counts as the smallest surface.
pub open spec fn stored_size(size: Option<(i32, i32)>) -> (i32, i32) {
    match size {
        Some((w, h)) => (at_least_one(w), at_least_one(h)),
        None => (1, 1),
    }
}

/// The scale that is stored for a reported bit pattern: the report itself
/// where high-DPI mode is on and the report is a finite scale of at least
/// one, else one.
pub open spec fn stored_scale(high_dpi: bool, reported: u32) -> u32 {
    if high_dpi && DPI_SCALE_ONE <= reported <= DPI_SCALE_LIMIT {
        reported
    } else {
        DPI_SCALE_ONE
    }
}

impl DisplayState {
    /// What holds of every display state: no dimension is below one, the
    /// scale is finite and at least one, and it is exactly one while high-DPI
    /// mode is off.
    pub open spec fn valid(self) -> bool {
        &&& self.screen_width >= 1
        &&& self.screen_height >= 1
        &&& DPI_SCALE_ONE <= self.dpi_scale <= DPI_SCALE_LIMIT
        &&& !self.high_dpi ==> self.dpi_scale == DPI_SCALE_ONE
    }

    /// The state a backend starts from.
    pub open spec fn initial(high_dpi: bool) -> DisplayState {
        DisplayState {
            screen_width: 1,
            screen_height: 1,
            dpi_scale: DPI_SCALE_ONE,
            high_dpi,
            quit_requested: false,
            quit_ordered: false,
        }
    }

    /// The state after one change.
    pub open spec fn apply(self, op: DisplayOp) -> DisplayState {
        match op {
            DisplayOp::OrderQuit => DisplayState { quit_ordered: true, ..self },
            DisplayOp::RequestQuit => DisplayState { quit_requested: true, ..self },
            DisplayOp::CancelQuit => if self.quit_ordered {
                self
            } else {
                DisplayState { quit_requested: false, ..self }
            },
            DisplayOp::CloseRequested => if self.quit_ordered {
                self
            } else {
                DisplayState { quit_requested: true, ..self }
            },
            DisplayOp::CloseDecided => if self.quit_requested {
                DisplayState { quit_ordered: true, ..self }
            } else {
                self
            },
            DisplayOp::Resize { size } => DisplayState {
                screen_width: stored_size(size).0,
                screen_height: stored_size(size).1,
                ..self
            },
            DisplayOp::Rescale { reported } => DisplayState {
                dpi_scale: stored_scale(self.high_dpi, reported),
                ..self
            },
        }
    }

    /// The state after a sequence of changes, first to last.
    pub open spec fn apply_all(self, ops: Seq<DisplayOp>) -> DisplayState
        decreases ops.len(),
    {
        if ops.len() == 0 {
            self
        } else {
            self.apply_all(ops.drop_last()).apply(ops.last())
        }
    }

    /// Whether a close attempt that starts in this state hands the decision
    /// to the event handler.
    pub open spec fn asks_handler(self) -> bool {
        !self.quit_ordered
    }

    /// The framebuffer size as a pair.
    pub open spec fn size(self) -> (i32, i32) {
        (self.screen_width, self.screen_height)
    }
}

/// The display state of a running backend. It can only be changed through
/// its methods, so every value of it is valid.
pub struct NativeDisplayData {
    state: DisplayState,
}

impl View for NativeDisplayData {
    type V = DisplayState;

    closed spec fn view(&self) -> DisplayState {
        self.state
    }
}

impl NativeDisplayData {
    #[verifier::type_invariant]
    spec fn inv(self) -> bool {
        self.state.valid()
    }

    /// The state before any window exists.
    pub fn new(high_dpi: bool) -> (data: NativeDisplayData)
        ensures
            data@ == DisplayState::initial(high_dpi),
            data@.valid(),
    {
        NativeDisplayData {
            state: DisplayState {
                screen_width: 1,
                screen_height: 1,
                dpi_scale: DPI_SCALE_ONE,
                high_dpi,
                quit_requested: false,
                quit_ordered: false,
            },
        }
    }

    /// The state as a plain value.
    pub fn snapshot(&self) -> (state: DisplayState)
        ensures
            state == self@,
            state.valid(),
    {
        proof {
            use_type_invariant(self);
        }
        self.state
    }

    /// Current framebuffer size in pixels, width first.
    pub fn screen_size(&self) -> (size: (i32, i32))
        ensures
            size == self@.size(),
            size.0 >= 1,
            size.1 >= 1,
    {
        proof {
            use_type_invariant(self);
        }
        (self.state.screen_width, self.state.screen_height)
    }

    /// Ratio between framebuffer pixels and logical pixels, as a bit pattern.
    pub fn dpi_scale(&self) -> (scale: u32)
        ensures
            scale == self@.dpi_scale,
            DPI_SCALE_ONE <= scale <= DPI_SCALE_LIMIT,
            !self@.high_dpi ==> scale == DPI_SCALE_ONE,
    {
        proof {
            use_type_invariant(self);
        }
        self.state.dpi_scale
    }

    /// Whether high-DPI mode was asked for at creation. The answer never
    /// changes; without the mode the scale is one.
    pub fn high_dpi(&self) -> (on: bool)
        ensures
            on == self@.high_dpi,
            !on ==> self@.dpi_scale == DPI_SCALE_ONE,
    {
        proof {
            use_type_invariant(self);
        }
        self.state.high_dpi
    }

    /// Whether a quit is pending that the event handler may still veto.
    pub fn quit_requested(&self) -> (pending: bool)
        ensures
            pending == self@.quit_requested,
    {
        self.state.quit_requested
    }

    /// Whether quitting is final.
    pub fn quit_ordered(&self) -> (ordered: bool)
        ensures
            ordered == self@.quit_ordered,
    {
        self.state.quit_ordered
    }

    /// Finalizes quitting. This cannot be undone.
    pub fn order_quit(&mut self)
        ensures
            final(self)@ == old(self)@.apply(DisplayOp::OrderQuit),
    {
        proof {
            use_type_invariant(&*self);
        }
        self.state.quit_ordered = true;
    }

    /// Asks to quit. The next close attempt lets the event handler veto.
    pub fn request_quit(&mut self)
        ensures
            final(self)@ == old(self)@.apply(DisplayOp::RequestQuit),
    {
        proof {
            use_type_invariant(&*self);
        }
        self.state.quit_requested = true;
    }

    /// Takes a pending quit request back. Once quitting is final this does
    /// nothing.
    pub fn cancel_quit(&mut self)
        ensures
            final(self)@ == old(self)@.apply(DisplayOp::CancelQuit),
    {
        proof {
            use_type_invariant(&*self);
        }
        if !self.state.quit_ordered {
            self.state.quit_requested = false;
        }
    }

    /// Starts a close attempt. The result says whether the event handler's
    /// `quit_requested_event` is to be invoked, once, before
    /// `close_decided`: it is unless quitting is already final.
    pub fn close_requested(&mut self) -> (ask: bool)
        ensures
            ask == old(self)@.asks_handler(),
            final(self)@ == old(self)@.apply(DisplayOp::CloseRequested),
    {
        proof {
            use_type_invariant(&*self);
        }
        if self.state.quit_ordered {
            false
        } else {
            self.state.quit_requested = true;
            true
        }
    }

    /// Ends a close attempt. A request that is still pending becomes final.
    /// The result says whether the backend closes.
    pub fn close_decided(&mut self) -> (closes: bool)
        ensures
            final(self)@ == old(self)@.apply(DisplayOp::CloseDecided),
            closes == final(self)@.quit_ordered,
    {
        proof {
            use_type_invariant(&*self);
        }
        if self.state.quit_requested {
            self.state.quit_ordered = true;
        }
        self.state.quit_ordered
    }

    /// Takes over the framebuffer size that the operating system confirmed;
    /// `None` stands for a failed query. The result is the resize
    /// notification that is owed to the event handler before the next frame:
    /// the new size if the stored size changed, nothing if it did not.
    pub fn update_dimensions(&mut self, size: Option<(i32, i32)>) -> (notify: Option<(i32, i32)>)
        ensures
            final(self)@ == old(self)@.apply(DisplayOp::Resize { size }),
            final(self)@.size() == old(self)@.size() ==> notify is None,
            final(self)@.size() != old(self)@.size() ==> notify == Some(final(self)@.size()),
    {
        proof {
            use_type_invariant(&*self);
        }
        let (mut width, mut height): (i32, i32) = match size {
            Some((w, h)) => (w, h),
            None => (1, 1),
        };
        if width < 1 {
            width = 1;
        }
        if height < 1 {
            height = 1;
        }
        let changed: bool = width != self.state.screen_width || height
            != self.state.screen_height;
        self.state.screen_width = width;
        self.state.screen_height = height;
        if changed {
            Some((width, height))
        } else {
            None
        }
    }

    /// Takes over the scale that the operating system reports, as a bit
    /// pattern. Outside high-DPI mode, and for a report that is no finite
    /// scale of at least one, the scale is one.
    pub fn set_dpi_scale(&mut self, reported: u32)
        ensures
            final(self)@ == old(self)@.apply(DisplayOp::Rescale { reported }),
    {
        proof {
            use_type_invariant(&*self);
        }
        if self.state.high_dpi && DPI_SCALE_ONE <= reported && reported <= DPI_SCALE_LIMIT {
            self.state.dpi_scale = reported;
        } else {
            self.state.dpi_scale = DPI_SCALE_ONE;
        }
    }
}

impl Default for NativeDisplayData {
    fn default() -> (data: NativeDisplayData)
        ensures
            data@ == DisplayState::initial(false),
    {
        NativeDisplayData::new(false)
    }
}

/// Every change keeps a valid state valid. In particular the scale stays at
/// least one, and exactly one while high-DPI mode is off, and no dimension
/// ever drops below one.
pub proof fn lemma_apply_keeps_valid(s: DisplayState, op: DisplayOp)
    requires
        s.valid(),
    ensures
        s.apply(op).valid(),
        s.apply(op).high_dpi == s.high_dpi,
{
}

/// After any sequence of changes a valid state is still valid, and the
/// high-DPI flag is the one it was created with.
pub proof fn lemma_apply_all_keeps_valid(s: DisplayState, ops: Seq<DisplayOp>)
    requires
        s.valid(),
    ensures
        s.apply_all(ops).valid(),
        s.apply_all(ops).high_dpi == s.high_dpi,
    decreases ops.len(),
{
    if ops.len() > 0 {
        lemma_apply_all_keeps_valid(s, ops.drop_last());
        lemma_apply_keeps_valid(s.apply_all(ops.drop_last()), ops.last());
    }
}

/// Once quitting is final it stays final, whatever happens afterwards.
pub proof fn lemma_quit_ordered_is_final(s: DisplayState, ops: Seq<DisplayOp>)
    requires
        s.quit_ordered,
    ensures
        s.apply_all(ops).quit_ordered,
    decreases ops.len(),
{
    if ops.len() > 0 {
        lemma_quit_ordered_is_final(s, ops.drop_last());
    }
}

/// A pending request is dropped by nothing but an explicit cancellation, and
/// by that only while quitting is not final.
pub proof fn lemma_only_cancel_drops_request(s: DisplayState, op: DisplayOp)
    requires
        s.quit_requested,
        !s.apply(op).quit_requested,
    ensures
        op == DisplayOp::CancelQuit,
        !s.quit_ordered,
{
}

/// A close attempt that the application cancels from within the event
/// handler does not close: the handler is asked once, quitting is not final
/// afterwards and no request is left pending.
pub proof fn lemma_cancelled_close_keeps_running(s: DisplayState)
    requires
        !s.quit_ordered,
    ensures
        s.asks_handler(),
        !s.apply(DisplayOp::CloseRequested).apply(DisplayOp::CancelQuit).apply(
            DisplayOp::CloseDecided,
        ).quit_ordered,
        !s.apply(DisplayOp::CloseRequested).apply(DisplayOp::CancelQuit).apply(
            DisplayOp::CloseDecided,
        ).quit_requested,
{
}

/// A close attempt that nobody cancels closes, and one that starts when
/// quitting is already final closes without asking the event handler.
pub proof fn lemma_uncancelled_close_closes(s: DisplayState)
    ensures
        s.apply(DisplayOp::CloseRequested).apply(DisplayOp::CloseDecided).quit_ordered,
        s.quit_ordered ==> !s.asks_handler() && s.apply(DisplayOp::CloseRequested) == s,
{
}

/// The one place where the display of the running backend is kept, so that
/// it can be reached from anywhere in the process. The display belongs to
/// the thread that installed it; every access names the thread that makes
/// it, and only the owning thread is let through.
pub struct DisplayHandle<D> {
    display: Option<D>,
    owner: u64,
}

impl<D> DisplayHandle<D> {
    /// The display that is installed, if one is.
    pub closed spec fn installed(&self) -> Option<D> {
        self.display
    }

    /// The thread that the installed display belongs to.
    pub closed spec fn owner(&self) -> u64 {
        self.owner
    }

    /// Whether `thread` may reach the display: one is installed, and it
    /// belongs to that thread.
    pub open spec fn accessible(&self, thread: u64) -> bool {
        self.installed() is Some && self.owner() == thread
    }

    /// A handle with no display installed.
    pub fn new() -> (handle: DisplayHandle<D>)
        ensures
            handle.installed() is None,
    {
        DisplayHandle { display: None, owner: 0 }
    }

    /// Installs the display of the backend, in place of any earlier one.
    /// It belongs to `thread` from now on.
    pub fn set_display(&mut self, display: D, thread: u64)
        ensures
            final(self).installed() == Some(display),
            final(self).owner() == thread,
    {
        self.display = Some(display);
        self.owner = thread;
    }

    /// Whether `thread` may reach the display.
    pub fn is_accessible(&self, thread: u64) -> (ok: bool)
        ensures
            ok == self.accessible(thread),
    {
        self.display.is_some() && self.owner == thread
    }

    /// Takes the display out when the backend has terminated. Only the
    /// owning thread gets it; for any other thread nothing changes.
    pub fn take_display(&mut self, thread: u64) -> (display: Option<D>)
        ensures
            old(self).accessible(thread) ==> display == old(self).installed() && final(self).installed() is None,
            !old(self).accessible(thread) ==> display is None && final(self).installed() == old(self).installed(),
            final(self).owner() == old(self).owner(),
    {
        if self.display.is_some() && self.owner == thread {
            self.display.take()
        } else {
            None
        }
    }

    /// Runs `f` on the installed display and hands its result back. What
    /// `f` does to the display is what happens to the installed display.
    pub fn with<T, F: FnOnce(&mut D) -> T>(&mut self, thread: u64, f: F) -> (result: T)
        requires
            old(self).accessible(thread),
            forall|d: &mut D| *d == old(self).installed()->0 ==> call_requires(f, (d,)),
        ensures
            final(self).accessible(thread),
            exists|d: &mut D|
                *d == old(self).installed()->0 && *final(d) == final(self).installed()->0
                    && call_ensures(f, (d,), result),
    {
        match &mut self.display {
            Some(display) => f(display),
            None => vstd::pervasive::unreached(),
        }
    }

    /// Runs `f` on the installed display.
    pub fn with_native_display<F: FnOnce(&mut D)>(&mut self, thread: u64, f: F)
        requires
            old(self).accessible(thread),
            forall|d: &mut D| *d == old(self).installed()->0 ==> call_requires(f, (d,)),
        ensures
            final(self).accessible(thread),
            exists|d: &mut D|
                *d == old(self).installed()->0 && *final(d) == final(self).installed()->0
                    && call_ensures(f, (d,), ()),
    {
        self.with(thread, f)
    }

    /// Runs `f` on the installed display if `thread` may reach it, and
    /// hands its result back; otherwise nothing is run and nothing changes.
    pub fn try_with<T, F: FnOnce(&mut D) -> T>(&mut self, thread: u64, f: F) -> (result: Option<T>)
        requires
            old(self).accessible(thread) ==> forall|d: &mut D|
                *d == old(self).installed()->0 ==> call_requires(f, (d,)),
        ensures
            old(self).accessible(thread) ==> result is Some && final(self).accessible(thread)
                && exists|d: &mut D|
                *d == old(self).installed()->0 && *final(d) == final(self).installed()->0
                    && call_ensures(f, (d,), result->0),
            !old(self).accessible(thread) ==> result is None && final(self).installed() == old(self).installed() && final(self).owner() == old(self).owner(),
    {
        if self.is_accessible(thread) {
            Some(self.with(thread, f))
        } else {
            None
        }
    }
}

} // verus!
