//! State that the embedded platform keeps for its single virtual window:
//! what an input event changes, the commands queued for the host, the
//! virtual display, and the window slot itself.
//!
//! The types are generic over the host's geometry and input types, which
//! the logic here only stores and hands back.

use vstd::prelude::*;

use std::collections::VecDeque;

verus! {

/// The result of dispatching one input event to the virtual window.
#[derive(Clone, Copy, Debug, PartialEq, Eq, Structural)]
pub struct InputOutcome {
    /// Whether the host should keep routing the event it dispatched.
    pub propagate: bool,
    /// Whether a handler prevented the event's default action.
    pub default_prevented: bool,
    /// Whether the virtual window was invalidated and needs another encoded frame.
    pub redraw_requested: bool,
    /// Whether pointer capture was retained for this event stream.
    pub pointer_capture: bool,
}

impl Default for InputOutcome {
    fn default() -> (o: InputOutcome)
        ensures
            o == (InputOutcome {
                propagate: false,
                default_prevented: false,
                redraw_requested: false,
                pointer_capture: false,
            }),
    {
        InputOutcome {
            propagate: false,
            default_prevented: false,
            redraw_requested: false,
            pointer_capture: false,
        }
    }
}

impl InputOutcome {
    /// Combines what dispatching an event reported with the state of the
    /// window afterwards: a redraw is requested when the window is dirty or
    /// needs a redraw, and capture is kept while a hitbox is captured.
    pub fn from_dispatch(
        propagate: bool,
        default_prevented: bool,
        window_dirty: bool,
        needs_redraw: bool,
        hitbox_captured: bool,
    ) -> (o: InputOutcome)
        ensures
            o == (InputOutcome {
                propagate,
                default_prevented,
                redraw_requested: window_dirty || needs_redraw,
                pointer_capture: hitbox_captured,
            }),
    {
        InputOutcome {
            propagate,
            default_prevented,
            redraw_requested: window_dirty || needs_redraw,
            pointer_capture: hitbox_captured,
        }
    }
}

/// Commands emitted for the embedding host to apply.
#[derive(Clone, Copy, Debug, PartialEq, Eq)]
pub enum HostCommand<Cursor, Area> {
    /// Set the host cursor style for the embedded window.
    SetCursor(Cursor),
    /// Move the host IME candidate rectangle.
    SetImePosition(Area),
}

/// Commands waiting for the host, oldest first.
pub struct HostCommandQueue<Cursor, Area> {
    commands: VecDeque<HostCommand<Cursor, Area>>,
}

impl<Cursor, Area> View for HostCommandQueue<Cursor, Area> {
    type V = Seq<HostCommand<Cursor, Area>>;

    closed spec fn view(&self) -> Seq<HostCommand<Cursor, Area>> {
        self.commands@
    }
}

impl<Cursor, Area> HostCommandQueue<Cursor, Area> {
    /// An empty queue.
    pub fn new() -> (q: HostCommandQueue<Cursor, Area>)
        ensures
            q@ == Seq::<HostCommand<Cursor, Area>>::empty(),
    {
        HostCommandQueue { commands: VecDeque::new() }
    }

    /// Asks the host to show `style` as the cursor.
    pub fn set_cursor_style(&mut self, style: Cursor)
        ensures
            final(self)@ == old(self)@.push(HostCommand::SetCursor(style)),
    {
        self.commands.push_back(HostCommand::SetCursor(style));
    }

    /// Asks the host to move the IME candidate rectangle to `bounds`.
    pub fn update_ime_position(&mut self, bounds: Area)
        ensures
            final(self)@ == old(self)@.push(HostCommand::SetImePosition(bounds)),
    {
        self.commands.push_back(HostCommand::SetImePosition(bounds));
    }

    /// Drains every waiting command, in the order in which they were queued.
    pub fn take_host_commands(&mut self) -> (taken: Vec<HostCommand<Cursor, Area>>)
        ensures
            taken@ == old(self)@,
            final(self)@ == Seq::<HostCommand<Cursor, Area>>::empty(),
    {
        let mut taken: Vec<HostCommand<Cursor, Area>> = Vec::new();
        while self.commands.len() > 0
            invariant
                taken@ + self.commands@ == old(self)@,
            decreases self.commands@.len(),
        {
            let ghost before = self.commands@;
            match self.commands.pop_front() {
                Some(command) => {
                    taken.push(command);
                    assert(taken@ + self.commands@ =~= old(self)@) by {
                        assert(before =~= seq![command] + self.commands@);
                    }
                },
                None => {},
            }
        }
        assert(taken@ =~= old(self)@);
        taken
    }
}

/// The virtual display exposed for the virtual window; its bounds follow
/// the window's metrics.
pub struct EmbeddedDisplay<B> {
    bounds: B,
}

impl<B> View for EmbeddedDisplay<B> {
    type V = B;

    closed spec fn view(&self) -> B {
        self.bounds
    }
}

impl<B: Copy> EmbeddedDisplay<B> {
    /// A display with the given bounds.
    pub fn new(bounds: B) -> (d: EmbeddedDisplay<B>)
        ensures
            d@ == bounds,
    {
        EmbeddedDisplay { bounds }
    }

    /// Replaces the display bounds.
    pub fn set_bounds(&mut self, bounds: B)
        ensures
            final(self)@ == bounds,
    {
        self.bounds = bounds;
    }

    /// The current display bounds.
    pub fn bounds(&self) -> (b: B)
        ensures
            b == self@,
    {
        self.bounds
    }
}

/// The part of a host input event that the virtual window's state records.
#[derive(Clone, Copy, Debug, PartialEq, Eq)]
pub enum InputEvent<P, M, K> {
    /// A mouse button was pressed.
    MouseDown { position: P, modifiers: M },
    /// A mouse button was released.
    MouseUp { position: P, modifiers: M },
    /// The pointer moved.
    MouseMove { position: P, modifiers: M },
    /// Pressure on a force-sensitive pointer changed.
    MousePressure { position: P, modifiers: M },
    /// The pointer left the window.
    MouseExited { position: P, modifiers: M },
    /// The wheel or trackpad scrolled.
    ScrollWheel { position: P, modifiers: M },
    /// A pinch gesture.
    Pinch { position: P, modifiers: M },
    /// The modifier keys or caps lock changed.
    ModifiersChanged { modifiers: M, capslock: K },
    /// A touch point changed.
    Touch { position: P },
    /// A key was pressed.
    KeyDown,
    /// A key was released.
    KeyUp,
    /// Files were dragged or dropped.
    FileDrop,
}

/// A rectangle: where it starts and how large it is.
#[derive(Clone, Copy, Debug, PartialEq, Eq)]
pub struct Bounds<O, Z> {
    /// The top-left corner.
    pub origin: O,
    /// The width and height.
    pub size: Z,
}

/// The geometry and status that the host supplies for the virtual window.
#[derive(Clone, Copy, Debug, PartialEq, Eq)]
pub struct WindowMetrics<O, Z, S, A> {
    /// Window bounds in logical pixels.
    pub bounds: Bounds<O, Z>,
    /// Logical-to-device scale factor.
    pub scale_factor: S,
    /// Whether the host considers the virtual window active.
    pub active: bool,
    /// Whether the host considers the virtual window hovered.
    pub hovered: bool,
    /// The host's current appearance preference.
    pub appearance: A,
}

/// What the window tells its observers, in the order it tells them.
#[derive(Clone, Copy, Debug, PartialEq, Eq)]
pub enum WindowNotification<Z, S> {
    /// The content was resized to `size` at `scale_factor`.
    Resize { size: Z, scale_factor: S },
    /// The window became active or inactive.
    ActiveStatus(bool),
    /// The pointer entered or left the window.
    HoverStatus(bool),
    /// The host's appearance preference may have changed.
    AppearanceChanged,
}

/// What the virtual window knows of its geometry, pointer, keyboard and
/// status.
pub struct WindowState<O, Z, S, A, P, M, K, G> {
    /// The metrics last supplied by the host, with resizes applied.
    pub metrics: WindowMetrics<O, Z, S, A>,
    /// The last pointer position.
    pub mouse_position: P,
    /// The last modifier keys.
    pub modifiers: M,
    /// The last caps lock state.
    pub capslock: K,
    /// Whether the window is active.
    pub active: bool,
    /// Whether the pointer is over the window.
    pub hovered: bool,
    /// The host's appearance preference.
    pub appearance: A,
    /// Whether the window is full screen.
    pub fullscreen: bool,
    /// The window title.
    pub title: String,
    /// How the window background is drawn.
    pub background: G,
}

impl<
    O: Copy,
    Z: Copy,
    S: Copy,
    A: Copy,
    P: Copy,
    M: Copy,
    K: Copy,
    G: Copy,
> WindowState<O, Z, S, A, P, M, K, G> {
    /// The state after `event`: pointer events record their position and
    /// modifiers, leaving the window also clears the hover, a modifier change
    /// records the modifiers and caps lock, a touch records its position, and
    /// key and file events change nothing.
    pub open spec fn after_input(self, event: InputEvent<P, M, K>) -> Self {
        match event {
            InputEvent::MouseDown { position, modifiers }
            | InputEvent::MouseUp { position, modifiers }
            | InputEvent::MouseMove { position, modifiers }
            | InputEvent::MousePressure { position, modifiers }
            | InputEvent::ScrollWheel { position, modifiers }
            | InputEvent::Pinch { position, modifiers } => WindowState {
                mouse_position: position,
                modifiers,
                ..self
            },
            InputEvent::MouseExited { position, modifiers } => WindowState {
                mouse_position: position,
                modifiers,
                hovered: false,
                ..self
            },
            InputEvent::ModifiersChanged { modifiers, capslock } => WindowState {
                modifiers,
                capslock,
                ..self
            },
            InputEvent::Touch { position } => WindowState { mouse_position: position, ..self },
            InputEvent::KeyDown | InputEvent::KeyUp | InputEvent::FileDrop => self,
        }
    }

    /// The state after the host supplies `metrics`: they are recorded, and
    /// the window's status follows them.
    pub open spec fn after_metrics(self, metrics: WindowMetrics<O, Z, S, A>) -> Self {
        WindowState {
            metrics,
            active: metrics.active,
            hovered: metrics.hovered,
            appearance: metrics.appearance,
            ..self
        }
    }

    /// The same state with full screen entered or left.
    pub open spec fn toggled_fullscreen(self) -> Self {
        WindowState { fullscreen: !self.fullscreen, ..self }
    }

    /// Records what `event` tells of the pointer and keyboard.
    pub fn update_input_state(&mut self, event: &InputEvent<P, M, K>)
        ensures
            *final(self) == old(self).after_input(*event),
    {
        match *event {
            InputEvent::MouseDown { position, modifiers }
            | InputEvent::MouseUp { position, modifiers }
            | InputEvent::MouseMove { position, modifiers }
            | InputEvent::MousePressure { position, modifiers }
            | InputEvent::ScrollWheel { position, modifiers }
            | InputEvent::Pinch { position, modifiers } => {
                self.mouse_position = position;
                self.modifiers = modifiers;
            },
            InputEvent::MouseExited { position, modifiers } => {
                self.mouse_position = position;
                self.modifiers = modifiers;
                self.hovered = false;
            },
            InputEvent::ModifiersChanged { modifiers, capslock } => {
                self.modifiers = modifiers;
                self.capslock = capslock;
            },
            InputEvent::Touch { position } => {
                self.mouse_position = position;
            },
            InputEvent::KeyDown | InputEvent::KeyUp | InputEvent::FileDrop => {},
        }
    }

    /// Records what `event` tells of the pointer and keyboard, then hands
    /// the event on: fails, with the state recorded all the same, when no
    /// input callback is registered.
    pub fn dispatch_input<R, Ac, H, Ap, I>(
        &mut self,
        callbacks: &WindowCallbacks<R, Ac, H, Ap, I>,
        event: &InputEvent<P, M, K>,
    ) -> (r: Result<(), NoInputCallback>)
        ensures
            *final(self) == old(self).after_input(*event),
            r is Err <==> callbacks.input is None,
    {
        self.update_input_state(event);
        if callbacks.input.is_some() {
            Ok(())
        } else {
            Err(NoInputCallback)
        }
    }

    /// Takes new host metrics: records them, moves the display to their
    /// bounds, and returns what the registered observers are told, in order:
    /// the resize, the active status, the hover status and the appearance.
    /// Observers are only read, so each stays registered for the next call.
    pub fn set_metrics<R, Ac, H, Ap, I>(
        &mut self,
        display: &mut EmbeddedDisplay<Bounds<O, Z>>,
        callbacks: &WindowCallbacks<R, Ac, H, Ap, I>,
        metrics: WindowMetrics<O, Z, S, A>,
    ) -> (told: Vec<WindowNotification<Z, S>>)
        ensures
            *final(self) == old(self).after_metrics(metrics),
            final(display)@ == metrics.bounds,
            told@ == callbacks.told_of_metrics(metrics),
    {
        self.metrics = metrics;
        display.set_bounds(metrics.bounds);
        self.active = metrics.active;
        self.hovered = metrics.hovered;
        self.appearance = metrics.appearance;
        callbacks.metrics_notifications(metrics)
    }

    /// The window bounds.
    pub fn bounds(&self) -> (b: Bounds<O, Z>)
        ensures
            b == self.metrics.bounds,
    {
        self.metrics.bounds
    }

    /// The size of the window's content.
    pub fn content_size(&self) -> (z: Z)
        ensures
            z == self.metrics.bounds.size,
    {
        self.metrics.bounds.size
    }

    /// The logical-to-device scale factor.
    pub fn scale_factor(&self) -> (f: S)
        ensures
            f == self.metrics.scale_factor,
    {
        self.metrics.scale_factor
    }

    /// Gives the window the size `size`, keeping its origin.
    pub fn resize(&mut self, size: Z)
        ensures
            *final(self) == (WindowState {
                metrics: WindowMetrics {
                    bounds: Bounds { size, ..old(self).metrics.bounds },
                    ..old(self).metrics
                },
                ..*old(self)
            }),
    {
        self.metrics.bounds.size = size;
    }

    /// Marks the window active and returns what its observers are told:
    /// the active status, when an observer of it is registered.
    pub fn activate<R, Ac, H, Ap, I>(&mut self, callbacks: &WindowCallbacks<R, Ac, H, Ap, I>) -> (told:
        Option<WindowNotification<Z, S>>)
        ensures
            *final(self) == (WindowState { active: true, ..*old(self) }),
            callbacks.active is Some ==> told == Some(WindowNotification::<Z, S>::ActiveStatus(true)),
            callbacks.active is None ==> told is None,
    {
        self.active = true;
        if callbacks.active.is_some() {
            Some(WindowNotification::ActiveStatus(true))
        } else {
            None
        }
    }

    /// Enters or leaves full screen.
    pub fn toggle_fullscreen(&mut self)
        ensures
            *final(self) == old(self).toggled_fullscreen(),
    {
        self.fullscreen = !self.fullscreen;
    }

    /// How the window background is drawn.
    pub fn background_appearance(&self) -> (g: G)
        ensures
            g == self.background,
    {
        self.background
    }

    /// Changes how the window background is drawn.
    pub fn set_background_appearance(&mut self, background: G)
        ensures
            *final(self) == (WindowState { background, ..*old(self) }),
    {
        self.background = background;
    }

    /// Replaces the window title.
    pub fn set_title(&mut self, title: &str)
        ensures
            final(self).title@ == title@,
            final(self).metrics == old(self).metrics,
            final(self).mouse_position == old(self).mouse_position,
            final(self).modifiers == old(self).modifiers,
            final(self).capslock == old(self).capslock,
            final(self).active == old(self).active,
            final(self).hovered == old(self).hovered,
            final(self).appearance == old(self).appearance,
            final(self).fullscreen == old(self).fullscreen,
            final(self).background == old(self).background,
    {
        self.title = title.to_owned();
    }
}

impl<
    O: Copy,
    Z: Copy,
    S: Copy,
    A: Copy,
    P: Copy + Default,
    M: Copy + Default,
    K: Copy + Default,
    G: Copy,
> WindowState<O, Z, S, A, P, M, K, G> {
    /// The state of a new window: the host's metrics and the status they
    /// give, the default pointer position, modifiers and caps lock, the given
    /// background, windowed and untitled.
    pub fn new(metrics: WindowMetrics<O, Z, S, A>, background: G) -> (s: Self)
        ensures
            s.metrics == metrics,
            call_ensures(P::default, (), s.mouse_position),
            call_ensures(M::default, (), s.modifiers),
            call_ensures(K::default, (), s.capslock),
            s.active == metrics.active,
            s.hovered == metrics.hovered,
            s.appearance == metrics.appearance,
            !s.fullscreen,
            s.title@ == Seq::<char>::empty(),
            s.background == background,
    {
        WindowState {
            metrics,
            mouse_position: P::default(),
            modifiers: M::default(),
            capslock: K::default(),
            active: metrics.active,
            hovered: metrics.hovered,
            appearance: metrics.appearance,
            fullscreen: false,
            title: String::new(),
            background,
        }
    }
}

/// Why an input event could not be handed on.
#[derive(Clone, Copy, Debug, PartialEq, Eq, Structural)]
pub struct NoInputCallback;

/// The observers registered on the virtual window, each slot empty until
/// one is registered.
pub struct WindowCallbacks<R, Ac, H, Ap, I> {
    /// Told of resizes.
    pub resize: Option<R>,
    /// Told of the active status.
    pub active: Option<Ac>,
    /// Told of the hover status.
    pub hover: Option<H>,
    /// Told that the appearance may have changed.
    pub appearance: Option<Ap>,
    /// Handed the input events.
    pub input: Option<I>,
}

impl<R, Ac, H, Ap, I> WindowCallbacks<R, Ac, H, Ap, I> {
    /// What the registered observers are told of new metrics, in order: the
    /// resize, the active status, the hover status and the appearance, each
    /// only when its observer is registered.
    pub open spec fn told_of_metrics<O, Z, S, A>(self, m: WindowMetrics<O, Z, S, A>) -> Seq<
        WindowNotification<Z, S>,
    > {
        (if self.resize is Some {
            seq![
                WindowNotification::Resize {
                    size: m.bounds.size,
                    scale_factor: m.scale_factor,
                },
            ]
        } else {
            Seq::empty()
        }) + (if self.active is Some {
            seq![WindowNotification::ActiveStatus(m.active)]
        } else {
            Seq::empty()
        }) + (if self.hover is Some {
            seq![WindowNotification::HoverStatus(m.hovered)]
        } else {
            Seq::empty()
        }) + (if self.appearance is Some {
            seq![WindowNotification::AppearanceChanged]
        } else {
            Seq::empty()
        })
    }

    /// No observer registered.
    pub fn new() -> (c: Self)
        ensures
            c.resize is None,
            c.active is None,
            c.hover is None,
            c.appearance is None,
            c.input is None,
    {
        WindowCallbacks { resize: None, active: None, hover: None, appearance: None, input: None }
    }

    /// What the registered observers are told of `metrics`.
    pub fn metrics_notifications<O: Copy, Z: Copy, S: Copy, A: Copy>(
        &self,
        metrics: WindowMetrics<O, Z, S, A>,
    ) -> (told: Vec<WindowNotification<Z, S>>)
        ensures
            told@ == self.told_of_metrics(metrics),
    {
        let mut told: Vec<WindowNotification<Z, S>> = Vec::new();
        if self.resize.is_some() {
            told.push(
                WindowNotification::Resize {
                    size: metrics.bounds.size,
                    scale_factor: metrics.scale_factor,
                },
            );
        }
        if self.active.is_some() {
            told.push(WindowNotification::ActiveStatus(metrics.active));
        }
        if self.hover.is_some() {
            told.push(WindowNotification::HoverStatus(metrics.hovered));
        }
        if self.appearance.is_some() {
            told.push(WindowNotification::AppearanceChanged);
        }
        assert(told@ =~= self.told_of_metrics(metrics));
        told
    }

    /// Registers the observer of resizes, replacing any earlier one.
    pub fn on_resize(&mut self, callback: R)
        ensures
            *final(self) == (WindowCallbacks { resize: Some(callback), ..*old(self) }),
    {
        self.resize = Some(callback);
    }

    /// Registers the observer of the active status, replacing any earlier one.
    pub fn on_active_status_change(&mut self, callback: Ac)
        ensures
            *final(self) == (WindowCallbacks { active: Some(callback), ..*old(self) }),
    {
        self.active = Some(callback);
    }

    /// Registers the observer of the hover status, replacing any earlier one.
    pub fn on_hover_status_change(&mut self, callback: H)
        ensures
            *final(self) == (WindowCallbacks { hover: Some(callback), ..*old(self) }),
    {
        self.hover = Some(callback);
    }

    /// Registers the observer of appearance changes, replacing any earlier one.
    pub fn on_appearance_changed(&mut self, callback: Ap)
        ensures
            *final(self) == (WindowCallbacks { appearance: Some(callback), ..*old(self) }),
    {
        self.appearance = Some(callback);
    }

    /// Registers the receiver of input events, replacing any earlier one.
    pub fn on_input(&mut self, callback: I)
        ensures
            *final(self) == (WindowCallbacks { input: Some(callback), ..*old(self) }),
    {
        self.input = Some(callback);
    }
}

impl<O, Z, S, A> WindowMetrics<O, Z, S, A> {
    /// The metrics of a window opened with `bounds` on a platform configured
    /// with these metrics: the given bounds, and this scale factor and status.
    pub open spec fn spec_for_window(self, bounds: Bounds<O, Z>) -> Self {
        WindowMetrics { bounds, ..self }
    }
}

impl<O: Copy, Z: Copy, S: Copy, A: Copy> WindowMetrics<O, Z, S, A> {
    /// The metrics of a window opened with `bounds` on a platform configured
    /// with these metrics.
    pub fn for_window(&self, bounds: Bounds<O, Z>) -> (m: Self)
        ensures
            m == self.spec_for_window(bounds),
    {
        WindowMetrics { bounds, ..*self }
    }
}

/// Key and file events leave the window state as it was.
pub proof fn lemma_key_events_keep_state<
    O: Copy,
    Z: Copy,
    S: Copy,
    A: Copy,
    P: Copy,
    M: Copy,
    K: Copy,
    G: Copy,
>(s: WindowState<O, Z, S, A, P, M, K, G>)
    ensures
        s.after_input(InputEvent::KeyDown) == s,
        s.after_input(InputEvent::KeyUp) == s,
        s.after_input(InputEvent::FileDrop) == s,
{
}

/// Toggling flips full screen and nothing else, so toggling twice gives the
/// state back.
pub proof fn lemma_fullscreen_toggle_twice<
    O: Copy,
    Z: Copy,
    S: Copy,
    A: Copy,
    P: Copy,
    M: Copy,
    K: Copy,
    G: Copy,
>(s: WindowState<O, Z, S, A, P, M, K, G>)
    ensures
        s.toggled_fullscreen().fullscreen == !s.fullscreen,
        s.toggled_fullscreen() == (WindowState { fullscreen: !s.fullscreen, ..s }),
        s.toggled_fullscreen().toggled_fullscreen() == s,
{
}

/// After the host supplies metrics, the window reads back their bounds,
/// size, scale factor and status, whatever it held before.
pub proof fn lemma_metrics_read_back<
    O: Copy,
    Z: Copy,
    S: Copy,
    A: Copy,
    P: Copy,
    M: Copy,
    K: Copy,
    G: Copy,
>(s: WindowState<O, Z, S, A, P, M, K, G>, metrics: WindowMetrics<O, Z, S, A>)
    ensures
        s.after_metrics(metrics).metrics.bounds == metrics.bounds,
        s.after_metrics(metrics).metrics.bounds.size == metrics.bounds.size,
        s.after_metrics(metrics).metrics.scale_factor == metrics.scale_factor,
        s.after_metrics(metrics).active == metrics.active,
        s.after_metrics(metrics).hovered == metrics.hovered,
        s.after_metrics(metrics).appearance == metrics.appearance,
        s.after_metrics(metrics).mouse_position == s.mouse_position,
        s.after_metrics(metrics).modifiers == s.modifiers,
        s.after_metrics(metrics).capslock == s.capslock,
        s.after_metrics(metrics).fullscreen == s.fullscreen,
        s.after_metrics(metrics).title == s.title,
        s.after_metrics(metrics).background == s.background,
{
}

/// A pointer event moves the recorded pointer to its position and records
/// its modifiers; leaving the window also ends the hover; a touch moves the
/// pointer only; a modifier change records the modifiers and caps lock only.
/// Nothing else in the state changes.
pub proof fn lemma_input_events_record_what_they_carry<
    O: Copy,
    Z: Copy,
    S: Copy,
    A: Copy,
    P: Copy,
    M: Copy,
    K: Copy,
    G: Copy,
>(s: WindowState<O, Z, S, A, P, M, K, G>, position: P, modifiers: M, capslock: K)
    ensures
        s.after_input(InputEvent::MouseDown { position, modifiers }) == (WindowState {
            mouse_position: position,
            modifiers,
            ..s
        }),
        s.after_input(InputEvent::MouseUp { position, modifiers }) == (WindowState {
            mouse_position: position,
            modifiers,
            ..s
        }),
        s.after_input(InputEvent::MouseMove { position, modifiers }) == (WindowState {
            mouse_position: position,
            modifiers,
            ..s
        }),
        s.after_input(InputEvent::MousePressure { position, modifiers }) == (WindowState {
            mouse_position: position,
            modifiers,
            ..s
        }),
        s.after_input(InputEvent::ScrollWheel { position, modifiers }) == (WindowState {
            mouse_position: position,
            modifiers,
            ..s
        }),
        s.after_input(InputEvent::Pinch { position, modifiers }) == (WindowState {
            mouse_position: position,
            modifiers,
            ..s
        }),
        s.after_input(InputEvent::MouseExited { position, modifiers }) == (WindowState {
            mouse_position: position,
            modifiers,
            hovered: false,
            ..s
        }),
        s.after_input(InputEvent::Touch { position }) == (WindowState {
            mouse_position: position,
            ..s
        }),
        s.after_input(InputEvent::ModifiersChanged { modifiers, capslock }) == (WindowState {
            modifiers,
            capslock,
            ..s
        }),
{
}

/// Each registered observer is told the value of the metrics it observes,
/// and only registered observers are told: with every observer registered
/// they are told, in order, the resize to the metrics' size and scale, the
/// metrics' active status, their hover status, and the appearance change.
pub proof fn lemma_observers_told_their_values<R, Ac, H, Ap, I, O, Z, S, A>(
    c: WindowCallbacks<R, Ac, H, Ap, I>,
    m: WindowMetrics<O, Z, S, A>,
)
    ensures
        c.told_of_metrics(m).contains(
            WindowNotification::Resize { size: m.bounds.size, scale_factor: m.scale_factor },
        ) <==> c.resize is Some,
        c.told_of_metrics(m).contains(WindowNotification::ActiveStatus(m.active)) <==> c.active
            is Some,
        c.told_of_metrics(m).contains(WindowNotification::HoverStatus(m.hovered)) <==> c.hover
            is Some,
        c.told_of_metrics(m).contains(WindowNotification::AppearanceChanged) <==> c.appearance
            is Some,
        forall|i: int|
            0 <= i < c.told_of_metrics(m).len() ==> match #[trigger] c.told_of_metrics(m)[i] {
                WindowNotification::Resize { size, scale_factor } => size == m.bounds.size
                    && scale_factor == m.scale_factor,
                WindowNotification::ActiveStatus(a) => a == m.active,
                WindowNotification::HoverStatus(h) => h == m.hovered,
                WindowNotification::AppearanceChanged => true,
            },
        c.resize is Some && c.active is Some && c.hover is Some && c.appearance is Some
            ==> c.told_of_metrics(m) == seq![
            WindowNotification::Resize { size: m.bounds.size, scale_factor: m.scale_factor },
            WindowNotification::ActiveStatus(m.active),
            WindowNotification::HoverStatus(m.hovered),
            WindowNotification::AppearanceChanged,
        ],
{
    let r: Seq<WindowNotification<Z, S>> = if c.resize is Some {
        seq![WindowNotification::Resize { size: m.bounds.size, scale_factor: m.scale_factor }]
    } else {
        Seq::empty()
    };
    let a: Seq<WindowNotification<Z, S>> = if c.active is Some {
        seq![WindowNotification::ActiveStatus(m.active)]
    } else {
        Seq::empty()
    };
    let h: Seq<WindowNotification<Z, S>> = if c.hover is Some {
        seq![WindowNotification::HoverStatus(m.hovered)]
    } else {
        Seq::empty()
    };
    let p: Seq<WindowNotification<Z, S>> = if c.appearance is Some {
        seq![WindowNotification::AppearanceChanged]
    } else {
        Seq::empty()
    };
    let t = c.told_of_metrics(m);
    assert(t == r + a + h + p);
    let n0 = r.len() as int;
    let n1 = n0 + a.len();
    let n2 = n1 + h.len();
    assert forall|i: int| 0 <= i < t.len() implies {
        ||| (i < n0 && t[i] == r[i])
        ||| (n0 <= i < n1 && t[i] == a[i - n0])
        ||| (n1 <= i < n2 && t[i] == h[i - n1])
        ||| (n2 <= i && t[i] == p[i - n2])
    } by {}
    if c.resize is Some {
        assert(t[0] == r[0]);
    }
    if c.active is Some {
        assert(t[n0] == a[0]);
    }
    if c.hover is Some {
        assert(t[n1] == h[0]);
    }
    if c.appearance is Some {
        assert(t[n2] == p[0]);
    }
    if c.resize is Some && c.active is Some && c.hover is Some && c.appearance is Some {
        assert(t =~= seq![
            WindowNotification::Resize { size: m.bounds.size, scale_factor: m.scale_factor },
            WindowNotification::ActiveStatus(m.active),
            WindowNotification::HoverStatus(m.hovered),
            WindowNotification::AppearanceChanged,
        ]);
    }
}

/// Host callbacks for the services that a virtual window cannot provide
/// itself: reading and replacing the clipboard.
#[derive(Clone, Copy, Debug)]
pub struct HostServices<R, W> {
    /// Reads the current clipboard contents.
    pub read_clipboard: Option<R>,
    /// Replaces the current clipboard contents.
    pub write_clipboard: Option<W>,
}

impl<R, W> Default for HostServices<R, W> {
    fn default() -> (s: HostServices<R, W>)
        ensures
            s.read_clipboard is None,
            s.write_clipboard is None,
    {
        HostServices { read_clipboard: None, write_clipboard: None }
    }
}

impl<R, W> HostServices<R, W> {
    /// Installs both clipboard callbacks.
    pub fn with_clipboard(self, read: R, write: W) -> (s: HostServices<R, W>)
        ensures
            s.read_clipboard == Some(read),
            s.write_clipboard == Some(write),
    {
        HostServices { read_clipboard: Some(read), write_clipboard: Some(write) }
    }
}

/// Why a second window cannot be opened.
#[derive(Clone, Copy, Debug, PartialEq, Eq, Structural)]
pub enum OpenWindowError {
    /// The embedded platform supports one virtual window.
    OneWindowOnly,
}

/// The platform's single virtual window and the handle of the active one.
pub struct WindowSlot<W, H> {
    window: Option<W>,
    active: Option<H>,
}

impl<W, H> WindowSlot<W, H> {
    /// The window held, if one was opened.
    pub closed spec fn spec_window(&self) -> Option<W> {
        self.window
    }

    /// The handle of the active window, if one was opened.
    pub closed spec fn spec_active(&self) -> Option<H> {
        self.active
    }

    /// A slot with no window.
    pub fn new() -> (s: WindowSlot<W, H>)
        ensures
            s.spec_window() is None,
            s.spec_active() is None,
    {
        WindowSlot { window: None, active: None }
    }

    /// Opens `window` under `handle`, which becomes the active window; fails,
    /// leaving the slot as it was, when a window is already open.
    pub fn open_window(&mut self, handle: H, window: W) -> (r: Result<(), OpenWindowError>)
        ensures
            old(self).spec_window() is Some ==> {
                &&& r == Err::<(), OpenWindowError>(OpenWindowError::OneWindowOnly)
                &&& final(self).spec_window() == old(self).spec_window()
                &&& final(self).spec_active() == old(self).spec_active()
            },
            old(self).spec_window() is None ==> {
                &&& r is Ok
                &&& final(self).spec_window() == Some(window)
                &&& final(self).spec_active() == Some(handle)
            },
    {
        if self.window.is_some() {
            return Err(OpenWindowError::OneWindowOnly);
        }
        self.active = Some(handle);
        self.window = Some(window);
        Ok(())
    }

    /// The open window, if any.
    pub fn window(&self) -> (w: Option<&W>)
        ensures
            w == match self.spec_window() {
                Some(x) => Some(&x),
                None => None::<&W>,
            },
    {
        match &self.window {
            Some(x) => Some(x),
            None => None,
        }
    }

    /// The handle of the active window, if any.
    pub fn active_window(&self) -> (h: Option<&H>)
        ensures
            h == match self.spec_active() {
                Some(x) => Some(&x),
                None => None::<&H>,
            },
    {
        match &self.active {
            Some(x) => Some(x),
            None => None,
        }
    }
}

impl<
    O: Copy,
    Z: Copy,
    S: Copy,
    A: Copy,
    P: Copy + Default,
    M: Copy + Default,
    K: Copy + Default,
    G: Copy,
    Hd,
> WindowSlot<WindowState<O, Z, S, A, P, M, K, G>, Hd> {
    /// Opens the virtual window under `handle` with the requested `bounds`,
    /// the scale factor and status of the platform's `configured` metrics and
    /// the given background; fails, leaving the slot as it was, when a window
    /// is already open.
    pub fn open_virtual_window(
        &mut self,
        handle: Hd,
        bounds: Bounds<O, Z>,
        configured: &WindowMetrics<O, Z, S, A>,
        background: G,
    ) -> (r: Result<(), OpenWindowError>)
        ensures
            old(self).spec_window() is Some ==> {
                &&& r == Err::<(), OpenWindowError>(OpenWindowError::OneWindowOnly)
                &&& final(self).spec_window() == old(self).spec_window()
                &&& final(self).spec_active() == old(self).spec_active()
            },
            old(self).spec_window() is None ==> {
                &&& r is Ok
                &&& final(self).spec_active() == Some(handle)
                &&& final(self).spec_window() matches Some(w) && {
                    &&& w.metrics == configured.spec_for_window(bounds)
                    &&& w.active == configured.active
                    &&& w.hovered == configured.hovered
                    &&& w.appearance == configured.appearance
                    &&& call_ensures(P::default, (), w.mouse_position)
                    &&& call_ensures(M::default, (), w.modifiers)
                    &&& call_ensures(K::default, (), w.capslock)
                    &&& !w.fullscreen
                    &&& w.title@ == Seq::<char>::empty()
                    &&& w.background == background
                }
            },
    {
        if self.window.is_some() {
            return Err(OpenWindowError::OneWindowOnly);
        }
        let window = WindowState::new(configured.for_window(bounds), background);
        self.active = Some(handle);
        self.window = Some(window);
        Ok(())
    }
}

/// The keyboard layout reported for the virtual window.
pub struct EmbeddedKeyboardLayout;

impl EmbeddedKeyboardLayout {
    /// The layout's identifier, `gpui-embedded`.
    pub fn id(&self) -> (id: &'static str)
        ensures
            id@ == "gpui-embedded"@,
    {
        "gpui-embedded"
    }

    /// The layout's display name, `Embedded`.
    pub fn name(&self) -> (name: &'static str)
        ensures
            name@ == "Embedded"@,
    {
        "Embedded"
    }
}

} // verus!
