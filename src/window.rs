use vstd::prelude::*;
use vstd::utf8::encode_utf8;

use crate::canvas::{Canvas, DrawCommand};
use crate::component::Component;
use crate::error::{is_out_of_memory_code, OsError, PalmError, PalmErrorKind, PalmErrorView};
use crate::rect::{lemma_rects_draw_in_order, Rect};
use crate::renderer::Renderer;

verus! {

/// The Win32 code for "class already exists".
pub const ERROR_CLASS_ALREADY_EXISTS: u32 = 1410;

/// `ERROR_CLASS_ALREADY_EXISTS` wrapped in an HRESULT.
pub const HRESULT_CLASS_ALREADY_EXISTS: u32 = 0x80070582;

/// Platform-agnostic settings for the behaviour and appearance of a window.
pub struct WindowAttributes {
    /// The title of the window, displayed in its title bar.
    pub title: String,
}

impl Default for WindowAttributes {
    fn default() -> (r: Self)
        ensures
            r.title@ == "Palm app"@,
    {
        WindowAttributes { title: "Palm app".to_owned() }
    }
}

impl WindowAttributes {
    /// The title as the host expects it: its UTF-8 bytes, then a NUL.
    pub fn title_c_string(&self) -> (r: Vec<u8>)
        ensures
            r@ == encode_utf8(self.title@).push(0),
    {
        let bytes = self.title.as_str().as_bytes();
        let mut r: Vec<u8> = Vec::new();
        let mut i: usize = 0;
        while i < bytes.len()
            invariant
                bytes@ == encode_utf8(self.title@),
                0 <= i <= bytes@.len(),
                r@ == bytes@.take(i as int),
            decreases bytes@.len() - i,
        {
            r.push(bytes[i]);
            proof {
                assert(bytes@.take(i as int + 1) =~= bytes@.take(i as int).push(bytes@[i as int]));
            }
            i = i + 1;
        }
        proof {
            assert(bytes@.take(i as int) =~= bytes@);
        }
        r.push(0);
        r
    }
}

/// Builds the attributes of a window step by step.
pub struct WindowBuilder {
    title: String,
}

impl Default for WindowBuilder {
    fn default() -> (r: Self)
        ensures
            r.spec_title() == "Palm app"@,
    {
        WindowBuilder { title: "Palm app".to_owned() }
    }
}

impl WindowBuilder {
    /// The title the window will have.
    pub closed spec fn spec_title(&self) -> Seq<char> {
        self.title@
    }

    /// Sets the title of the window.
    pub fn with_title(self, title: &str) -> (r: Self)
        ensures
            r.spec_title() == title@,
    {
        WindowBuilder { title: title.to_owned() }
    }

    /// The attributes built so far.
    pub fn attributes(self) -> (a: WindowAttributes)
        ensures
            a.title@ == self.spec_title(),
    {
        WindowAttributes { title: self.title }
    }
}

/// Whether a failed class registration only says that the class exists.
pub open spec fn is_class_exists_code(code: i32) -> bool {
    code as u32 == ERROR_CLASS_ALREADY_EXISTS || code as u32 == HRESULT_CLASS_ALREADY_EXISTS
}

/// Decides the outcome of registering the window class: a registration
/// that succeeded, or failed only because the class is already registered,
/// is no failure; any other failure is a `WindowCreation` error (or
/// `NotEnoughMemory`).
pub fn registration_outcome(outcome: Result<u16, OsError>) -> (r: Result<(), PalmError>)
    ensures
        r is Ok <==> (outcome is Ok || is_class_exists_code(outcome->Err_0.code)),
        r is Err ==> r->Err_0@ == (PalmErrorView {
            kind: if is_out_of_memory_code(outcome->Err_0.code) {
                PalmErrorKind::NotEnoughMemory
            } else {
                PalmErrorKind::WindowCreation
            },
            msg: "Failed to register window class"@,
        }),
{
    match outcome {
        Ok(_) => Ok(()),
        Err(e) => {
            let c = e.code as u32;
            if c == ERROR_CLASS_ALREADY_EXISTS || c == HRESULT_CLASS_ALREADY_EXISTS {
                Ok(())
            } else {
                Err(
                    PalmError::from_os_error_with_msg(
                        &e,
                        PalmErrorKind::WindowCreation,
                        "Failed to register window class",
                    ),
                )
            }
        },
    }
}

/// Where a window stands in its life.
#[derive(Clone, Copy, Debug, PartialEq, Eq, Structural)]
pub enum Phase {
    /// No native window exists yet.
    Uninitialized,
    /// The native window exists; its graphics are not set up.
    WindowCreated,
    /// The graphics are bound, the window state is stored and the window is
    /// shown: repaints are serviced.
    Running,
    /// The window was destroyed and its state released; the loop ends.
    Destroyed,
    /// The graphics context has been released after the loop.
    Finished,
    /// Setup failed before the window was shown.
    Failed,
}

/// An event that the host delivers to the window.
#[derive(Clone, Copy, Debug, PartialEq, Eq, Structural)]
pub enum Event {
    /// The window needs repainting.
    Repaint,
    /// The window is being destroyed.
    Destroy,
    /// Anything else.
    Other,
}

/// What the host must do in answer to an event.
#[derive(Debug)]
pub enum Action {
    /// Replay these commands on the surface, flush, present it, and mark the
    /// window region valid.
    Present(Vec<DrawCommand>),
    /// Mark the window region valid without drawing.
    Validate,
    /// Post the quit signal that ends the event loop.
    PostQuit,
    /// Hand the event to the host's default handler, unmodified.
    Forward,
    /// Do nothing.
    Ignore,
}

/// Whether the window state (surface, context and render target) is stored
/// in a phase.
pub open spec fn has_state(p: Phase) -> bool {
    p is Running
}

/// Whether the window has been shown by the time it is in a phase.
pub open spec fn is_shown(p: Phase) -> bool {
    p is Running || p is Destroyed || p is Finished
}

/// Whether the graphics context is bound and not yet released in a phase.
pub open spec fn context_held(p: Phase) -> bool {
    p is Running || p is Destroyed
}

/// The phase after an event: only a destroy of a running window moves it.
pub open spec fn next_phase(p: Phase, e: Event) -> Phase {
    if p is Running && e is Destroy {
        Phase::Destroyed
    } else {
        p
    }
}

/// Delivers `events` in order from phase `p`, for as long as the event loop
/// runs: the phase reached and how many events were dispatched.
pub open spec fn deliver(p: Phase, events: Seq<Event>) -> (Phase, nat)
    decreases events.len(),
{
    if events.len() == 0 || !(p is Running) {
        (p, 0)
    } else {
        let (q, n) = deliver(next_phase(p, events[0]), events.drop_first());
        (q, n + 1)
    }
}

/// How many times the window state is released while `events` are
/// delivered from phase `p`.
pub open spec fn releases(p: Phase, events: Seq<Event>) -> nat
    decreases events.len(),
{
    if events.len() == 0 || !(p is Running) {
        0
    } else {
        let q = next_phase(p, events[0]);
        (if has_state(p) && !has_state(q) {
            1nat
        } else {
            0nat
        }) + releases(q, events.drop_first())
    }
}

/// A destroy delivered to a running window ends the loop once it is
/// processed: exactly the events up to and including the first destroy are
/// dispatched, and the window state is released exactly once.
pub proof fn lemma_destroy_ends_loop(events: Seq<Event>, k: int)
    requires
        0 <= k < events.len(),
        events[k] is Destroy,
        forall|j: int| 0 <= j < k ==> !(#[trigger] events[j] is Destroy),
    ensures
        deliver(Phase::Running, events) == (Phase::Destroyed, (k + 1) as nat),
        releases(Phase::Running, events) == 1,
    decreases k,
{
    let rest = events.drop_first();
    if k == 0 {
        assert(deliver(Phase::Destroyed, rest) == (Phase::Destroyed, 0nat));
        assert(releases(Phase::Destroyed, rest) == 0);
    } else {
        assert(!(events[0] is Destroy));
        assert forall|j: int| 0 <= j < k - 1 implies !(#[trigger] rest[j] is Destroy) by {
            assert(rest[j] == events[j + 1]);
        }
        lemma_destroy_ends_loop(rest, k - 1);
    }
}

/// A setup that fails leaves the window in `Failed`: it was never shown,
/// and no event delivered afterwards shows it or dispatches anything.
/// Only a window that reached `Running` is ever shown.
pub proof fn lemma_failed_setup_never_shown(events: Seq<Event>)
    ensures
        !is_shown(Phase::Failed),
        !is_shown(Phase::Uninitialized),
        !is_shown(Phase::WindowCreated),
        deliver(Phase::Failed, events) == (Phase::Failed, 0nat),
        releases(Phase::Failed, events) == 0,
        forall|e: Event| #[trigger] next_phase(Phase::Failed, e) == Phase::Failed,
{
}

/// A repaint of a running window whose render target is a list of `n`
/// rectangles presents exactly `n` fills, the `i`-th being the `i`-th
/// rectangle's, so later rectangles are drawn over earlier ones.
pub proof fn lemma_repaint_fills_each_rect(w: WindowLoop<Vec<Rect>>, presented: Seq<DrawCommand>)
    requires
        w.target() is Some,
        presented == w.target()->Some_0.frame(),
    ensures
        presented.len() == w.target()->Some_0@.len(),
        forall|i: int|
            0 <= i < presented.len() ==> #[trigger] presented[i] == w.target()->Some_0@[i].fill(),
{
    lemma_rects_draw_in_order(w.target()->Some_0@);
}

/// Repainting a running window whose render target is a component list
/// leaves the list as it was, so every repaint presents the same frame.
pub proof fn lemma_component_list_repaints_alike<C: Component>(before: Vec<C>, after: Vec<C>)
    requires
        before.advances_to(after),
    ensures
        after@ == before@,
        after.frame() == before.frame(),
{
}

/// The controller of one window's life: it holds the render target and
/// decides, for each setup outcome and each event, what happens next.
pub struct WindowLoop<R: Renderer> {
    phase: Phase,
    target: Option<R>,
}

impl<R: Renderer> WindowLoop<R> {
    /// The render target is held from creation until the window state is
    /// released.
    pub closed spec fn wf(&self) -> bool {
        self.target is Some <==> (self.phase is Uninitialized || self.phase is WindowCreated
            || self.phase is Running)
    }

    /// Where the window stands.
    pub closed spec fn spec_phase(&self) -> Phase {
        self.phase
    }

    /// The render target, while it is held.
    pub closed spec fn target(&self) -> Option<R> {
        self.target
    }

    /// A controller for a window not created yet, holding its render target.
    pub fn new(target: R) -> (w: Self)
        ensures
            w.wf(),
            w.spec_phase() == Phase::Uninitialized,
            w.target() == Some(target),
    {
        WindowLoop { phase: Phase::Uninitialized, target: Some(target) }
    }

    /// Where the window stands.
    pub fn phase(&self) -> (p: Phase)
        ensures
            p == self.spec_phase(),
    {
        self.phase
    }

    /// Takes the outcome of creating the native window. On failure the
    /// render target is dropped and nothing is ever shown.
    pub fn window_created(&mut self, outcome: Result<(), OsError>) -> (r: Result<(), PalmError>)
        requires
            old(self).wf(),
            old(self).spec_phase() is Uninitialized,
        ensures
            final(self).wf(),
            r is Ok <==> outcome is Ok,
            outcome is Ok ==> final(self).spec_phase() is WindowCreated && final(self).target()
                == old(self).target(),
            r is Err ==> !is_shown(final(self).spec_phase()),
            outcome is Err ==> final(self).spec_phase() is Failed && r->Err_0@ == (PalmErrorView {
                kind: if is_out_of_memory_code(outcome->Err_0.code) {
                    PalmErrorKind::NotEnoughMemory
                } else {
                    PalmErrorKind::WindowCreation
                },
                msg: "Failed to create window"@,
            }),
    {
        match outcome {
            Ok(()) => {
                self.phase = Phase::WindowCreated;
                Ok(())
            },
            Err(e) => {
                self.phase = Phase::Failed;
                self.target = None;
                Err(
                    PalmError::from_os_error_with_msg(
                        &e,
                        PalmErrorKind::WindowCreation,
                        "Failed to create window",
                    ),
                )
            },
        }
    }

    /// Takes the outcome of binding the graphics context and the drawing
    /// surface to the window. On success the window state is stored and the
    /// window may be shown; on failure the render target is dropped and
    /// nothing is ever shown.
    pub fn context_bound(&mut self, outcome: Result<(), OsError>) -> (r: Result<(), PalmError>)
        requires
            old(self).wf(),
            old(self).spec_phase() is WindowCreated,
        ensures
            final(self).wf(),
            r is Ok <==> outcome is Ok,
            outcome is Ok ==> final(self).spec_phase() is Running && final(self).target()
                == old(self).target(),
            r is Err ==> !is_shown(final(self).spec_phase()),
            r is Ok ==> is_shown(final(self).spec_phase()),
            outcome is Err ==> final(self).spec_phase() is Failed && r->Err_0@ == (PalmErrorView {
                kind: if is_out_of_memory_code(outcome->Err_0.code) {
                    PalmErrorKind::NotEnoughMemory
                } else {
                    PalmErrorKind::GraphicsInit
                },
                msg: outcome->Err_0.message@,
            }),
    {
        match outcome {
            Ok(()) => {
                self.phase = Phase::Running;
                Ok(())
            },
            Err(e) => {
                self.phase = Phase::Failed;
                self.target = None;
                Err(
                    PalmError::from_os_error_with_msg(
                        &e,
                        PalmErrorKind::GraphicsInit,
                        e.message.as_str(),
                    ),
                )
            },
        }
    }

    /// Whether the event loop still takes events.
    pub fn is_running(&self) -> (r: bool)
        ensures
            r == (self.spec_phase() is Running),
    {
        matches!(self.phase, Phase::Running)
    }

    /// Decides what to do with one event. A repaint renders the target only
    /// while the window state is stored; a destroy of a running window
    /// releases the state once and ends the loop; anything else goes to the
    /// host's default handler.
    pub fn dispatch(&mut self, event: Event) -> (a: Action)
        requires
            old(self).wf(),
        ensures
            final(self).wf(),
            final(self).spec_phase() == next_phase(old(self).spec_phase(), event),
            match event {
                Event::Repaint => if has_state(old(self).spec_phase()) {
                    &&& a is Present
                    &&& a->Present_0@ == old(self).target()->Some_0.frame()
                    &&& final(self).target() is Some
                    &&& old(self).target()->Some_0.advances_to(final(self).target()->Some_0)
                } else {
                    a is Validate && final(self).target() == old(self).target()
                },
                Event::Destroy => if old(self).spec_phase() is Running {
                    a is PostQuit && final(self).target() is None
                } else {
                    a is Ignore && final(self).target() == old(self).target()
                },
                Event::Other => a is Forward && final(self).target() == old(self).target(),
            },
    {
        match event {
            Event::Repaint => {
                if matches!(self.phase, Phase::Running) {
                    let mut target = self.target.take().unwrap();
                    let mut canvas = Canvas::new();
                    target.render(&mut canvas);
                    self.target = Some(target);
                    proof {
                        assert(Seq::<DrawCommand>::empty() + old(self).target()->Some_0.frame()
                            =~= old(self).target()->Some_0.frame());
                    }
                    Action::Present(canvas.into_commands())
                } else {
                    Action::Validate
                }
            },
            Event::Destroy => {
                if matches!(self.phase, Phase::Running) {
                    self.target = None;
                    self.phase = Phase::Destroyed;
                    Action::PostQuit
                } else {
                    Action::Ignore
                }
            },
            Event::Other => Action::Forward,
        }
    }

    /// Takes the outcome of presenting one frame. A failed frame is reported
    /// and leaves the window as it is.
    pub fn frame_presented(&self, outcome: Result<(), OsError>) -> (r: Option<PalmError>)
        ensures
            r is None <==> outcome is Ok,
            outcome is Err ==> r->Some_0@ == (if is_out_of_memory_code(outcome->Err_0.code) {
                PalmErrorView {
                    kind: PalmErrorKind::NotEnoughMemory,
                    msg: PalmErrorKind::NotEnoughMemory.spec_description(),
                }
            } else {
                PalmErrorView { kind: PalmErrorKind::Unspecified, msg: outcome->Err_0.message@ }
            }),
    {
        match outcome {
            Ok(()) => None,
            Err(e) => Some(PalmError::from_os_error(e)),
        }
    }

    /// Whether the graphics context is bound and still to be released.
    pub fn context_release_due(&self) -> (r: bool)
        ensures
            r == context_held(self.spec_phase()),
    {
        matches!(self.phase, Phase::Running) || matches!(self.phase, Phase::Destroyed)
    }

    /// Takes the outcome of releasing the graphics context after the loop
    /// has ended. The context is released once: afterwards none is held. A
    /// failed release is reported, not returned as a failure of the run: the
    /// window was shown, so the run itself succeeded.
    pub fn finish(&mut self, cleanup: Result<(), OsError>) -> (r: Option<PalmError>)
        requires
            old(self).wf(),
            context_held(old(self).spec_phase()),
        ensures
            final(self).wf(),
            final(self).spec_phase() is Finished,
            final(self).target() is None,
            r is None <==> cleanup is Ok,
            cleanup is Err ==> r->Some_0@ == (if is_out_of_memory_code(cleanup->Err_0.code) {
                PalmErrorView {
                    kind: PalmErrorKind::NotEnoughMemory,
                    msg: PalmErrorKind::NotEnoughMemory.spec_description(),
                }
            } else {
                PalmErrorView { kind: PalmErrorKind::Unspecified, msg: cleanup->Err_0.message@ }
            }),
    {
        self.phase = Phase::Finished;
        self.target = None;
        match cleanup {
            Ok(()) => None,
            Err(e) => Some(PalmError::from_os_error(e)),
        }
    }
}

} // verus!
