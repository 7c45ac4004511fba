//! Windows: the life of a window from its creation to its release, which
//! both backends share, and one module for each backend.

use vstd::prelude::*;
use vstd::string::StringExecFns;

use crate::event::Event;

pub mod linux;
pub mod windows;

verus! {

/// Why a window could not be created.
#[derive(Clone, Debug, PartialEq, Eq)]
pub enum CreateWindowError {
    /// A resource that the window depends on could not be acquired; the
    /// string says which.
    ContextCreationFailed(String),
    /// The platform refused to create the window itself.
    WindowCreationFailed,
}

/// What draining a run of pending native events leaves behind: the canonical
/// events in arrival order, and the cached size after the last of them.
pub struct Drained {
    pub events: Seq<Event>,
    pub width: u32,
    pub height: u32,
}

/// The two platforms a window can live on.
#[derive(Clone, Copy, Debug, PartialEq, Eq, Structural)]
pub enum Backend {
    /// A display server that the window's owner talks to over a connection.
    DisplayServer,
    /// A message queue that the platform fills for the window's owner.
    MessageQueue,
}

/// One thing done on the way to an active window, in the order in which
/// they are done.
#[derive(Clone, Copy, Debug, PartialEq, Eq, Structural)]
pub enum Step {
    /// Check that the graphics loader is there, by loading it.
    GraphicsLoader,
    /// Load the library that speaks to the display server.
    WindowingLibrary,
    /// Open the connection to the display server, or get hold of the module
    /// that owns the window.
    Connection,
    /// Intern the atoms of the connection, or register the window's class.
    Registration,
    /// Create the window itself.
    WindowObject,
    /// Subscribe to the events that are translated.
    Subscription,
    /// Set the title, and the other properties that go with it.
    Properties,
    /// Put the window on the screen.
    Show,
}

/// What a step leaves in the window's hands, to be released in the end.
#[derive(Clone, Copy, Debug, PartialEq, Eq, Structural)]
pub enum Resource {
    GraphicsLoader,
    WindowingLibrary,
    Connection,
    Registration,
    NativeWindow,
}

/// Where a window stands between nothing and nothing again.
#[derive(Clone, Copy, Debug, PartialEq, Eq, Structural)]
pub enum Phase {
    /// Steps are still being done.
    Acquiring,
    /// Every step was done: the window is in use.
    Active,
    /// A step failed, and what was acquired before it is being released.
    Unwinding,
    /// A step failed, and nothing is held any more.
    Failed,
    /// The window was given up, and what it held is being released.
    Destroying,
    /// The window was given up, and nothing is held any more.
    Destroyed,
}

/// What the platform is asked to do for a window.
#[derive(Clone, Copy, Debug, PartialEq, Eq, Structural)]
pub enum Directive {
    /// Do this step, and report whether it succeeded.
    Acquire(Step),
    /// Release this resource, and report when it is done.
    Release(Resource),
    /// Nothing.
    Rest,
}

/// What happens to a window from outside.
#[derive(Clone, Copy, Debug, PartialEq, Eq, Structural)]
pub enum Occurrence {
    /// The platform did what the directive asked. For a step, the flag says
    /// whether it succeeded; for a release it says nothing.
    Report(bool),
    /// The owner gives the window up.
    Destroy,
}

/// The steps that lead to an active window on `backend`, in order. The
/// graphics loader is checked first, where it is checked at all.
pub open spec fn plan(backend: Backend, check_graphics: bool) -> Seq<Step> {
    let head = if check_graphics {
        seq![Step::GraphicsLoader]
    } else {
        Seq::empty()
    };
    match backend {
        Backend::DisplayServer => head + seq![
            Step::WindowingLibrary,
            Step::Connection,
            Step::Registration,
            Step::WindowObject,
            Step::Subscription,
            Step::Properties,
            Step::Show,
        ],
        Backend::MessageQueue => head + seq![
            Step::Connection,
            Step::Registration,
            Step::WindowObject,
        ],
    }
}

/// The place of a step in the order in which steps are done.
pub open spec fn step_rank(step: Step) -> int {
    match step {
        Step::GraphicsLoader => 0,
        Step::WindowingLibrary => 1,
        Step::Connection => 2,
        Step::Registration => 3,
        Step::WindowObject => 4,
        Step::Subscription => 5,
        Step::Properties => 6,
        Step::Show => 7,
    }
}

/// What a step leaves to be released, if anything.
pub open spec fn resource_of(step: Step) -> Option<Resource> {
    match step {
        Step::GraphicsLoader => Some(Resource::GraphicsLoader),
        Step::WindowingLibrary => Some(Resource::WindowingLibrary),
        Step::Connection => Some(Resource::Connection),
        Step::Registration => Some(Resource::Registration),
        Step::WindowObject => Some(Resource::NativeWindow),
        _ => None,
    }
}

/// The place of a resource in the order of acquisition: that of its step.
pub open spec fn resource_rank(resource: Resource) -> int {
    match resource {
        Resource::GraphicsLoader => 0,
        Resource::WindowingLibrary => 1,
        Resource::Connection => 2,
        Resource::Registration => 3,
        Resource::NativeWindow => 4,
    }
}

/// What the first `count` steps of `steps` leave to be released, in the
/// order of acquisition.
pub open spec fn acquired(steps: Seq<Step>, count: int) -> Seq<Resource>
    decreases count,
{
    if count <= 0 {
        Seq::empty()
    } else {
        match resource_of(steps[count - 1]) {
            Some(resource) => acquired(steps, count - 1).push(resource),
            None => acquired(steps, count - 1),
        }
    }
}

/// Why a step that comes before the window itself failed, in a few words.
pub open spec fn failure_reason(backend: Backend, step: Step) -> Seq<char> {
    match step {
        Step::GraphicsLoader => "Cannot load Vulkan library"@,
        Step::WindowingLibrary => "Cannot load Xlib"@,
        Step::Connection => match backend {
            Backend::DisplayServer => "Cannot open X display"@,
            Backend::MessageQueue => "Cannot retrieve a module handle"@,
        },
        _ => match backend {
            Backend::DisplayServer => "Cannot intern X atoms"@,
            Backend::MessageQueue => "Cannot register the window class"@,
        },
    }
}

/// Whether the failure of `step` is that of the window itself rather than
/// of something the window depends on: the window's creation and every step
/// after it.
pub open spec fn fails_window(step: Step) -> bool {
    step_rank(step) >= step_rank(Step::WindowObject)
}

/// A window's life, as the contracts speak of it.
pub struct Life {
    pub backend: Backend,
    /// The steps that lead to an active window.
    pub steps: Seq<Step>,
    pub phase: Phase,
    /// How many steps were done with success.
    pub progress: int,
    /// What is held, in the order of acquisition.
    pub held: Seq<Resource>,
}

impl Life {
    /// A life before its first step.
    pub open spec fn start(backend: Backend, check_graphics: bool) -> Life {
        Life {
            backend,
            steps: plan(backend, check_graphics),
            phase: Phase::Acquiring,
            progress: 0,
            held: Seq::empty(),
        }
    }

    /// What holds of every life that `start` and `next` lead to.
    pub open spec fn wf(self) -> bool {
        &&& 0 <= self.progress <= self.steps.len()
        &&& self.held.len() <= acquired(self.steps, self.progress).len()
        &&& self.held == acquired(self.steps, self.progress).take(self.held.len() as int)
        &&& match self.phase {
            Phase::Acquiring => self.progress < self.steps.len() && self.held == acquired(
                self.steps,
                self.progress,
            ),
            Phase::Active => self.progress == self.steps.len() && self.held == acquired(
                self.steps,
                self.progress,
            ),
            Phase::Unwinding => self.progress < self.steps.len() && self.held.len() > 0,
            Phase::Failed => self.progress < self.steps.len() && self.held.len() == 0,
            Phase::Destroying => self.progress == self.steps.len() && self.held.len() > 0,
            Phase::Destroyed => self.progress == self.steps.len() && self.held.len() == 0,
        }
    }

    /// What the platform is to do next: the next step while steps are being
    /// done, the release of what was acquired last while resources are being
    /// released, and nothing otherwise.
    pub open spec fn directive(self) -> Directive {
        match self.phase {
            Phase::Acquiring => Directive::Acquire(self.steps[self.progress]),
            Phase::Unwinding | Phase::Destroying => Directive::Release(self.held.last()),
            _ => Directive::Rest,
        }
    }

    /// The life after the platform did what `directive` asks. A step that
    /// succeeded leaves its resource held, and the last step leaves the
    /// window active. A step that failed starts the release of what is held.
    /// A release leaves one resource less held, and the last release ends the
    /// life.
    pub open spec fn report(self, succeeded: bool) -> Life {
        match self.phase {
            Phase::Acquiring => if succeeded {
                Life {
                    phase: if self.progress + 1 == self.steps.len() {
                        Phase::Active
                    } else {
                        Phase::Acquiring
                    },
                    progress: self.progress + 1,
                    held: acquired(self.steps, self.progress + 1),
                    ..self
                }
            } else {
                Life {
                    phase: if self.held.len() == 0 {
                        Phase::Failed
                    } else {
                        Phase::Unwinding
                    },
                    ..self
                }
            },
            Phase::Unwinding => Life {
                phase: if self.held.len() == 1 {
                    Phase::Failed
                } else {
                    Phase::Unwinding
                },
                held: self.held.drop_last(),
                ..self
            },
            Phase::Destroying => Life {
                phase: if self.held.len() == 1 {
                    Phase::Destroyed
                } else {
                    Phase::Destroying
                },
                held: self.held.drop_last(),
                ..self
            },
            _ => self,
        }
    }

    /// The life after its owner gave the window up: an active window starts
    /// to release what it holds; in any other phase nothing changes, so that
    /// giving a window up twice releases nothing twice.
    pub open spec fn destroy(self) -> Life {
        if self.phase == Phase::Active {
            Life {
                phase: if self.held.len() == 0 {
                    Phase::Destroyed
                } else {
                    Phase::Destroying
                },
                ..self
            }
        } else {
            self
        }
    }

    /// The life after `occurrence`.
    pub open spec fn next(self, occurrence: Occurrence) -> Life {
        match occurrence {
            Occurrence::Report(succeeded) => self.report(succeeded),
            Occurrence::Destroy => self.destroy(),
        }
    }

    /// The life after `occurrences`, in order.
    pub open spec fn run(self, occurrences: Seq<Occurrence>) -> Life
        decreases occurrences.len(),
    {
        if occurrences.len() == 0 {
            self
        } else {
            self.run(occurrences.drop_last()).next(occurrences.last())
        }
    }

    /// The resources that the platform released on being asked, in the
    /// order of their release, over `occurrences`.
    pub open spec fn released(self, occurrences: Seq<Occurrence>) -> Seq<Resource>
        decreases occurrences.len(),
    {
        if occurrences.len() == 0 {
            Seq::empty()
        } else {
            let before = self.run(occurrences.drop_last());
            match (before.directive(), occurrences.last()) {
                (Directive::Release(resource), Occurrence::Report(_)) => self.released(
                    occurrences.drop_last(),
                ).push(resource),
                _ => self.released(occurrences.drop_last()),
            }
        }
    }

    /// The steps that the platform did on being asked, with or without
    /// success, in the order in which it did them, over `occurrences`.
    pub open spec fn attempted(self, occurrences: Seq<Occurrence>) -> Seq<Step>
        decreases occurrences.len(),
    {
        if occurrences.len() == 0 {
            Seq::empty()
        } else {
            let before = self.run(occurrences.drop_last());
            match (before.directive(), occurrences.last()) {
                (Directive::Acquire(step), Occurrence::Report(_)) => self.attempted(
                    occurrences.drop_last(),
                ).push(step),
                _ => self.attempted(occurrences.drop_last()),
            }
        }
    }

    /// The step that failed, in a creation that failed: the first step that
    /// was not done with success.
    pub open spec fn failed_step(self) -> Step {
        self.steps[self.progress]
    }
}

/// A window's life in progress. The platform does what `directive` asks and
/// reports with `advance`, until `directive` asks for nothing more; the
/// window is then active, or its creation failed and `error` says why.
/// `destroy` gives an active window up, and the platform goes on as before
/// until nothing is held.
pub struct Lifecycle {
    backend: Backend,
    steps: Vec<Step>,
    /// `Acquiring` until a step fails or the window is given up, then
    /// `Unwinding` or `Destroying`; the other phases show in what is done and
    /// held.
    phase: Phase,
    progress: usize,
    /// What is held, once resources are being released.
    held: Vec<Resource>,
}

impl View for Lifecycle {
    type V = Life;

    closed spec fn view(&self) -> Life {
        Life {
            backend: self.backend,
            steps: self.steps@,
            phase: match self.phase {
                Phase::Unwinding | Phase::Failed => if self.held@.len() == 0 {
                    Phase::Failed
                } else {
                    Phase::Unwinding
                },
                Phase::Destroying | Phase::Destroyed => if self.held@.len() == 0 {
                    Phase::Destroyed
                } else {
                    Phase::Destroying
                },
                _ => if self.progress == self.steps@.len() {
                    Phase::Active
                } else {
                    Phase::Acquiring
                },
            },
            progress: self.progress as int,
            held: if self.phase == Phase::Acquiring {
                acquired(self.steps@, self.progress as int)
            } else {
                self.held@
            },
        }
    }
}

/// What `step` leaves to be released, if anything.
fn step_resource(step: Step) -> (resource: Option<Resource>)
    ensures
        resource == resource_of(step),
{
    match step {
        Step::GraphicsLoader => Some(Resource::GraphicsLoader),
        Step::WindowingLibrary => Some(Resource::WindowingLibrary),
        Step::Connection => Some(Resource::Connection),
        Step::Registration => Some(Resource::Registration),
        Step::WindowObject => Some(Resource::NativeWindow),
        _ => None,
    }
}

/// What the first `count` of `steps` leave to be released, in the order of
/// acquisition.
fn resources_of(steps: &Vec<Step>, count: usize) -> (held: Vec<Resource>)
    requires
        count <= steps.len(),
    ensures
        held@ == acquired(steps@, count as int),
{
    let mut held: Vec<Resource> = Vec::new();
    let mut done: usize = 0;
    while done < count
        invariant
            done <= count <= steps.len(),
            held@ == acquired(steps@, done as int),
        decreases count - done,
    {
        if let Some(resource) = step_resource(steps[done]) {
            held.push(resource);
        }
        done += 1;
    }
    held
}

impl Lifecycle {
    #[verifier::type_invariant]
    spec fn valid(self) -> bool {
        &&& self.phase == Phase::Acquiring || self.phase == Phase::Unwinding || self.phase
            == Phase::Destroying
        &&& self@.wf()
    }

    /// Begins the life of a window on `backend`. With `check_graphics` the
    /// first step checks that the graphics loader is there.
    pub fn begin(backend: Backend, check_graphics: bool) -> (life: Lifecycle)
        ensures
            life@ == Life::start(backend, check_graphics),
            life@.wf(),
    {
        let mut steps: Vec<Step> = Vec::new();
        if check_graphics {
            steps.push(Step::GraphicsLoader);
        }
        match backend {
            Backend::DisplayServer => {
                steps.push(Step::WindowingLibrary);
                steps.push(Step::Connection);
                steps.push(Step::Registration);
                steps.push(Step::WindowObject);
                steps.push(Step::Subscription);
                steps.push(Step::Properties);
                steps.push(Step::Show);
            },
            Backend::MessageQueue => {
                steps.push(Step::Connection);
                steps.push(Step::Registration);
                steps.push(Step::WindowObject);
            },
        }
        assert(steps@ == plan(backend, check_graphics));
        assert(acquired(steps@, 0).take(0) == acquired(steps@, 0));
        Lifecycle { backend, steps, phase: Phase::Acquiring, progress: 0, held: Vec::new() }
    }

    /// Where the life stands.
    pub fn phase(&self) -> (phase: Phase)
        ensures
            self@.wf(),
            phase == self@.phase,
    {
        proof {
            use_type_invariant(self);
        }
        match self.phase {
            Phase::Unwinding => if self.held.len() == 0 {
                Phase::Failed
            } else {
                Phase::Unwinding
            },
            Phase::Destroying => if self.held.len() == 0 {
                Phase::Destroyed
            } else {
                Phase::Destroying
            },
            _ => if self.progress == self.steps.len() {
                Phase::Active
            } else {
                Phase::Acquiring
            },
        }
    }

    /// What the platform is to do next.
    pub fn directive(&self) -> (directive: Directive)
        ensures
            self@.wf(),
            directive == self@.directive(),
    {
        proof {
            use_type_invariant(self);
        }
        match self.phase {
            Phase::Unwinding | Phase::Destroying => if self.held.len() == 0 {
                Directive::Rest
            } else {
                Directive::Release(self.held[self.held.len() - 1])
            },
            _ => if self.progress == self.steps.len() {
                Directive::Rest
            } else {
                Directive::Acquire(self.steps[self.progress])
            },
        }
    }

    /// Takes the platform's report on what `directive` asked for: whether
    /// the step succeeded, or that the release is done. A life that asks for
    /// nothing stays as it is.
    pub fn advance(&mut self, succeeded: bool)
        ensures
            old(self)@.wf(),
            final(self)@.wf(),
            final(self)@ == old(self)@.report(succeeded),
    {
        proof {
            use_type_invariant(&*self);
        }
        let total = self.steps.len();
        match self.phase {
            Phase::Unwinding | Phase::Destroying => {
                if self.held.len() > 0 {
                    let ghost all = acquired(self.steps@, self.progress as int);
                    let mut held: Vec<Resource> = Vec::new();
                    assert(all.take(0) == held@);
                    core::mem::swap(&mut self.held, &mut held);
                    held.pop();
                    assert(held@ == all.take(held@.len() as int));
                    self.held = held;
                }
            },
            _ => {
                if self.progress < total {
                    if succeeded {
                        proof {
                            let all = acquired(self.steps@, self.progress + 1);
                            assert(all.take(all.len() as int) == all);
                        }
                        self.progress += 1;
                    } else {
                        let held = resources_of(&self.steps, self.progress);
                        assert(held@.take(held@.len() as int) == held@);
                        self.held = held;
                        self.phase = Phase::Unwinding;
                    }
                }
            },
        }
    }

    /// Gives the window up. An active window starts to release what it
    /// holds; otherwise nothing changes.
    pub fn destroy(&mut self)
        ensures
            old(self)@.wf(),
            final(self)@.wf(),
            final(self)@ == old(self)@.destroy(),
    {
        proof {
            use_type_invariant(&*self);
        }
        if self.phase == Phase::Acquiring && self.progress == self.steps.len() {
            let held = resources_of(&self.steps, self.progress);
            assert(held@.take(held@.len() as int) == held@);
            self.held = held;
            self.phase = Phase::Destroying;
        }
    }

    /// Why the creation failed, once a step has failed: that the window
    /// itself could not be created, where the failed step is the window's
    /// creation or a later one, and else that the window's context could not,
    /// with the reason that goes with the step. Nothing while no step has
    /// failed.
    pub fn error(&self) -> (error: Option<CreateWindowError>)
        ensures
            self@.wf(),
            self@.phase != Phase::Unwinding && self@.phase != Phase::Failed ==> error is None,
            (self@.phase == Phase::Unwinding || self@.phase == Phase::Failed) && fails_window(
                self@.failed_step(),
            ) ==> error matches Some(CreateWindowError::WindowCreationFailed),
            (self@.phase == Phase::Unwinding || self@.phase == Phase::Failed) && !fails_window(
                self@.failed_step(),
            ) ==> (error matches Some(CreateWindowError::ContextCreationFailed(reason)) && reason@
                == failure_reason(self@.backend, self@.failed_step())),
    {
        proof {
            use_type_invariant(self);
        }
        match self.phase {
            Phase::Unwinding => {
                let reason = match self.steps[self.progress] {
                    Step::GraphicsLoader => "Cannot load Vulkan library",
                    Step::WindowingLibrary => "Cannot load Xlib",
                    Step::Connection => match self.backend {
                        Backend::DisplayServer => "Cannot open X display",
                        Backend::MessageQueue => "Cannot retrieve a module handle",
                    },
                    Step::Registration => match self.backend {
                        Backend::DisplayServer => "Cannot intern X atoms",
                        Backend::MessageQueue => "Cannot register the window class",
                    },
                    _ => {
                        return Some(CreateWindowError::WindowCreationFailed);
                    },
                };
                Some(CreateWindowError::ContextCreationFailed(String::from_str(reason)))
            },
            _ => None,
        }
    }
}

/// Whether the steps come in the order in which steps are done, none twice.
pub open spec fn in_order(steps: Seq<Step>) -> bool {
    forall|i: int, j: int| 0 <= i < j < steps.len() ==> step_rank(steps[i]) < step_rank(steps[j])
}

/// The steps of every plan come in the order in which steps are done, and
/// the window's creation is one of them.
pub proof fn lemma_plan_in_order(backend: Backend, check_graphics: bool)
    ensures
        in_order(plan(backend, check_graphics)),
        plan(backend, check_graphics).contains(Step::WindowObject),
        plan(backend, check_graphics).contains(Step::Connection),
{
    let steps = plan(backend, check_graphics);
    let at = if check_graphics {
        1int
    } else {
        0int
    };
    match backend {
        Backend::DisplayServer => {
            assert(steps[at + 1] == Step::Connection);
            assert(steps[at + 3] == Step::WindowObject);
        },
        Backend::MessageQueue => {
            assert(steps[at] == Step::Connection);
            assert(steps[at + 2] == Step::WindowObject);
        },
    }
}

/// What steps in order leave to be released comes in the order of
/// acquisition, none twice, and is left by one of the steps.
pub proof fn lemma_acquired_in_order(steps: Seq<Step>, count: int)
    requires
        in_order(steps),
        0 <= count <= steps.len(),
    ensures
        acquired(steps, count).len() <= count,
        forall|i: int, j: int|
            0 <= i < j < acquired(steps, count).len() ==> resource_rank(acquired(steps, count)[i])
                < resource_rank(acquired(steps, count)[j]),
        forall|i: int|
            0 <= i < acquired(steps, count).len() ==> exists|k: int|
                0 <= k < count && resource_of(steps[k]) == Some(#[trigger] acquired(steps, count)[i]),
    decreases count,
{
    if count > 0 {
        lemma_acquired_in_order(steps, count - 1);
        let before = acquired(steps, count - 1);
        let now = acquired(steps, count);
        assert forall|i: int| 0 <= i < now.len() implies exists|k: int|
            0 <= k < count && resource_of(steps[k]) == Some(#[trigger] now[i]) by {
            if i < before.len() {
                let k = choose|k: int|
                    0 <= k < count - 1 && resource_of(steps[k]) == Some(before[i]);
                assert(0 <= k < count && resource_of(steps[k]) == Some(now[i]));
            } else {
                assert(resource_of(steps[count - 1]) == Some(now[i]));
            }
        }
        assert forall|i: int, j: int| 0 <= i < j < now.len() implies resource_rank(now[i])
            < resource_rank(now[j]) by {
            if j == before.len() {
                let k = choose|k: int|
                    0 <= k < count - 1 && resource_of(steps[k]) == Some(before[i]);
                assert(step_rank(steps[k]) < step_rank(steps[count - 1]));
            }
        }
    }
}

/// What a life has come to, whatever happened to it: it stands as `start`
/// and `next` leave it; the steps were done in the order of the plan, each
/// once, up to the first that failed; and what was released so far is what
/// was acquired and is held no more, in the reverse of the order of
/// acquisition.
pub proof fn lemma_life_history(
    backend: Backend,
    check_graphics: bool,
    occurrences: Seq<Occurrence>,
)
    ensures
        ({
            let now = Life::start(backend, check_graphics).run(occurrences);
            let gone = Life::start(backend, check_graphics).released(occurrences);
            &&& now.wf()
            &&& now.backend == backend
            &&& now.steps == plan(backend, check_graphics)
            &&& now.held + gone.reverse() == acquired(now.steps, now.progress)
            &&& now.phase == Phase::Acquiring || now.phase == Phase::Active ==> gone.len() == 0
            &&& Life::start(backend, check_graphics).attempted(occurrences) == if now.phase
                == Phase::Unwinding || now.phase == Phase::Failed {
                now.steps.take(now.progress + 1)
            } else {
                now.steps.take(now.progress)
            }
        }),
    decreases occurrences.len(),
{
    let start = Life::start(backend, check_graphics);
    if occurrences.len() == 0 {
        assert(start.steps.take(0) == Seq::<Step>::empty());
        assert(start.held + Seq::<Resource>::empty().reverse() == acquired(start.steps, 0));
        assert(acquired(start.steps, 0).take(0) == start.held);
        lemma_plan_in_order(backend, check_graphics);
    } else {
        let earlier = occurrences.drop_last();
        lemma_life_history(backend, check_graphics, earlier);
        let before = start.run(earlier);
        let gone = start.released(earlier);
        let now = start.run(occurrences);
        let all = acquired(before.steps, before.progress);
        match occurrences.last() {
            Occurrence::Report(succeeded) => {
                match before.phase {
                    Phase::Acquiring => {
                        assert(before.steps.take(before.progress).push(
                            before.steps[before.progress],
                        ) == before.steps.take(before.progress + 1));
                        if succeeded {
                            let more = acquired(now.steps, now.progress);
                            assert(more.take(more.len() as int) == more);
                            assert(gone.reverse() == Seq::<Resource>::empty());
                            assert(more + Seq::<Resource>::empty() == more);
                        }
                    },
                    Phase::Unwinding | Phase::Destroying => {
                        let last = before.held.last();
                        assert(now.held == all.take(now.held.len() as int));
                        assert(gone.push(last).reverse() == seq![last] + gone.reverse());
                        assert(before.held == before.held.drop_last().push(last));
                        assert(now.held + (seq![last] + gone.reverse()) == before.held
                            + gone.reverse());
                    },
                    _ => {},
                }
            },
            Occurrence::Destroy => {},
        }
    }
}

/// Once a life has ended, by a failed creation or by the window being given
/// up, nothing is held, and what was acquired was released exactly once
/// each, in the reverse of the order of acquisition: the window before its
/// registration, that before the connection, that before the libraries. A
/// creation that failed at some step releases what the steps before it
/// acquired, and nothing else.
pub proof fn lemma_teardown_reverses_acquisition(
    backend: Backend,
    check_graphics: bool,
    occurrences: Seq<Occurrence>,
)
    requires
        ({
            let now = Life::start(backend, check_graphics).run(occurrences);
            now.phase == Phase::Failed || now.phase == Phase::Destroyed
        }),
    ensures
        ({
            let now = Life::start(backend, check_graphics).run(occurrences);
            let gone = Life::start(backend, check_graphics).released(occurrences);
            &&& now.held.len() == 0
            &&& now.steps == plan(backend, check_graphics)
            &&& now.phase == Phase::Destroyed ==> now.progress == now.steps.len()
            &&& now.phase == Phase::Failed ==> now.progress < now.steps.len()
            &&& gone == acquired(plan(backend, check_graphics), now.progress).reverse()
            &&& forall|i: int, j: int|
                0 <= i < j < gone.len() ==> resource_rank(gone[i]) > resource_rank(gone[j])
        }),
{
    let now = Life::start(backend, check_graphics).run(occurrences);
    let gone = Life::start(backend, check_graphics).released(occurrences);
    let all = acquired(now.steps, now.progress);
    lemma_life_history(backend, check_graphics, occurrences);
    lemma_plan_in_order(backend, check_graphics);
    lemma_acquired_in_order(now.steps, now.progress);
    assert(now.held + gone.reverse() == gone.reverse());
    assert(gone.reverse().reverse() == gone);
    assert forall|i: int, j: int| 0 <= i < j < gone.len() implies resource_rank(gone[i])
        > resource_rank(gone[j]) by {
        assert(gone[i] == all[all.len() - 1 - i]);
        assert(gone[j] == all[all.len() - 1 - j]);
    }
}

/// A window that was in use and is given up releases its native window and
/// its connection, once each, the window first.
pub proof fn lemma_window_goes_before_connection(
    backend: Backend,
    check_graphics: bool,
    occurrences: Seq<Occurrence>,
)
    requires
        Life::start(backend, check_graphics).run(occurrences).phase == Phase::Destroyed,
    ensures
        ({
            let gone = Life::start(backend, check_graphics).released(occurrences);
            exists|i: int, j: int|
                0 <= i < j < gone.len() && once_at(gone, Resource::NativeWindow, i) && once_at(
                    gone,
                    Resource::Connection,
                    j,
                )
        }),
{
    let steps = plan(backend, check_graphics);
    let gone = Life::start(backend, check_graphics).released(occurrences);
    let all = acquired(steps, steps.len() as int);
    assert(gone == all.reverse() && forall|i: int, j: int|
        0 <= i < j < gone.len() ==> resource_rank(gone[i]) > resource_rank(gone[j])) by {
        lemma_teardown_reverses_acquisition(backend, check_graphics, occurrences);
    }
    let (c, w) = choose|c: int, w: int|
        0 <= c < w < all.len() && all[c] == Resource::Connection && all[w]
            == Resource::NativeWindow;
    assert(0 <= c < w < all.len() && all[c] == Resource::Connection && all[w]
        == Resource::NativeWindow) by {
        lemma_every_window_has_a_connection(backend, check_graphics);
    }
    let i = all.len() - 1 - w;
    let j = all.len() - 1 - c;
    assert(gone[i] == Resource::NativeWindow);
    assert(gone[j] == Resource::Connection);
    assert(once_at(gone, Resource::NativeWindow, i)) by {
        lemma_once_in_descent(gone, i);
    }
    assert(once_at(gone, Resource::Connection, j)) by {
        lemma_once_in_descent(gone, j);
    }
}

/// Whether `resource` stands at `at` in `resources` and nowhere else.
pub open spec fn once_at(resources: Seq<Resource>, resource: Resource, at: int) -> bool {
    &&& 0 <= at < resources.len()
    &&& forall|k: int| 0 <= k < resources.len() ==> (resources[k] == resource <==> k == at)
}

/// In a run of resources whose ranks fall, each stands once.
proof fn lemma_once_in_descent(resources: Seq<Resource>, at: int)
    requires
        0 <= at < resources.len(),
        forall|i: int, j: int|
            0 <= i < j < resources.len() ==> resource_rank(resources[i]) > resource_rank(
                resources[j],
            ),
    ensures
        once_at(resources, resources[at], at),
{
    assert forall|k: int| 0 <= k < resources.len() && k != at implies resources[k]
        != resources[at] by {
        if k < at {
            assert(resource_rank(resources[k]) > resource_rank(resources[at]));
        } else {
            assert(resource_rank(resources[at]) > resource_rank(resources[k]));
        }
    }
}

/// Every plan, done to its end, leaves a connection and, acquired after it,
/// a native window.
proof fn lemma_every_window_has_a_connection(backend: Backend, check_graphics: bool)
    ensures
        ({
            let steps = plan(backend, check_graphics);
            let all = acquired(steps, steps.len() as int);
            exists|c: int, w: int|
                0 <= c < w < all.len() && all[c] == Resource::Connection && all[w]
                    == Resource::NativeWindow
        }),
{
    let steps = plan(backend, check_graphics);
    let all = acquired(steps, steps.len() as int);
    let first = if check_graphics {
        1int
    } else {
        0int
    };
    let (window_at, connection_at) = match backend {
        Backend::DisplayServer => (first + 3, first + 1),
        Backend::MessageQueue => (first + 2, first),
    };
    assert(steps[window_at] == Step::WindowObject);
    assert(steps[connection_at] == Step::Connection);
    lemma_acquired_holds(steps, steps.len() as int, window_at);
    lemma_acquired_holds(steps, steps.len() as int, connection_at);
    let w = choose|w: int| 0 <= w < all.len() && all[w] == resource_of(steps[window_at])->0;
    let c = choose|c: int| 0 <= c < all.len() && all[c] == resource_of(steps[connection_at])->0;
    lemma_plan_in_order(backend, check_graphics);
    lemma_acquired_in_order(steps, steps.len() as int);
    if c >= w {
        if c > w {
            assert(resource_rank(all[w]) < resource_rank(all[c]));
        }
    }
    assert(0 <= c < w < all.len() && all[c] == Resource::Connection && all[w]
        == Resource::NativeWindow);
}

/// What a step that was done leaves to be released is among what was
/// acquired.
proof fn lemma_acquired_holds(steps: Seq<Step>, count: int, at: int)
    requires
        0 <= at < count <= steps.len(),
        resource_of(steps[at]) is Some,
    ensures
        exists|i: int|
            0 <= i < acquired(steps, count).len() && acquired(steps, count)[i] == resource_of(
                steps[at],
            )->0,
    decreases count,
{
    let now = acquired(steps, count);
    if at == count - 1 {
        assert(now[now.len() - 1] == resource_of(steps[at])->0);
    } else {
        lemma_acquired_holds(steps, count - 1, at);
        let before = acquired(steps, count - 1);
        let i = choose|i: int| 0 <= i < before.len() && before[i] == resource_of(steps[at])->0;
        assert(now[i] == before[i]);
    }
}

/// Giving a window up twice is giving it up once, and a life that has ended
/// stays as it is whatever happens: nothing is asked of the platform again.
pub proof fn lemma_teardown_is_idempotent(life: Life, occurrence: Occurrence)
    ensures
        life.destroy().destroy() == life.destroy(),
        life.phase == Phase::Failed || life.phase == Phase::Destroyed ==> life.next(occurrence)
            == life && life.directive() == Directive::Rest,
{
}

} // verus!
