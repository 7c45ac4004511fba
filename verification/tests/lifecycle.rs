use blazar::window::Backend;
use blazar::window::CreateWindowError;
use blazar::window::Directive;
use blazar::window::Lifecycle;
use blazar::window::Phase;
use blazar::window::Resource;
use blazar::window::Step;

/// Runs a life to its next rest; `fails` is the step that the platform
/// cannot do. Returns what was asked of the platform.
fn run(life: &mut Lifecycle, fails: Option<Step>) -> Vec<Directive> {
    let mut asked = Vec::new();
    loop {
        let directive = life.directive();
        match directive {
            Directive::Acquire(step) => {
                asked.push(directive);
                life.advance(Some(step) != fails);
            }
            Directive::Release(_) => {
                asked.push(directive);
                life.advance(true);
            }
            Directive::Rest => return asked,
        }
    }
}

fn context_error(reason: &str) -> Option<CreateWindowError> {
    Some(CreateWindowError::ContextCreationFailed(reason.to_string()))
}

#[test]
fn display_server_window_is_created_step_by_step() {
    let mut life = Lifecycle::begin(Backend::DisplayServer, true);
    assert_eq!(life.phase(), Phase::Acquiring);
    assert_eq!(
        run(&mut life, None),
        vec![
            Directive::Acquire(Step::GraphicsLoader),
            Directive::Acquire(Step::WindowingLibrary),
            Directive::Acquire(Step::Connection),
            Directive::Acquire(Step::Registration),
            Directive::Acquire(Step::WindowObject),
            Directive::Acquire(Step::Subscription),
            Directive::Acquire(Step::Properties),
            Directive::Acquire(Step::Show),
        ]
    );
    assert_eq!(life.phase(), Phase::Active);
    assert_eq!(life.error(), None);
}

#[test]
fn message_queue_window_is_created_step_by_step() {
    let mut life = Lifecycle::begin(Backend::MessageQueue, true);
    assert_eq!(
        run(&mut life, None),
        vec![
            Directive::Acquire(Step::GraphicsLoader),
            Directive::Acquire(Step::Connection),
            Directive::Acquire(Step::Registration),
            Directive::Acquire(Step::WindowObject),
        ]
    );
    assert_eq!(life.phase(), Phase::Active);
}

#[test]
fn graphics_loader_check_can_be_left_out() {
    let mut life = Lifecycle::begin(Backend::MessageQueue, false);
    assert_eq!(
        run(&mut life, None),
        vec![
            Directive::Acquire(Step::Connection),
            Directive::Acquire(Step::Registration),
            Directive::Acquire(Step::WindowObject),
        ]
    );
    life.destroy();
    assert_eq!(
        run(&mut life, None),
        vec![
            Directive::Release(Resource::NativeWindow),
            Directive::Release(Resource::Registration),
            Directive::Release(Resource::Connection),
        ]
    );
    assert_eq!(life.phase(), Phase::Destroyed);
}

#[test]
fn destroyed_window_releases_in_reverse_order() {
    let mut life = Lifecycle::begin(Backend::DisplayServer, true);
    run(&mut life, None);
    life.destroy();
    assert_eq!(life.phase(), Phase::Destroying);
    assert_eq!(
        run(&mut life, None),
        vec![
            Directive::Release(Resource::NativeWindow),
            Directive::Release(Resource::Registration),
            Directive::Release(Resource::Connection),
            Directive::Release(Resource::WindowingLibrary),
            Directive::Release(Resource::GraphicsLoader),
        ]
    );
    assert_eq!(life.phase(), Phase::Destroyed);
    assert_eq!(life.error(), None);
}

#[test]
fn destroying_twice_releases_once() {
    let mut life = Lifecycle::begin(Backend::MessageQueue, true);
    run(&mut life, None);
    life.destroy();
    life.destroy();
    let released = run(&mut life, None);
    assert_eq!(released.len(), 4);
    assert_eq!(life.phase(), Phase::Destroyed);
    life.destroy();
    life.advance(true);
    life.advance(false);
    assert_eq!(life.phase(), Phase::Destroyed);
    assert_eq!(life.directive(), Directive::Rest);
    assert_eq!(run(&mut life, None), vec![]);
}

#[test]
fn destroy_in_the_middle_of_a_release_changes_nothing() {
    let mut life = Lifecycle::begin(Backend::MessageQueue, false);
    run(&mut life, None);
    life.destroy();
    assert_eq!(life.directive(), Directive::Release(Resource::NativeWindow));
    life.advance(true);
    life.destroy();
    assert_eq!(life.directive(), Directive::Release(Resource::Registration));
    life.advance(false);
    assert_eq!(life.directive(), Directive::Release(Resource::Connection));
    life.advance(true);
    assert_eq!(life.phase(), Phase::Destroyed);
}

#[test]
fn destroy_before_the_window_is_active_changes_nothing() {
    let mut life = Lifecycle::begin(Backend::DisplayServer, true);
    life.advance(true);
    life.destroy();
    assert_eq!(life.phase(), Phase::Acquiring);
    assert_eq!(life.directive(), Directive::Acquire(Step::WindowingLibrary));
}

#[test]
fn first_step_failing_releases_nothing() {
    let mut life = Lifecycle::begin(Backend::DisplayServer, true);
    assert_eq!(
        run(&mut life, Some(Step::GraphicsLoader)),
        vec![Directive::Acquire(Step::GraphicsLoader)]
    );
    assert_eq!(life.phase(), Phase::Failed);
    assert_eq!(life.error(), context_error("Cannot load Vulkan library"));
}

#[test]
fn windowing_library_failing_releases_the_graphics_loader() {
    let mut life = Lifecycle::begin(Backend::DisplayServer, true);
    assert_eq!(
        run(&mut life, Some(Step::WindowingLibrary)),
        vec![
            Directive::Acquire(Step::GraphicsLoader),
            Directive::Acquire(Step::WindowingLibrary),
            Directive::Release(Resource::GraphicsLoader),
        ]
    );
    assert_eq!(life.error(), context_error("Cannot load Xlib"));
}

#[test]
fn display_failing_releases_the_libraries() {
    let mut life = Lifecycle::begin(Backend::DisplayServer, true);
    assert_eq!(
        run(&mut life, Some(Step::Connection)),
        vec![
            Directive::Acquire(Step::GraphicsLoader),
            Directive::Acquire(Step::WindowingLibrary),
            Directive::Acquire(Step::Connection),
            Directive::Release(Resource::WindowingLibrary),
            Directive::Release(Resource::GraphicsLoader),
        ]
    );
    assert_eq!(life.phase(), Phase::Failed);
    assert_eq!(life.error(), context_error("Cannot open X display"));
}

#[test]
fn atoms_failing_is_a_context_failure() {
    let mut life = Lifecycle::begin(Backend::DisplayServer, false);
    run(&mut life, Some(Step::Registration));
    assert_eq!(life.error(), context_error("Cannot intern X atoms"));
}

#[test]
fn module_handle_failing_is_a_context_failure() {
    let mut life = Lifecycle::begin(Backend::MessageQueue, true);
    assert_eq!(
        run(&mut life, Some(Step::Connection)),
        vec![
            Directive::Acquire(Step::GraphicsLoader),
            Directive::Acquire(Step::Connection),
            Directive::Release(Resource::GraphicsLoader),
        ]
    );
    assert_eq!(life.error(), context_error("Cannot retrieve a module handle"));
}

#[test]
fn class_registration_failing_is_a_context_failure() {
    let mut life = Lifecycle::begin(Backend::MessageQueue, true);
    assert_eq!(
        run(&mut life, Some(Step::Registration)),
        vec![
            Directive::Acquire(Step::GraphicsLoader),
            Directive::Acquire(Step::Connection),
            Directive::Acquire(Step::Registration),
            Directive::Release(Resource::Connection),
            Directive::Release(Resource::GraphicsLoader),
        ]
    );
    assert_eq!(life.error(), context_error("Cannot register the window class"));
}

#[test]
fn graphics_loader_failing_on_the_message_queue_is_a_context_failure() {
    let mut life = Lifecycle::begin(Backend::MessageQueue, true);
    run(&mut life, Some(Step::GraphicsLoader));
    assert_eq!(life.error(), context_error("Cannot load Vulkan library"));
}

#[test]
fn window_failing_releases_the_context() {
    let mut life = Lifecycle::begin(Backend::MessageQueue, true);
    assert_eq!(
        run(&mut life, Some(Step::WindowObject)),
        vec![
            Directive::Acquire(Step::GraphicsLoader),
            Directive::Acquire(Step::Connection),
            Directive::Acquire(Step::Registration),
            Directive::Acquire(Step::WindowObject),
            Directive::Release(Resource::Registration),
            Directive::Release(Resource::Connection),
            Directive::Release(Resource::GraphicsLoader),
        ]
    );
    assert_eq!(life.phase(), Phase::Failed);
    assert_eq!(life.error(), Some(CreateWindowError::WindowCreationFailed));
}

#[test]
fn later_step_failing_releases_the_window_before_the_connection() {
    let mut life = Lifecycle::begin(Backend::DisplayServer, true);
    assert_eq!(
        run(&mut life, Some(Step::Properties)),
        vec![
            Directive::Acquire(Step::GraphicsLoader),
            Directive::Acquire(Step::WindowingLibrary),
            Directive::Acquire(Step::Connection),
            Directive::Acquire(Step::Registration),
            Directive::Acquire(Step::WindowObject),
            Directive::Acquire(Step::Subscription),
            Directive::Acquire(Step::Properties),
            Directive::Release(Resource::NativeWindow),
            Directive::Release(Resource::Registration),
            Directive::Release(Resource::Connection),
            Directive::Release(Resource::WindowingLibrary),
            Directive::Release(Resource::GraphicsLoader),
        ]
    );
    assert_eq!(life.phase(), Phase::Failed);
    assert_eq!(life.error(), Some(CreateWindowError::WindowCreationFailed));
}

#[test]
fn error_is_known_while_the_release_goes_on() {
    let mut life = Lifecycle::begin(Backend::DisplayServer, true);
    life.advance(true);
    life.advance(true);
    life.advance(false);
    assert_eq!(life.phase(), Phase::Unwinding);
    assert_eq!(life.error(), context_error("Cannot open X display"));
    assert_eq!(life.directive(), Directive::Release(Resource::WindowingLibrary));
}

#[test]
fn failed_creation_cannot_be_destroyed_again() {
    let mut life = Lifecycle::begin(Backend::MessageQueue, true);
    run(&mut life, Some(Step::WindowObject));
    life.destroy();
    life.advance(true);
    assert_eq!(life.phase(), Phase::Failed);
    assert_eq!(run(&mut life, None), vec![]);
    assert_eq!(life.error(), Some(CreateWindowError::WindowCreationFailed));
}
