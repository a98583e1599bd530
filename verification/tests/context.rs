use miy::context::{
    initial_swap_interval, no_config_message, step_error, swap_interval, ContextCreation,
    ContextError, ContextState, CreateStep, Profile, SurfaceSize, Version,
};

#[test]
fn surface_size_requires_positive_extents() {
    assert!(SurfaceSize::new(0, 1).is_none());
    assert!(SurfaceSize::new(1, 0).is_none());
    assert!(SurfaceSize::new(0, 0).is_none());
    let s = SurfaceSize::new(800, 600).unwrap();
    assert_eq!(s.width(), 800);
    assert_eq!(s.height(), 600);
    assert_eq!(s.as_int(), (800, 600));
}

#[test]
fn version_numbers() {
    assert_eq!(Version::GL43.major(), 4);
    assert_eq!(Version::GL43.minor(), 3);
    assert_eq!(Version::GL33.major(), 3);
    assert_eq!(Version::GL33.minor(), 3);
    assert_ne!(Profile::Core, Profile::Compatibility);
}

#[test]
fn resize_performs_platform_resize_once() {
    let first = SurfaceSize::new(640, 480).unwrap();
    let second = SurfaceSize::new(800, 600).unwrap();
    let mut state = ContextState::new(first);
    let mut platform_resizes: u32 = 0;

    // A changed size performs the platform resize; repeating the same size
    // performs none: two calls with one size resize exactly once.
    if state.resize_surface(second) {
        platform_resizes += 1;
    }
    if state.resize_surface(second) {
        platform_resizes += 1;
    }
    assert_eq!(platform_resizes, 1);
    assert_eq!(state.surface_size(), second);

    // Resizing to the already-cached size is a no-op from the start.
    let mut state = ContextState::new(first);
    assert!(!state.resize_surface(first));
    assert_eq!(state.surface_size(), first);
}

#[test]
fn creation_walks_the_steps_in_order() {
    let mut creation = ContextCreation::new();
    let order = [
        CreateStep::ResolveDisplay,
        CreateStep::PickConfig,
        CreateStep::CreateContext,
        CreateStep::CreateSurface,
        CreateStep::MakeCurrent,
        CreateStep::SetSwapInterval,
    ];
    for step in order {
        assert_eq!(creation.step(), step);
        assert!(!creation.complete());
        creation.advance(None).unwrap();
    }
    assert!(creation.complete());
}

#[test]
fn creation_fails_with_the_step_error()  {
    let mut creation = ContextCreation::new();
    creation.advance(None).unwrap();
    creation.advance(None).unwrap();
    creation.advance(None).unwrap();
    assert_eq!(creation.step(), CreateStep::CreateSurface);
    let e = creation.advance(Some("oom".to_string())).unwrap_err();
    assert!(matches!(e, ContextError::FailedToCreateSurface(ref c) if c == "oom"));
    // A failed step leaves creation where it was.
    assert_eq!(creation.step(), CreateStep::CreateSurface);
}

#[test]
fn step_errors_map_each_step_to_its_variant() {
    let cause = || "boom".to_string();
    assert!(matches!(
        step_error(CreateStep::ResolveDisplay, cause()),
        ContextError::InvalidDisplay(ref c) if c == "boom"
    ));
    assert!(matches!(
        step_error(CreateStep::PickConfig, cause()),
        ContextError::InvalidDisplay(ref c) if c == "boom"
    ));
    assert!(matches!(
        step_error(CreateStep::CreateContext, cause()),
        ContextError::FailedToCreateContext(ref c) if c == "boom"
    ));
    assert!(matches!(
        step_error(CreateStep::CreateSurface, cause()),
        ContextError::FailedToCreateSurface(ref c) if c == "boom"
    ));
    assert!(matches!(
        step_error(CreateStep::MakeCurrent, cause()),
        ContextError::FailedToMakeCurrent(ref c) if c == "boom"
    ));
    assert!(matches!(
        step_error(CreateStep::SetSwapInterval, cause()),
        ContextError::FailedToSetSwapInterval(ref c) if c == "boom"
    ));
}

#[test]
fn error_messages_carry_the_cause() {
    let e = ContextError::InvalidDisplay("no egl".to_string());
    assert_eq!(e.message(), "invalid display, caused by no egl");
    let e = ContextError::FailedToCreateContext("driver".to_string());
    assert_eq!(e.message(), "failed to create context, caused by driver");
    let e = ContextError::FailedToCreateSurface("window gone".to_string());
    assert_eq!(e.message(), "failed to create surface, caused by window gone");
    let e = ContextError::FailedToMakeCurrent("lost".to_string());
    assert_eq!(e.message(), "failed to make context current, caused by lost");
    let e = ContextError::FailedToSetSwapInterval("egl".to_string());
    assert_eq!(e.message(), "failed to set swap interval, caused by egl");
}

#[test]
fn swap_intervals() {
    assert_eq!(initial_swap_interval(), 1);
    assert_eq!(swap_interval(true), 1);
    assert_eq!(swap_interval(false), 0);
}

#[test]
fn config_choice() {
    assert!(miy::context::config_acceptable(true, true));
    assert!(!miy::context::config_acceptable(true, false));
    assert!(!miy::context::config_acceptable(false, true));
    assert!(!miy::context::config_acceptable(false, false));
    assert_eq!(
        no_config_message(),
        "no hardware accelerated and srgb capable display found"
    );
}
