use vstd::prelude::*;

use vstd::string::StringExecFns;

use crate::types::Int;

verus! {

/// The size of the drawable surface, in pixels; both extents are positive.
#[derive(Copy, Clone, PartialEq, Eq, Structural, Debug)]
pub struct SurfaceSize {
    width: u32,
    height: u32,
}

impl SurfaceSize {
    pub closed spec fn spec_width(self) -> u32 {
        self.width
    }

    pub closed spec fn spec_height(self) -> u32 {
        self.height
    }

    /// Both extents are positive.
    pub open spec fn wf(self) -> bool {
        self.spec_width() > 0 && self.spec_height() > 0
    }

    /// Succeeds exactly when both extents are positive.
    pub fn new(width: u32, height: u32) -> (r: Option<Self>)
        ensures
            r is Some <==> width > 0 && height > 0,
            r matches Some(s) ==> s.spec_width() == width && s.spec_height() == height && s.wf(),
    {
        if width > 0 && height > 0 {
            Some(SurfaceSize { width, height })
        } else {
            None
        }
    }

    pub fn width(&self) -> (r: u32)
        ensures
            r == self.spec_width(),
    {
        self.width
    }

    pub fn height(&self) -> (r: u32)
        ensures
            r == self.spec_height(),
    {
        self.height
    }

    /// Both extents as the API's signed size type; an extent beyond the
    /// signed range wraps, as a plain narrowing of the bits does.
    pub fn as_int(&self) -> (r: (Int, Int))
        ensures
            r.0 as int == (if self.spec_width() <= i32::MAX {
                self.spec_width() as int
            } else {
                self.spec_width() - 0x1_0000_0000
            }),
            r.1 as int == (if self.spec_height() <= i32::MAX {
                self.spec_height() as int
            } else {
                self.spec_height() - 0x1_0000_0000
            }),
    {
        let w: i32 = if self.width <= i32::MAX as u32 {
            self.width as i32
        } else {
            ((self.width as i64) - 0x1_0000_0000) as i32
        };
        let h: i32 = if self.height <= i32::MAX as u32 {
            self.height as i32
        } else {
            ((self.height as i64) - 0x1_0000_0000) as i32
        };
        (w, h)
    }
}

/// The API versions a context can be requested with.
#[derive(Copy, Clone, PartialEq, Eq, Structural, Debug)]
pub enum Version {
    GL43,
    GL33,
}

impl Version {
    pub open spec fn spec_major(self) -> u8 {
        match self {
            Version::GL43 => 4,
            Version::GL33 => 3,
        }
    }

    pub open spec fn spec_minor(self) -> u8 {
        3
    }

    pub fn major(&self) -> (r: u8)
        ensures
            r == self.spec_major(),
    {
        match self {
            Version::GL43 => 4,
            Version::GL33 => 3,
        }
    }

    pub fn minor(&self) -> (r: u8)
        ensures
            r == self.spec_minor(),
    {
        3
    }
}

/// The context profiles a context can be requested with.
#[derive(Copy, Clone, PartialEq, Eq, Structural, Debug)]
pub enum Profile {
    Core,
    Compatibility,
}

/// A failed context creation, one variant per platform step, each carrying
/// the platform's diagnostic text.
#[derive(Debug)]
pub enum ContextError {
    InvalidDisplay(String),
    FailedToCreateContext(String),
    FailedToCreateSurface(String),
    FailedToMakeCurrent(String),
    FailedToSetSwapInterval(String),
}

impl ContextError {
    /// The full human-readable description of the failure.
    pub fn message(&self) -> (r: String)
        ensures
            self matches ContextError::InvalidDisplay(c) ==> r@ == "invalid display, caused by "@
                + c@,
            self matches ContextError::FailedToCreateContext(c) ==> r@
                == "failed to create context, caused by "@ + c@,
            self matches ContextError::FailedToCreateSurface(c) ==> r@
                == "failed to create surface, caused by "@ + c@,
            self matches ContextError::FailedToMakeCurrent(c) ==> r@
                == "failed to make context current, caused by "@ + c@,
            self matches ContextError::FailedToSetSwapInterval(c) ==> r@
                == "failed to set swap interval, caused by "@ + c@,
    {
        match self {
            ContextError::InvalidDisplay(c) => String::from_str(
                "invalid display, caused by ",
            ).concat(c.as_str()),
            ContextError::FailedToCreateContext(c) => String::from_str(
                "failed to create context, caused by ",
            ).concat(c.as_str()),
            ContextError::FailedToCreateSurface(c) => String::from_str(
                "failed to create surface, caused by ",
            ).concat(c.as_str()),
            ContextError::FailedToMakeCurrent(c) => String::from_str(
                "failed to make context current, caused by ",
            ).concat(c.as_str()),
            ContextError::FailedToSetSwapInterval(c) => String::from_str(
                "failed to set swap interval, caused by ",
            ).concat(c.as_str()),
        }
    }
}

/// The ordered platform steps of context creation.
#[derive(Copy, Clone, PartialEq, Eq, Structural, Debug)]
pub enum CreateStep {
    ResolveDisplay,
    PickConfig,
    CreateContext,
    CreateSurface,
    MakeCurrent,
    SetSwapInterval,
    Complete,
}

/// The step that follows a successful step.
pub open spec fn next_step(step: CreateStep) -> CreateStep {
    match step {
        CreateStep::ResolveDisplay => CreateStep::PickConfig,
        CreateStep::PickConfig => CreateStep::CreateContext,
        CreateStep::CreateContext => CreateStep::CreateSurface,
        CreateStep::CreateSurface => CreateStep::MakeCurrent,
        CreateStep::MakeCurrent => CreateStep::SetSwapInterval,
        CreateStep::SetSwapInterval => CreateStep::Complete,
        CreateStep::Complete => CreateStep::Complete,
    }
}

/// Which error a platform failure at the given step maps to: each step has
/// its own variant, and the platform's diagnostic text is kept word for word.
pub open spec fn step_error_matches(step: CreateStep, cause: Seq<char>, e: ContextError) -> bool {
    match step {
        CreateStep::ResolveDisplay => e matches ContextError::InvalidDisplay(c) && c@ == cause,
        CreateStep::PickConfig => e matches ContextError::InvalidDisplay(c) && c@ == cause,
        CreateStep::CreateContext => e matches ContextError::FailedToCreateContext(c) && c@
            == cause,
        CreateStep::CreateSurface => e matches ContextError::FailedToCreateSurface(c) && c@
            == cause,
        CreateStep::MakeCurrent => e matches ContextError::FailedToMakeCurrent(c) && c@ == cause,
        CreateStep::SetSwapInterval => e matches ContextError::FailedToSetSwapInterval(c) && c@
            == cause,
        CreateStep::Complete => false,
    }
}

/// Builds the error for a platform failure at the given step.
pub fn step_error(step: CreateStep, cause: String) -> (r: ContextError)
    requires
        step != CreateStep::Complete,
    ensures
        step_error_matches(step, cause@, r),
{
    match step {
        CreateStep::ResolveDisplay => ContextError::InvalidDisplay(cause),
        CreateStep::PickConfig => ContextError::InvalidDisplay(cause),
        CreateStep::CreateContext => ContextError::FailedToCreateContext(cause),
        CreateStep::CreateSurface => ContextError::FailedToCreateSurface(cause),
        CreateStep::MakeCurrent => ContextError::FailedToMakeCurrent(cause),
        CreateStep::SetSwapInterval => ContextError::FailedToSetSwapInterval(cause),
        CreateStep::Complete => ContextError::InvalidDisplay(cause),
    }
}

/// The diagnostic used when the configuration search finds no entry that is
/// both hardware accelerated and sRGB capable.
pub fn no_config_message() -> (r: &'static str)
    ensures
        r@ == "no hardware accelerated and srgb capable display found"@,
{
    "no hardware accelerated and srgb capable display found"
}

/// Whether a platform configuration is acceptable for this layer: it must be
/// sRGB capable and hardware accelerated.
pub fn config_acceptable(srgb_capable: bool, hardware_accelerated: bool) -> (r: bool)
    ensures
        r == (srgb_capable && hardware_accelerated),
{
    srgb_capable && hardware_accelerated
}

/// Tracks a context creation through its ordered platform steps; one failed
/// step aborts the whole creation with that step's error.
pub struct ContextCreation {
    step: CreateStep,
}

impl ContextCreation {
    pub closed spec fn spec_step(self) -> CreateStep {
        self.step
    }

    /// Creation starts by resolving the display.
    pub fn new() -> (r: Self)
        ensures
            r.spec_step() == CreateStep::ResolveDisplay,
    {
        ContextCreation { step: CreateStep::ResolveDisplay }
    }

    /// The step to perform next.
    pub fn step(&self) -> (r: CreateStep)
        ensures
            r == self.spec_step(),
    {
        self.step
    }

    /// Whether every step has succeeded.
    pub fn complete(&self) -> (r: bool)
        ensures
            r == (self.spec_step() == CreateStep::Complete),
    {
        match self.step {
            CreateStep::Complete => true,
            _ => false,
        }
    }

    /// Records the outcome of the current step. On success creation moves to
    /// the following step; on a platform failure it stays where it is and
    /// yields the failed step's error, keeping the diagnostic text.
    pub fn advance(&mut self, failure: Option<String>) -> (r: Result<(), ContextError>)
        requires
            old(self).spec_step() != CreateStep::Complete,
        ensures
            failure is None ==> r is Ok && final(self).spec_step() == next_step(
                old(self).spec_step(),
            ),
            failure matches Some(cause) ==> *final(self) == *old(self) && (r matches Err(e)
                && step_error_matches(old(self).spec_step(), cause@, e)),
    {
        match failure {
            None => {
                self.step = match self.step {
                    CreateStep::ResolveDisplay => CreateStep::PickConfig,
                    CreateStep::PickConfig => CreateStep::CreateContext,
                    CreateStep::CreateContext => CreateStep::CreateSurface,
                    CreateStep::CreateSurface => CreateStep::MakeCurrent,
                    CreateStep::MakeCurrent => CreateStep::SetSwapInterval,
                    CreateStep::SetSwapInterval => CreateStep::Complete,
                    CreateStep::Complete => CreateStep::Complete,
                };
                Ok(())
            },
            Some(cause) => {
                let s = self.step;
                Err(step_error(s, cause))
            },
        }
    }
}

/// The swap interval requested right after creation: wait for one vertical
/// sync before presenting.
pub fn initial_swap_interval() -> (r: u32)
    ensures
        r == 1,
{
    1
}

/// The swap interval for a vsync toggle: wait one vertical sync when enabled,
/// do not wait when disabled.
pub fn swap_interval(enable: bool) -> (r: u32)
    ensures
        enable ==> r == 1,
        !enable ==> r == 0,
{
    if enable {
        1
    } else {
        0
    }
}

/// What one resize request does to the cached size: the cache takes the new
/// size, and the platform surface is resized exactly when the size changed.
pub open spec fn resize_transition(cached: SurfaceSize, new_size: SurfaceSize) -> (
    SurfaceSize,
    bool,
) {
    (new_size, cached != new_size)
}

/// The state this layer keeps for a live context: the cached surface size,
/// which is the source of truth for viewport computations and must be
/// brought up to date before each frame.
pub struct ContextState {
    surface_size: SurfaceSize,
}

impl ContextState {
    pub closed spec fn spec_surface_size(self) -> SurfaceSize {
        self.surface_size
    }

    /// A fresh context caches the size its surface was created with.
    pub fn new(surface_size: SurfaceSize) -> (r: Self)
        ensures
            r.spec_surface_size() == surface_size,
    {
        ContextState { surface_size }
    }

    /// The cached surface size.
    pub fn surface_size(&self) -> (r: SurfaceSize)
        ensures
            r == self.spec_surface_size(),
    {
        self.surface_size
    }

    /// Updates the cached size and says whether the platform surface must
    /// actually be resized — it must exactly when the size changed.
    pub fn resize_surface(&mut self, new_size: SurfaceSize) -> (platform_resize: bool)
        ensures
            (final(self).spec_surface_size(), platform_resize) == resize_transition(
                old(self).spec_surface_size(),
                new_size,
            ),
    {
        if self.surface_size == new_size {
            false
        } else {
            self.surface_size = new_size;
            true
        }
    }
}

/// Resizing is idempotent: after a resize to some size, an immediate second
/// resize to the same size leaves the cache untouched and needs no platform
/// resize, so the platform surface is resized at most once for the pair.
pub proof fn lemma_resize_idempotent(cached: SurfaceSize, new_size: SurfaceSize)
    ensures
        ({
            let (first, _) = resize_transition(cached, new_size);
            let (second, again) = resize_transition(first, new_size);
            second == first && !again
        }),
{
}

} // verus!
