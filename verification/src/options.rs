//! What an application asks for when it starts, and what follows from it.

use vstd::prelude::*;

verus! {

/// Whether the graphics card does the painting.
#[derive(Clone, Copy, Debug, PartialEq, Eq, Structural)]
pub enum HardwareAcceleration {
    Required,
    Preferred,
    Off,
}

/// Dark or light colors.
#[derive(Clone, Copy, Debug, PartialEq, Eq, Structural)]
pub enum Theme {
    Dark,
    Light,
}

/// What an application asks for when it starts.
#[derive(Clone, Debug)]
pub struct NativeOptions {
    /// Return to the caller when the last window closes, where the system allows it.
    pub run_and_return: bool,
    pub vsync: bool,
    /// Samples per pixel; zero for no multisampling.
    pub multisampling: u16,
    /// Bits of the depth buffer.
    pub depth_buffer: u8,
    /// Bits of the stencil buffer.
    pub stencil_buffer: u8,
    pub hardware_acceleration: HardwareAcceleration,
    pub transparent: bool,
    /// Use the theme of the system.
    pub follow_system_theme: bool,
    /// The theme to use where the system tells none.
    pub default_theme: Theme,
    /// Let the mouse reach what lies behind the window.
    pub mouse_passthrough: bool,
    /// The name that the state of the application is stored under.
    pub app_id: Option<String>,
}

/// The OpenGL configuration to look for.
#[derive(Clone, Copy, Debug, PartialEq, Eq, Structural)]
pub struct GlConfigRequest {
    /// `None` where it does not matter.
    pub hardware_acceleration: Option<bool>,
    pub depth_size: u8,
    pub stencil_size: u8,
    pub transparency: bool,
    /// `None` for no multisampling.
    pub multisampling: Option<u8>,
}

/// How painting keeps step with the screen.
#[derive(Clone, Copy, Debug, PartialEq, Eq, Structural)]
pub enum SwapInterval {
    /// Each frame waits for this many refreshes of the screen.
    Wait(u32),
    DontWait,
}

/// The ways to create an OpenGL context, in the order in which they are tried.
#[derive(Clone, Copy, Debug, PartialEq, Eq, Structural)]
pub enum ContextAttempt {
    /// With the attributes of the system's choice.
    Default,
    /// An OpenGL ES context.
    Gles,
}

impl ContextAttempt {
    /// What to try when this attempt has failed.
    pub open spec fn next_of(self) -> Option<ContextAttempt> {
        match self {
            ContextAttempt::Default => Some(ContextAttempt::Gles),
            ContextAttempt::Gles => None,
        }
    }

    /// What to try when this attempt has failed.
    pub fn after_failure(self) -> (next: Option<ContextAttempt>)
        ensures
            next == self.next_of(),
            next == (match self {
                ContextAttempt::Default => Some(ContextAttempt::Gles),
                ContextAttempt::Gles => None,
            }),
    {
        match self {
            ContextAttempt::Default => Some(ContextAttempt::Gles),
            ContextAttempt::Gles => None,
        }
    }
}

/// How the painter that draws with wgpu is set up.
#[derive(Clone, Copy, Debug, PartialEq, Eq, Structural)]
pub struct PainterConfig {
    pub msaa_samples: u32,
    pub depth_buffer: u8,
    pub stencil_buffer: u8,
    pub transparent: bool,
}

impl NativeOptions {
    /// The OpenGL configuration to look for.
    pub open spec fn gl_config_of(&self) -> GlConfigRequest {
        GlConfigRequest {
            hardware_acceleration: match self.hardware_acceleration {
                HardwareAcceleration::Required => Some(true),
                HardwareAcceleration::Preferred => None,
                HardwareAcceleration::Off => Some(false),
            },
            depth_size: self.depth_buffer,
            stencil_size: self.stencil_buffer,
            transparency: self.transparent,
            multisampling: if self.multisampling > 0 {
                Some(self.multisampling as u8)
            } else {
                None
            },
        }
    }

    /// The OpenGL configuration to look for.
    pub fn gl_config(&self) -> (request: GlConfigRequest)
        requires
            self.multisampling <= u8::MAX,
        ensures
            request == self.gl_config_of(),
    {
        let hardware_acceleration = match self.hardware_acceleration {
            HardwareAcceleration::Required => Some(true),
            HardwareAcceleration::Preferred => None,
            HardwareAcceleration::Off => Some(false),
        };
        let multisampling = if self.multisampling > 0 {
            Some(self.multisampling as u8)
        } else {
            None
        };
        GlConfigRequest {
            hardware_acceleration,
            depth_size: self.depth_buffer,
            stencil_size: self.stencil_buffer,
            transparency: self.transparent,
            multisampling,
        }
    }

    /// How painting keeps step with the screen.
    pub open spec fn swap_interval_of(&self) -> SwapInterval {
        if self.vsync {
            SwapInterval::Wait(1)
        } else {
            SwapInterval::DontWait
        }
    }

    /// How painting keeps step with the screen.
    pub fn swap_interval(&self) -> (interval: SwapInterval)
        ensures
            interval == self.swap_interval_of(),
            interval == (if self.vsync {
                SwapInterval::Wait(1)
            } else {
                SwapInterval::DontWait
            }),
    {
        if self.vsync {
            SwapInterval::Wait(1)
        } else {
            SwapInterval::DontWait
        }
    }

    /// How the painter that draws with wgpu is set up.
    pub open spec fn painter_config_of(&self) -> PainterConfig {
        PainterConfig {
            msaa_samples: if self.multisampling == 0 {
                1
            } else {
                self.multisampling as u32
            },
            depth_buffer: self.depth_buffer,
            stencil_buffer: self.stencil_buffer,
            transparent: self.transparent,
        }
    }

    /// The theme that the application starts with.
    pub open spec fn initial_theme_of(&self, window_theme: Option<Theme>) -> Theme {
        match self.system_theme_of(window_theme) {
            Some(theme) => theme,
            None => self.default_theme,
        }
    }

    /// The name that the state of the application is stored under.
    pub open spec fn storage_name_of(&self, app_name: String) -> String {
        match self.app_id {
            Some(app_id) => app_id,
            None => app_name,
        }
    }

    /// How the painter that draws with wgpu is set up. It takes at least one sample per pixel.
    pub fn painter_config(&self) -> (config: PainterConfig)
        ensures
            config == self.painter_config_of(),
            config == (PainterConfig {
                msaa_samples: if self.multisampling == 0 {
                    1
                } else {
                    self.multisampling as u32
                },
                depth_buffer: self.depth_buffer,
                stencil_buffer: self.stencil_buffer,
                transparent: self.transparent,
            }),
    {
        PainterConfig {
            msaa_samples: if self.multisampling == 0 {
                1
            } else {
                self.multisampling as u32
            },
            depth_buffer: self.depth_buffer,
            stencil_buffer: self.stencil_buffer,
            transparent: self.transparent,
        }
    }

    /// The theme of the system, where `window_theme` is what the window tells, if the application
    /// follows it.
    pub open spec fn system_theme_of(&self, window_theme: Option<Theme>) -> Option<Theme> {
        if self.follow_system_theme {
            window_theme
        } else {
            None
        }
    }

    /// The theme that the application starts with.
    pub fn initial_theme(&self, window_theme: Option<Theme>) -> (theme: Theme)
        ensures
            theme == self.initial_theme_of(window_theme),
            theme == (match self.system_theme_of(window_theme) {
                Some(theme) => theme,
                None => self.default_theme,
            }),
    {
        match system_theme(window_theme, self) {
            Some(theme) => theme,
            None => self.default_theme,
        }
    }

    /// The name that the state of the application is stored under.
    pub fn storage_name<'a>(&'a self, app_name: &'a String) -> (name: &'a String)
        ensures
            *name == self.storage_name_of(*app_name),
            *name == (match self.app_id {
                Some(app_id) => app_id,
                None => *app_name,
            }),
    {
        match &self.app_id {
            Some(app_id) => app_id,
            None => app_name,
        }
    }
}

/// The theme of the system, where `window_theme` is what the window tells, if the application
/// follows it.
pub fn system_theme(window_theme: Option<Theme>, options: &NativeOptions) -> (theme: Option<Theme>)
    ensures
        theme == options.system_theme_of(window_theme),
{
    if options.follow_system_theme {
        window_theme
    } else {
        None
    }
}

/// The OpenGL configuration has the depth, the stencil and the transparency that are asked for. Hardware
/// acceleration matters unless it is merely preferred, and is asked for exactly if it is required. The
/// samples are those that are asked for, and there is no multisampling exactly if none is.
pub proof fn law_gl_config_follows_the_options(options: &NativeOptions)
    requires
        options.multisampling <= u8::MAX,
    ensures
        ({
            let request = options.gl_config_of();
            &&& request.depth_size == options.depth_buffer
            &&& request.stencil_size == options.stencil_buffer
            &&& request.transparency == options.transparent
            &&& request.hardware_acceleration is None <==> options.hardware_acceleration
                == HardwareAcceleration::Preferred
            &&& request.hardware_acceleration == Some(true) <==> options.hardware_acceleration
                == HardwareAcceleration::Required
            &&& request.multisampling is None <==> options.multisampling == 0
            &&& request.multisampling matches Some(samples) ==> samples == options.multisampling
        }),
{
}

/// The painter has the depth, the stencil and the transparency that are asked for. It takes at least one
/// sample per pixel, and as many as are asked for if any are.
pub proof fn law_painter_follows_the_options(options: &NativeOptions)
    ensures
        ({
            let config = options.painter_config_of();
            &&& config.depth_buffer == options.depth_buffer
            &&& config.stencil_buffer == options.stencil_buffer
            &&& config.transparent == options.transparent
            &&& config.msaa_samples >= 1 && config.msaa_samples >= options.multisampling
            &&& config.msaa_samples <= 1 || config.msaa_samples <= options.multisampling
        }),
{
}

/// What the window tells of the theme of the system counts exactly if the application follows it. Where
/// nothing counts, the application starts with its default theme.
pub proof fn law_whose_theme_counts(options: &NativeOptions, window_theme: Option<Theme>)
    ensures
        options.follow_system_theme ==> options.system_theme_of(window_theme) == window_theme,
        !options.follow_system_theme ==> options.system_theme_of(window_theme) is None,
        options.follow_system_theme && window_theme is Some ==> Some(
            options.initial_theme_of(window_theme),
        ) == window_theme,
        !options.follow_system_theme || window_theme is None ==> options.initial_theme_of(
            window_theme,
        ) == options.default_theme,
{
}

/// The state is stored under the id of the application, if it has one, whatever its name is, and else
/// under its name.
pub proof fn law_where_the_state_is_stored(options: &NativeOptions, app_name: String, other: String)
    ensures
        options.app_id is Some ==> Some(options.storage_name_of(app_name)) == options.app_id,
        options.app_id is Some ==> options.storage_name_of(app_name) == options.storage_name_of(
            other,
        ),
        options.app_id is None ==> options.storage_name_of(app_name) == app_name,
{
}

/// Frames wait for each refresh of the screen exactly if vertical synchronization is asked for, and else
/// for none.
pub proof fn law_frames_wait_if_asked_for(options: &NativeOptions)
    ensures
        options.swap_interval_of() == SwapInterval::DontWait <==> !options.vsync,
        options.swap_interval_of() matches SwapInterval::Wait(refreshes) ==> refreshes == 1,
{
}

/// An OpenGL ES context is tried exactly after the default has failed, and nothing after it.
pub proof fn law_each_context_is_tried_once(attempt: ContextAttempt)
    ensures
        attempt.next_of() is Some <==> attempt == ContextAttempt::Default,
        attempt.next_of() matches Some(next) ==> next == ContextAttempt::Gles,
{
}

} // verus!
