use vstd::prelude::*;
use crate::size::Size;

verus! {

/// How presented frames are paced against the display.
#[derive(Clone, Copy, Debug, PartialEq, Eq, Structural)]
pub enum PresentMode {
    /// Frames wait in a queue and are shown at vertical blank: no tearing,
    /// supported everywhere.
    Fifo,
    FifoRelaxed,
    Immediate,
    Mailbox,
}

/// How a surface is set up: pixel format and alpha mode as the surface's
/// capability query offers them, the extent it presents at, and how
/// presentation is paced.
///
/// The format and alpha-mode types are those of the graphics backend; this
/// crate only carries them through.
#[derive(Clone, Copy, Debug)]
pub struct SurfaceConfig<F, A> {
    pub format: F,
    pub alpha_mode: A,
    pub size: Size,
    pub present_mode: PresentMode,
}

/// Why no configuration can be derived from a capability query.
#[derive(Clone, Copy, Debug, PartialEq, Eq, Structural)]
pub enum ConfigError {
    /// The surface offers no pixel format.
    NoFormat,
    /// The surface offers no alpha mode.
    NoAlphaMode,
}

/// The configuration a surface starts with: the first format and the first
/// alpha mode of its capability lists, the window's extent with each
/// dimension raised to at least one pixel, and vsync-paced presentation.
pub open spec fn initial_config<F, A>(formats: Seq<F>, alpha_modes: Seq<A>, window: Size) -> Result<
    SurfaceConfig<F, A>,
    ConfigError,
> {
    if formats.len() == 0 {
        Err(ConfigError::NoFormat)
    } else if alpha_modes.len() == 0 {
        Err(ConfigError::NoAlphaMode)
    } else {
        Ok(
            SurfaceConfig {
                format: formats[0],
                alpha_mode: alpha_modes[0],
                size: window.clamped_spec(),
                present_mode: PresentMode::Fifo,
            },
        )
    }
}

impl<F: Copy, A: Copy> SurfaceConfig<F, A> {
    /// A configuration never has a zero dimension.
    pub open spec fn wf(self) -> bool {
        self.size.has_area()
    }

    /// The same configuration at another extent.
    pub open spec fn resized_spec(self, size: Size) -> Self {
        SurfaceConfig { size, ..self }
    }

    pub fn from_capabilities(formats: &Vec<F>, alpha_modes: &Vec<A>, window: Size) -> (r: Result<
        Self,
        ConfigError,
    >)
        ensures
            r == initial_config(formats@, alpha_modes@, window),
            r matches Ok(c) ==> c.wf(),
    {
        if formats.len() == 0 {
            Err(ConfigError::NoFormat)
        } else if alpha_modes.len() == 0 {
            Err(ConfigError::NoAlphaMode)
        } else {
            Ok(
                SurfaceConfig {
                    format: formats[0],
                    alpha_mode: alpha_modes[0],
                    size: window.clamped(),
                    present_mode: PresentMode::Fifo,
                },
            )
        }
    }

    pub fn resized(&self, size: Size) -> (r: Self)
        ensures
            r == self.resized_spec(size),
    {
        SurfaceConfig {
            format: self.format,
            alpha_mode: self.alpha_mode,
            size,
            present_mode: self.present_mode,
        }
    }
}

} // verus!
