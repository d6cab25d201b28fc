//! The stages of the sample stream, innermost first.

mod base;
mod windowed;
mod smart;
mod stoppable;
mod pausable;
mod amplified;

pub use self::base::BaseSource;
pub use self::windowed::FloatWindowSource;
pub use self::smart::SmartSource;
pub use self::stoppable::StoppableSource;
pub use self::pausable::PausableSource;
pub use self::amplified::AmplifiedSource;
