//! Administrative control of network interfaces: the flag arithmetic, the
//! request record sent to the kernel, the mapping of kernel error codes and
//! the decisions that bring an interface up or down.

mod control;
mod error;
mod flags;
mod request;

pub use error::{classify_errno, Error, ENODEV, ENXIO};
pub use flags::{clear_up_running, flags_are_up, set_up_running, IFF_RUNNING, IFF_UP, UP_RUNNING};
pub use request::{InterfaceRequest, RequestView, NAME_FIELD_LEN};
pub use control::{
    is_up_outcome, read_outcome, Action, Event, FlagSession, Goal, SessionView, Stage,
};
