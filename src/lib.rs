//! Host-side configuration registry that guest runtimes populate with request
//! handlers, together with the admission check that a guest closure passes
//! before the host keeps it, and the decisions of the build-script handoff.

pub mod binding;
pub mod config;
pub mod handler;
pub mod handoff;
pub mod ownership;

pub use binding::{ParamOption, PR47_BIND_add_pr47_handler};
pub use config::{ConfigView, ServerConfig};
pub use handler::{resolve_content_type, HandlerView, ServerRequestHandler};
pub use handoff::{
    build_script_path, exit_status, step, HandoffAction, HandoffEvent, HandoffFailure, HandoffState,
    BUILD_SCRIPT_NAME, ENTRY_POINT, SCRIPT_EXTENSION,
};
pub use ownership::{
    admit_closure, dangerous_clone_closure, CaptureSlot, ClosureView, GuestClosure, OwnershipError,
    OwnershipTag, OWN_INFO_READ_MASK,
};
