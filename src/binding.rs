//! The guest-VM foreign function that registers a closure handler: the
//! ownership each argument must be passed with, and what a call does.

use vstd::prelude::*;
use crate::config::ServerConfig;
use crate::handler::HandlerView;
use crate::ownership::{admission_effect, reports_first_unreadable, GuestClosure, OwnershipError};

verus! {

/// How the guest VM passes an argument to a host function.
#[derive(Clone, Copy, Debug, PartialEq, Eq, Structural)]
pub enum ParamOption {
    Share,
    MutShare,
    Move,
    Copy,
    Raw,
    RawUntyped,
}

/// `add_pr47_handler(registry, path, closure)` as seen by the guest VM.
#[allow(non_camel_case_types)]
pub struct PR47_BIND_add_pr47_handler();

impl PR47_BIND_add_pr47_handler {
    /// The registry is passed exclusively; the path and the closure are shared
    /// for reading. The function returns no value.
    pub fn param_options() -> (r: Vec<ParamOption>)
        ensures
            r@ == seq![ParamOption::MutShare, ParamOption::Share, ParamOption::Share],
    {
        let mut r: Vec<ParamOption> = Vec::new();
        r.push(ParamOption::MutShare);
        r.push(ParamOption::Share);
        r.push(ParamOption::Share);
        assert(r@ =~= seq![ParamOption::MutShare, ParamOption::Share, ParamOption::Share]);
        r
    }

    /// The call, once the arguments have been taken out of the guest values.
    pub fn invoke(config: &mut ServerConfig, handler_path: &String, closure: &mut GuestClosure) -> (r:
        Result<(), OwnershipError>)
        ensures
            admission_effect(old(closure)@, final(closure)@, r is Ok),
            r is Ok ==> final(config)@ == old(config)@.with_handler(
                handler_path@,
                HandlerView::GuestClosure(final(closure)@),
            ),
            r matches Err(e) ==> final(config)@ == old(config)@ && reports_first_unreadable(
                old(closure)@.capture,
                e,
            ),
    {
        config.add_pr47_handler(handler_path.as_str(), closure)
    }
}

} // verus!
