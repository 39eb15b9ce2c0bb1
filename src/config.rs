//! The host-owned configuration: connection settings and the ordered list of
//! registered handlers.

use vstd::prelude::*;
use crate::handler::{
    opt_view, resolve_content_type, resolved_content_type, HandlerView,
    ServerRequestHandler,
};
use crate::ownership::{admission_effect, admit_closure, reports_first_unreadable, GuestClosure, OwnershipError};

verus! {

/// Connection settings, the script folders, and the handlers in registration
/// order. Paths need not be unique: a consumer walks the handlers in order.
#[derive(Debug)]
pub struct ServerConfig {
    pub listen_addr: String,
    pub port: u16,
    pub pr47_folder: String,
    pub rhai_folder: String,
    pub static_folder: String,
    pub handlers: Vec<(String, ServerRequestHandler)>,
}

pub struct ConfigView {
    pub listen_addr: Seq<char>,
    pub port: u16,
    pub pr47_folder: Seq<char>,
    pub rhai_folder: Seq<char>,
    pub static_folder: Seq<char>,
    pub handlers: Seq<(Seq<char>, HandlerView)>,
}

impl ConfigView {
    /// The same configuration with one more handler at the end.
    pub open spec fn with_handler(self, path: Seq<char>, h: HandlerView) -> ConfigView {
        ConfigView { handlers: self.handlers.push((path, h)), ..self }
    }

    /// The handlers' paths, in registration order.
    pub open spec fn paths(self) -> Seq<Seq<char>> {
        self.handlers.map_values(|e: (Seq<char>, HandlerView)| e.0)
    }
}

pub open spec fn entry_view(e: (String, ServerRequestHandler)) -> (Seq<char>, HandlerView) {
    (e.0@, e.1@)
}

impl View for ServerConfig {
    type V = ConfigView;

    open spec fn view(&self) -> ConfigView {
        ConfigView {
            listen_addr: self.listen_addr@,
            port: self.port,
            pr47_folder: self.pr47_folder@,
            rhai_folder: self.rhai_folder@,
            static_folder: self.static_folder@,
            handlers: self.handlers@.map_values(|e: (String, ServerRequestHandler)| entry_view(e)),
        }
    }
}

impl ServerConfig {
    /// A configuration with the given settings and no handlers yet.
    pub fn new(
        listen_addr: String,
        port: u16,
        pr47_folder: String,
        rhai_folder: String,
        static_folder: String,
    ) -> (r: ServerConfig)
        ensures
            r@.listen_addr == listen_addr@,
            r@.port == port,
            r@.pr47_folder == pr47_folder@,
            r@.rhai_folder == rhai_folder@,
            r@.static_folder == static_folder@,
            r@.handlers == Seq::<(Seq<char>, HandlerView)>::empty(),
    {
        let r = ServerConfig {
            listen_addr,
            port,
            pr47_folder,
            rhai_folder,
            static_folder,
            handlers: Vec::new(),
        };
        assert(r@.handlers =~= Seq::<(Seq<char>, HandlerView)>::empty());
        r
    }

    /// Appends one handler; every handler already there stays in place.
    pub fn push_handler(&mut self, handler_path: String, handler: ServerRequestHandler)
        ensures
            final(self)@ == old(self)@.with_handler(handler_path@, handler@),
    {
        let ghost before = self@;
        let ghost entry = (handler_path, handler);
        self.handlers.push((handler_path, handler));
        assert(self@.handlers =~= before.handlers.push(entry_view(entry)));
    }

    /// Registers a guest-VM closure under `handler_path` once it passes the
    /// admission check. On refusal the registry is unchanged and the error names
    /// the first unreadable captured value.
    pub fn add_pr47_handler(&mut self, handler_path: &str, input_closure: &mut GuestClosure) -> (r:
        Result<(), OwnershipError>)
        ensures
            admission_effect(old(input_closure)@, final(input_closure)@, r is Ok),
            r is Ok ==> final(self)@ == old(self)@.with_handler(
                handler_path@,
                HandlerView::GuestClosure(final(input_closure)@),
            ),
            r matches Err(e) ==> final(self)@ == old(self)@ && reports_first_unreadable(
                old(input_closure)@.capture,
                e,
            ),
    {
        match admit_closure(input_closure) {
            Ok(closure) => {
                self.push_handler(handler_path.to_string(), ServerRequestHandler::Pr47Function(closure));
                Ok(())
            },
            Err(e) => Err(e),
        }
    }

    /// Registers a static file under `handler_path`; the content type is the
    /// explicit one if given, else guessed from the file's extension.
    pub fn add_static_file_handler_pr47(
        &mut self,
        handler_path: &str,
        file_path: &str,
        content_type: Option<&str>,
    )
        ensures
            final(self)@ == old(self)@.with_handler(
                handler_path@,
                HandlerView::StaticFile {
                    file_path: file_path@,
                    content_type: resolved_content_type(
                        file_path@,
                        match content_type {
                            Some(c) => Some(c@),
                            None => None,
                        },
                    ),
                },
            ),
    {
        let resolved = resolve_content_type(file_path, content_type);
        self.push_handler(
            handler_path.to_string(),
            ServerRequestHandler::StaticFile { file_path: file_path.to_string(), content_type: resolved },
        );
    }

    /// Registers a script-engine function under `handler_path`. The registry
    /// keeps only the handle; the engine keeps the function.
    pub fn add_rhai_handler(&mut self, handler_path: String, fn_ptr: rhai::FnPtr)
        ensures
            final(self)@ == old(self)@.with_handler(handler_path@, HandlerView::ScriptFunction(fn_ptr)),
    {
        self.push_handler(handler_path, ServerRequestHandler::RhaiFunction(fn_ptr));
    }

    /// Registers a static file under `handler_path` from a script call. The
    /// explicit content type wins if the script gave one; otherwise the type is
    /// guessed from the file's extension.
    pub fn add_static_file_handler_rhai(
        &mut self,
        handler_path: String,
        file_path: String,
        content_type: Option<String>,
    )
        ensures
            final(self)@ == old(self)@.with_handler(
                handler_path@,
                HandlerView::StaticFile {
                    file_path: file_path@,
                    content_type: resolved_content_type(file_path@, opt_view(&content_type)),
                },
            ),
    {
        let resolved = match &content_type {
            Some(c) => resolve_content_type(file_path.as_str(), Some(c.as_str())),
            None => resolve_content_type(file_path.as_str(), None),
        };
        self.push_handler(handler_path, ServerRequestHandler::StaticFile { file_path, content_type: resolved });
    }
}

} // verus!

verus! {

/// Registration keeps order and duplicates: each registration adds exactly one
/// entry, at the end, whatever paths are already there.
pub proof fn lemma_registration_keeps_order(before: ConfigView, path: Seq<char>, h: HandlerView)
    ensures
        before.with_handler(path, h).paths() == before.paths().push(path),
        before.with_handler(path, h).handlers.len() == before.handlers.len() + 1,
        before.with_handler(path, h).handlers.subrange(0, before.handlers.len() as int)
            == before.handlers,
{
    assert(before.with_handler(path, h).paths() =~= before.paths().push(path));
    assert(before.with_handler(path, h).handlers.subrange(0, before.handlers.len() as int)
        =~= before.handlers);
}

/// An explicit content type always wins over the guess from the extension.
pub proof fn lemma_explicit_content_type_wins(file_path: Seq<char>, explicit: Seq<char>)
    ensures
        crate::handler::resolved_content_type(file_path, Some(explicit)) == Some(explicit),
{
}

} // verus!
