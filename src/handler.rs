//! Route targets, and how a static file's content type is settled.

use vstd::prelude::*;
use crate::ownership::{ClosureView, GuestClosure};

verus! {

#[verifier::external_type_specification]
#[verifier::external_body]
pub struct ExFnPtr(rhai::FnPtr);

/// The content type that `mime_guess` lists first for a file path, if any.
pub uninterp spec fn guessed_mime_type(file_path: Seq<char>) -> Option<Seq<char>>;

/// Relies on mime_guess::from_path with MimeGuess::first_raw: the first MIME
/// type known for the path's extension, or none; it depends on the path alone.
#[verifier::external_body]
fn guess_mime_type(file_path: &str) -> (r: Option<String>)
    ensures
        opt_view(&r) == guessed_mime_type(file_path@),
{
    mime_guess::from_path(file_path).first_raw().map(|m| m.to_string())
}

pub open spec fn opt_view(o: &Option<String>) -> Option<Seq<char>> {
    match o {
        Some(s) => Some(s@),
        None => None,
    }
}

/// The content type recorded for a static file: an explicit one wins, else the
/// guess from the file's extension, else none.
pub open spec fn resolved_content_type(file_path: Seq<char>, explicit: Option<Seq<char>>) -> Option<
    Seq<char>,
> {
    match explicit {
        Some(c) => Some(c),
        None => guessed_mime_type(file_path),
    }
}

pub fn resolve_content_type(file_path: &str, explicit: Option<&str>) -> (r: Option<String>)
    ensures
        opt_view(&r) == resolved_content_type(
            file_path@,
            match explicit {
                Some(c) => Some(c@),
                None => None,
            },
        ),
{
    match explicit {
        Some(c) => Some(c.to_string()),
        None => guess_mime_type(file_path),
    }
}

/// One registered route target.
#[derive(Debug)]
pub enum ServerRequestHandler {
    /// A guest-VM closure admitted into host storage.
    Pr47Function(GuestClosure),
    /// A handle to a function of the script engine.
    RhaiFunction(rhai::FnPtr),
    /// A file served as is, with its content type if one is known.
    StaticFile { file_path: String, content_type: Option<String> },
}

pub enum HandlerView {
    GuestClosure(ClosureView),
    ScriptFunction(rhai::FnPtr),
    StaticFile { file_path: Seq<char>, content_type: Option<Seq<char>> },
}

impl View for ServerRequestHandler {
    type V = HandlerView;

    open spec fn view(&self) -> HandlerView {
        match self {
            ServerRequestHandler::Pr47Function(c) => HandlerView::GuestClosure(c@),
            ServerRequestHandler::RhaiFunction(f) => HandlerView::ScriptFunction(*f),
            ServerRequestHandler::StaticFile { file_path, content_type } => HandlerView::StaticFile {
                file_path: file_path@,
                content_type: opt_view(content_type),
            },
        }
    }
}

} // verus!
