use pr47_server_config::{
    resolve_content_type, CaptureSlot, GuestClosure, OwnershipError, OwnershipTag, ParamOption,
    ServerConfig, ServerRequestHandler, PR47_BIND_add_pr47_handler,
};

fn empty_config() -> ServerConfig {
    ServerConfig::new(
        "127.0.0.1".to_string(),
        9000,
        "pr47".to_string(),
        "scripts".to_string(),
        "static".to_string(),
    )
}

fn paths(c: &ServerConfig) -> Vec<String> {
    c.handlers.iter().map(|(p, _)| p.clone()).collect()
}

#[test]
fn new_config_has_settings_and_no_handlers() {
    let c = empty_config();
    assert_eq!(c.listen_addr, "127.0.0.1");
    assert_eq!(c.port, 9000);
    assert_eq!(c.rhai_folder, "scripts");
    assert!(c.handlers.is_empty());
}

#[test]
fn registration_keeps_order_and_duplicates() {
    let mut c = empty_config();
    c.add_static_file_handler_pr47("/a", "a.txt", None);
    c.add_static_file_handler_pr47("/b", "b.txt", None);
    c.add_static_file_handler_pr47("/a", "c.txt", None);
    assert_eq!(c.handlers.len(), 3);
    assert_eq!(paths(&c), vec!["/a", "/b", "/a"]);
}

#[test]
fn html_file_gets_guessed_content_type() {
    let mut c = empty_config();
    c.add_static_file_handler_pr47("/", "index.html", None);
    match &c.handlers[0].1 {
        ServerRequestHandler::StaticFile { file_path, content_type } => {
            assert_eq!(file_path, "index.html");
            assert_eq!(content_type.as_deref(), Some("text/html"));
        }
        other => panic!("unexpected handler {:?}", other),
    }
}

#[test]
fn explicit_content_type_overrides_guess() {
    let mut c = empty_config();
    c.add_static_file_handler_pr47("/", "index.html", Some("text/plain"));
    match &c.handlers[0].1 {
        ServerRequestHandler::StaticFile { content_type, .. } => {
            assert_eq!(content_type.as_deref(), Some("text/plain"));
        }
        other => panic!("unexpected handler {:?}", other),
    }
}

#[test]
fn unknown_extension_has_no_content_type() {
    assert_eq!(resolve_content_type("data.zzqqxx", None), None);
    assert_eq!(resolve_content_type("README", None), None);
    assert_eq!(resolve_content_type("style.css", None).as_deref(), Some("text/css"));
}

#[test]
fn script_function_handler_is_kept() {
    let mut c = empty_config();
    let f = rhai::FnPtr::new("handle_index").unwrap();
    c.add_rhai_handler("/x".to_string(), f);
    match &c.handlers[0].1 {
        ServerRequestHandler::RhaiFunction(f) => assert_eq!(f.fn_name(), "handle_index"),
        other => panic!("unexpected handler {:?}", other),
    }
}

#[test]
fn script_static_handler_takes_explicit_or_guesses() {
    let mut c = empty_config();
    c.add_static_file_handler_rhai(
        "/s".to_string(),
        "page.html".to_string(),
        Some("application/xhtml+xml".to_string()),
    );
    c.add_static_file_handler_rhai("/t".to_string(), "page.html".to_string(), None);
    match (&c.handlers[0].1, &c.handlers[1].1) {
        (
            ServerRequestHandler::StaticFile { content_type: a, .. },
            ServerRequestHandler::StaticFile { content_type: b, .. },
        ) => {
            assert_eq!(a.as_deref(), Some("application/xhtml+xml"));
            assert_eq!(b.as_deref(), Some("text/html"));
        }
        _ => panic!("unexpected handlers"),
    }
}

#[test]
fn closure_handler_registered_after_gate() {
    let mut c = empty_config();
    let mut closure = GuestClosure {
        capture: vec![CaptureSlot { value: 1, tag: OwnershipTag::VmOwned }],
        func_id: 3,
    };
    assert_eq!(c.add_pr47_handler("/g", &mut closure), Ok(()));
    assert_eq!(closure.capture[0].tag, OwnershipTag::SharedToHost);
    match &c.handlers[0].1 {
        ServerRequestHandler::Pr47Function(kept) => {
            assert_eq!(kept.func_id, 3);
            assert_eq!(kept.capture, closure.capture);
        }
        other => panic!("unexpected handler {:?}", other),
    }
}

#[test]
fn refused_closure_leaves_registry_unchanged() {
    let mut c = empty_config();
    let mut closure = GuestClosure {
        capture: vec![CaptureSlot { value: 4, tag: OwnershipTag::MovedToHost }],
        func_id: 3,
    };
    let r = c.add_pr47_handler("/g", &mut closure);
    assert_eq!(
        r,
        Err(OwnershipError::OwnershipCheckFailure { slot: 0, object: 4, expected_mask: 0b1_0000 })
    );
    assert!(c.handlers.is_empty());
    assert_eq!(closure.capture[0].tag, OwnershipTag::MovedToHost);
}

#[test]
fn binding_passes_registry_exclusively() {
    assert_eq!(
        PR47_BIND_add_pr47_handler::param_options(),
        vec![ParamOption::MutShare, ParamOption::Share, ParamOption::Share]
    );
    let mut c = empty_config();
    let mut closure = GuestClosure { capture: vec![], func_id: 8 };
    let path = "/ffi".to_string();
    assert_eq!(PR47_BIND_add_pr47_handler::invoke(&mut c, &path, &mut closure), Ok(()));
    assert_eq!(paths(&c), vec!["/ffi"]);
}
