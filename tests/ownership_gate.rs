use pr47_server_config::{
    dangerous_clone_closure, CaptureSlot, GuestClosure, OwnershipError, OwnershipTag,
    OWN_INFO_READ_MASK,
};

fn slot(value: usize, tag: OwnershipTag) -> CaptureSlot {
    CaptureSlot { value, tag }
}

#[test]
fn readable_tags_carry_the_read_bit() {
    assert!(OwnershipTag::VmOwned.is_readable());
    assert!(OwnershipTag::SharedFromHost.is_readable());
    assert!(OwnershipTag::MutSharedFromHost.is_readable());
    assert!(OwnershipTag::SharedToHost.is_readable());
    assert!(!OwnershipTag::MutSharedToHost.is_readable());
    assert!(!OwnershipTag::MovedToHost.is_readable());
    assert_eq!(OwnershipTag::SharedToHost.bits(), 0b1_0001);
    assert_eq!(OWN_INFO_READ_MASK, 0b1_0000);
}

#[test]
fn clone_keeps_function_and_captures() {
    let c = GuestClosure {
        capture: vec![slot(1, OwnershipTag::VmOwned), slot(2, OwnershipTag::MovedToHost)],
        func_id: 42,
    };
    let d = dangerous_clone_closure(&c);
    assert_eq!(d.func_id, 42);
    assert_eq!(d.capture, c.capture);
}

#[test]
fn admission_retags_every_slot() {
    let mut c = GuestClosure {
        capture: vec![
            slot(10, OwnershipTag::VmOwned),
            slot(11, OwnershipTag::SharedFromHost),
            slot(12, OwnershipTag::MutSharedFromHost),
        ],
        func_id: 5,
    };
    let admitted = pr47_server_config::ownership::admit_closure(&mut c).unwrap();
    for s in c.capture.iter() {
        assert_eq!(s.tag, OwnershipTag::SharedToHost);
    }
    assert_eq!(c.capture.iter().map(|s| s.value).collect::<Vec<_>>(), vec![10, 11, 12]);
    assert_eq!(admitted.func_id, 5);
    assert_eq!(admitted.capture, c.capture);
}

#[test]
fn admission_of_empty_capture_succeeds() {
    let mut c = GuestClosure { capture: vec![], func_id: 0 };
    assert!(pr47_server_config::ownership::admit_closure(&mut c).is_ok());
}

#[test]
fn refusal_leaves_tags_and_names_first_slot() {
    let original = vec![
        slot(20, OwnershipTag::VmOwned),
        slot(21, OwnershipTag::MovedToHost),
        slot(22, OwnershipTag::SharedToHost),
        slot(23, OwnershipTag::MutSharedToHost),
    ];
    let mut c = GuestClosure { capture: original.clone(), func_id: 9 };
    let e = pr47_server_config::ownership::admit_closure(&mut c).unwrap_err();
    assert_eq!(
        e,
        OwnershipError::OwnershipCheckFailure { slot: 1, object: 21, expected_mask: OWN_INFO_READ_MASK }
    );
    assert_eq!(c.capture, original);
    let again = pr47_server_config::ownership::admit_closure(&mut c).unwrap_err();
    assert_eq!(again, e);
}
