use mmap_core::acquire::{OpenEvent, OpenFsm, OpenPhase};
use mmap_core::mapping::Mode;
use mmap_core::DEFAULT_SIZE;

#[test]
fn write_open_of_fresh_file_extends_then_maps() {
    let mut fsm = OpenFsm::new(Mode::ReadWrite, 4096);
    assert!(matches!(fsm.phase, OpenPhase::Opening));

    fsm.step(OpenEvent::OpenedOk);
    assert!(matches!(fsm.phase, OpenPhase::Sizing));

    fsm.step(OpenEvent::SizeIs { current: 0 });
    assert!(matches!(fsm.phase, OpenPhase::Extending { target: 4096 }));

    fsm.step(OpenEvent::ExtendedOk);
    assert!(matches!(fsm.phase, OpenPhase::MappingView { len: 4096 }));

    fsm.step(OpenEvent::ViewOk);
    assert!(matches!(fsm.phase, OpenPhase::Closing { mapped: Some(4096) }));

    fsm.step(OpenEvent::HandleClosed);
    assert!(matches!(fsm.phase, OpenPhase::DoneOk { len: 4096 }));
}

#[test]
fn write_open_with_no_request_uses_default_on_empty() {
    let mut fsm = OpenFsm::new(Mode::ReadWrite, 0);
    fsm.step(OpenEvent::OpenedOk);
    fsm.step(OpenEvent::SizeIs { current: 0 });
    match fsm.phase {
        OpenPhase::Extending { target } => assert_eq!(target, DEFAULT_SIZE),
        _ => panic!("expected an extension to the default size"),
    }
}

#[test]
fn write_open_within_current_size_skips_extension() {
    let mut fsm = OpenFsm::new(Mode::ReadWrite, 2);
    fsm.step(OpenEvent::OpenedOk);
    fsm.step(OpenEvent::SizeIs { current: 5 });
    assert!(matches!(fsm.phase, OpenPhase::MappingView { len: 5 }));
}

#[test]
fn read_open_maps_the_current_size() {
    let mut fsm = OpenFsm::new(Mode::ReadOnly, 0);
    fsm.step(OpenEvent::OpenedOk);
    fsm.step(OpenEvent::SizeIs { current: 10 });
    assert!(matches!(fsm.phase, OpenPhase::MappingView { len: 10 }));
}

#[test]
fn failed_open_ends_with_nothing_held() {
    let mut fsm = OpenFsm::new(Mode::ReadOnly, 0);
    fsm.step(OpenEvent::OpenFailed);
    assert!(matches!(fsm.phase, OpenPhase::DoneErr));
}

#[test]
fn size_query_failure_closes_the_handle_first() {
    let mut fsm = OpenFsm::new(Mode::ReadWrite, 0);
    fsm.step(OpenEvent::OpenedOk);
    fsm.step(OpenEvent::SizeFailed);
    assert!(matches!(fsm.phase, OpenPhase::Closing { mapped: None }));
    fsm.step(OpenEvent::HandleClosed);
    assert!(matches!(fsm.phase, OpenPhase::DoneErr));
}

#[test]
fn extension_failure_closes_the_handle_first() {
    let mut fsm = OpenFsm::new(Mode::ReadWrite, 64);
    fsm.step(OpenEvent::OpenedOk);
    fsm.step(OpenEvent::SizeIs { current: 8 });
    assert!(matches!(fsm.phase, OpenPhase::Extending { target: 64 }));
    fsm.step(OpenEvent::ExtendFailed);
    assert!(matches!(fsm.phase, OpenPhase::Closing { mapped: None }));
    fsm.step(OpenEvent::HandleClosed);
    assert!(matches!(fsm.phase, OpenPhase::DoneErr));
}

#[test]
fn map_failure_closes_the_handle_first() {
    let mut fsm = OpenFsm::new(Mode::ReadOnly, 0);
    fsm.step(OpenEvent::OpenedOk);
    fsm.step(OpenEvent::SizeIs { current: 0 });
    assert!(matches!(fsm.phase, OpenPhase::MappingView { len: 0 }));
    fsm.step(OpenEvent::ViewFailed);
    assert!(matches!(fsm.phase, OpenPhase::Closing { mapped: None }));
    fsm.step(OpenEvent::HandleClosed);
    assert!(matches!(fsm.phase, OpenPhase::DoneErr));
}
