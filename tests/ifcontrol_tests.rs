use ifcontrol::{
    classify_errno, clear_up_running, flags_are_up, is_up_outcome, read_outcome, set_up_running,
    Action, Error, Event, FlagSession, Goal, InterfaceRequest, ENODEV, ENXIO, IFF_RUNNING, IFF_UP,
    NAME_FIELD_LEN, UP_RUNNING,
};

#[test]
fn constants_match_the_kernel() {
    assert_eq!(IFF_UP as i32, libc::IFF_UP);
    assert_eq!(IFF_RUNNING as i32, libc::IFF_RUNNING);
    assert_eq!(UP_RUNNING, IFF_UP | IFF_RUNNING);
    assert_eq!(NAME_FIELD_LEN, libc::IFNAMSIZ);
    assert_eq!(ENXIO, libc::ENXIO);
    assert_eq!(ENODEV, libc::ENODEV);
}

#[test]
fn up_needs_both_bits() {
    assert!(flags_are_up(0x41));
    assert!(flags_are_up(0x1043));
    assert!(!flags_are_up(0x1));
    assert!(!flags_are_up(0x40));
    assert!(!flags_are_up(0));
}

#[test]
fn set_and_clear_touch_only_up_and_running() {
    assert_eq!(set_up_running(0x1002), 0x1043);
    assert_eq!(clear_up_running(0x1043), 0x1002);
    assert_eq!(set_up_running(0xffff), 0xffff);
    assert_eq!(clear_up_running(0xffff), 0xffbe);
    assert_eq!(set_up_running(0), 0x41);
    assert_eq!(clear_up_running(0), 0);
    for bits in [0u16, 0x2, 0x1003, 0x8000, 0xffbe, 0x1234] {
        let other = !UP_RUNNING;
        assert_eq!(set_up_running(bits) & other, bits & other);
        assert_eq!(clear_up_running(bits) & other, bits & other);
    }
}

#[test]
fn name_reads_back_unchanged() {
    for name in ["eth0", "lo", "", "wlp3s0", "abcdefghijklmno"] {
        let req = InterfaceRequest::from_name(name).unwrap();
        assert_eq!(req.name_bytes(), name.as_bytes().to_vec());
        assert_eq!(req.flags(), 0);
    }
}

#[test]
fn name_field_is_padded_with_zeros() {
    let req = InterfaceRequest::from_name("eth0").unwrap();
    let mut expected = b"eth0".to_vec();
    expected.resize(16, 0);
    assert_eq!(req.name_field(), &expected);
}

#[test]
fn long_name_is_rejected() {
    let r = InterfaceRequest::from_name("abcdefghijklmnopqrst");
    assert!(matches!(r, Err(Error::InvalidName)));
    let r = InterfaceRequest::from_name("abcdefghijklmnop");
    assert!(matches!(r, Err(Error::InvalidName)));
}

#[test]
fn name_with_nul_is_rejected() {
    let r = InterfaceRequest::from_name("et\0h0");
    assert!(matches!(r, Err(Error::InvalidName)));
}

#[test]
fn flags_of_a_request_change_by_mask() {
    let mut req = InterfaceRequest::from_name("eth0").unwrap();
    req.set_flags(0x1002);
    assert!(!req.is_up());
    req.insert_flags(UP_RUNNING);
    assert_eq!(req.flags(), 0x1043);
    assert!(req.is_up());
    req.remove_flags(IFF_RUNNING);
    assert_eq!(req.flags(), 0x1003);
    assert!(!req.is_up());
    assert_eq!(req.name_bytes(), b"eth0".to_vec());
}

#[test]
fn missing_interface_codes() {
    assert_eq!(classify_errno(ENXIO), Error::InterfaceNotFound);
    assert_eq!(classify_errno(ENODEV), Error::InterfaceNotFound);
    assert_eq!(classify_errno(libc::EPERM), Error::SystemIo(libc::EPERM));
    assert_eq!(classify_errno(libc::EINVAL), Error::SystemIo(libc::EINVAL));
}

#[test]
fn read_outcomes() {
    let req = InterfaceRequest::from_name("eth0").unwrap();
    let got = read_outcome(req, Ok(0x1043)).unwrap();
    assert_eq!(got.flags(), 0x1043);
    assert_eq!(got.name_bytes(), b"eth0".to_vec());
    let req = InterfaceRequest::from_name("eth0").unwrap();
    assert!(matches!(read_outcome(req, Err(ENODEV)), Err(Error::InterfaceNotFound)));
    let req = InterfaceRequest::from_name("eth0").unwrap();
    assert!(matches!(read_outcome(req, Err(libc::EACCES)), Err(Error::SystemIo(c)) if c == libc::EACCES));
    assert_eq!(is_up_outcome(Ok(0x41)), Ok(true));
    assert_eq!(is_up_outcome(Ok(0x1)), Ok(false));
    assert_eq!(is_up_outcome(Err(ENXIO)), Err(Error::InterfaceNotFound));
    assert_eq!(is_up_outcome(Err(libc::EPERM)), Err(Error::SystemIo(libc::EPERM)));
}

#[test]
fn up_on_a_down_interface_writes_up_flags() {
    let mut s = FlagSession::new(Goal::Up, "eth0").unwrap();
    assert_eq!(s.pending(), Action::ReadFlags);
    assert_eq!(s.step(Event::FlagsRead(0x1002)), Action::ReadFlags);
    assert_eq!(s.step(Event::FlagsRead(0x1002)), Action::WriteFlags(0x1043));
    assert_eq!(s.pending(), Action::WriteFlags(0x1043));
    assert_eq!(s.request().flags(), 0x1043);
    assert_eq!(s.request().name_bytes(), b"eth0".to_vec());
    assert_eq!(s.step(Event::Written), Action::Done);
    assert!(!s.accepts(Event::Written));
}

#[test]
fn up_twice_writes_once() {
    let mut first = FlagSession::new(Goal::Up, "eth0").unwrap();
    first.step(Event::FlagsRead(0x1000));
    let written = match first.step(Event::FlagsRead(0x1000)) {
        Action::WriteFlags(w) => w,
        other => panic!("expected a write, got {:?}", other),
    };
    assert_eq!(first.step(Event::Written), Action::Done);
    let mut second = FlagSession::new(Goal::Up, "eth0").unwrap();
    assert_eq!(second.step(Event::FlagsRead(written)), Action::Done);
    assert!(flags_are_up(written));
}

#[test]
fn up_on_an_up_interface_is_done_at_once() {
    let mut s = FlagSession::new(Goal::Up, "lo").unwrap();
    assert_eq!(s.step(Event::FlagsRead(0x49)), Action::Done);
}

#[test]
fn up_with_only_the_up_bit_still_writes() {
    let mut s = FlagSession::new(Goal::Up, "lo").unwrap();
    assert_eq!(s.step(Event::FlagsRead(0x1)), Action::ReadFlags);
    assert_eq!(s.step(Event::FlagsRead(0x1)), Action::WriteFlags(0x41));
}

#[test]
fn down_on_an_up_interface_clears_both_bits() {
    let mut s = FlagSession::new(Goal::Down, "eth0").unwrap();
    assert_eq!(s.step(Event::FlagsRead(0x1043)), Action::ReadFlags);
    let w = match s.step(Event::FlagsRead(0x1043)) {
        Action::WriteFlags(w) => w,
        other => panic!("expected a write, got {:?}", other),
    };
    assert_eq!(w, 0x1002);
    assert!(!flags_are_up(w));
    assert_eq!(s.step(Event::Written), Action::Done);
}

#[test]
fn down_on_a_down_interface_writes_nothing() {
    let mut s = FlagSession::new(Goal::Down, "eth0").unwrap();
    assert_eq!(s.step(Event::FlagsRead(0x1002)), Action::Done);
    let mut s = FlagSession::new(Goal::Down, "eth0").unwrap();
    assert_eq!(s.step(Event::FlagsRead(0x1)), Action::Done);
}

#[test]
fn session_on_missing_interface() {
    let mut s = FlagSession::new(Goal::Up, "nosuch0").unwrap();
    assert_eq!(s.step(Event::ReadFailed(ENODEV)), Action::Failed(Error::InterfaceNotFound));
    let mut s = FlagSession::new(Goal::Down, "nosuch0").unwrap();
    assert_eq!(s.step(Event::ReadFailed(ENXIO)), Action::Failed(Error::InterfaceNotFound));
}

#[test]
fn session_failures() {
    let mut s = FlagSession::new(Goal::Up, "eth0").unwrap();
    s.step(Event::FlagsRead(0));
    assert_eq!(s.step(Event::ReadFailed(libc::EPERM)), Action::Failed(Error::SystemIo(libc::EPERM)));
    let mut s = FlagSession::new(Goal::Up, "eth0").unwrap();
    s.step(Event::FlagsRead(0));
    s.step(Event::FlagsRead(0));
    assert_eq!(s.step(Event::WriteFailed(ENXIO)), Action::Failed(Error::SystemIo(ENXIO)));
}

#[test]
fn session_with_bad_name() {
    assert!(matches!(
        FlagSession::new(Goal::Up, "abcdefghijklmnopqrst"),
        Err(Error::InvalidName)
    ));
}

#[test]
fn session_accepts_by_stage() {
    let mut s = FlagSession::new(Goal::Down, "eth0").unwrap();
    assert!(s.accepts(Event::FlagsRead(0)));
    assert!(s.accepts(Event::ReadFailed(1)));
    assert!(!s.accepts(Event::Written));
    assert!(!s.accepts(Event::WriteFailed(1)));
    s.step(Event::FlagsRead(0x41));
    s.step(Event::FlagsRead(0x41));
    assert!(s.accepts(Event::Written));
    assert!(!s.accepts(Event::FlagsRead(0)));
}
