use spinning_square::hub::{find_r_directory, HubError, SysProbe};
use spinning_square::naming::{decimal_string, mod_name, random_mod_name, random_story_name, story_name};
use spinning_square::socket::{
    status_to_io_err, IoError, IoErrorKind, MySocket, ReadStep, SocketSignals, SocketStatus,
};

#[test]
fn hub_without_sys_realm() {
    assert_eq!(find_r_directory(&SysProbe::Absent), Ok("/hub/r".to_string()));
}

#[test]
fn hub_with_sys_realm() {
    let probe = SysProbe::FirstEntry { path: "/hub/r/sys/1234".to_string() };
    assert_eq!(find_r_directory(&probe), Ok("/hub/r/sys/1234/r".to_string()));
    let slash = SysProbe::FirstEntry { path: "/hub/r/sys/1234/".to_string() };
    assert_eq!(find_r_directory(&slash), Ok("/hub/r/sys/1234/r".to_string()));
    let empty = SysProbe::FirstEntry { path: String::new() };
    assert_eq!(find_r_directory(&empty), Ok("r".to_string()));
}

#[test]
fn hub_with_empty_sys_realm() {
    assert_eq!(find_r_directory(&SysProbe::NoEntry), Err(HubError::NoSysEntry));
}

#[test]
fn decimal_digits() {
    assert_eq!(decimal_string(0), "0");
    assert_eq!(decimal_string(7), "7");
    assert_eq!(decimal_string(10), "10");
    assert_eq!(decimal_string(1234567890), "1234567890");
    assert_eq!(decimal_string(u64::MAX), u64::MAX.to_string());
}

#[test]
fn names_carry_the_second() {
    assert_eq!(story_name(1546300800), "ermine-story-1546300800");
    assert_eq!(mod_name(42), "ermine-mod-42");
}

#[test]
fn random_names_use_the_clock() {
    let s = random_story_name().unwrap();
    assert!(s.starts_with("ermine-story-"));
    assert!(s["ermine-story-".len()..].parse::<u64>().unwrap() > 1_500_000_000);
    let m = random_mod_name().unwrap();
    assert!(m.starts_with("ermine-mod-"));
    assert!(m["ermine-mod-".len()..].parse::<u64>().unwrap() > 1_500_000_000);
}

#[test]
fn every_status_is_an_os_error() {
    let e = status_to_io_err(SocketStatus::Other { raw: -2 });
    assert_eq!(e, IoError { kind: IoErrorKind::Other });
    assert_eq!(e.message(), "OS error");
    assert_eq!(status_to_io_err(SocketStatus::PeerClosed), e);
}

#[test]
fn wait_outcomes() {
    let closed = SocketSignals { readable: true, peer_closed: true };
    let readable = SocketSignals { readable: true, peer_closed: false };
    assert_eq!(MySocket::<()>::after_wait(Ok(closed)), ReadStep::Finish { result: Ok(0) });
    assert_eq!(MySocket::<()>::after_wait(Ok(readable)), ReadStep::Read);
    assert_eq!(
        MySocket::<()>::after_wait(Err(SocketStatus::Other { raw: -10 })),
        ReadStep::Finish { result: Err(IoError { kind: IoErrorKind::Other }) }
    );
}

#[test]
fn read_and_write_outcomes() {
    let os = IoError { kind: IoErrorKind::Other };
    assert_eq!(MySocket::<()>::after_read(Ok(17)), Ok(17));
    assert_eq!(MySocket::<()>::after_read(Err(SocketStatus::PeerClosed)), Ok(0));
    assert_eq!(MySocket::<()>::after_read(Err(SocketStatus::Other { raw: -1 })), Err(os));
    assert_eq!(MySocket::<()>::after_write(Ok(5)), Ok(5));
    assert_eq!(MySocket::<()>::after_write(Err(SocketStatus::PeerClosed)), Err(os));
    assert_eq!(MySocket(()).flush(), Ok(()));
}
