use lfs_os::options::{Commands, ConfigError, Opts, Provider, StoreTarget};
use lfs_os::protocol::{Operation, Request};
use lfs_os::session::{Action, Event, Session};

fn init(op: Operation, remote: &str) -> Event {
    Event::Line(Request::Init {
        operation: op,
        remote: String::from(remote),
        concurrent: true,
        concurrenttransfers: 3,
    })
}

#[test]
fn init_is_acknowledged_without_error() {
    for (op, remote) in [(Operation::Upload, "origin"), (Operation::Download, "")] {
        let mut s = Session::new();
        match s.step(init(op, remote)) {
            Action::Reply(text) => assert_eq!(text, "{}"),
            _ => panic!("init is acknowledged"),
        }
        assert_eq!(s.operation(), Some(op));
        assert_eq!(s.remote().map(|r| r.as_str()), Some(remote));
        assert!(!s.is_ended());
    }
}

#[test]
fn terminate_after_init_exits_with_success() {
    let mut s = Session::new();
    s.step(init(Operation::Download, "origin"));
    match s.step(Event::Line(Request::Terminate)) {
        Action::Exit { code } => assert_eq!(code, 0),
        _ => panic!("terminate ends the session"),
    }
    assert!(s.is_ended());
}

#[test]
fn transfer_requests_are_handed_on() {
    let mut s = Session::new();
    s.step(init(Operation::Upload, "origin"));
    let up = s.step(Event::Line(Request::Upload {
        oid: String::from("ab12cd"),
        size: 10,
        path: String::from("/tmp/f"),
    }));
    match up {
        Action::Upload { oid, size, path } => {
            assert_eq!(oid, "ab12cd");
            assert_eq!(size, 10);
            assert_eq!(path, "/tmp/f");
        }
        _ => panic!("upload is handed on"),
    }
    let down = s.step(Event::Line(Request::Download { oid: String::from("abcd"), size: 4 }));
    match down {
        Action::Download { oid, size } => {
            assert_eq!(oid, "abcd");
            assert_eq!(size, 4);
        }
        _ => panic!("download is handed on"),
    }
    assert_eq!(s.operation(), Some(Operation::Upload));
}

#[test]
fn bad_input_exits_with_failure() {
    for ev in [Event::Malformed, Event::ReadFailed, Event::EndOfInput] {
        let mut s = Session::new();
        match s.step(ev) {
            Action::Exit { code } => assert_eq!(code, 1),
            _ => panic!("the session ends"),
        }
        assert!(s.is_ended());
    }
}

#[test]
fn options_getters() {
    let o = Opts::new(true, Some(Provider::Gcp), Some(String::from("gs://b")), None);
    assert!(o.debug());
    assert_eq!(o.provider(), Some(Provider::Gcp));
    assert_eq!(o.uri().map(|u| u.as_str()), Some("gs://b"));
    assert_eq!(o.setup(), None);
    let s = Opts::new(false, None, None, Some(Commands::Setup { local: true }));
    assert_eq!(s.setup(), Some(true));
    let g = Opts::new(false, None, None, Some(Commands::Setup { local: false }));
    assert_eq!(g.setup(), Some(false));
}

#[test]
fn store_target_choices() {
    let local = Opts::new(false, Some(Provider::Local), Some(String::from("/srv/lfs")), None);
    assert_eq!(local.store_target(), Ok(StoreTarget::Local(String::from("/srv/lfs"))));
    let missing = Opts::new(false, Some(Provider::Local), None, None);
    assert_eq!(missing.store_target(), Err(ConfigError::MissingLocalPath));
    assert_eq!(
        ConfigError::MissingLocalPath.message(),
        "Local LFS storage selected but no path was provided"
    );
    let aws = Opts::new(false, Some(Provider::Aws), None, None);
    assert_eq!(aws.store_target(), Ok(StoreTarget::Aws(None)));
    let gcp = Opts::new(false, Some(Provider::Gcp), Some(String::from("gs://b")), None);
    assert_eq!(gcp.store_target(), Ok(StoreTarget::Gcp(Some(String::from("gs://b")))));
    let azure = Opts::new(false, Some(Provider::Azure), None, None);
    assert_eq!(azure.store_target(), Err(ConfigError::Unsupported));
    let none = Opts::new(false, None, None, None);
    assert_eq!(none.store_target(), Err(ConfigError::Unsupported));
}
