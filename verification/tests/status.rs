use msquic_h3::api::{
    Api, ApiInner, ExecutionProfile, Handle, QuicExecutionProfile, RegistrationConfig,
};
use msquic_h3::error::Error;
use msquic_h3::unix_status::QStatus;
use msquic_h3::win_status;

#[test]
fn test_status() {
    let ok = QStatus::from_raw(0);
    assert!(ok.is_ok());

    let e = QStatus::error_from_raw(22).unwrap_err();
    assert_eq!(e.kind(), std::io::ErrorKind::InvalidInput);
}

#[test]
fn status_keeps_its_code() {
    let e = QStatus::from_raw(-5).unwrap_err();
    assert!(!e.is_success());
    assert_eq!(Error::from(e).raw_os_error(), Some(-5));
    assert!(QStatus::error_from_raw(0).is_ok());
    assert_eq!(Error::Kind(std::io::ErrorKind::BrokenPipe).raw_os_error(), None);
    assert_eq!(
        Error::Kind(std::io::ErrorKind::BrokenPipe).kind(),
        std::io::ErrorKind::BrokenPipe
    );
}

#[test]
fn nt_status_gets_its_bit() {
    assert!(win_status::QStatus::from_raw(0).is_ok());
    assert!(win_status::QStatus::from_raw(0x703e5).is_ok());
    let e = win_status::QStatus::from_raw(0xC000_000Du32 as i32).unwrap_err();
    assert!(!e.is_ok());
    assert_eq!(Error::from(e).raw_os_error(), Some(0xD000_000Du32 as i32));
    assert_eq!(
        win_status::QStatus::error_from_raw(-1).unwrap_err().raw_os_error(),
        Some(-1)
    );
    assert!(win_status::QStatus::error_from_raw(1).is_ok());
}

#[test]
fn registration_needs_a_success_and_a_handle() {
    assert!(!ApiInner::is_open(2, 0x1000));
    assert!(!ApiInner::is_open(0, 0));
    assert!(ApiInner::is_open(0, 0x1000));
    let api = Api::new(0, 0x1000);
    assert_eq!(api.get_api(), 0x1000);

    let mut h = Handle::default();
    assert_eq!(h.get(), 0);
    *h.put() = 77;
    assert_eq!(h, Handle { h: 77 });
    assert_eq!(api.registration_open(0, h).unwrap(), h);
    let e = api.registration_open(12, Handle::new()).unwrap_err();
    assert_eq!(e.raw_os_error(), Some(12));

    // on Windows a positive status is a success
    assert!(!ApiInner::is_open(5, 0x1000));
    assert!(ApiInner::is_open_nt(5, 0x1000));
    assert!(!ApiInner::is_open_nt(-1, 0x1000));
    let api = Api::new_nt(5, 0x2000);
    assert_eq!(api.get_api(), 0x2000);
    assert_eq!(ApiInner::new_nt(5, 6).get_api(), 6);
    assert_eq!(api.registration_open(5, h).unwrap_err().raw_os_error(), Some(5));
    assert_eq!(api.registration_open_nt(5, h).unwrap(), h);
    let e = api.registration_open_nt(0xC000_000Du32 as i32, Handle::new()).unwrap_err();
    assert_eq!(e.raw_os_error(), Some(0xD000_000Du32 as i32));

    let mut inner = ApiInner::new(0, 5);
    assert_eq!(inner.get_api(), 5);
    assert_eq!(inner.close(), Some(5));
    assert_eq!(inner.close(), None);
}

#[test]
fn registration_arguments() {
    let config = RegistrationConfig {
        app_name: b"testapp".to_vec(),
        execution_profile: ExecutionProfile::RealTime,
    };
    let args = Api::registration_args(&config);
    assert_eq!(args.app_name, b"testapp\0".to_vec());
    assert_eq!(args.execution_profile, 3);
    assert_eq!(QuicExecutionProfile::from(ExecutionProfile::LowLatency).0, 0);
    assert_eq!(QuicExecutionProfile::from(ExecutionProfile::MaxThroughput).0, 1);
    assert_eq!(QuicExecutionProfile::from(ExecutionProfile::Scavenger).0, 2);
}
