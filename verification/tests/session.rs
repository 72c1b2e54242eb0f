use rangefinder::channel::{wait_for_data, WaitStatus};
use rangefinder::decoder::{Phase, ScanMode};
use rangefinder::lidar::{Lidar, LidarState};

#[test]
fn a_new_controller_is_idle() {
    let lidar = Lidar::init();
    assert_eq!(lidar.state(), LidarState::Idle);
    assert!(!lidar.cancel_requested());
    assert!(!lidar.reader_attached());
}

#[test]
fn scan_requests() {
    assert_eq!(Lidar::scan_request(ScanMode::Plain), vec![0xA5, 0x20]);
    assert_eq!(
        Lidar::scan_request(ScanMode::Dense),
        vec![0xA5, 0x82, 0x05, 0x00, 0x00, 0x00, 0x00, 0x00, 0x22]
    );
}

#[test]
fn a_scan_starts_when_the_command_is_written() {
    let mut lidar = Lidar::init();
    let decoder = lidar.start_scan(Ok(())).unwrap();
    assert_eq!(decoder.mode, ScanMode::Plain);
    assert_eq!(decoder.phase, Phase::AwaitingDescriptor);
    assert!(decoder.seeking);
    assert_eq!(lidar.state(), LidarState::Scanning);
    assert!(lidar.reader_attached());
    assert!(!lidar.cancel_requested());
}

#[test]
fn a_dense_scan_starts_a_dense_decoder() {
    let mut lidar = Lidar::init();
    let decoder = lidar.start_scan_dense(Ok(())).unwrap();
    assert_eq!(decoder.mode, ScanMode::Dense);
    assert_eq!(lidar.state(), LidarState::Scanning);
    assert!(lidar.reader_attached());
}

#[test]
fn a_failed_write_starts_nothing() {
    let mut lidar = Lidar::init();
    let e = serialport::Error::new(serialport::ErrorKind::NoDevice, "unplugged");
    let err = lidar.start_scan(Err(e)).unwrap_err();
    assert_eq!(err.description, "unplugged");
    assert_eq!(lidar.state(), LidarState::Idle);
    assert!(!lidar.reader_attached());
    assert!(!lidar.cancel_requested());
    let e = serialport::Error::new(serialport::ErrorKind::Unknown, "x");
    assert!(lidar.start_scan_dense(Err(e)).is_err());
    assert_eq!(lidar.state(), LidarState::Idle);
}

#[test]
fn stop_asks_the_reader_to_end_and_gives_the_command() {
    let mut lidar = Lidar::init();
    lidar.start_scan(Ok(())).unwrap();
    assert_eq!(lidar.stop(false), vec![0xA5, 0x25]);
    assert_eq!(lidar.state(), LidarState::Idle);
    assert!(lidar.cancel_requested());
    assert!(lidar.reader_attached());
}

#[test]
fn reset_is_a_stop_with_the_reset_command() {
    let mut lidar = Lidar::init();
    lidar.start_scan(Ok(())).unwrap();
    assert_eq!(lidar.reset(), vec![0xA5, 0x40]);
    assert!(lidar.cancel_requested());
    assert_eq!(lidar.state(), LidarState::Idle);
    let mut other = Lidar::init();
    assert_eq!(other.stop(true), vec![0xA5, 0x40]);
}

#[test]
fn join_detaches_the_reader_once() {
    let mut lidar = Lidar::init();
    lidar.start_scan(Ok(())).unwrap();
    lidar.stop(false);
    assert!(lidar.join());
    assert!(!lidar.reader_attached());
    assert_eq!(lidar.state(), LidarState::Idle);
    assert!(!lidar.join());
    assert!(!lidar.reader_attached());
}

#[test]
fn join_without_a_scan_does_nothing() {
    let mut lidar = Lidar::init();
    assert!(!lidar.join());
    assert_eq!(lidar.state(), LidarState::Idle);
    assert!(!lidar.cancel_requested());
}

#[test]
fn a_new_scan_clears_the_request_to_stop() {
    let mut lidar = Lidar::init();
    lidar.start_scan(Ok(())).unwrap();
    lidar.stop(false);
    lidar.join();
    assert!(lidar.cancel_requested());
    lidar.start_scan(Ok(())).unwrap();
    assert!(!lidar.cancel_requested());
    assert_eq!(lidar.state(), LidarState::Scanning);
}

#[test]
fn waiting_for_data() {
    assert_eq!(wait_for_data(false, 7, 7, 0, 1000), WaitStatus::Ready);
    assert_eq!(wait_for_data(false, 8, 7, 5000, 1000), WaitStatus::Ready);
    assert_eq!(wait_for_data(false, 6, 7, 1000, 1000), WaitStatus::Pending);
    assert_eq!(wait_for_data(false, 6, 7, 1001, 1000), WaitStatus::TimedOut);
    assert_eq!(wait_for_data(false, 0, 1, 0, 0), WaitStatus::Pending);
    assert_eq!(wait_for_data(true, 7, 7, 0, 1000), WaitStatus::Closed);
    assert_eq!(wait_for_data(true, 0, 7, 2000, 1000), WaitStatus::Closed);
    assert_eq!(wait_for_data(false, 0, 0, u128::MAX, u32::MAX), WaitStatus::Ready);
}
