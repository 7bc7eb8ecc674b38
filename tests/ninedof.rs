use capsules::ninedof::{call_driver, App, NineDof, NineDofCommand, Owner, Request, Sensor, Start};
use capsules::return_code::ReturnCode;
use capsules::upcall::{Callback, Upcall};

fn with_callbacks(n: usize) -> NineDof {
    let mut d = NineDof::new(n);
    for i in 0..n {
        assert_eq!(d.subscribe(0, Callback { app_id: i, token: 100 + i }), ReturnCode::SUCCESS);
    }
    d
}

fn up(app: usize, r0: usize, r1: usize, r2: usize) -> Upcall {
    Upcall { callback: Callback { app_id: app, token: 100 + app }, r0, r1, r2 }
}

/// Counts the readings a driver is asked to start.
struct CountingDriver {
    starts: usize,
}

impl CountingDriver {
    fn run(&mut self, r: Request) -> Request {
        if let Request::Begin { .. } = r {
            self.starts += 1;
        }
        r
    }
}

#[test]
fn three_identical_requests_share_one_reading() {
    let mut d = with_callbacks(3);
    let mut hw = CountingDriver { starts: 0 };
    let r1 = hw.run(d.enqueue_command(Sensor::Accelerometer, 0, 0));
    assert_eq!(
        r1,
        Request::Begin { start: Start { app: 0, sensor: Sensor::Accelerometer, arg1: 0 } }
    );
    let r2 = hw.run(d.enqueue_command(Sensor::Accelerometer, 0, 1));
    let r3 = hw.run(d.enqueue_command(Sensor::Accelerometer, 0, 2));
    assert_eq!(r2, Request::Reply { code: ReturnCode::SUCCESS });
    assert_eq!(r3, Request::Reply { code: ReturnCode::SUCCESS });
    let c = d.callback(3, 0, 0);
    assert_eq!(c.upcalls, vec![up(0, 3, 0, 0), up(1, 3, 0, 0), up(2, 3, 0, 0)]);
    assert_eq!(c.start, None);
    assert_eq!(hw.starts, 1);
    assert_eq!(d.current_app(), None);
    for i in 0..3 {
        assert!(!d.app(i).unwrap().pending_command);
    }
}

#[test]
fn two_waiting_duplicates_reuse_the_owners_result() {
    let mut d = with_callbacks(3);
    let mut hw = CountingDriver { starts: 0 };
    hw.run(d.enqueue_command(Sensor::Gyroscope, 7, 2));
    hw.run(d.enqueue_command(Sensor::Gyroscope, 7, 0));
    hw.run(d.enqueue_command(Sensor::Gyroscope, 7, 1));
    let c = d.callback(10, 20, 30);
    assert_eq!(c.upcalls, vec![up(2, 10, 20, 30), up(0, 10, 20, 30), up(1, 10, 20, 30)]);
    assert_eq!(c.start, None);
    assert_eq!(hw.starts, 1);
}

#[test]
fn second_request_while_pending_is_refused() {
    let mut d = with_callbacks(2);
    d.enqueue_command(Sensor::Accelerometer, 0, 0);
    assert_eq!(
        d.enqueue_command(Sensor::Magnetometer, 4, 1),
        Request::Reply { code: ReturnCode::SUCCESS }
    );
    assert_eq!(
        d.enqueue_command(Sensor::Gyroscope, 9, 1),
        Request::Reply { code: ReturnCode::ENOMEM }
    );
    let a = d.app(1).unwrap();
    assert!(a.pending_command);
    assert_eq!(a.command, NineDofCommand::ReadMagnetometer);
    assert_eq!(a.arg1, 4);
}

#[test]
fn completion_notifies_owner_once_and_starts_next() {
    let mut d = with_callbacks(3);
    d.enqueue_command(Sensor::Accelerometer, 0, 1);
    d.enqueue_command(Sensor::Magnetometer, 0, 0);
    d.enqueue_command(Sensor::Accelerometer, 0, 2);
    let c = d.callback(1, 2, 3);
    // the owner first, then the duplicate request of process 2 would come
    // after the new start, so it waits
    assert_eq!(c.upcalls, vec![up(1, 1, 2, 3)]);
    assert_eq!(c.start, Some(Start { app: 0, sensor: Sensor::Magnetometer, arg1: 0 }));
    assert_eq!(
        d.current_app(),
        Some(Owner { app: 0, command: NineDofCommand::ReadMagnetometer, arg1: 0 })
    );
    assert!(!d.app(1).unwrap().pending_command);
    assert!(!d.app(0).unwrap().pending_command);
    assert!(d.app(2).unwrap().pending_command);
}

#[test]
fn duplicates_before_the_next_start_are_reused() {
    let mut d = with_callbacks(4);
    d.enqueue_command(Sensor::Accelerometer, 5, 3);
    d.enqueue_command(Sensor::Accelerometer, 5, 0);
    d.enqueue_command(Sensor::Gyroscope, 5, 1);
    d.enqueue_command(Sensor::Accelerometer, 5, 2);
    let c = d.callback(8, 0, 0);
    assert_eq!(c.upcalls, vec![up(3, 8, 0, 0), up(0, 8, 0, 0)]);
    assert_eq!(c.start, Some(Start { app: 1, sensor: Sensor::Gyroscope, arg1: 5 }));
    assert!(d.app(2).unwrap().pending_command);
}

#[test]
fn spurious_completion_changes_nothing() {
    let mut d = with_callbacks(2);
    let c = d.callback(1, 1, 1);
    assert!(c.upcalls.is_empty());
    assert_eq!(c.start, None);
    assert_eq!(d.current_app(), None);
}

#[test]
fn owner_without_target_gets_no_notification() {
    let mut d = NineDof::new(2);
    d.subscribe(0, Callback { app_id: 1, token: 101 });
    d.enqueue_command(Sensor::Accelerometer, 0, 0);
    d.enqueue_command(Sensor::Accelerometer, 0, 1);
    let c = d.callback(4, 5, 6);
    assert_eq!(c.upcalls, vec![up(1, 4, 5, 6)]);
}

#[test]
fn failed_start_moves_to_next_waiting_request() {
    let mut d = with_callbacks(3);
    d.enqueue_command(Sensor::Accelerometer, 0, 0);
    d.enqueue_command(Sensor::Gyroscope, 1, 1);
    d.enqueue_command(Sensor::Magnetometer, 2, 2);
    let c = d.callback(0, 0, 0);
    assert_eq!(c.start, Some(Start { app: 1, sensor: Sensor::Gyroscope, arg1: 1 }));
    let s = d.start_failed();
    assert_eq!(s, Some(Start { app: 2, sensor: Sensor::Magnetometer, arg1: 2 }));
    assert_eq!(
        d.current_app(),
        Some(Owner { app: 2, command: NineDofCommand::ReadMagnetometer, arg1: 2 })
    );
    assert_eq!(d.start_failed(), None);
    assert_eq!(d.current_app(), None);
}

#[test]
fn failed_first_start_leaves_sensor_idle() {
    let mut d = with_callbacks(1);
    d.enqueue_command(Sensor::Accelerometer, 0, 0);
    assert_eq!(d.start_failed(), None);
    assert_eq!(d.current_app(), None);
    assert!(matches!(
        d.enqueue_command(Sensor::Accelerometer, 0, 0),
        Request::Begin { .. }
    ));
}

#[test]
fn unknown_process_fails() {
    let mut d = with_callbacks(1);
    assert_eq!(
        d.enqueue_command(Sensor::Accelerometer, 0, 5),
        Request::Reply { code: ReturnCode::FAIL }
    );
    assert_eq!(d.current_app(), None);
    assert_eq!(d.subscribe(0, Callback { app_id: 9, token: 0 }), ReturnCode::FAIL);
    assert_eq!(d.subscribe(1, Callback { app_id: 0, token: 0 }), ReturnCode::ENOSUPPORT);
}

#[test]
fn command_numbers() {
    let mut d = with_callbacks(2);
    assert_eq!(d.command(0, 0, 0), Request::Reply { code: ReturnCode::SUCCESS });
    assert_eq!(d.command(2, 0, 0), Request::Reply { code: ReturnCode::ENOSUPPORT });
    assert_eq!(
        d.command(100, 3, 0),
        Request::Begin { start: Start { app: 0, sensor: Sensor::Magnetometer, arg1: 3 } }
    );
    assert_eq!(d.command(200, 3, 1), Request::Reply { code: ReturnCode::SUCCESS });
    assert_eq!(d.app(1).unwrap().command, NineDofCommand::ReadGyroscope);
    assert_eq!(d.command(1, 3, 1), Request::Reply { code: ReturnCode::ENOMEM });
}

#[test]
fn default_record_and_driver_mapping() {
    let a = App::default();
    assert_eq!(a.callback, None);
    assert!(!a.pending_command);
    assert_eq!(a.command, NineDofCommand::Exists);
    assert_eq!(a.arg1, 0);
    assert_eq!(call_driver(NineDofCommand::Exists), None);
    assert_eq!(call_driver(NineDofCommand::ReadAccelerometer), Some(Sensor::Accelerometer));
    assert_eq!(call_driver(NineDofCommand::ReadMagnetometer), Some(Sensor::Magnetometer));
    assert_eq!(call_driver(NineDofCommand::ReadGyroscope), Some(Sensor::Gyroscope));
}
