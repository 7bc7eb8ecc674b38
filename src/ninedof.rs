//! Lets several processes share one nine-degrees-of-freedom motion sensor.
//! One process at a time owns the sensor; the others queue one request each.
//! When a reading completes, its owner is notified, every waiting process
//! that asked for exactly the same reading is handed the same result, and
//! the first other waiting request starts.
use vstd::prelude::*;
use crate::return_code::ReturnCode;
use crate::upcall::{schedule, schedule_spec, Callback, Upcall};

verus! {

/// A logical operation of the sensor.
#[derive(Clone, Copy, Debug, PartialEq, Eq, Structural)]
pub enum NineDofCommand {
    Exists,
    ReadAccelerometer,
    ReadMagnetometer,
    ReadGyroscope,
}

/// A reading that the sensor driver can start.
#[derive(Clone, Copy, Debug, PartialEq, Eq, Structural)]
pub enum Sensor {
    Accelerometer,
    Magnetometer,
    Gyroscope,
}

/// The per-process record.
#[derive(Clone, Copy, Debug, PartialEq, Eq, Structural)]
pub struct App {
    pub callback: Option<Callback>,
    /// A request is queued and has not started.
    pub pending_command: bool,
    pub command: NineDofCommand,
    pub arg1: usize,
}

impl Default for App {
    fn default() -> (r: App)
        ensures
            r == App::initial(),
    {
        App { callback: None, pending_command: false, command: NineDofCommand::Exists, arg1: 0 }
    }
}

impl App {
    /// The record of a process that has not interacted yet.
    pub open spec fn initial() -> App {
        App { callback: None, pending_command: false, command: NineDofCommand::Exists, arg1: 0 }
    }
}

/// The process whose reading is in flight, and what that reading is.
#[derive(Clone, Copy, Debug, PartialEq, Eq, Structural)]
pub struct Owner {
    pub app: usize,
    pub command: NineDofCommand,
    pub arg1: usize,
}

/// A reading to start on the driver on behalf of `app`.
#[derive(Clone, Copy, Debug, PartialEq, Eq, Structural)]
pub struct Start {
    pub app: usize,
    pub sensor: Sensor,
    pub arg1: usize,
}

/// The answer to a request: final, or a reading to start whose immediate
/// result is the answer.
#[derive(Clone, Copy, Debug, PartialEq, Eq, Structural)]
pub enum Request {
    Reply { code: ReturnCode },
    Begin { start: Start },
}

/// What a completed reading leads to: the notifications to deliver, in
/// order, and at most one new reading to start.
pub struct Completion {
    pub upcalls: Vec<Upcall>,
    pub start: Option<Start>,
}

/// The driver reading for a command; `Exists` has none.
pub open spec fn sensor_spec(command: NineDofCommand) -> Option<Sensor> {
    match command {
        NineDofCommand::ReadAccelerometer => Some(Sensor::Accelerometer),
        NineDofCommand::ReadMagnetometer => Some(Sensor::Magnetometer),
        NineDofCommand::ReadGyroscope => Some(Sensor::Gyroscope),
        NineDofCommand::Exists => None,
    }
}

/// Maps a command to the reading the driver performs for it.
pub fn call_driver(command: NineDofCommand) -> (r: Option<Sensor>)
    ensures
        r == sensor_spec(command),
{
    match command {
        NineDofCommand::ReadAccelerometer => Some(Sensor::Accelerometer),
        NineDofCommand::ReadMagnetometer => Some(Sensor::Magnetometer),
        NineDofCommand::ReadGyroscope => Some(Sensor::Gyroscope),
        _ => None,
    }
}

/// A record with its queued request dropped.
pub open spec fn cleared(a: App) -> App {
    App { pending_command: false, ..a }
}

/// A waiting request that a completed `(command, arg1)` satisfies.
pub open spec fn reusable(a: App, command: NineDofCommand, arg1: usize) -> bool {
    a.pending_command && a.command == command && a.arg1 == arg1
}

pub open spec fn upcall_seq(u: Option<Upcall>) -> Seq<Upcall> {
    match u {
        Some(x) => seq![x],
        None => Seq::empty(),
    }
}

/// The scan from position `i` after `(command, arg1)` completed with the
/// given words: the records afterwards, the notifications by reuse, and the
/// process whose request starts, if any.
pub open spec fn scan(
    apps: Seq<App>,
    i: int,
    command: NineDofCommand,
    arg1: usize,
    r0: usize,
    r1: usize,
    r2: usize,
) -> (Seq<App>, Seq<Upcall>, Option<usize>)
    decreases apps.len() - i,
{
    if i < 0 || i >= apps.len() {
        (apps, Seq::empty(), None)
    } else if reusable(apps[i], command, arg1) {
        let t = scan(apps.update(i, cleared(apps[i])), i + 1, command, arg1, r0, r1, r2);
        (t.0, upcall_seq(schedule_spec(apps[i].callback, r0, r1, r2)) + t.1, t.2)
    } else if apps[i].pending_command {
        (apps.update(i, cleared(apps[i])), Seq::empty(), Some(i as usize))
    } else {
        scan(apps, i + 1, command, arg1, r0, r1, r2)
    }
}

/// A completion of the owner's reading: the owner's record cleared and
/// notified first, then the scan of all records from the first.
pub open spec fn completion_spec(apps: Seq<App>, o: Owner, r0: usize, r1: usize, r2: usize) -> (
    Seq<App>,
    Seq<Upcall>,
    Option<usize>,
) {
    let t = scan(apps.update(o.app as int, cleared(apps[o.app as int])), 0, o.command, o.arg1, r0, r1, r2);
    (t.0, upcall_seq(schedule_spec(apps[o.app as int].callback, r0, r1, r2)) + t.1, t.2)
}

/// The owner slot after the request of process `k` is taken up.
pub open spec fn owner_of(apps: Seq<App>, k: Option<usize>) -> Option<Owner> {
    match k {
        Some(k) => Some(Owner { app: k, command: apps[k as int].command, arg1: apps[k as int].arg1 }),
        None => None,
    }
}

/// The reading that starts when the request of process `k` is taken up.
pub open spec fn start_of(apps: Seq<App>, k: Option<usize>) -> Option<Start> {
    match k {
        Some(k) => Some(Start {
            app: k,
            sensor: sensor_spec(apps[k as int].command).unwrap(),
            arg1: apps[k as int].arg1,
        }),
        None => None,
    }
}

/// The command that asks for a reading.
pub open spec fn command_of(sensor: Sensor) -> NineDofCommand {
    match sensor {
        Sensor::Accelerometer => NineDofCommand::ReadAccelerometer,
        Sensor::Magnetometer => NineDofCommand::ReadMagnetometer,
        Sensor::Gyroscope => NineDofCommand::ReadGyroscope,
    }
}

/// What a request for `(sensor, arg1)` by process `appid` does to the
/// arbitrator `a`, giving `b` and the answer `r`.
pub open spec fn enqueue_post(
    a: NineDof,
    b: NineDof,
    sensor: Sensor,
    arg1: usize,
    appid: usize,
    r: Request,
) -> bool {
    let apps = a.apps_spec();
    let command = command_of(sensor);
    if appid >= apps.len() {
        r == Request::Reply { code: ReturnCode::FAIL } && b.apps_spec() == apps && b.owner_spec()
            == a.owner_spec()
    } else if a.owner_spec() is None {
        &&& r == Request::Begin {
            start: Start { app: appid, sensor, arg1 },
        }
        &&& b.owner_spec() == Some(Owner { app: appid, command, arg1 })
        &&& b.apps_spec() == apps
    } else if apps[appid as int].pending_command {
        r == Request::Reply { code: ReturnCode::ENOMEM } && b.apps_spec() == apps && b.owner_spec()
            == a.owner_spec()
    } else {
        &&& r == Request::Reply { code: ReturnCode::SUCCESS }
        &&& b.owner_spec() == a.owner_spec()
        &&& b.apps_spec() == apps.update(
            appid as int,
            App { pending_command: true, command, arg1, ..apps[appid as int] },
        )
    }
}

/// What command `command_num` with `arg1` by process `appid` does to the
/// arbitrator `a`, giving `b` and the answer `r`.
pub open spec fn command_post(
    a: NineDof,
    b: NineDof,
    command_num: usize,
    arg1: usize,
    appid: usize,
    r: Request,
) -> bool {
    if command_num == 1 {
        enqueue_post(a, b, Sensor::Accelerometer, arg1, appid, r)
    } else if command_num == 100 {
        enqueue_post(a, b, Sensor::Magnetometer, arg1, appid, r)
    } else if command_num == 200 {
        enqueue_post(a, b, Sensor::Gyroscope, arg1, appid, r)
    } else {
        &&& b.apps_spec() == a.apps_spec()
        &&& b.owner_spec() == a.owner_spec()
        &&& command_num == 0 ==> r == Request::Reply { code: ReturnCode::SUCCESS }
        &&& command_num != 0 ==> r == Request::Reply { code: ReturnCode::ENOSUPPORT }
    }
}

/// Arbitrates one motion sensor among the processes with ids `0..n`.
pub struct NineDof {
    apps: Vec<App>,
    current_app: Option<Owner>,
}

impl NineDof {
    pub closed spec fn apps_spec(&self) -> Seq<App> {
        self.apps@
    }

    pub closed spec fn owner_spec(&self) -> Option<Owner> {
        self.current_app
    }

    /// The owner is a known process reading the sensor; a queued request is
    /// a reading; a notification target sits in the record of its process;
    /// nothing is queued while nobody owns the sensor.
    pub open spec fn wf(&self) -> bool {
        &&& self.apps_spec().len() <= usize::MAX
        &&& (self.owner_spec() matches Some(o) ==> o.app < self.apps_spec().len()
            && sensor_spec(o.command) is Some)
        &&& forall|i: int|
            0 <= i < self.apps_spec().len() && #[trigger] self.apps_spec()[i].pending_command
                ==> sensor_spec(self.apps_spec()[i].command) is Some
        &&& forall|i: int|
            0 <= i < self.apps_spec().len() && (#[trigger] self.apps_spec()[i].callback) is Some
                ==> self.apps_spec()[i].callback.unwrap().app_id == i
        &&& self.owner_spec() is None ==> forall|i: int|
            0 <= i < self.apps_spec().len() ==> !#[trigger] self.apps_spec()[i].pending_command
    }

    /// An idle arbitrator for `num_apps` processes, each in its initial
    /// record.
    pub fn new(num_apps: usize) -> (r: NineDof)
        ensures
            r.wf(),
            r.owner_spec() is None,
            r.apps_spec() == Seq::new(num_apps as nat, |i: int| App::initial()),
    {
        let mut apps: Vec<App> = Vec::new();
        let mut i: usize = 0;
        while i < num_apps
            invariant
                i <= num_apps,
                apps@ == Seq::new(i as nat, |j: int| App::initial()),
            decreases num_apps - i,
        {
            apps.push(App::default());
            i = i + 1;
            assert(apps@ =~= Seq::new(i as nat, |j: int| App::initial()));
        }
        NineDof { apps, current_app: None }
    }

    /// The record of process `appid`, if it exists.
    pub fn app(&self, appid: usize) -> (r: Option<App>)
        ensures
            appid < self.apps_spec().len() ==> r == Some(self.apps_spec()[appid as int]),
            appid >= self.apps_spec().len() ==> r is None,
    {
        if appid < self.apps.len() {
            Some(self.apps[appid])
        } else {
            None
        }
    }

    /// The owner slot.
    pub fn current_app(&self) -> (r: Option<Owner>)
        ensures
            r == self.owner_spec(),
    {
        self.current_app
    }

    /// Requests a reading for process `appid`. An unknown process gets
    /// `FAIL`. If nobody owns the sensor, the process becomes its owner and
    /// the reading is to start. Otherwise the request is queued, unless the
    /// process already has one queued: then it gets `ENOMEM` and its queued
    /// request stays.
    pub fn enqueue_command(&mut self, sensor: Sensor, arg1: usize, appid: usize) -> (r: Request)
        requires
            old(self).wf(),
        ensures
            final(self).wf(),
            enqueue_post(*old(self), *final(self), sensor, arg1, appid, r),
    {
        if appid >= self.apps.len() {
            return Request::Reply { code: ReturnCode::FAIL };
        }
        let command = match sensor {
            Sensor::Accelerometer => NineDofCommand::ReadAccelerometer,
            Sensor::Magnetometer => NineDofCommand::ReadMagnetometer,
            Sensor::Gyroscope => NineDofCommand::ReadGyroscope,
        };
        if self.current_app.is_none() {
            self.current_app = Some(Owner { app: appid, command, arg1 });
            Request::Begin { start: Start { app: appid, sensor, arg1 } }
        } else {
            let mut app = self.apps[appid];
            if app.pending_command {
                Request::Reply { code: ReturnCode::ENOMEM }
            } else {
                app.pending_command = true;
                app.command = command;
                app.arg1 = arg1;
                self.apps.set(appid, app);
                Request::Reply { code: ReturnCode::SUCCESS }
            }
        }
    }

    /// A reading completed with `(r0, r1, r2)`. Without an owner this is a
    /// spurious completion and changes nothing. Otherwise the owner slot is
    /// released, the owner's queued flag cleared and the owner notified
    /// first. Then the records are scanned in ascending order: a waiting
    /// request for the same command and argument is dropped and its process
    /// is handed the same words; the first other waiting request is dropped
    /// from the queue, its process becomes the owner, its reading is to
    /// start, and the scan stops.
    pub fn callback(&mut self, r0: usize, r1: usize, r2: usize) -> (r: Completion)
        requires
            old(self).wf(),
        ensures
            final(self).wf(),
            match old(self).owner_spec() {
                None => {
                    &&& r.upcalls@ == Seq::<Upcall>::empty()
                    &&& r.start is None
                    &&& final(self).apps_spec() == old(self).apps_spec()
                    &&& final(self).owner_spec() is None
                },
                Some(o) => {
                    let t = completion_spec(old(self).apps_spec(), o, r0, r1, r2);
                    &&& final(self).apps_spec() == t.0
                    &&& r.upcalls@ == t.1
                    &&& r.start == start_of(t.0, t.2)
                    &&& final(self).owner_spec() == owner_of(t.0, t.2)
                }
            },
    {
        let owner = match self.current_app {
            Some(o) => o,
            None => {
                return Completion { upcalls: Vec::new(), start: None };
            },
        };
        self.current_app = None;
        let ghost apps0 = self.apps@;
        let mut finished = self.apps[owner.app];
        finished.pending_command = false;
        self.apps.set(owner.app, finished);
        let ghost apps1 = self.apps@;
        let mut upcalls: Vec<Upcall> = Vec::new();
        match schedule(finished.callback, r0, r1, r2) {
            Some(u) => upcalls.push(u),
            None => {},
        }
        let ghost total = completion_spec(apps0, owner, r0, r1, r2);
        assert(upcalls@ =~= upcall_seq(schedule_spec(apps0[owner.app as int].callback, r0, r1, r2)));
        let n = self.apps.len();
        let mut i: usize = 0;
        while i < n
            invariant
                0 <= i <= n,
                n == self.apps@.len(),
                n == apps1.len(),
                self.current_app is None,
                old(self).owner_spec() == Some(owner),
                apps0 == old(self).apps_spec(),
                total == completion_spec(apps0, owner, r0, r1, r2),
                old(self).wf(),
                apps1 == apps0.update(owner.app as int, cleared(apps0[owner.app as int])),
                forall|j: int|
                    0 <= j < n ==> (#[trigger] self.apps@[j]).callback == apps0[j].callback
                        && self.apps@[j].command == apps0[j].command,
                apps1.len() == apps0.len(),
                owner.app < n,
                sensor_spec(owner.command) is Some,
                forall|j: int| 0 <= j < i ==> !(#[trigger] self.apps@[j]).pending_command,
                forall|j: int| i <= j < n ==> #[trigger] self.apps@[j] == apps1[j],
                forall|j: int|
                    0 <= j < n && #[trigger] apps1[j].pending_command ==> sensor_spec(
                        apps1[j].command,
                    ) is Some,
                total == ({
                    let t = scan(self.apps@, i as int, owner.command, owner.arg1, r0, r1, r2);
                    (t.0, upcalls@ + t.1, t.2)
                }),
            decreases n - i,
        {
            let ghost cur = self.apps@;
            let mut app = self.apps[i];
            if app.pending_command && app.command == owner.command && app.arg1 == owner.arg1 {
                let ghost before = upcalls@;
                app.pending_command = false;
                self.apps.set(i, app);
                match schedule(app.callback, r0, r1, r2) {
                    Some(u) => upcalls.push(u),
                    None => {},
                }
                let ghost t = scan(self.apps@, i + 1, owner.command, owner.arg1, r0, r1, r2);
                assert(upcalls@ =~= before + upcall_seq(schedule_spec(cur[i as int].callback, r0, r1, r2)));
                assert(before + (upcall_seq(schedule_spec(cur[i as int].callback, r0, r1, r2)) + t.1)
                    =~= upcalls@ + t.1);
            } else if app.pending_command {
                app.pending_command = false;
                self.apps.set(i, app);
                let sensor = match call_driver(app.command) {
                    Some(s) => s,
                    None => {
                        assert(false);
                        return Completion { upcalls, start: None };
                    },
                };
                self.current_app = Some(Owner { app: i, command: app.command, arg1: app.arg1 });
                assert(scan(cur, i as int, owner.command, owner.arg1, r0, r1, r2) == (
                self.apps@, Seq::<Upcall>::empty(), Some(i)));
                assert(upcalls@ + Seq::<Upcall>::empty() =~= upcalls@);
                return Completion { upcalls, start: Some(Start { app: i, sensor, arg1: app.arg1 }) };
            }
            i = i + 1;
        }
        assert(upcalls@ + Seq::<Upcall>::empty() =~= upcalls@);
        Completion { upcalls, start: None }
    }

    /// The driver refused the reading that was to start. The owner slot is
    /// released and the first waiting request, in ascending order, is taken
    /// up instead: dropped from the queue, its process made the owner, and
    /// its reading to start. Without one, the sensor is left idle. The
    /// refused request is over: a request made through `enqueue_command`
    /// hands the driver's error to its process as the answer, and one taken
    /// up from the queue gets no notification.
    pub fn start_failed(&mut self) -> (r: Option<Start>)
        requires
            old(self).wf(),
        ensures
            final(self).wf(),
            match r {
                None => {
                    &&& final(self).owner_spec() is None
                    &&& final(self).apps_spec() == old(self).apps_spec()
                    &&& forall|j: int|
                        0 <= j < old(self).apps_spec().len() ==> !(
                        #[trigger] old(self).apps_spec()[j]).pending_command
                },
                Some(s) => {
                    let apps = old(self).apps_spec();
                    let k = s.app as int;
                    &&& 0 <= k < apps.len()
                    &&& apps[k].pending_command
                    &&& forall|j: int| 0 <= j < k ==> !(#[trigger] apps[j]).pending_command
                    &&& r == start_of(apps, Some(s.app))
                    &&& final(self).owner_spec() == owner_of(apps, Some(s.app))
                    &&& final(self).apps_spec() == apps.update(k, cleared(apps[k]))
                },
            },
    {
        self.current_app = None;
        let n = self.apps.len();
        let mut i: usize = 0;
        while i < n
            invariant
                0 <= i <= n,
                n == self.apps@.len(),
                self.current_app is None,
                self.apps@ == old(self).apps_spec(),
                old(self).wf(),
                forall|j: int| 0 <= j < i ==> !(#[trigger] self.apps@[j]).pending_command,
            decreases n - i,
        {
            let mut app = self.apps[i];
            if app.pending_command {
                app.pending_command = false;
                self.apps.set(i, app);
                let sensor = match call_driver(app.command) {
                    Some(s) => s,
                    None => {
                        assert(false);
                        return None;
                    },
                };
                self.current_app = Some(Owner { app: i, command: app.command, arg1: app.arg1 });
                return Some(Start { app: i, sensor, arg1: app.arg1 });
            }
            i = i + 1;
        }
        None
    }

    /// Binds the notification target of the process it belongs to; only
    /// subscription 0 exists. An unknown process gets `FAIL`.
    pub fn subscribe(&mut self, subscribe_num: usize, callback: Callback) -> (r: ReturnCode)
        requires
            old(self).wf(),
        ensures
            final(self).wf(),
            final(self).owner_spec() == old(self).owner_spec(),
            ({
                let apps = old(self).apps_spec();
                let k = callback.app_id as int;
                if subscribe_num != 0 {
                    r == ReturnCode::ENOSUPPORT && final(self).apps_spec() == apps
                } else if k >= apps.len() {
                    r == ReturnCode::FAIL && final(self).apps_spec() == apps
                } else {
                    r == ReturnCode::SUCCESS && final(self).apps_spec() == apps.update(
                        k,
                        App { callback: Some(callback), ..apps[k] },
                    )
                }
            }),
    {
        match subscribe_num {
            0 => {
                let k = callback.app_id();
                if k < self.apps.len() {
                    let mut app = self.apps[k];
                    app.callback = Some(callback);
                    self.apps.set(k, app);
                    ReturnCode::SUCCESS
                } else {
                    ReturnCode::FAIL
                }
            },
            _ => ReturnCode::ENOSUPPORT,
        }
    }

    /// Command 0 says the driver exists; 1, 100 and 200 request an
    /// accelerometer, magnetometer and gyroscope reading; others are
    /// unsupported.
    pub fn command(&mut self, command_num: usize, arg1: usize, appid: usize) -> (r: Request)
        requires
            old(self).wf(),
        ensures
            final(self).wf(),
            command_post(*old(self), *final(self), command_num, arg1, appid, r),
    {
        match command_num {
            0 => Request::Reply { code: ReturnCode::SUCCESS },
            1 => self.enqueue_command(Sensor::Accelerometer, arg1, appid),
            100 => self.enqueue_command(Sensor::Magnetometer, arg1, appid),
            200 => self.enqueue_command(Sensor::Gyroscope, arg1, appid),
            _ => Request::Reply { code: ReturnCode::ENOSUPPORT },
        }
    }
}

/// The notification `u` goes to the target of a record from `i` on that
/// was waiting.
pub open spec fn from_waiting(apps: Seq<App>, i: int, u: Upcall) -> bool {
    exists|j: int|
        i <= j < apps.len() && (#[trigger] apps[j]).pending_command && apps[j].callback == Some(
            u.callback,
        )
}

/// Every notification of a scan goes to a target of a record that was
/// waiting; the scan only drops queued flags, and leaves records that were
/// not waiting as they were.
proof fn lemma_scan_sources(
    apps: Seq<App>,
    i: int,
    command: NineDofCommand,
    arg1: usize,
    r0: usize,
    r1: usize,
    r2: usize,
)
    requires
        0 <= i <= apps.len(),
        apps.len() <= usize::MAX,
    ensures
        ({
            let t = scan(apps, i, command, arg1, r0, r1, r2);
            &&& t.0.len() == apps.len()
            &&& t.2 is Some ==> i <= t.2.unwrap() < apps.len() && apps[t.2.unwrap() as int].pending_command
            &&& forall|j: int|
                0 <= j < apps.len() && !apps[j].pending_command ==> #[trigger] t.0[j] == apps[j]
            &&& forall|k: int| 0 <= k < t.1.len() ==> from_waiting(apps, i, #[trigger] t.1[k])
        }),
    decreases apps.len() - i,
{
    if i < apps.len() {
        let a2 = apps.update(i, cleared(apps[i]));
        if reusable(apps[i], command, arg1) {
            lemma_scan_sources(a2, i + 1, command, arg1, r0, r1, r2);
            let t2 = scan(a2, i + 1, command, arg1, r0, r1, r2);
            let first = upcall_seq(schedule_spec(apps[i].callback, r0, r1, r2));
            let t = scan(apps, i, command, arg1, r0, r1, r2);
            assert(t.1 == first + t2.1);
            assert forall|k: int| 0 <= k < t.1.len() implies from_waiting(
                apps,
                i,
                #[trigger] t.1[k],
            ) by {
                if k < first.len() {
                    assert(apps[i].pending_command);
                } else {
                    let j = choose|j: int|
                        i + 1 <= j < a2.len() && (#[trigger] a2[j]).pending_command
                            && a2[j].callback == Some(t2.1[k - first.len()].callback);
                    assert(apps[j] == a2[j]);
                }
            }
        } else if !apps[i].pending_command {
            lemma_scan_sources(apps, i + 1, command, arg1, r0, r1, r2);
        }
    }
}

/// When every waiting record from `i` on asks for `(command, arg1)`, the
/// scan starts nothing, drops every such request and notifies each of its
/// targets with the same words.
proof fn lemma_scan_all_reused(
    apps: Seq<App>,
    i: int,
    command: NineDofCommand,
    arg1: usize,
    r0: usize,
    r1: usize,
    r2: usize,
)
    requires
        0 <= i <= apps.len(),
        apps.len() <= usize::MAX,
        forall|j: int|
            i <= j < apps.len() && (#[trigger] apps[j]).pending_command ==> apps[j].command
                == command && apps[j].arg1 == arg1,
    ensures
        ({
            let t = scan(apps, i, command, arg1, r0, r1, r2);
            &&& t.2 is None
            &&& forall|j: int| i <= j < apps.len() ==> !(#[trigger] t.0[j]).pending_command
            &&& forall|j: int|
                i <= j < apps.len() && (#[trigger] apps[j]).pending_command
                    && apps[j].callback is Some ==> t.1.contains(
                    Upcall { callback: apps[j].callback.unwrap(), r0, r1, r2 },
                )
        }),
    decreases apps.len() - i,
{
    if i < apps.len() {
        let t = scan(apps, i, command, arg1, r0, r1, r2);
        if apps[i].pending_command {
            let a2 = apps.update(i, cleared(apps[i]));
            lemma_scan_all_reused(a2, i + 1, command, arg1, r0, r1, r2);
            lemma_scan_sources(a2, i + 1, command, arg1, r0, r1, r2);
            let t2 = scan(a2, i + 1, command, arg1, r0, r1, r2);
            let first = upcall_seq(schedule_spec(apps[i].callback, r0, r1, r2));
            assert(t.1 == first + t2.1);
            assert(t.0[i] == a2[i]);
            assert forall|j: int|
                i <= j < apps.len() && (#[trigger] apps[j]).pending_command
                    && apps[j].callback is Some implies t.1.contains(
                Upcall { callback: apps[j].callback.unwrap(), r0, r1, r2 },
            ) by {
                if j == i {
                    assert(t.1[0] == Upcall { callback: apps[j].callback.unwrap(), r0, r1, r2 });
                } else {
                    assert(a2[j] == apps[j]);
                    let k = choose|k: int|
                        0 <= k < t2.1.len() && t2.1[k] == Upcall {
                            callback: apps[j].callback.unwrap(),
                            r0,
                            r1,
                            r2,
                        };
                    assert(t.1[k + first.len()] == t2.1[k]);
                }
            }
        } else {
            lemma_scan_all_reused(apps, i + 1, command, arg1, r0, r1, r2);
            lemma_scan_sources(apps, i + 1, command, arg1, r0, r1, r2);
        }
    }
}

/// A request never takes the sensor from its owner: while the sensor is
/// owned the owner stays, and a request makes its process the owner only
/// when nobody owned it. There is never more than one owner.
pub proof fn lemma_enqueue_single_owner(
    a: NineDof,
    b: NineDof,
    sensor: Sensor,
    arg1: usize,
    appid: usize,
    r: Request,
)
    requires
        a.wf(),
        enqueue_post(a, b, sensor, arg1, appid, r),
    ensures
        a.owner_spec() is Some ==> b.owner_spec() == a.owner_spec(),
        a.owner_spec() is None && b.owner_spec() is Some ==> b.owner_spec().unwrap().app == appid,
{
}

/// Each request keeps the owner of the one before, whenever there was one.
proof fn lemma_owner_persists(
    states: Seq<NineDof>,
    calls: Seq<(Sensor, usize, usize, Request)>,
    j: int,
    k: int,
)
    requires
        states.len() == calls.len() + 1,
        forall|m: int|
            0 <= m < calls.len() ==> enqueue_post(
                #[trigger] states[m],
                states[m + 1],
                calls[m].0,
                calls[m].1,
                calls[m].2,
                calls[m].3,
            ),
        0 <= j <= k < states.len(),
        states[j].owner_spec() is Some,
    ensures
        states[k].owner_spec() == states[j].owner_spec(),
    decreases k - j,
{
    if j < k {
        lemma_owner_persists(states, calls, j, k - 1);
        assert(enqueue_post(states[k - 1], states[k], calls[k - 1].0, calls[k - 1].1, calls[k - 1].2, calls[k - 1].3));
    }
}

/// Over any sequence of requests, with no completion in between, the sensor
/// has at most one owner: once a process owns it, it keeps it; a reading
/// starts only for a request made while nobody owned the sensor, and that
/// request's process becomes the owner; so at most one reading starts.
pub proof fn lemma_requests_single_owner(
    states: Seq<NineDof>,
    calls: Seq<(Sensor, usize, usize, Request)>,
)
    requires
        states.len() == calls.len() + 1,
        forall|m: int|
            0 <= m < calls.len() ==> enqueue_post(
                #[trigger] states[m],
                states[m + 1],
                calls[m].0,
                calls[m].1,
                calls[m].2,
                calls[m].3,
            ),
    ensures
        forall|j: int, k: int|
            0 <= j <= k < states.len() && (#[trigger] states[j]).owner_spec() is Some
                ==> (#[trigger] states[k]).owner_spec() == states[j].owner_spec(),
        forall|m: int|
            0 <= m < calls.len() && (#[trigger] calls[m]).3 is Begin ==> states[m].owner_spec() is None
                && states[m + 1].owner_spec() is Some && states[m + 1].owner_spec().unwrap().app
                == calls[m].2,
        forall|j: int, k: int|
            0 <= j < k < calls.len() && (#[trigger] calls[j]).3 is Begin ==> !((
            #[trigger] calls[k]).3 is Begin),
{
    assert forall|j: int, k: int|
        0 <= j <= k < states.len() && (#[trigger] states[j]).owner_spec() is Some implies (
        #[trigger] states[k]).owner_spec() == states[j].owner_spec() by {
        lemma_owner_persists(states, calls, j, k);
    }
    assert forall|m: int|
        0 <= m < calls.len() && (#[trigger] calls[m]).3 is Begin implies states[m].owner_spec() is None
            && states[m + 1].owner_spec() is Some && states[m + 1].owner_spec().unwrap().app
            == calls[m].2 by {
        assert(enqueue_post(states[m], states[m + 1], calls[m].0, calls[m].1, calls[m].2, calls[m].3));
    }
    assert forall|j: int, k: int|
        0 <= j < k < calls.len() && (#[trigger] calls[j]).3 is Begin implies !((
        #[trigger] calls[k]).3 is Begin) by {
        assert(enqueue_post(states[j], states[j + 1], calls[j].0, calls[j].1, calls[j].2, calls[j].3));
        lemma_owner_persists(states, calls, j + 1, k);
        assert(enqueue_post(states[k], states[k + 1], calls[k].0, calls[k].1, calls[k].2, calls[k].3));
    }
}

/// A process that already has a request queued is refused with `ENOMEM`,
/// and its queued command and argument stay as they were.
pub proof fn lemma_second_request_refused(
    a: NineDof,
    b: NineDof,
    sensor: Sensor,
    arg1: usize,
    appid: usize,
    r: Request,
)
    requires
        a.wf(),
        enqueue_post(a, b, sensor, arg1, appid, r),
        appid < a.apps_spec().len(),
        a.apps_spec()[appid as int].pending_command,
    ensures
        r == (Request::Reply { code: ReturnCode::ENOMEM }),
        b.apps_spec() == a.apps_spec(),
        b.owner_spec() == a.owner_spec(),
{
}

/// After a completion the owner has nothing queued and is not the new
/// owner, and it is notified exactly once, first, with the completion's
/// words (if it has a target).
pub proof fn lemma_completion_notifies_owner(a: NineDof, o: Owner, r0: usize, r1: usize, r2: usize)
    requires
        a.wf(),
        a.owner_spec() == Some(o),
    ensures
        ({
            let apps = a.apps_spec();
            let t = completion_spec(apps, o, r0, r1, r2);
            let skip: int = if apps[o.app as int].callback is Some { 1 } else { 0 };
            &&& !t.0[o.app as int].pending_command
            &&& owner_of(t.0, t.2) != Some(o)
            &&& apps[o.app as int].callback is Some ==> t.1[0] == (Upcall {
                callback: apps[o.app as int].callback.unwrap(),
                r0,
                r1,
                r2,
            })
            &&& forall|k: int| skip <= k < t.1.len() ==> (#[trigger] t.1[k]).callback.app_id != o.app
        }),
{
    let apps = a.apps_spec();
    let a1 = apps.update(o.app as int, cleared(apps[o.app as int]));
    lemma_scan_sources(a1, 0, o.command, o.arg1, r0, r1, r2);
    let ts = scan(a1, 0, o.command, o.arg1, r0, r1, r2);
    let t = completion_spec(apps, o, r0, r1, r2);
    if ts.2 is Some {
        assert(ts.2.unwrap() != o.app);
    }
    let first = upcall_seq(schedule_spec(apps[o.app as int].callback, r0, r1, r2));
    let skip: int = if apps[o.app as int].callback is Some { 1 } else { 0 };
    assert(t.1 == first + ts.1);
    assert forall|k: int| skip <= k < t.1.len() implies (#[trigger] t.1[k]).callback.app_id != o.app by {
        assert(t.1[k] == ts.1[k - skip]);
        let j = choose|j: int|
            0 <= j < a1.len() && (#[trigger] a1[j]).pending_command && a1[j].callback == Some(
                ts.1[k - skip].callback,
            );
        assert(a1[j] == apps[j]);
        assert(apps[j].callback is Some);
    }
}

/// When every waiting request is for the same command and argument as the
/// reading that completed, the completion starts no new reading (the sensor
/// is idle afterwards), nothing stays queued, and every waiting process with
/// a target is handed the same words.
pub proof fn lemma_duplicates_reused(a: NineDof, o: Owner, r0: usize, r1: usize, r2: usize)
    requires
        a.wf(),
        a.owner_spec() == Some(o),
        forall|j: int|
            0 <= j < a.apps_spec().len() && (#[trigger] a.apps_spec()[j]).pending_command
                ==> a.apps_spec()[j].command == o.command && a.apps_spec()[j].arg1 == o.arg1,
    ensures
        ({
            let apps = a.apps_spec();
            let t = completion_spec(apps, o, r0, r1, r2);
            &&& t.2 is None
            &&& start_of(t.0, t.2) is None
            &&& owner_of(t.0, t.2) is None
            &&& forall|j: int| 0 <= j < apps.len() ==> !(#[trigger] t.0[j]).pending_command
            &&& forall|j: int|
                0 <= j < apps.len() && (#[trigger] apps[j]).pending_command && apps[j].callback is Some
                    ==> t.1.contains(Upcall { callback: apps[j].callback.unwrap(), r0, r1, r2 })
        }),
{
    let apps = a.apps_spec();
    let a1 = apps.update(o.app as int, cleared(apps[o.app as int]));
    assert forall|j: int| 0 <= j < a1.len() && (#[trigger] a1[j]).pending_command implies a1[j].command
        == o.command && a1[j].arg1 == o.arg1 by {
        assert(a1[j] == apps[j]);
    }
    lemma_scan_all_reused(a1, 0, o.command, o.arg1, r0, r1, r2);
    let ts = scan(a1, 0, o.command, o.arg1, r0, r1, r2);
    let t = completion_spec(apps, o, r0, r1, r2);
    let first = upcall_seq(schedule_spec(apps[o.app as int].callback, r0, r1, r2));
    assert(t.1 == first + ts.1);
    assert forall|j: int|
        0 <= j < apps.len() && (#[trigger] apps[j]).pending_command && apps[j].callback is Some
            implies t.1.contains(Upcall { callback: apps[j].callback.unwrap(), r0, r1, r2 }) by {
        if j == o.app {
            assert(t.1[0] == Upcall { callback: apps[j].callback.unwrap(), r0, r1, r2 });
        } else {
            assert(a1[j] == apps[j]);
            let k = choose|k: int|
                0 <= k < ts.1.len() && ts.1[k] == Upcall {
                    callback: apps[j].callback.unwrap(),
                    r0,
                    r1,
                    r2,
                };
            assert(t.1[k + first.len()] == ts.1[k]);
        }
    }
}

} // verus!
