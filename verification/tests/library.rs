use std::time::Duration;

use tokio_libevent::base::{checked_base_fd, BaseError, EventLoopFd};
use tokio_libevent::buffer::{evbuffer_get_length, Buffer};
use tokio_libevent::bufferevent::{State, WriterStep};
use tokio_libevent::event::{Admission, Event, Fire, Wake};
use tokio_libevent::event_base::{loopexit_plan, LoopExit};
use tokio_libevent::flags::{
    EVLOOP_NONBLOCK, EV_PERSIST, EV_READ, EV_SIGNAL, EV_TIMEOUT, EV_WRITE, LEV_OPT_CLOSE_ON_EXEC,
    LEV_OPT_DISABLED, LEV_OPT_REUSEABLE, LEV_OPT_REUSEABLE_PORT,
};
use tokio_libevent::listener::{
    evconnlistener_disable, evconnlistener_enable, ListenerSetup, ListenerState,
    DEFAULT_BACKLOG,
};
use tokio_libevent::util::{to_timeval, Timeout, Timeval};
use tokio_libevent::waker::{drain_continues, wakeup_succeeds, PipeRead, PipeWrite};

#[test]
fn it_works() {
    println!("Test code moved to bin/hello.rs")
}

fn timeout_of(tv_sec: i64, tv_usec: i64) -> Option<Duration> {
    Option::<Duration>::from(Timeout::from_timeval(Some(Timeval { tv_sec, tv_usec })))
}

#[test]
fn flag_values_follow_libevent_headers() {
    assert_eq!(EV_TIMEOUT, 0x01);
    assert_eq!(EV_READ, 0x02);
    assert_eq!(EV_WRITE, 0x04);
    assert_eq!(EV_SIGNAL, 0x08);
    assert_eq!(EV_PERSIST, 0x10);
    assert_eq!(EVLOOP_NONBLOCK, 0x02);
    assert_eq!(LEV_OPT_CLOSE_ON_EXEC, 1 << 2);
    assert_eq!(LEV_OPT_REUSEABLE, 1 << 3);
    assert_eq!(LEV_OPT_DISABLED, 1 << 5);
    assert_eq!(LEV_OPT_REUSEABLE_PORT, 1 << 7);
}

#[test]
fn timeout_from_timeval_adds_seconds_and_micros() {
    assert_eq!(timeout_of(1, 500_000), Some(Duration::from_millis(1500)));
    assert_eq!(timeout_of(0, 0), Some(Duration::ZERO));
    assert_eq!(timeout_of(2, 3_000_001), Some(Duration::new(5, 1_000)));
}

#[test]
fn timeout_from_no_timeval_is_none() {
    let t = Timeout::from_timeval(None);
    assert!(!t.is_some());
    assert_eq!(*t, None);
    assert_eq!(Option::<Duration>::from(t), None);
}

#[test]
fn timeout_reads_negative_fields_as_unsigned() {
    assert_eq!(timeout_of(0, -1), Some(Duration::from_micros(u64::MAX)));
}

#[test]
fn timeout_saturates_at_duration_max() {
    assert_eq!(timeout_of(-1, 1_000_000), Some(Duration::MAX));
    assert_eq!(timeout_of(-1, -1), Some(Duration::MAX));
}

#[test]
fn timeout_deref_shows_duration() {
    let t = Timeout::from_timeval(Some(Timeval { tv_sec: 3, tv_usec: 7 }));
    assert!(t.is_some());
    assert_eq!(*t, Some(Duration::new(3, 7_000)));
}

#[test]
fn to_timeval_splits_seconds_and_micros() {
    assert_eq!(to_timeval(Duration::new(5, 123_456_789)), Timeval { tv_sec: 5, tv_usec: 123_456 });
    assert_eq!(to_timeval(Duration::ZERO), Timeval { tv_sec: 0, tv_usec: 0 });
    assert_eq!(to_timeval(Duration::from_nanos(999)), Timeval { tv_sec: 0, tv_usec: 0 });
}

#[test]
fn to_timeval_wraps_huge_seconds() {
    assert_eq!(to_timeval(Duration::MAX), Timeval { tv_sec: -1, tv_usec: 999_999 });
}

#[test]
fn timeval_round_trip_on_normal_values() {
    for &(s, u) in &[(0i64, 0i64), (1, 1), (42, 999_999), (i64::MAX, 999_999)] {
        let d = timeout_of(s, u).unwrap();
        assert_eq!(to_timeval(d), Timeval { tv_sec: s, tv_usec: u });
    }
}

#[test]
fn duration_round_trip_cuts_to_micros() {
    let d = Duration::new(7, 123_456_789);
    let tv = to_timeval(d);
    assert_eq!(timeout_of(tv.tv_sec, tv.tv_usec), Some(Duration::new(7, 123_456_000)));
}

fn event(events: u32, timeout: Option<Timeval>, has_callback: bool) -> Event {
    Event { events, fd: 3, timeout: Timeout::from_timeval(timeout), has_callback }
}

#[test]
fn event_mask_queries() {
    let e = event(EV_READ | EV_PERSIST, None, true);
    assert!(e.is_read());
    assert!(!e.is_write());
    assert!(!e.is_signal());
    assert!(e.is_persistant());
    let e = event(EV_WRITE | EV_SIGNAL, None, true);
    assert!(!e.is_read());
    assert!(e.is_write());
    assert!(e.is_signal());
    assert!(!e.is_persistant());
}

#[test]
fn event_validity() {
    assert!(event(EV_READ, None, true).is_valid());
    assert!(event(EV_WRITE, None, false).is_valid());
    assert!(event(0, Some(Timeval { tv_sec: 1, tv_usec: 0 }), true).is_valid());
    assert!(!event(0, None, true).is_valid());
    assert!(!event(EV_PERSIST, None, true).is_valid());
    assert!(event(EV_SIGNAL, None, true).is_valid());
    assert!(!event(EV_SIGNAL | EV_READ, None, true).is_valid());
    assert!(!event(EV_SIGNAL, Some(Timeval { tv_sec: 1, tv_usec: 0 }), true).is_valid());
}

#[test]
fn event_admission_and_status() {
    assert_eq!(event(EV_READ, None, true).admission(), Admission::Spawned);
    assert_eq!(event(0, None, true).admission(), Admission::Rejected);
    assert_eq!(event(EV_SIGNAL, None, true).admission(), Admission::Unsupported);
    assert_eq!(event(EV_SIGNAL | EV_WRITE, None, true).admission(), Admission::Rejected);
    assert_eq!(Admission::Rejected.status(), -1);
    assert_eq!(Admission::Spawned.status(), 0);
}

#[test]
fn event_from_assigned_widens_mask_with_sign() {
    let e = Event::from_assigned(7, -1, Timeout::from_timeval(None), false);
    assert_eq!(e.events, 0xFFFF_FFFF);
    assert_eq!(e.fd, 7);
    assert!(!e.has_callback);
    let e = Event::from_assigned(7, 0x12, Timeout::from_timeval(None), true);
    assert_eq!(e.events, EV_READ | EV_PERSIST);
    assert!(e.has_callback);
}

#[test]
fn event_wake_calls_back_with_branch_flag() {
    let e = event(EV_READ | EV_WRITE, Some(Timeval { tv_sec: 1, tv_usec: 0 }), true);
    assert_eq!(e.on_wake(Some(Wake::Timeout)), Fire { callback_flags: Some(1), again: false });
    assert_eq!(e.on_wake(Some(Wake::Readable)), Fire { callback_flags: Some(2), again: false });
    assert_eq!(e.on_wake(Some(Wake::Writable)), Fire { callback_flags: Some(4), again: false });
    assert_eq!(e.on_wake(None), Fire { callback_flags: None, again: false });
}

#[test]
fn event_wake_without_callback_or_persistent() {
    let e = event(EV_READ | EV_PERSIST, None, false);
    assert_eq!(e.on_wake(Some(Wake::Readable)), Fire { callback_flags: None, again: true });
    let e = event(EV_READ | EV_PERSIST, None, true);
    assert_eq!(e.on_wake(Some(Wake::Readable)), Fire { callback_flags: Some(2), again: true });
}

#[test]
fn buffer_write_and_len() {
    let mut b = Buffer::new();
    assert_eq!(b.len(), 0);
    assert_eq!(b.write(b"hello").unwrap(), 5);
    assert_eq!(b.len(), 5);
    assert_eq!(b.write(b"").unwrap(), 0);
    assert_eq!(b.write(b" world").unwrap(), 6);
    assert_eq!(b.len(), 11);
}

#[test]
fn buffer_split_and_unsplit() {
    let mut b = Buffer::new();
    b.write(b"hello").unwrap();
    let taken = b.split_pending();
    assert_eq!(&taken[..], b"hello");
    assert_eq!(b.len(), 0);
    b.write(b"xy").unwrap();
    b.unsplit(taken);
    assert_eq!(b.len(), 7);
    let all = b.split_pending();
    assert_eq!(&all[..], b"xyhello");
}

#[test]
fn buffer_split_then_unsplit_keeps_bytes() {
    let mut b = Buffer::new();
    b.write(b"abc").unwrap();
    let taken = b.split_pending();
    b.unsplit(taken);
    assert_eq!(&b.split_pending()[..], b"abc");
}

#[test]
fn evbuffer_length_of_buffer_or_none() {
    let mut b = Buffer::new();
    b.write(b"1234").unwrap();
    assert_eq!(evbuffer_get_length(Some(&b)), 4);
    assert_eq!(evbuffer_get_length(None), 0);
}

#[test]
fn bufferevent_state_switches() {
    let mut s = State::new();
    assert_eq!(s, State { running: true, enable_read: false, enable_write: false });
    s.enable(EV_READ as i16);
    assert_eq!(s, State { running: true, enable_read: true, enable_write: false });
    s.enable((EV_READ | EV_WRITE) as i16);
    assert_eq!(s, State { running: true, enable_read: true, enable_write: true });
    s.disable(EV_WRITE as i16);
    assert_eq!(s, State { running: true, enable_read: true, enable_write: false });
    s.disable(EV_TIMEOUT as i16);
    assert_eq!(s, State { running: true, enable_read: true, enable_write: false });
    s.close();
    assert_eq!(s, State { running: false, enable_read: true, enable_write: false });
    assert!(!s.is_running());
}

#[test]
fn bufferevent_single_switches() {
    let mut s = State::new();
    s.enable_write();
    s.enable_read();
    assert_eq!(s, State { running: true, enable_read: true, enable_write: true });
    s.disable_read();
    s.disable_write();
    assert_eq!(s, State::new());
}

#[test]
fn bufferevent_negative_mask_enables_both() {
    let mut s = State::new();
    s.enable(-1);
    assert!(s.enable_read && s.enable_write);
    s.disable(-1);
    assert!(!s.enable_read && !s.enable_write);
}

#[test]
fn bufferevent_writer_steps() {
    let mut s = State::new();
    assert_eq!(s.writer_step(), WriterStep::Idle);
    s.enable_write();
    assert_eq!(s.writer_step(), WriterStep::Flush);
    s.close();
    assert_eq!(s.writer_step(), WriterStep::Stop);
}

#[test]
fn listener_setup_from_options() {
    let s = ListenerSetup::from_options(0, 0, true);
    assert_eq!(
        s,
        ListenerSetup { backlog: DEFAULT_BACKLOG, only_v6: false, reuse_address: false, reuse_port: false, start_enabled: false }
    );
    assert_eq!(ListenerSetup::from_options(0, -5, true).backlog, 128);
    assert_eq!(ListenerSetup::from_options(0, 16, true).backlog, 16);
    let all = LEV_OPT_CLOSE_ON_EXEC | LEV_OPT_REUSEABLE | LEV_OPT_REUSEABLE_PORT | LEV_OPT_DISABLED;
    assert_eq!(
        ListenerSetup::from_options(all, 1, true),
        ListenerSetup { backlog: 1, only_v6: true, reuse_address: true, reuse_port: true, start_enabled: true }
    );
    assert!(!ListenerSetup::from_options(all, 1, false).start_enabled);
}

#[test]
fn listener_enable_disable_codes() {
    let mut l = ListenerState::new();
    assert!(!l.is_enabled());
    assert_eq!(evconnlistener_disable(&mut l), -1);
    assert_eq!(evconnlistener_enable(&mut l), 0);
    assert!(l.is_enabled());
    assert_eq!(evconnlistener_enable(&mut l), -1);
    assert!(l.is_enabled());
    assert_eq!(evconnlistener_disable(&mut l), 0);
    assert!(!l.is_enabled());
    l.enable();
    assert!(l.enabled);
    l.disable();
    assert!(!l.enabled);
}

#[test]
fn loopexit_with_and_without_timeout() {
    let plan = loopexit_plan(Timeout::from_timeval(Some(Timeval { tv_sec: 2, tv_usec: 0 })));
    assert!(matches!(plan, LoopExit::After(d) if d == Duration::from_secs(2)));
    assert!(matches!(loopexit_plan(Timeout::from_timeval(None)), LoopExit::Now));
}

#[test]
fn waker_outcomes() {
    assert!(wakeup_succeeds(PipeWrite::Wrote(1)));
    assert!(wakeup_succeeds(PipeWrite::WouldBlock));
    assert!(!wakeup_succeeds(PipeWrite::Failed));
    assert!(drain_continues(PipeRead::Data(128)));
    assert!(!drain_continues(PipeRead::Pending));
}

#[test]
fn base_descriptor_check() {
    assert_eq!(checked_base_fd(-1), Err(BaseError::InvalidFd));
    assert_eq!(checked_base_fd(0), Ok(EventLoopFd { fd: 0 }));
    assert_eq!(checked_base_fd(9), Ok(EventLoopFd { fd: 9 }));
    assert_eq!(BaseError::CreateFailed.message(), "Failed to create libevent base");
    assert_eq!(BaseError::InvalidFd.message(), "Invalid libevent base file descriptor");
}
