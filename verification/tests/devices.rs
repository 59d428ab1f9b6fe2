use realsense_rust::device_list::{Device, DeviceList};
use realsense_rust::error::{Error, ErrorChecker};
use realsense_rust::foreign::ForeignCall;
use realsense_rust::handle::Handle;

fn handle(addr: usize) -> Handle {
    Handle::new(addr).unwrap()
}

fn native_error(addr: usize, message: &str) -> Error {
    let mut checker = ErrorChecker::new();
    checker.record(addr);
    checker.check(message).unwrap_err()
}

#[test]
fn device_list_round_trips_through_its_handle() {
    let list = DeviceList::from_raw(handle(3));
    assert_eq!(list.len(), ForeignCall::GetDeviceCount { list: handle(3) });
    assert_eq!(list.get(2), ForeignCall::CreateDevice { list: handle(3), index: 2 });
    let raw = list.into_raw();
    assert_eq!(raw, handle(3));
    assert_eq!(DeviceList::from_raw(raw), DeviceList::from_raw(handle(3)));
    assert_eq!(
        DeviceList::from_raw(raw).release(),
        ForeignCall::DeleteDeviceList { list: handle(3) }
    );
}

#[test]
fn device_list_replies_pass_errors_on() {
    assert_eq!(DeviceList::len_reply(Ok(()), 4), Ok(4));
    assert_eq!(
        DeviceList::len_reply(Err(native_error(9, "gone")), 4),
        Err(native_error(9, "gone"))
    );
    assert_eq!(DeviceList::is_empty(Ok(0)), Ok(true));
    assert_eq!(DeviceList::is_empty(Ok(1)), Ok(false));
    assert_eq!(DeviceList::is_empty(Err(native_error(9, "gone"))), Err(native_error(9, "gone")));
    assert_eq!(DeviceList::get_reply(Ok(()), 40), Ok(Device { ptr: handle(40) }));
    assert_eq!(
        DeviceList::get_reply(Err(native_error(9, "gone")), 0),
        Err(native_error(9, "gone"))
    );
    assert!(DeviceList::from_raw(handle(3)).try_into_iter(Err(native_error(9, "gone"))).is_err());
}

#[test]
fn iteration_gives_each_device_and_then_ends() {
    let mut iter = DeviceList::from_raw(handle(3)).try_into_iter(Ok(2)).unwrap();
    assert_eq!(iter.next_call(), Some(ForeignCall::CreateDevice { list: handle(3), index: 0 }));
    assert_eq!(iter.next(Ok(()), 40), Some(Ok(Device { ptr: handle(40) })));
    assert_eq!(iter.next_call(), Some(ForeignCall::CreateDevice { list: handle(3), index: 1 }));
    assert_eq!(iter.next(Ok(()), 41), Some(Ok(Device { ptr: handle(41) })));
    assert_eq!(iter.next_call(), None);
    assert_eq!(iter.next(Ok(()), 42), None);
    assert_eq!(iter.next(Ok(()), 0), None);
    assert_eq!(iter.release(), ForeignCall::DeleteDeviceList { list: handle(3) });
}

#[test]
fn iteration_over_an_empty_list_gives_nothing() {
    let mut iter = DeviceList::from_raw(handle(3)).try_into_iter(Ok(0)).unwrap();
    assert_eq!(iter.next_call(), None);
    assert_eq!(iter.next(Ok(()), 40), None);
}

#[test]
fn iteration_ends_at_the_first_error() {
    let mut iter = DeviceList::from_raw(handle(3)).try_into_iter(Ok(3)).unwrap();
    assert_eq!(iter.next(Ok(()), 40), Some(Ok(Device { ptr: handle(40) })));
    assert_eq!(
        iter.next(Err(native_error(9, "device busy")), 0),
        Some(Err(native_error(9, "device busy")))
    );
    assert_eq!(iter.next_call(), None);
    assert_eq!(iter.next(Ok(()), 41), None);
}
