use emv::error::TermError;
use emv::session::RawSession;

/// A device whose attributes are a number; raw form is the number plus 100.
struct Device {
    attrs: u32,
    fail_next: bool,
}

impl Device {
    fn apply(&mut self, a: u32) -> bool {
        if self.fail_next {
            self.fail_next = false;
            false
        } else {
            self.attrs = a;
            true
        }
    }
}

fn begin(dev: &Device) -> RawSession<u32> {
    RawSession::begin(3, Some((dev.attrs, dev.attrs + 100))).unwrap()
}

#[test]
fn begin_without_attributes_fails() {
    let r = RawSession::<u32>::begin(3, None);
    assert!(matches!(r, Err(TermError::AttributeQueryFailed)));
}

#[test]
fn teardown_restores_after_errors() {
    let mut dev = Device { attrs: 7, fail_next: false };
    let mut s = begin(&dev);
    assert_eq!(s.device_fd(), 3);
    assert!(!s.is_raw());
    let a = s.activate_raw_mode();
    assert!(dev.apply(a));
    assert_eq!(dev.attrs, 107);
    assert!(s.is_raw());
    // activating again is a no-op in effect
    assert_eq!(s.activate_raw_mode(), 107);
    let a = s.suspend_raw_mode();
    assert!(dev.apply(a));
    assert_eq!(dev.attrs, 7);
    dev.fail_next = true;
    let a = s.activate_raw_mode();
    assert!(!dev.apply(a));
    let (e, restore) = s.apply_failed();
    assert_eq!(e, TermError::AttributeSetFailed);
    assert_eq!(restore, 7);
    assert!(!s.is_raw());
    let a = s.activate_raw_mode();
    assert!(dev.apply(a));
    assert_eq!(s.original_attrs(), 7);
    assert!(dev.apply(s.end()));
    assert_eq!(dev.attrs, 7);
}

#[test]
fn sessions_one_after_another_capture_the_same() {
    let mut dev = Device { attrs: 5, fail_next: false };
    let mut first = begin(&dev);
    dev.apply(first.activate_raw_mode());
    dev.apply(first.end());
    let second = begin(&dev);
    assert_eq!(second.original_attrs(), 5);
    dev.apply(second.end());
    assert_eq!(dev.attrs, 5);
}

#[test]
fn nested_session_keeps_first_snapshot() {
    let mut dev = Device { attrs: 5, fail_next: false };
    let mut first = begin(&dev);
    dev.apply(first.activate_raw_mode());
    let mut second = begin(&dev);
    assert_eq!(second.original_attrs(), 105);
    dev.apply(second.activate_raw_mode());
    dev.apply(second.end());
    assert_eq!(dev.attrs, 105);
    assert_eq!(first.original_attrs(), 5);
    dev.apply(first.end());
    assert_eq!(dev.attrs, 5);
}
