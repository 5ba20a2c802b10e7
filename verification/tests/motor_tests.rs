use std::cell::RefCell;
use std::rc::Rc;

use rust_fc::motor::{MotorChannel, MotorController, PioDshotChannelError};

struct Recorder {
    sent: Rc<RefCell<Vec<u16>>>,
    fail: bool,
}

impl MotorChannel for Recorder {
    type Error = PioDshotChannelError;

    fn last_packet(&self) -> Option<u16> {
        self.sent.borrow().last().copied()
    }

    fn packets_sent(&self) -> u64 {
        self.sent.borrow().len() as u64
    }

    fn set_throttle(&mut self, packet: u16) -> Result<(), PioDshotChannelError> {
        self.sent.borrow_mut().push(packet);
        if self.fail {
            Err(PioDshotChannelError::Placeholder)
        } else {
            Ok(())
        }
    }
}

#[test]
fn apply_hands_each_packet_to_the_channel() {
    let sent = Rc::new(RefCell::new(Vec::new()));
    let mut m = MotorController::new(Recorder { sent: sent.clone(), fail: false }, true);
    m.apply(0x82C6);
    assert_eq!(*sent.borrow(), vec![0x82C6]);
    m.apply(0x0606);
    assert_eq!(*sent.borrow(), vec![0x82C6, 0x0606]);
    assert!(m.cw);
}

#[test]
fn apply_ignores_channel_errors() {
    let sent = Rc::new(RefCell::new(Vec::new()));
    let mut m = MotorController::new(Recorder { sent: sent.clone(), fail: true }, false);
    m.apply(0x0101);
    assert_eq!(*sent.borrow(), vec![0x0101]);
    assert!(!m.cw);
}
