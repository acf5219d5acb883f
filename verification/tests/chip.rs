use aw9523::{Aw9523, Aw9523Error, Aw9523ReadWrite, DataFormat};
use std::cell::RefCell;
use std::rc::Rc;

/// A transport that notes every command it is handed and fails the ones it is
/// told to fail (counted from 0).
struct Recorder {
    seen: Rc<RefCell<Vec<Vec<u8>>>>,
    failing: Vec<usize>,
    fail_all: bool,
}

impl Recorder {
    fn reliable(seen: &Rc<RefCell<Vec<Vec<u8>>>>) -> Recorder {
        Recorder { seen: Rc::clone(seen), failing: Vec::new(), fail_all: false }
    }
}

impl Aw9523ReadWrite for Recorder {
    fn send_commands(&mut self, cmd: DataFormat<'_>) -> Result<(), Aw9523Error> {
        let DataFormat::U8(bytes) = cmd;
        let index = self.seen.borrow().len();
        self.seen.borrow_mut().push(bytes.to_vec());
        if self.fail_all || self.failing.contains(&index) {
            Err(Aw9523Error::WriteError)
        } else {
            Ok(())
        }
    }
}

fn table() -> Vec<Vec<u8>> {
    vec![
        vec![0x02, 0b00000101],
        vec![0x03, 0b00000011],
        vec![0x04, 0b00011000],
        vec![0x05, 0b00001100],
        vec![0x11, 0b00010000],
        vec![0x13, 0b11111111],
    ]
}

#[test]
fn init_hands_over_the_six_register_writes_in_order() {
    let seen = Rc::new(RefCell::new(Vec::new()));
    let mut chip = Aw9523::new(Recorder::reliable(&seen));
    assert_eq!(chip.init(), Ok(()));
    assert_eq!(seen.borrow().len(), 6);
    assert_eq!(*seen.borrow(), table());
}

#[test]
fn init_writes_the_documented_register_values() {
    let seen = Rc::new(RefCell::new(Vec::new()));
    let mut chip = Aw9523::new(Recorder::reliable(&seen));
    assert_eq!(chip.init(), Ok(()));
    let expected: Vec<Vec<u8>> = vec![
        vec![2, 5],
        vec![3, 3],
        vec![4, 24],
        vec![5, 12],
        vec![17, 16],
        vec![19, 255],
    ];
    assert_eq!(*seen.borrow(), expected);
}

#[test]
fn new_sends_nothing() {
    let seen: Rc<RefCell<Vec<Vec<u8>>>> = Rc::new(RefCell::new(Vec::new()));
    let _chip = Aw9523::new(Recorder::reliable(&seen));
    assert!(seen.borrow().is_empty());
}

#[test]
fn init_reports_success_when_every_write_fails() {
    let seen = Rc::new(RefCell::new(Vec::new()));
    let transport = Recorder { seen: Rc::clone(&seen), failing: Vec::new(), fail_all: true };
    let mut chip = Aw9523::new(transport);
    assert_eq!(chip.init(), Ok(()));
    assert_eq!(*seen.borrow(), table());
}

#[test]
fn init_goes_on_after_a_failed_write() {
    for failing in 0..6 {
        let seen = Rc::new(RefCell::new(Vec::new()));
        let transport = Recorder { seen: Rc::clone(&seen), failing: vec![failing], fail_all: false };
        let mut chip = Aw9523::new(transport);
        assert_eq!(chip.init(), Ok(()));
        assert_eq!(*seen.borrow(), table());
    }
}

#[test]
fn init_twice_repeats_the_sequence() {
    let seen = Rc::new(RefCell::new(Vec::new()));
    let mut chip = Aw9523::new(Recorder::reliable(&seen));
    assert_eq!(chip.init(), Ok(()));
    assert_eq!(chip.init(), Ok(()));
    let mut expected = table();
    expected.extend(table());
    assert_eq!(*seen.borrow(), expected);
}

#[test]
fn every_init_command_is_a_register_and_a_value() {
    let seen = Rc::new(RefCell::new(Vec::new()));
    let mut chip = Aw9523::new(Recorder::reliable(&seen));
    assert_eq!(chip.init(), Ok(()));
    for command in seen.borrow().iter() {
        assert_eq!(command.len(), 2);
    }
}
