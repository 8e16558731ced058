use std::cell::RefCell;
use std::rc::Rc;

use dynamixel::error::ErrorType;
use dynamixel::motors::Register;
use dynamixel::motors::XL_320;
use dynamixel::protocol::v2::{ControllerV2, StatusPacket};
use dynamixel::transport::{Clock, SerialRead, SerialWrite};
use dynamixel::with_protocol_v2;

// A simulated half-duplex bus: the receive side replays a script, the
// transmit side captures every byte, and the clock ticks once per call.
// A `Gap` entry makes the line silent while the clock jumps far past the
// timeout, so the byte attempt in flight reliably times out.
enum Step {
    Byte(u8),
    // The line is not ready yet, but the deadline is still far.
    Wait,
    // The line stays silent past the per-byte deadline.
    Gap,
}

struct Bus {
    script: Vec<Step>,
    pos: usize,
    time: u64,
    sent: Vec<u8>,
}

impl Bus {
    fn shared(script: Vec<Step>) -> Rc<RefCell<Bus>> {
        Rc::new(RefCell::new(Bus { script, pos: 0, time: 0, sent: Vec::new() }))
    }
}

struct ScriptRx(Rc<RefCell<Bus>>);

impl SerialRead for ScriptRx {
    fn read(&mut self) -> Option<u8> {
        let mut bus = self.0.borrow_mut();
        bus.time += 1;
        if bus.pos < bus.script.len() {
            let step = &bus.script[bus.pos];
            match step {
                Step::Byte(b) => {
                    let b = *b;
                    bus.pos += 1;
                    Some(b)
                }
                Step::Wait => {
                    bus.pos += 1;
                    None
                }
                Step::Gap => {
                    bus.pos += 1;
                    bus.time += 1_000_000;
                    None
                }
            }
        } else {
            // An exhausted script is an absent servo: silence forever.
            bus.time += 1_000_000;
            None
        }
    }
}

struct CaptureTx(Rc<RefCell<Bus>>);

impl SerialWrite for CaptureTx {
    fn write(&mut self, b: u8) {
        self.0.borrow_mut().sent.push(b);
    }
}

struct TickClock(Rc<RefCell<Bus>>);

impl Clock for TickClock {
    fn now_ms(&mut self) -> u64 {
        let mut bus = self.0.borrow_mut();
        bus.time += 1;
        bus.time
    }
}

fn controller_on(
    bus: &Rc<RefCell<Bus>>,
) -> ControllerV2<ScriptRx, CaptureTx, TickClock> {
    with_protocol_v2(ScriptRx(bus.clone()), CaptureTx(bus.clone()), TickClock(bus.clone()))
}

fn status_reply(id: u8, error_code: Option<u8>, parameters: Vec<u8>) -> Vec<Step> {
    let length = (parameters.len() + 4) as u16;
    let packet = StatusPacket { id, length, error_code, parameters };
    packet.to_bytes().into_iter().map(Step::Byte).collect()
}

fn buypass(bytes: &[u8]) -> u16 {
    crc16::State::<crc16::BUYPASS>::calculate(bytes)
}

fn with_crc(mut body: Vec<u8>) -> Vec<u8> {
    let c = buypass(&body);
    body.push((c % 256) as u8);
    body.push((c / 256) as u8);
    body
}

// A register descriptor with a width the wire cannot carry.
struct BadWidth;

impl Register for BadWidth {
    fn address(&self) -> u16 {
        0x0025
    }
    fn width(&self) -> u16 {
        3
    }
}

#[test]
fn read_present_position() {
    // Read PresentPosition (addr=0x0025, width=2) of servo 1; the servo
    // answers 0x0264 = 612.
    let bus = Bus::shared(status_reply(1, None, vec![0x64, 0x02]));
    let mut c = controller_on(&bus);
    let value = c.read_data(1, &XL_320::PresentPosition).unwrap();
    assert_eq!(value, 612);
    let expected = with_crc(vec![
        0xFF, 0xFF, 0xFD, 0x00, 0x01, 0x07, 0x00, 0x02, 0x25, 0x00, 0x02, 0x00,
    ]);
    assert_eq!(bus.borrow().sent, expected, "check transmitted read frame");
}

#[test]
fn write_goal_position() {
    // Write 512 to GoalPosition (addr=0x001E, width=2) of servo 1; the
    // servo acknowledges with an empty status frame.
    let bus = Bus::shared(status_reply(1, None, vec![]));
    let mut c = controller_on(&bus);
    c.write_data(1, &XL_320::GoalPosition, 512).unwrap();
    let expected = with_crc(vec![
        0xFF, 0xFF, 0xFD, 0x00, 0x01, 0x07, 0x00, 0x03, 0x1E, 0x00, 0x00, 0x02,
    ]);
    assert_eq!(bus.borrow().sent, expected, "check transmitted write frame");
}

#[test]
fn ping_present_servo() {
    let bus = Bus::shared(status_reply(1, None, vec![0x00, 0x00, 0x00]));
    let mut c = controller_on(&bus);
    assert_eq!(c.ping(1).unwrap(), true);
}

#[test]
fn ping_absent_servo() {
    // The transport never produces a byte: after the timeout the ping
    // reports absence; no Timeout error bubbles.
    let bus = Bus::shared(vec![]);
    let mut c = controller_on(&bus);
    assert_eq!(c.ping(99).unwrap(), false);
}

#[test]
fn byte_within_deadline_succeeds() {
    // The line hesitates before each of the first bytes but stays within
    // the per-byte deadline, so the operation still succeeds.
    let mut script = vec![Step::Wait, Step::Wait, Step::Wait];
    script.extend(status_reply(1, None, vec![0x64, 0x02]));
    let bus = Bus::shared(script);
    let mut c = controller_on(&bus);
    assert_eq!(c.read_data(1, &XL_320::PresentPosition).unwrap(), 612);
}

#[test]
fn gap_past_deadline_times_out() {
    // The line goes silent past the deadline in the middle of a frame:
    // the read fails with Timeout.
    let mut script = vec![Step::Byte(0xFF), Step::Byte(0xFF), Step::Byte(0xFD)];
    script.push(Step::Gap);
    let bus = Bus::shared(script);
    let mut c = controller_on(&bus);
    let e = c.read_data(1, &XL_320::PresentPosition).unwrap_err();
    assert_eq!(e.error, ErrorType::Timeout);
}

#[test]
fn sync_read_partial() {
    // Sync-read ids [1, 2, 3]: servos 1 and 3 answer, servo 2 stays
    // silent past the deadline; its id is dropped and servo 3's reply is
    // consumed from the following slot.
    let mut script = status_reply(1, None, vec![0x64, 0x02]);
    script.push(Step::Gap);
    script.extend(status_reply(3, None, vec![0x10, 0x00]));
    let bus = Bus::shared(script);
    let mut c = controller_on(&bus);
    let answer = c.sync_read_data(&[1, 2, 3], &XL_320::PresentPosition);
    assert_eq!(answer, vec![(1, 612), (3, 16)]);
}

#[test]
fn sync_write_sends_one_broadcast_frame() {
    let bus = Bus::shared(vec![]);
    let mut c = controller_on(&bus);
    c.sync_write_data(&XL_320::GoalPosition, &[(1, 512), (2, 300)]);
    let expected = with_crc(vec![
        0xFF, 0xFF, 0xFD, 0x00, 254, 0x0B, 0x00, 0x83, 0x1E, 0x00, 1, 0x00, 0x02, 2, 0x2C, 0x01,
    ]);
    assert_eq!(bus.borrow().sent, expected, "check transmitted sync-write frame");
}

#[test]
fn status_error_surfaced_on_read() {
    // A well-formed status frame with error byte 0x04 (overheat).
    let bus = Bus::shared(status_reply(1, Some(0x04), vec![0x64, 0x02]));
    let mut c = controller_on(&bus);
    let e = c.read_data(1, &XL_320::PresentPosition).unwrap_err();
    assert_eq!(e.error, ErrorType::StatusError(0x04));
}

#[test]
fn status_error_surfaced_on_write() {
    let bus = Bus::shared(status_reply(1, Some(0x04), vec![]));
    let mut c = controller_on(&bus);
    let e = c.write_data(1, &XL_320::GoalPosition, 512).unwrap_err();
    assert_eq!(e.error, ErrorType::StatusError(0x04));
}

#[test]
fn status_error_propagates_through_ping() {
    // Ping maps Timeout to false but propagates a status error.
    let bus = Bus::shared(status_reply(1, Some(0x04), vec![]));
    let mut c = controller_on(&bus);
    let e = c.ping(1).unwrap_err();
    assert_eq!(e.error, ErrorType::StatusError(0x04));
}

#[test]
fn unsupported_width_rejected_before_transmitting() {
    // A register width outside {1, 2} fails read and write with
    // UnsupportedRegister without touching the transport.
    let bus = Bus::shared(vec![]);
    let mut c = controller_on(&bus);
    let e = c.read_data(1, &BadWidth).unwrap_err();
    assert_eq!(e.error, ErrorType::UnsupportedRegister);
    let e = c.write_data(1, &BadWidth, 5).unwrap_err();
    assert_eq!(e.error, ErrorType::UnsupportedRegister);
    assert!(bus.borrow().sent.is_empty(), "nothing may reach the transport");
}

#[test]
fn scan_collects_answering_ids() {
    // Ids 0 and 2 of the range 0..3 answer; id 1 stays silent.
    let mut script = status_reply(0, None, vec![]);
    script.push(Step::Gap);
    script.extend(status_reply(2, None, vec![]));
    let bus = Bus::shared(script);
    let mut c = controller_on(&bus);
    let found = c.scan(0..3).unwrap();
    assert_eq!(found, vec![0, 2]);
}

#[test]
fn corrupt_reply_is_checksum_error() {
    // A reply whose last CRC byte is off by one bit surfaces
    // InvalidChecksum, also through ping.
    let mut reply = StatusPacket { id: 1, length: 4, error_code: None, parameters: vec![] }
        .to_bytes();
    let n = reply.len();
    reply[n - 1] ^= 0x01;
    let bus = Bus::shared(reply.into_iter().map(Step::Byte).collect());
    let mut c = controller_on(&bus);
    let e = c.ping(1).unwrap_err();
    assert_eq!(e.error, ErrorType::InvalidChecksum);
}

#[test]
fn set_timeout_shortens_the_deadline() {
    // With a zero timeout even a short hesitation times the byte out, so
    // the ping reports absence where the default budget would succeed.
    let mut script = vec![Step::Wait, Step::Wait];
    script.extend(status_reply(1, None, vec![]));
    let bus = Bus::shared(script);
    let mut c = controller_on(&bus);
    c.set_timeout(0);
    assert_eq!(c.ping(1).unwrap(), false);
}
