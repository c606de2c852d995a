use embassy_badger2040::display::{BinaryColor, Display, Pixel, FRAME_BYTES};
use embassy_badger2040::uc8151::{BusOp, Phase, Register, Step, Uc8151};

/// A stand-in for the panel: it records every register write, and holds the busy
/// line for a few polls after a reset or a refresh.
struct Recorder {
    writes: Vec<(u8, Vec<u8>)>,
    busy_polls_left: u32,
    busy_waits: u32,
    reset_level: bool,
    chip_selected: bool,
    data_mode: bool,
    log: Vec<String>,
}

impl Recorder {
    fn new() -> Recorder {
        Recorder {
            writes: Vec::new(),
            busy_polls_left: 0,
            busy_waits: 0,
            reset_level: true,
            chip_selected: false,
            data_mode: false,
            log: Vec::new(),
        }
    }

    fn run(&mut self, steps: &[Step]) {
        for step in steps {
            match step {
                Step::ResetLine(level) => {
                    self.reset_level = *level;
                    if *level {
                        self.busy_polls_left = 3;
                    }
                }
                Step::DelayMs(_) => {}
                Step::WaitBusy => {
                    self.busy_waits += 1;
                    while self.busy_polls_left > 0 {
                        self.busy_polls_left -= 1;
                    }
                    self.log.push("ready".to_string());
                }
                Step::Command(register, data) => {
                    for op in Uc8151::command(*register, data) {
                        self.bus(op);
                    }
                    if matches!(register, Register::DRF) {
                        self.busy_polls_left = 5;
                    }
                }
            }
        }
    }

    fn bus(&mut self, op: BusOp) {
        match op {
            BusOp::ChipSelect(level) => self.chip_selected = !level,
            BusOp::DataCommand(level) => self.data_mode = level,
            BusOp::Transfer(bytes) => {
                assert!(self.chip_selected);
                assert_eq!(self.busy_polls_left, 0, "command sent while busy");
                if self.data_mode {
                    self.writes.last_mut().unwrap().1.extend_from_slice(&bytes);
                } else {
                    assert_eq!(bytes.len(), 1);
                    self.writes.push((bytes[0], Vec::new()));
                    self.log.push(format!("cmd {:#04x}", bytes[0]));
                }
            }
        }
    }
}

#[test]
fn command_frames_one_transaction() {
    let ops = Uc8151::command(Register::PWR, &[1, 2, 3]);
    assert_eq!(
        ops,
        vec![
            BusOp::ChipSelect(false),
            BusOp::DataCommand(false),
            BusOp::Transfer(vec![0x01]),
            BusOp::DataCommand(true),
            BusOp::Transfer(vec![1, 2, 3]),
            BusOp::ChipSelect(true),
        ]
    );
}

#[test]
fn opcodes_match_the_register_map() {
    assert_eq!(Register::PSR.opcode(), 0x00);
    assert_eq!(Register::DTM2.opcode(), 0x13);
    assert_eq!(Register::PTOU.opcode(), 0x92);
    assert_eq!(Register::TSE.opcode(), 0x41);
    assert_eq!(Register::TSW.opcode(), 0x42);
    assert_eq!(Register::TSR.opcode(), 0x43);
    assert_eq!(Register::TSSET.opcode(), 0xe5);
}

#[test]
fn reset_pulses_the_line_then_waits() {
    let mut panel = Uc8151::new();
    let steps = panel.reset();
    assert_eq!(
        steps,
        vec![
            Step::ResetLine(false),
            Step::DelayMs(10),
            Step::ResetLine(true),
            Step::DelayMs(10),
            Step::WaitBusy,
        ]
    );
    assert_eq!(panel.phase, Phase::Reset);
}

#[test]
fn init_writes_registers_in_fixed_order() {
    let mut panel = Uc8151::new();
    assert_eq!(panel.phase, Phase::Uninitialized);
    let steps = panel.init();
    assert_eq!(panel.phase, Phase::Ready);
    let mut rec = Recorder::new();
    rec.run(&steps);
    let expected: Vec<(u8, Vec<u8>)> = vec![
        (0x00, vec![0x97]),
        (0x01, vec![0x03, 0x00, 0x2B, 0x2B, 0x2B]),
        (0x04, vec![]),
        (0x06, vec![0x17, 0x17, 0x17]),
        (0x03, vec![0x00]),
        (0x41, vec![0x00]),
        (0x60, vec![0x22]),
        (0x50, vec![0x4C]),
        (0x30, vec![0x3A]),
        (0x02, vec![]),
    ];
    assert_eq!(rec.writes, expected);
    assert_eq!(rec.busy_waits, 3);
    assert_eq!(steps.last(), Some(&Step::WaitBusy));
}

#[test]
fn update_brackets_the_frame() {
    let mut panel = Uc8151::new();
    let frame: Vec<u8> = (0..FRAME_BYTES).map(|i| i as u8).collect();
    let steps = panel.update(&frame);
    let mut rec = Recorder::new();
    rec.run(&steps);
    let registers: Vec<u8> = rec.writes.iter().map(|w| w.0).collect();
    assert_eq!(registers, vec![0x04, 0x92, 0x13, 0x11, 0x12, 0x02]);
    assert_eq!(rec.writes[2].1, frame);
    assert!(rec.writes.iter().enumerate().all(|(i, w)| i == 2 || w.1.is_empty()));
    // The power-off is only sent after the refresh has finished.
    let n = rec.log.len();
    assert_eq!(rec.log[n - 2], "ready");
    assert_eq!(rec.log[n - 1], "cmd 0x02");
    assert_eq!(rec.log[n - 3], "cmd 0x12");
}

#[test]
fn push_sends_the_framebuffer() {
    let mut display = Display::new(Uc8151::new());
    display.draw_iter(&vec![Pixel { x: 0, y: 0, color: BinaryColor::Off }]);
    let steps = display.push_to_display();
    assert_eq!(steps.len(), 7);
    match &steps[2] {
        Step::Command(Register::DTM2, data) => {
            assert_eq!(data.len(), FRAME_BYTES);
            assert_eq!(data[0], 0x80);
            assert!(data[1..].iter().all(|&b| b == 0));
        }
        other => panic!("unexpected step {:?}", other),
    }
}
