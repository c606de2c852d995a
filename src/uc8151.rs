use vstd::prelude::*;

verus! {

/// The controller's one-byte register addresses.
#[allow(non_camel_case_types)]
#[derive(Clone, Copy, PartialEq, Eq, Debug, Structural)]
pub enum Register {
    PSR,
    PWR,
    POF,
    PFS,
    PON,
    PMES,
    BTST,
    DSLP,
    DTM1,
    DSP,
    DRF,
    DTM2,
    LUT_VCOM,
    LUT_WW,
    LUT_BW,
    LUT_WB,
    LUT_BB,
    PLL,
    TSC,
    TSE,
    TSR,
    TSW,
    CDI,
    LPD,
    TCON,
    TRES,
    REV,
    FLG,
    AMV,
    VV,
    VDCS,
    PTL,
    PTIN,
    PTOU,
    PGM,
    APG,
    ROTP,
    CCSET,
    PWS,
    TSSET,
}

impl Register {
    pub open spec fn spec_opcode(self) -> u8 {
        match self {
            Register::PSR => 0x00u8,
            Register::PWR => 0x01u8,
            Register::POF => 0x02u8,
            Register::PFS => 0x03u8,
            Register::PON => 0x04u8,
            Register::PMES => 0x05u8,
            Register::BTST => 0x06u8,
            Register::DSLP => 0x07u8,
            Register::DTM1 => 0x10u8,
            Register::DSP => 0x11u8,
            Register::DRF => 0x12u8,
            Register::DTM2 => 0x13u8,
            Register::LUT_VCOM => 0x20u8,
            Register::LUT_WW => 0x21u8,
            Register::LUT_BW => 0x22u8,
            Register::LUT_WB => 0x23u8,
            Register::LUT_BB => 0x24u8,
            Register::PLL => 0x30u8,
            Register::TSC => 0x40u8,
            Register::TSE => 0x41u8,
            Register::TSR => 0x43u8,
            Register::TSW => 0x42u8,
            Register::CDI => 0x50u8,
            Register::LPD => 0x51u8,
            Register::TCON => 0x60u8,
            Register::TRES => 0x61u8,
            Register::REV => 0x70u8,
            Register::FLG => 0x71u8,
            Register::AMV => 0x80u8,
            Register::VV => 0x81u8,
            Register::VDCS => 0x82u8,
            Register::PTL => 0x90u8,
            Register::PTIN => 0x91u8,
            Register::PTOU => 0x92u8,
            Register::PGM => 0xa0u8,
            Register::APG => 0xa1u8,
            Register::ROTP => 0xa2u8,
            Register::CCSET => 0xe0u8,
            Register::PWS => 0xe3u8,
            Register::TSSET => 0xe5u8,
        }
    }

    /// The byte sent on the bus to address this register.
    pub fn opcode(&self) -> (r: u8)
        ensures
            r == self.spec_opcode(),
    {
        match self {
            Register::PSR => 0x00,
            Register::PWR => 0x01,
            Register::POF => 0x02,
            Register::PFS => 0x03,
            Register::PON => 0x04,
            Register::PMES => 0x05,
            Register::BTST => 0x06,
            Register::DSLP => 0x07,
            Register::DTM1 => 0x10,
            Register::DSP => 0x11,
            Register::DRF => 0x12,
            Register::DTM2 => 0x13,
            Register::LUT_VCOM => 0x20,
            Register::LUT_WW => 0x21,
            Register::LUT_BW => 0x22,
            Register::LUT_WB => 0x23,
            Register::LUT_BB => 0x24,
            Register::PLL => 0x30,
            Register::TSC => 0x40,
            Register::TSE => 0x41,
            Register::TSR => 0x43,
            Register::TSW => 0x42,
            Register::CDI => 0x50,
            Register::LPD => 0x51,
            Register::TCON => 0x60,
            Register::TRES => 0x61,
            Register::REV => 0x70,
            Register::FLG => 0x71,
            Register::AMV => 0x80,
            Register::VV => 0x81,
            Register::VDCS => 0x82,
            Register::PTL => 0x90,
            Register::PTIN => 0x91,
            Register::PTOU => 0x92,
            Register::PGM => 0xa0,
            Register::APG => 0xa1,
            Register::ROTP => 0xa2,
            Register::CCSET => 0xe0,
            Register::PWS => 0xe3,
            Register::TSSET => 0xe5,
        }
    }
}

// Panel setting: resolution, LUT source, colour format, scan and shift direction, booster, reset.
pub const PSR_RES_96X230: u8 = 0b00000000;
pub const PSR_RES_96X252: u8 = 0b01000000;
pub const PSR_RES_128X296: u8 = 0b10000000;
pub const PSR_RES_160X296: u8 = 0b11000000;
pub const PSR_LUT_OTP: u8 = 0b00000000;
pub const PSR_LUT_REG: u8 = 0b00100000;
pub const PSR_FORMAT_BWR: u8 = 0b00000000;
pub const PSR_FORMAT_BW: u8 = 0b00010000;
pub const PSR_SCAN_DOWN: u8 = 0b00000000;
pub const PSR_SCAN_UP: u8 = 0b00001000;
pub const PSR_SHIFT_LEFT: u8 = 0b00000000;
pub const PSR_SHIFT_RIGHT: u8 = 0b00000100;
pub const PSR_BOOSTER_OFF: u8 = 0b00000000;
pub const PSR_BOOSTER_ON: u8 = 0b00000010;
pub const PSR_RESET_SOFT: u8 = 0b00000000;
pub const PSR_RESET_NONE: u8 = 0b00000001;

// Power setting, first byte: source and gate voltage regulators.
pub const PWR1_VDS_EXTERNAL: u8 = 0b00000000;
pub const PWR1_VDS_INTERNAL: u8 = 0b00000010;
pub const PWR1_VDG_EXTERNAL: u8 = 0b00000000;
pub const PWR1_VDG_INTERNAL: u8 = 0b00000001;

// Power setting, second byte: VCOM level and gate voltage.
pub const PWR2_VCOM_VD: u8 = 0b00000000;
pub const PWR2_VCOM_VG: u8 = 0b00000100;
pub const PWR2_VGHL_16V: u8 = 0b00000000;
pub const PWR2_VGHL_15V: u8 = 0b00000001;
pub const PWR2_VGHL_14V: u8 = 0b00000010;
pub const PWR2_VGHL_13V: u8 = 0b00000011;

// Booster soft start: start period, drive strength and minimum off time.
pub const BOOSTER_START_10MS: u8 = 0b00000000;
pub const BOOSTER_START_20MS: u8 = 0b01000000;
pub const BOOSTER_START_30MS: u8 = 0b10000000;
pub const BOOSTER_START_40MS: u8 = 0b11000000;
pub const BOOSTER_STRENGTH_1: u8 = 0b00000000;
pub const BOOSTER_STRENGTH_2: u8 = 0b00001000;
pub const BOOSTER_STRENGTH_3: u8 = 0b00010000;
pub const BOOSTER_STRENGTH_4: u8 = 0b00011000;
pub const BOOSTER_STRENGTH_5: u8 = 0b00100000;
pub const BOOSTER_STRENGTH_6: u8 = 0b00101000;
pub const BOOSTER_STRENGTH_7: u8 = 0b00110000;
pub const BOOSTER_STRENGTH_8: u8 = 0b00111000;
pub const BOOSTER_OFF_0_27US: u8 = 0b00000000;
pub const BOOSTER_OFF_0_34US: u8 = 0b00000001;
pub const BOOSTER_OFF_0_40US: u8 = 0b00000010;
pub const BOOSTER_OFF_0_54US: u8 = 0b00000011;
pub const BOOSTER_OFF_0_80US: u8 = 0b00000100;
pub const BOOSTER_OFF_1_54US: u8 = 0b00000101;
pub const BOOSTER_OFF_3_34US: u8 = 0b00000110;
pub const BOOSTER_OFF_6_58US: u8 = 0b00000111;

// Power-off sequence: frames before the rails drop.
pub const PFS_FRAMES_1: u8 = 0b00000000;
pub const PFS_FRAMES_2: u8 = 0b00010000;
pub const PFS_FRAMES_3: u8 = 0b00100000;
pub const PFS_FRAMES_4: u8 = 0b00110000;

// Temperature sensor: internal or external, and its offset.
pub const TSE_TEMP_INTERNAL: u8 = 0b00000000;
pub const TSE_TEMP_EXTERNAL: u8 = 0b10000000;
pub const TSE_OFFSET_0: u8 = 0b00000000;
pub const TSE_OFFSET_1: u8 = 0b00000001;
pub const TSE_OFFSET_2: u8 = 0b00000010;
pub const TSE_OFFSET_3: u8 = 0b00000011;
pub const TSE_OFFSET_4: u8 = 0b00000100;
pub const TSE_OFFSET_5: u8 = 0b00000101;
pub const TSE_OFFSET_6: u8 = 0b00000110;
pub const TSE_OFFSET_7: u8 = 0b00000111;
pub const TSE_OFFSET_MIN_8: u8 = 0b00001000;
pub const TSE_OFFSET_MIN_7: u8 = 0b00001001;
pub const TSE_OFFSET_MIN_6: u8 = 0b00001010;
pub const TSE_OFFSET_MIN_5: u8 = 0b00001011;
pub const TSE_OFFSET_MIN_4: u8 = 0b00001100;
pub const TSE_OFFSET_MIN_3: u8 = 0b00001101;
pub const TSE_OFFSET_MIN_2: u8 = 0b00001110;
pub const TSE_OFFSET_MIN_1: u8 = 0b00001111;

// Frame rate of the internal oscillator.
pub const PLL_HZ_29: u8 = 0b00111111;
pub const PLL_HZ_33: u8 = 0b00111110;
pub const PLL_HZ_40: u8 = 0b00111101;
pub const PLL_HZ_50: u8 = 0b00111100;
pub const PLL_HZ_67: u8 = 0b00111011;
pub const PLL_HZ_100: u8 = 0b00111010;
pub const PLL_HZ_200: u8 = 0b00111001;

/// The power setting's first byte uses only its two regulator bits.
pub open spec fn pwr1_valid(b: u8) -> bool {
    b & 0b11111100u8 == 0
}

/// The power setting's second byte uses only the VCOM and gate voltage bits.
pub open spec fn pwr2_valid(b: u8) -> bool {
    b & 0b11111000u8 == 0
}

/// The power-off sequence uses only its frame-count field.
pub open spec fn pfs_valid(b: u8) -> bool {
    b & 0b11001111u8 == 0
}

/// The temperature sensor byte leaves the bits between source and offset clear.
pub open spec fn tse_valid(b: u8) -> bool {
    b & 0b01110000u8 == 0
}

/// The oscillator byte is one of the listed frame rates.
pub open spec fn pll_valid(b: u8) -> bool {
    0b00111001u8 <= b <= 0b00111111u8
}

/// The configuration written after a reset sets no reserved bit.
pub proof fn lemma_configuration_valid()
    ensures
        pwr1_valid(0x03u8),
        pwr2_valid(0x00u8),
        pfs_valid(0x00u8),
        tse_valid(0x00u8),
        pll_valid(0x3Au8),
        configure_model()[1] == StepModel::Command(
            Register::PWR,
            seq![0x03u8, 0x00u8, 0x2Bu8, 0x2Bu8, 0x2Bu8],
        ),
        configure_model()[5] == StepModel::Command(Register::PFS, seq![0x00u8]),
        configure_model()[6] == StepModel::Command(Register::TSE, seq![0x00u8]),
        configure_model()[9] == StepModel::Command(Register::PLL, seq![0x3Au8]),
{
    assert(0x03u8 & 0b11111100u8 == 0) by (bit_vector);
    assert(0x00u8 & 0b11111000u8 == 0) by (bit_vector);
    assert(0x00u8 & 0b11001111u8 == 0) by (bit_vector);
    assert(0x00u8 & 0b01110000u8 == 0) by (bit_vector);
}

/// One level change or transfer on the serial bus.
#[derive(Clone, PartialEq, Eq, Debug)]
pub enum BusOp {
    /// Drive chip-select to the given level (low selects the panel).
    ChipSelect(bool),
    /// Drive the data/command line to the given level (low: opcode, high: payload).
    DataCommand(bool),
    /// Clock the bytes out.
    Transfer(Vec<u8>),
}

/// What a bus operation means, with its bytes as a sequence.
pub enum BusOpModel {
    ChipSelect(bool),
    DataCommand(bool),
    Transfer(Seq<u8>),
}

impl View for BusOp {
    type V = BusOpModel;

    open spec fn view(&self) -> BusOpModel {
        match self {
            BusOp::ChipSelect(l) => BusOpModel::ChipSelect(*l),
            BusOp::DataCommand(l) => BusOpModel::DataCommand(*l),
            BusOp::Transfer(b) => BusOpModel::Transfer(b@),
        }
    }
}

pub open spec fn bus_view(ops: Seq<BusOp>) -> Seq<BusOpModel> {
    ops.map_values(|o: BusOp| o@)
}

/// One register write framed as a single transaction: select, opcode with the
/// data/command line low, payload with it high, deselect.
pub open spec fn transaction(reg: Register, data: Seq<u8>) -> Seq<BusOpModel> {
    seq![
        BusOpModel::ChipSelect(false),
        BusOpModel::DataCommand(false),
        BusOpModel::Transfer(seq![reg.spec_opcode()]),
        BusOpModel::DataCommand(true),
        BusOpModel::Transfer(data),
        BusOpModel::ChipSelect(true),
    ]
}

/// One step of a controller procedure.
#[derive(Clone, PartialEq, Eq, Debug)]
pub enum Step {
    /// Drive the reset line to the given level (low holds the panel in reset).
    ResetLine(bool),
    /// Wait at least this many milliseconds.
    DelayMs(u32),
    /// Wait until the busy line reports the panel ready.
    WaitBusy,
    /// Write the payload to the register, as one bus transaction.
    Command(Register, Vec<u8>),
}

/// What a step means, with its payload as a sequence.
pub enum StepModel {
    ResetLine(bool),
    DelayMs(u32),
    WaitBusy,
    Command(Register, Seq<u8>),
}

impl View for Step {
    type V = StepModel;

    open spec fn view(&self) -> StepModel {
        match self {
            Step::ResetLine(l) => StepModel::ResetLine(*l),
            Step::DelayMs(ms) => StepModel::DelayMs(*ms),
            Step::WaitBusy => StepModel::WaitBusy,
            Step::Command(r, d) => StepModel::Command(*r, d@),
        }
    }
}

pub open spec fn steps_view(steps: Seq<Step>) -> Seq<StepModel> {
    steps.map_values(|t: Step| t@)
}

/// The reset pulse: low for 10 ms, high, 10 ms to settle, then wait for the panel.
pub open spec fn reset_model() -> Seq<StepModel> {
    seq![
        StepModel::ResetLine(false),
        StepModel::DelayMs(10),
        StepModel::ResetLine(true),
        StepModel::DelayMs(10),
        StepModel::WaitBusy,
    ]
}

/// The register writes that configure the panel after a reset, in the order it needs them.
pub open spec fn configure_model() -> Seq<StepModel> {
    seq![
        StepModel::Command(Register::PSR, seq![0x97u8]),
        StepModel::Command(Register::PWR, seq![0x03u8, 0x00u8, 0x2Bu8, 0x2Bu8, 0x2Bu8]),
        StepModel::Command(Register::PON, seq![]),
        StepModel::WaitBusy,
        StepModel::Command(Register::BTST, seq![0x17u8, 0x17u8, 0x17u8]),
        StepModel::Command(Register::PFS, seq![0x00u8]),
        StepModel::Command(Register::TSE, seq![0x00u8]),
        StepModel::Command(Register::TCON, seq![0x22u8]),
        StepModel::Command(Register::CDI, seq![0x4Cu8]),
        StepModel::Command(Register::PLL, seq![0x3Au8]),
        StepModel::Command(Register::POF, seq![]),
        StepModel::WaitBusy,
    ]
}

/// A full refresh: power on, leave partial mode, send the frame, stop, refresh,
/// wait for the refresh to finish, power off.
pub open spec fn update_model(frame: Seq<u8>) -> Seq<StepModel> {
    seq![
        StepModel::Command(Register::PON, seq![]),
        StepModel::Command(Register::PTOU, seq![]),
        StepModel::Command(Register::DTM2, frame),
        StepModel::Command(Register::DSP, seq![]),
        StepModel::Command(Register::DRF, seq![]),
        StepModel::WaitBusy,
        StepModel::Command(Register::POF, seq![]),
    ]
}

/// How far the panel has been brought up.
#[derive(Clone, Copy, PartialEq, Eq, Debug, Structural)]
pub enum Phase {
    Uninitialized,
    Reset,
    Ready,
}

/// The panel controller's protocol: it yields the steps of each procedure, which
/// whoever owns the bus and the lines carries out in order.
pub struct Uc8151 {
    pub phase: Phase,
}

impl Uc8151 {
    pub fn new() -> (r: Uc8151)
        ensures
            r.phase == Phase::Uninitialized,
    {
        Uc8151 { phase: Phase::Uninitialized }
    }

    /// The bus operations of one register write.
    pub fn command(register: Register, data: &[u8]) -> (r: Vec<BusOp>)
        ensures
            bus_view(r@) == transaction(register, data@),
    {
        let mut r: Vec<BusOp> = Vec::new();
        r.push(BusOp::ChipSelect(false));
        r.push(BusOp::DataCommand(false));
        let op: Vec<u8> = vec![register.opcode()];
        assert(op@ =~= seq![register.spec_opcode()]);
        r.push(BusOp::Transfer(op));
        r.push(BusOp::DataCommand(true));
        r.push(BusOp::Transfer(vstd::slice::slice_to_vec(data)));
        r.push(BusOp::ChipSelect(true));
        assert(bus_view(r@) =~= transaction(register, data@));
        r
    }

    /// The hardware reset.
    pub fn reset(&mut self) -> (r: Vec<Step>)
        ensures
            steps_view(r@) == reset_model(),
            final(self).phase == Phase::Reset,
    {
        let mut r: Vec<Step> = Vec::new();
        push_reset(&mut r);
        self.phase = Phase::Reset;
        assert(steps_view(r@) =~= reset_model());
        r
    }

    /// Reset, then write the panel's configuration and leave it powered off.
    pub fn init(&mut self) -> (r: Vec<Step>)
        ensures
            steps_view(r@) == reset_model() + configure_model(),
            final(self).phase == Phase::Ready,
    {
        let mut r: Vec<Step> = Vec::new();
        push_reset(&mut r);
        let psr: u8 = PSR_RES_128X296 | PSR_LUT_OTP | PSR_FORMAT_BW | PSR_SHIFT_RIGHT
            | PSR_BOOSTER_ON | PSR_RESET_NONE;
        let pwr1: u8 = PWR1_VDS_INTERNAL | PWR1_VDG_INTERNAL;
        let pwr2: u8 = PWR2_VCOM_VD | PWR2_VGHL_16V;
        let btst: u8 = BOOSTER_START_10MS | BOOSTER_STRENGTH_3 | BOOSTER_OFF_6_58US;
        let tse: u8 = TSE_TEMP_INTERNAL | TSE_OFFSET_0;
        assert(psr == 0x97u8 && pwr1 == 0x03u8 && pwr2 == 0u8 && btst == 0x17u8 && tse == 0u8)
            by (bit_vector)
            requires
                psr == 0b10000000u8 | 0u8 | 0b00010000u8 | 0b00000100u8 | 0b00000010u8
                    | 0b00000001u8,
                pwr1 == 0b00000010u8 | 0b00000001u8,
                pwr2 == 0u8 | 0u8,
                btst == 0u8 | 0b00010000u8 | 0b00000111u8,
                tse == 0u8 | 0u8,
        ;
        r.push(Step::Command(Register::PSR, vec![psr]));
        r.push(Step::Command(Register::PWR, vec![pwr1, pwr2, 0b101011, 0b101011, 0b101011]));
        r.push(Step::Command(Register::PON, vec![]));
        r.push(Step::WaitBusy);
        r.push(Step::Command(Register::BTST, vec![btst, btst, btst]));
        r.push(Step::Command(Register::PFS, vec![PFS_FRAMES_1]));
        r.push(Step::Command(Register::TSE, vec![tse]));
        r.push(Step::Command(Register::TCON, vec![0x22]));
        r.push(Step::Command(Register::CDI, vec![0b01001100]));
        r.push(Step::Command(Register::PLL, vec![PLL_HZ_100]));
        r.push(Step::Command(Register::POF, vec![]));
        r.push(Step::WaitBusy);
        self.phase = Phase::Ready;
        let ghost v = steps_view(r@);
        let ghost m = reset_model() + configure_model();
        assert(v.len() == m.len());
        assert forall|i: int| 0 <= i < m.len() implies v[i] == m[i] by {
            if i >= 5 {
                match m[i] {
                    StepModel::Command(_, d) => {
                        match v[i] {
                            StepModel::Command(_, e) => {
                                assert(e =~= d);
                            },
                            _ => {},
                        }
                    },
                    _ => {},
                }
            }
        }
        assert(v =~= m);
        r
    }

    /// Send a whole frame and refresh the panel.
    pub fn update(&mut self, framebuffer: &[u8]) -> (r: Vec<Step>)
        ensures
            steps_view(r@) == update_model(framebuffer@),
            final(self).phase == old(self).phase,
    {
        let mut r: Vec<Step> = Vec::new();
        r.push(Step::Command(Register::PON, vec![]));
        r.push(Step::Command(Register::PTOU, vec![]));
        r.push(Step::Command(Register::DTM2, vstd::slice::slice_to_vec(framebuffer)));
        r.push(Step::Command(Register::DSP, vec![]));
        r.push(Step::Command(Register::DRF, vec![]));
        r.push(Step::WaitBusy);
        r.push(Step::Command(Register::POF, vec![]));
        assert(steps_view(r@) =~= update_model(framebuffer@));
        r
    }
}

fn push_reset(r: &mut Vec<Step>)
    ensures
        steps_view(final(r)@) == steps_view(old(r)@) + reset_model(),
{
    r.push(Step::ResetLine(false));
    r.push(Step::DelayMs(10));
    r.push(Step::ResetLine(true));
    r.push(Step::DelayMs(10));
    r.push(Step::WaitBusy);
    assert(steps_view(r@) =~= steps_view(old(r)@) + reset_model());
}

} // verus!
