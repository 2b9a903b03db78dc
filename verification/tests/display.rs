use rustlogger::epd::{
    BusOp, DisplayState, EPDMgr, BOOSTER_DATA, BOOSTER_SOFT_START, DATA_START_TRANSMISSION_2,
    DISPLAY_REFRESH, EPD_HEIGHT, EPD_WIDTH, FRAME_LEN, GET_STATUS, LUT_BB, LUT_BLACK_TO_BLACK,
    LUT_BLACK_TO_WHITE, LUT_BW, LUT_FOR_VCOM, LUT_VCOM0, LUT_WB, LUT_WHITE_TO_BLACK,
    LUT_WHITE_TO_WHITE, LUT_WW, PANEL_DATA, PANEL_SETTING, PLL_CONTROL, PLL_DATA, POWER_DATA,
    POWER_ON, POWER_SETTING, RESOLUTION_DATA, RESOLUTION_SETTING, VCM_DC_SETTING,
    VCOM_AND_DATA_INTERVAL_SETTING,
};
use rustlogger::errors::FrameError;
use rustlogger::proto_parser::ParserMgr;

fn reg(ops: &mut Vec<BusOp>, cmd: u8, data: &[u8]) {
    ops.push(BusOp::Cmd(cmd));
    for b in data {
        ops.push(BusOp::Data(*b));
    }
}

#[test]
fn framebuffer_starts_white() {
    let e = EPDMgr::new();
    assert_eq!(e.frame.len(), FRAME_LEN);
    assert_eq!(FRAME_LEN, EPD_WIDTH * EPD_HEIGHT / 8);
    assert!(e.frame.iter().all(|b| *b == 0xff));
    assert_eq!(e.state, DisplayState::Uninitialized);
}

#[test]
fn init_reproduces_vendor_sequence() {
    let mut e = EPDMgr::new();
    let ops = e.init();
    let mut want: Vec<BusOp> = Vec::new();
    want.push(BusOp::Reset(false));
    want.push(BusOp::DelayMs(200));
    want.push(BusOp::Reset(true));
    want.push(BusOp::DelayMs(200));
    reg(&mut want, POWER_SETTING, &POWER_DATA);
    reg(&mut want, BOOSTER_SOFT_START, &BOOSTER_DATA);
    want.push(BusOp::Cmd(POWER_ON));
    want.push(BusOp::Cmd(GET_STATUS));
    want.push(BusOp::WaitIdle);
    reg(&mut want, PANEL_SETTING, &PANEL_DATA);
    reg(&mut want, PLL_CONTROL, &PLL_DATA);
    reg(&mut want, RESOLUTION_SETTING, &RESOLUTION_DATA);
    reg(&mut want, LUT_FOR_VCOM, &LUT_VCOM0);
    reg(&mut want, LUT_WHITE_TO_WHITE, &LUT_WW);
    reg(&mut want, LUT_BLACK_TO_WHITE, &LUT_BW);
    reg(&mut want, LUT_WHITE_TO_BLACK, &LUT_BB);
    reg(&mut want, LUT_BLACK_TO_BLACK, &LUT_WB);
    assert_eq!(ops, want);
    assert_eq!(e.state, DisplayState::Idle);
    assert!(e.frame.iter().all(|b| *b == 0xff));
}

#[test]
fn resolution_bytes_encode_panel_size() {
    assert_eq!(RESOLUTION_DATA[0] as usize * 256 + RESOLUTION_DATA[1] as usize, EPD_WIDTH);
    assert_eq!(RESOLUTION_DATA[2] as usize * 256 + RESOLUTION_DATA[3] as usize, EPD_HEIGHT);
}

#[test]
fn render_streams_whole_framebuffer() {
    let mut e = EPDMgr::new();
    e.update_frame(&[9, 8, 7], 0, 3).unwrap();
    let ops = e.display_frame();
    assert_eq!(ops.len(), 6 + FRAME_LEN + 5);
    assert_eq!(ops[0], BusOp::Cmd(VCM_DC_SETTING));
    assert_eq!(ops[1], BusOp::Data(0x12));
    assert_eq!(ops[2], BusOp::Cmd(VCOM_AND_DATA_INTERVAL_SETTING));
    assert_eq!(ops[3], BusOp::Data(0x97));
    assert_eq!(ops[4], BusOp::DelayMs(2));
    assert_eq!(ops[5], BusOp::Cmd(DATA_START_TRANSMISSION_2));
    for (i, b) in e.frame.iter().enumerate() {
        assert_eq!(ops[6 + i], BusOp::Data(*b));
    }
    assert_eq!(ops[6], BusOp::Data(9));
    assert_eq!(ops[7], BusOp::Data(8));
    assert_eq!(ops[8], BusOp::Data(7));
    assert_eq!(ops[6 + FRAME_LEN], BusOp::DelayMs(2));
    assert_eq!(ops[7 + FRAME_LEN], BusOp::Cmd(DISPLAY_REFRESH));
    assert_eq!(ops[8 + FRAME_LEN], BusOp::DelayMs(100));
    assert_eq!(ops[9 + FRAME_LEN], BusOp::Cmd(GET_STATUS));
    assert_eq!(ops[10 + FRAME_LEN], BusOp::WaitIdle);
}

#[test]
fn render_twice_transmits_same_bytes() {
    let mut e = EPDMgr::new();
    e.update_frame(&[1, 2, 3, 4], 100, 4).unwrap();
    let before = e.frame.clone();
    let first = e.display_frame();
    let second = e.display_frame();
    assert_eq!(first, second);
    assert_eq!(e.frame, before);
}

#[test]
fn update_writes_chunk_at_offset() {
    let mut e = EPDMgr::new();
    assert_eq!(e.update_frame(&[1, 2, 3, 4], 0, 4), Ok(()));
    assert_eq!(&e.frame[0..4], &[1, 2, 3, 4]);
    assert_eq!(e.frame[4], 0xff);
}

#[test]
fn update_takes_only_what_the_chunk_has() {
    let mut e = EPDMgr::new();
    let end = e.frame.len() - 2;
    assert_eq!(e.update_frame(&[1, 2], end, 4), Ok(()));
    assert_eq!(e.frame[end], 1);
    assert_eq!(e.frame[end + 1], 2);
    assert_eq!(e.frame[end - 1], 0xff);
}

#[test]
fn update_overflow_drops_whole_write() {
    let mut e = EPDMgr::new();
    let end = e.frame.len() - 2;
    assert_eq!(e.update_frame(&[1, 2, 3, 4], end, 4), Err(FrameError::Overflow));
    assert!(e.frame.iter().all(|b| *b == 0xff));
}

#[test]
fn update_same_chunk_twice_is_idempotent() {
    let mut e = EPDMgr::new();
    e.update_frame(&[5, 6, 7], 10, 3).unwrap();
    let once = e.frame.clone();
    e.update_frame(&[5, 6, 7], 10, 3).unwrap();
    assert_eq!(e.frame, once);
}

#[test]
fn update_overwrites_same_region() {
    let mut e = EPDMgr::new();
    e.update_frame(&[1, 1, 1, 1], 0, 4).unwrap();
    e.update_frame(&[2, 2], 0, 2).unwrap();
    assert_eq!(&e.frame[0..4], &[2, 2, 1, 1]);
}

#[test]
fn clear_fills_framebuffer_and_renders() {
    let mut e = EPDMgr::new();
    let ops = e.clear(0x00);
    assert!(e.frame.iter().all(|b| *b == 0x00));
    assert_eq!(ops.len(), 6 + FRAME_LEN + 5);
    assert_eq!(ops[6], BusOp::Data(0x00));
}

#[test]
fn show_command_renders_and_confirms() {
    let mut e = EPDMgr::new();
    let pkg = ParserMgr::new("show").unwrap();
    let (res, ops) = e.cmd(pkg);
    assert_eq!(res, Ok("Update"));
    assert_eq!(ops.len(), 6 + FRAME_LEN + 5);
}
