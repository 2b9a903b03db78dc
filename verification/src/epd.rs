//! Display controller: owns the framebuffer and produces the exact,
//! vendor-mandated sequences of bus operations that initialize the panel and
//! push a frame onto it.
//!
//! The panel is driven over a serial bus with a data/command select line, a
//! reset line and a busy input. The controller does not touch hardware: each
//! public operation returns the ordered list of [`BusOp`]s the driver must
//! perform. The waveform lookup tables and register values below are the
//! panel vendor's; they must be sent byte for byte, in this order.

use vstd::prelude::*;
use crate::errors::{CmdError, FrameError};
use crate::proto_parser::ParserMgr;

verus! {

/// Panel width in pixels.
pub const EPD_WIDTH: usize = 400;

/// Panel height in pixels.
pub const EPD_HEIGHT: usize = 300;

/// Framebuffer length in bytes: one bit per pixel, row-major, MSB first.
pub const FRAME_LEN: usize = EPD_WIDTH * EPD_HEIGHT / 8;

// Panel register addresses.
pub const PANEL_SETTING: u8 = 0x00;
pub const POWER_SETTING: u8 = 0x01;
pub const POWER_ON: u8 = 0x04;
pub const BOOSTER_SOFT_START: u8 = 0x06;
pub const DISPLAY_REFRESH: u8 = 0x12;
pub const DATA_START_TRANSMISSION_2: u8 = 0x13;
pub const LUT_FOR_VCOM: u8 = 0x20;
pub const LUT_WHITE_TO_WHITE: u8 = 0x21;
pub const LUT_BLACK_TO_WHITE: u8 = 0x22;
pub const LUT_WHITE_TO_BLACK: u8 = 0x23;
pub const LUT_BLACK_TO_BLACK: u8 = 0x24;
pub const PLL_CONTROL: u8 = 0x30;
pub const VCOM_AND_DATA_INTERVAL_SETTING: u8 = 0x50;
pub const RESOLUTION_SETTING: u8 = 0x61;
pub const GET_STATUS: u8 = 0x71;
pub const VCM_DC_SETTING: u8 = 0x82;

// Register parameter blocks.
pub const POWER_DATA: [u8; 5] = [0x03, 0x00, 0x2b, 0x2b, 0xff];

pub const BOOSTER_DATA: [u8; 3] = [0x17, 0x17, 0x17];

pub const PANEL_DATA: [u8; 2] = [0xbf, 0x0b];

pub const PLL_DATA: [u8; 1] = [0x3c];

// Width 400 = 0x0190 and height 300 = 0x012c, each big-endian.
pub const RESOLUTION_DATA: [u8; 4] = [0x01, 0x90, 0x01, 0x2c];

// Waveform lookup tables: VCOM, white-to-white, black-to-white,
// white-to-black, black-to-black.
pub const LUT_VCOM0: [u8; 44] = [
    0x00, 0x17, 0x00, 0x00, 0x00, 0x02, 0x00, 0x17, 0x17, 0x00, 0x00, 0x02, 0x00, 0x0A, 0x01, 0x00,
    0x00, 0x01, 0x00, 0x0E, 0x0E, 0x00, 0x00, 0x02, 0x00, 0x00, 0x00, 0x00, 0x00, 0x00, 0x00, 0x00,
    0x00, 0x00, 0x00, 0x00, 0x00, 0x00, 0x00, 0x00, 0x00, 0x00, 0x00, 0x00,
];

pub const LUT_WW: [u8; 42] = [
    0x40, 0x17, 0x00, 0x00, 0x00, 0x02, 0x90, 0x17, 0x17, 0x00, 0x00, 0x02, 0x40, 0x0A, 0x01, 0x00,
    0x00, 0x01, 0xA0, 0x0E, 0x0E, 0x00, 0x00, 0x02, 0x00, 0x00, 0x00, 0x00, 0x00, 0x00, 0x00, 0x00,
    0x00, 0x00, 0x00, 0x00, 0x00, 0x00, 0x00, 0x00, 0x00, 0x00,
];

pub const LUT_BW: [u8; 42] = [
    0x40, 0x17, 0x00, 0x00, 0x00, 0x02, 0x90, 0x17, 0x17, 0x00, 0x00, 0x02, 0x40, 0x0A, 0x01, 0x00,
    0x00, 0x01, 0xA0, 0x0E, 0x0E, 0x00, 0x00, 0x02, 0x00, 0x00, 0x00, 0x00, 0x00, 0x00, 0x00, 0x00,
    0x00, 0x00, 0x00, 0x00, 0x00, 0x00, 0x00, 0x00, 0x00, 0x00,
];

pub const LUT_BB: [u8; 42] = [
    0x80, 0x17, 0x00, 0x00, 0x00, 0x02, 0x90, 0x17, 0x17, 0x00, 0x00, 0x02, 0x80, 0x0A, 0x01, 0x00,
    0x00, 0x01, 0x50, 0x0E, 0x0E, 0x00, 0x00, 0x02, 0x00, 0x00, 0x00, 0x00, 0x00, 0x00, 0x00, 0x00,
    0x00, 0x00, 0x00, 0x00, 0x00, 0x00, 0x00, 0x00, 0x00, 0x00,
];

pub const LUT_WB: [u8; 42] = [
    0x80, 0x17, 0x00, 0x00, 0x00, 0x02, 0x90, 0x17, 0x17, 0x00, 0x00, 0x02, 0x80, 0x0A, 0x01, 0x00,
    0x00, 0x01, 0x50, 0x0E, 0x0E, 0x00, 0x00, 0x02, 0x00, 0x00, 0x00, 0x00, 0x00, 0x00, 0x00, 0x00,
    0x00, 0x00, 0x00, 0x00, 0x00, 0x00, 0x00, 0x00, 0x00, 0x00,
];

/// One operation on the display's bus and control lines.
#[derive(Clone, Copy, Debug, PartialEq, Eq, Structural)]
pub enum BusOp {
    /// Transfer one byte with the data/command line low (a command byte).
    Cmd(u8),
    /// Transfer one byte with the data/command line high (a parameter byte).
    Data(u8),
    /// Sleep for the given number of milliseconds.
    DelayMs(u64),
    /// Poll the busy input until the panel reports idle (logic high),
    /// sleeping a short interval between polls.
    WaitIdle,
    /// Drive the reset line to the given level (`false` asserts reset).
    Reset(bool),
}

/// The phase the controller is in. Between public operations it is either
/// `Uninitialized` or `Idle`; the remaining phases hold while the driver is
/// performing an emitted operation sequence (see [`init_phase`] and
/// [`render_phase`]).
#[derive(Clone, Copy, Debug, PartialEq, Eq, Structural)]
pub enum DisplayState {
    Uninitialized,
    Resetting,
    Initializing,
    Idle,
    Transmitting,
    WaitingIdle,
}

/// Each byte of `bytes` sent as one parameter byte, in order.
pub open spec fn data_run(bytes: Seq<u8>) -> Seq<BusOp> {
    bytes.map_values(|b: u8| BusOp::Data(b))
}

/// One register write: the command byte, then its parameter bytes.
pub open spec fn reg_write(cmd: u8, bytes: Seq<u8>) -> Seq<BusOp> {
    seq![BusOp::Cmd(cmd)] + data_run(bytes)
}

/// The power-on reset pulse: assert reset, hold, deassert, hold.
pub open spec fn reset_seq() -> Seq<BusOp> {
    seq![
        BusOp::Reset(false),
        BusOp::DelayMs(200),
        BusOp::Reset(true),
        BusOp::DelayMs(200),
    ]
}

/// Query the status register, then poll the busy input until idle.
pub open spec fn wait_idle_seq() -> Seq<BusOp> {
    seq![BusOp::Cmd(GET_STATUS), BusOp::WaitIdle]
}

/// The five waveform lookup tables, loaded in vendor order.
pub open spec fn lut_seq() -> Seq<BusOp> {
    reg_write(LUT_FOR_VCOM, LUT_VCOM0@) + reg_write(LUT_WHITE_TO_WHITE, LUT_WW@) + reg_write(
        LUT_BLACK_TO_WHITE,
        LUT_BW@,
    ) + reg_write(LUT_WHITE_TO_BLACK, LUT_BB@) + reg_write(LUT_BLACK_TO_BLACK, LUT_WB@)
}

/// The full power-up sequence: reset pulse, power settings, booster timing,
/// power-on with a busy wait, panel configuration, PLL, resolution, then the
/// five waveform tables.
pub open spec fn init_seq() -> Seq<BusOp> {
    reset_seq() + reg_write(POWER_SETTING, POWER_DATA@) + reg_write(
        BOOSTER_SOFT_START,
        BOOSTER_DATA@,
    ) + seq![BusOp::Cmd(POWER_ON)] + wait_idle_seq() + reg_write(PANEL_SETTING, PANEL_DATA@)
        + reg_write(PLL_CONTROL, PLL_DATA@) + reg_write(RESOLUTION_SETTING, RESOLUTION_DATA@)
        + lut_seq()
}

/// The register writes that precede a frame transmission: VCOM DC level and
/// the VCOM/data interval, then a short settle.
pub open spec fn render_prefix() -> Seq<BusOp> {
    seq![
        BusOp::Cmd(VCM_DC_SETTING),
        BusOp::Data(0x12),
        BusOp::Cmd(VCOM_AND_DATA_INTERVAL_SETTING),
        BusOp::Data(0x97),
        BusOp::DelayMs(2),
        BusOp::Cmd(DATA_START_TRANSMISSION_2),
    ]
}

/// What follows the frame bytes: a settle, the refresh command, a fixed
/// delay, then the busy wait.
pub open spec fn render_suffix() -> Seq<BusOp> {
    seq![BusOp::DelayMs(2), BusOp::Cmd(DISPLAY_REFRESH), BusOp::DelayMs(100)] + wait_idle_seq()
}

/// A full render: voltage/interval registers, then the entire framebuffer as
/// one data transmission, then refresh and busy wait.
pub open spec fn render_seq(fb: Seq<u8>) -> Seq<BusOp> {
    render_prefix() + data_run(fb) + render_suffix()
}

/// The phase the controller is in while the driver performs operation `k`
/// of `init_seq()`.
pub open spec fn init_phase(k: int) -> DisplayState {
    if k < reset_seq().len() {
        DisplayState::Resetting
    } else {
        DisplayState::Initializing
    }
}

/// The phase the controller is in while the driver performs operation `k`
/// of `render_seq(fb)`: transmitting until the final busy wait.
pub open spec fn render_phase(fb: Seq<u8>, k: int) -> DisplayState {
    if k < render_seq(fb).len() - 1 {
        DisplayState::Transmitting
    } else {
        DisplayState::WaitingIdle
    }
}

fn send_command(ops: &mut Vec<BusOp>, c: u8)
    ensures
        final(ops)@ == old(ops)@.push(BusOp::Cmd(c)),
{
    ops.push(BusOp::Cmd(c));
}

fn send_data(ops: &mut Vec<BusOp>, d: u8)
    ensures
        final(ops)@ == old(ops)@.push(BusOp::Data(d)),
{
    ops.push(BusOp::Data(d));
}

fn send_data_all(ops: &mut Vec<BusOp>, bytes: &[u8])
    ensures
        final(ops)@ == old(ops)@ + data_run(bytes@),
{
    let n = bytes.len();
    let mut i: usize = 0;
    while i < n
        invariant
            i <= n,
            n == bytes@.len(),
            ops@ == old(ops)@ + data_run(bytes@.take(i as int)),
        decreases n - i,
    {
        ops.push(BusOp::Data(bytes[i]));
        proof {
            assert(data_run(bytes@.take(i as int)).push(BusOp::Data(bytes@[i as int])) =~= data_run(
                bytes@.take(i as int + 1),
            ));
            assert((old(ops)@ + data_run(bytes@.take(i as int))).push(
                BusOp::Data(bytes@[i as int]),
            ) =~= old(ops)@ + data_run(bytes@.take(i as int + 1)));
        }
        i = i + 1;
    }
    proof {
        assert(bytes@.take(n as int) =~= bytes@);
    }
}

fn write_reg(ops: &mut Vec<BusOp>, cmd: u8, bytes: &[u8])
    ensures
        final(ops)@ == old(ops)@ + reg_write(cmd, bytes@),
{
    send_command(ops, cmd);
    send_data_all(ops, bytes);
    proof {
        assert(old(ops)@.push(BusOp::Cmd(cmd)) + data_run(bytes@) =~= old(ops)@ + reg_write(
            cmd,
            bytes@,
        ));
    }
}

fn reset(ops: &mut Vec<BusOp>)
    ensures
        final(ops)@ == old(ops)@ + reset_seq(),
{
    ops.push(BusOp::Reset(false));
    ops.push(BusOp::DelayMs(200));
    ops.push(BusOp::Reset(true));
    ops.push(BusOp::DelayMs(200));
    proof {
        assert(final(ops)@ =~= old(ops)@ + reset_seq());
    }
}

fn wait_idle(ops: &mut Vec<BusOp>)
    ensures
        final(ops)@ == old(ops)@ + wait_idle_seq(),
{
    ops.push(BusOp::Cmd(GET_STATUS));
    ops.push(BusOp::WaitIdle);
    proof {
        assert(final(ops)@ =~= old(ops)@ + wait_idle_seq());
    }
}

fn set_lut(ops: &mut Vec<BusOp>)
    ensures
        final(ops)@ == old(ops)@ + lut_seq(),
{
    write_reg(ops, LUT_FOR_VCOM, LUT_VCOM0.as_slice());
    write_reg(ops, LUT_WHITE_TO_WHITE, LUT_WW.as_slice());
    write_reg(ops, LUT_BLACK_TO_WHITE, LUT_BW.as_slice());
    write_reg(ops, LUT_WHITE_TO_BLACK, LUT_BB.as_slice());
    write_reg(ops, LUT_BLACK_TO_BLACK, LUT_WB.as_slice());
    proof {
        assert(final(ops)@ =~= old(ops)@ + lut_seq());
    }
}

/// Whether a chunked write of `size` bytes of `chunk` at `offset` fits the
/// framebuffer. At most `size` bytes are taken from the chunk; a chunk
/// shorter than `size` supplies only what it has.
pub open spec fn chunk_span(chunk: Seq<u8>, size: nat) -> nat {
    if size <= chunk.len() {
        size
    } else {
        chunk.len()
    }
}

/// The write fits when the supplied bytes end within the framebuffer.
pub open spec fn chunk_fits(fb: Seq<u8>, chunk: Seq<u8>, offset: nat, size: nat) -> bool {
    offset + chunk_span(chunk, size) <= fb.len()
}

/// The framebuffer after a chunked write: the supplied bytes replace the
/// range starting at `offset`; a write that does not fit is dropped whole.
pub open spec fn apply_chunk(fb: Seq<u8>, chunk: Seq<u8>, offset: nat, size: nat) -> Seq<u8> {
    if chunk_fits(fb, chunk, offset, size) {
        let span = chunk_span(chunk, size);
        fb.take(offset as int) + chunk.take(span as int) + fb.skip((offset + span) as int)
    } else {
        fb
    }
}

/// The display controller: the framebuffer and the controller's phase.
pub struct EPDMgr {
    pub frame: Vec<u8>,
    pub state: DisplayState,
}

impl EPDMgr {
    /// A fresh controller: framebuffer all `0xff` (white), panel not yet
    /// initialized.
    pub fn new() -> (r: EPDMgr)
        ensures
            r.frame@ == Seq::new(FRAME_LEN as nat, |i: int| 0xffu8),
            r.state == DisplayState::Uninitialized,
    {
        let mut frame: Vec<u8> = Vec::new();
        let mut i: usize = 0;
        while i < FRAME_LEN
            invariant
                i <= FRAME_LEN,
                frame@ =~= Seq::new(i as nat, |j: int| 0xffu8),
            decreases FRAME_LEN - i,
        {
            frame.push(0xff);
            proof {
                assert(frame@ =~= Seq::new(i as nat + 1, |j: int| 0xffu8));
            }
            i = i + 1;
        }
        EPDMgr { frame, state: DisplayState::Uninitialized }
    }

    /// The vendor power-up sequence. The framebuffer is untouched; once the
    /// returned operations have been driven, the panel is idle and ready.
    pub fn init(&mut self) -> (ops: Vec<BusOp>)
        ensures
            final(self).frame == old(self).frame,
            final(self).state == DisplayState::Idle,
            ops@ == init_seq(),
    {
        let mut ops: Vec<BusOp> = Vec::new();
        reset(&mut ops);
        write_reg(&mut ops, POWER_SETTING, POWER_DATA.as_slice());
        write_reg(&mut ops, BOOSTER_SOFT_START, BOOSTER_DATA.as_slice());
        send_command(&mut ops, POWER_ON);
        wait_idle(&mut ops);
        write_reg(&mut ops, PANEL_SETTING, PANEL_DATA.as_slice());
        write_reg(&mut ops, PLL_CONTROL, PLL_DATA.as_slice());
        write_reg(&mut ops, RESOLUTION_SETTING, RESOLUTION_DATA.as_slice());
        set_lut(&mut ops);
        self.state = DisplayState::Idle;
        proof {
            assert(ops@ =~= init_seq());
        }
        ops
    }

    /// A full render: transmits the framebuffer exactly as it stands and
    /// refreshes the panel. The framebuffer contents are not changed, so
    /// rendering twice in a row transmits the same bytes both times.
    pub fn display_frame(&mut self) -> (ops: Vec<BusOp>)
        ensures
            final(self).frame == old(self).frame,
            final(self).state == DisplayState::Idle,
            ops@ == render_seq(old(self).frame@),
    {
        let mut ops: Vec<BusOp> = Vec::new();
        send_command(&mut ops, VCM_DC_SETTING);
        send_data(&mut ops, 0x12);
        send_command(&mut ops, VCOM_AND_DATA_INTERVAL_SETTING);
        send_data(&mut ops, 0x97);
        ops.push(BusOp::DelayMs(2));
        send_command(&mut ops, DATA_START_TRANSMISSION_2);
        proof {
            assert(ops@ =~= render_prefix());
        }
        send_data_all(&mut ops, self.frame.as_slice());
        ops.push(BusOp::DelayMs(2));
        send_command(&mut ops, DISPLAY_REFRESH);
        ops.push(BusOp::DelayMs(100));
        wait_idle(&mut ops);
        self.state = DisplayState::Idle;
        proof {
            assert(ops@ =~= render_seq(self.frame@));
        }
        ops
    }

    /// Fills the whole framebuffer with `fill` and renders it.
    pub fn clear(&mut self, fill: u8) -> (ops: Vec<BusOp>)
        ensures
            final(self).frame@ == Seq::new(old(self).frame@.len(), |i: int| fill),
            final(self).state == DisplayState::Idle,
            ops@ == render_seq(final(self).frame@),
    {
        let n = self.frame.len();
        let mut i: usize = 0;
        while i < n
            invariant
                i <= n,
                n == self.frame@.len(),
                forall|j: int| 0 <= j < i ==> self.frame@[j] == fill,
            decreases n - i,
        {
            self.frame[i] = fill;
            i = i + 1;
        }
        proof {
            assert(self.frame@ =~= Seq::new(old(self).frame@.len(), |j: int| fill));
        }
        self.display_frame()
    }

    /// A chunked, bounds-checked write into the framebuffer. Takes at most
    /// `size` bytes from `chunk` (fewer if the chunk is shorter) and copies
    /// them to `offset`. A write that would end past the framebuffer is
    /// dropped whole and reported as an overflow; repeated writes to the
    /// same region simply overwrite it.
    pub fn update_frame(&mut self, chunk: &[u8], offset: usize, size: usize) -> (r: Result<
        (),
        FrameError,
    >)
        ensures
            final(self).frame@ == apply_chunk(old(self).frame@, chunk@, offset as nat, size as nat),
            final(self).state == old(self).state,
            r is Ok <==> chunk_fits(old(self).frame@, chunk@, offset as nat, size as nat),
    {
        let span = if size <= chunk.len() {
            size
        } else {
            chunk.len()
        };
        if offset > self.frame.len() || span > self.frame.len() - offset {
            return Err(FrameError::Overflow);
        }
        let mut i: usize = 0;
        while i < span
            invariant
                i <= span,
                span == chunk_span(chunk@, size as nat),
                offset + span <= self.frame@.len(),
                offset + span <= usize::MAX,
                span <= chunk@.len(),
                self.frame@.len() == old(self).frame@.len(),
                self.state == old(self).state,
                forall|j: int| 0 <= j < i ==> self.frame@[offset + j] == chunk@[j],
                forall|j: int|
                    0 <= j < self.frame@.len() && !(offset <= j < offset + i)
                        ==> self.frame@[j] == old(self).frame@[j],
            decreases span - i,
        {
            self.frame[offset + i] = chunk[i];
            i = i + 1;
        }
        proof {
            assert(self.frame@ =~= apply_chunk(
                old(self).frame@,
                chunk@,
                offset as nat,
                size as nat,
            ));
        }
        Ok(())
    }

    /// The `show` command: renders the current framebuffer and confirms.
    pub fn cmd(&mut self, _pkg: ParserMgr) -> (r: (Result<&'static str, CmdError>, Vec<BusOp>))
        ensures
            final(self).frame == old(self).frame,
            final(self).state == DisplayState::Idle,
            r.0 matches Ok(p) && p@ == "Update"@,
            r.1@ == render_seq(old(self).frame@),
    {
        let ops = self.display_frame();
        (Ok("Update"), ops)
    }
}

/// Applying the same chunk twice leaves the framebuffer exactly as applying
/// it once does, and the second write fits whenever the first did.
pub proof fn lemma_update_idempotent(fb: Seq<u8>, chunk: Seq<u8>, offset: nat, size: nat)
    ensures
        apply_chunk(apply_chunk(fb, chunk, offset, size), chunk, offset, size) == apply_chunk(
            fb,
            chunk,
            offset,
            size,
        ),
{
    let once = apply_chunk(fb, chunk, offset, size);
    if chunk_fits(fb, chunk, offset, size) {
        assert(once.len() == fb.len());
        assert(apply_chunk(once, chunk, offset, size) =~= once);
    }
}

/// Chunked writes to disjoint byte ranges may arrive in either order: the
/// framebuffer ends the same, so a reordered transfer still assembles
/// correctly.
pub proof fn lemma_disjoint_chunks_commute(
    fb: Seq<u8>,
    c1: Seq<u8>,
    o1: nat,
    s1: nat,
    c2: Seq<u8>,
    o2: nat,
    s2: nat,
)
    requires
        o1 + chunk_span(c1, s1) <= o2 || o2 + chunk_span(c2, s2) <= o1,
    ensures
        apply_chunk(apply_chunk(fb, c1, o1, s1), c2, o2, s2) == apply_chunk(
            apply_chunk(fb, c2, o2, s2),
            c1,
            o1,
            s1,
        ),
{
    let first = apply_chunk(fb, c1, o1, s1);
    let second = apply_chunk(fb, c2, o2, s2);
    assert(first.len() == fb.len());
    assert(second.len() == fb.len());
    assert(apply_chunk(first, c2, o2, s2) =~= apply_chunk(second, c1, o1, s1));
}

/// Rendering is a no-op on the framebuffer: two renders with no intervening
/// write transmit identical operation sequences, and the bytes transmitted
/// are exactly the framebuffer's.
pub proof fn lemma_render_noop(pre: EPDMgr, mid: EPDMgr, post: EPDMgr, t1: Seq<BusOp>, t2: Seq<
    BusOp,
>)
    requires
        mid.frame == pre.frame,
        t1 == render_seq(pre.frame@),
        post.frame == mid.frame,
        t2 == render_seq(mid.frame@),
    ensures
        t1 == t2,
        t1.subrange(
            render_prefix().len() as int,
            ((render_prefix().len() + pre.frame@.len()) as int) as int,
        ) == data_run(pre.frame@),
{
    assert(t1.subrange(render_prefix().len() as int, (render_prefix().len() + pre.frame@.len()) as int)
        =~= data_run(pre.frame@));
}

} // verus!
