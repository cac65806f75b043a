//! The Kraken LCD protocol: the 64-byte HID control commands, the bulk
//! frame header, the double-buffered bucket bookkeeping and the rotation
//! that compensates for the panel's configured orientation.

use crate::text::{chars_of, decimal, push_decimal, push_str, string_from_chars};
use vstd::prelude::*;

verus! {

pub const VENDOR_ID: u16 = 0x1E71;

pub const PRODUCT_ID: u16 = 0x300C;

/// Preamble of every bulk frame header.
pub const BULK_MAGIC: [u8; 12] = [
    0x12,
    0xFA,
    0x01,
    0xE8,
    0xAB,
    0xCD,
    0xEF,
    0x98,
    0x76,
    0x54,
    0x32,
    0x10,
];

/// Plain RGBA frames, 4 bytes per pixel with the alpha byte unused.
pub const DATA_TYPE_RGBA: u8 = 0x02;

/// The two buckets frames alternate between.
pub const BUCKET_A: u8 = 0;

pub const BUCKET_B: u8 = 1;

/// Bucket size in KB, enough for a 640x640 RGBA frame; the buckets sit
/// back to back from address 0.
pub const BUCKET_SIZE_KB: u16 = 0x0641;

/// Seconds between keep-alive commits, well under the firmware's ~30 s
/// revert-to-default window.
pub const KEEPALIVE_INTERVAL_SECS: u64 = 15;

/// How many HID packets to read while waiting for a command's response.
pub const HID_MAX_ATTEMPTS: u32 = 200;

/// Length of a HID report.
pub const HID_REPORT_LEN: usize = 64;

/// Why an LCD operation failed.
#[derive(Debug)]
pub enum LcdError {
    /// A command does not fit in one report.
    CommandTooLong,
    /// No packet with the expected header arrived within the attempt budget.
    NoMatchingResponse { header: [u8; 2] },
    /// The device answered a command with its failure flag.
    Refused { what: String },
    /// A frame at this resolution does not fit in a bucket.
    FrameTooLarge { kb: u64, width: u32, height: u32 },
    /// A frame's byte length does not match the resolution.
    FrameSizeMismatch { got: usize, expected: usize, width: u32, height: u32 },
    /// Frames are square; this resolution is not.
    NotSquare { width: u32, height: u32 },
}

/// A resolution as `(width, height)`.
pub open spec fn resolution_text(width: u32, height: u32) -> Seq<char> {
    "("@ + decimal(width as nat) + ", "@ + decimal(height as nat) + ")"@
}

/// The lowercase hex digit for `d` (0..=15).
pub open spec fn hex_digit(d: int) -> char {
    if d < 10 {
        (48 + d) as char
    } else {
        (87 + d) as char
    }
}

/// A byte as two lowercase hex digits.
pub open spec fn hex_byte(b: u8) -> Seq<char> {
    seq![hex_digit((b / 16) as int), hex_digit((b % 16) as int)]
}

pub open spec fn lcd_error_text(e: LcdError) -> Seq<char> {
    match e {
        LcdError::CommandTooLong => "HID command longer than one report"@,
        LcdError::NoMatchingResponse { header } => "no HID response matching ["@ + hex_byte(
            header@[0],
        ) + ", "@ + hex_byte(header@[1])
            + "] after 200 packets - is another process also talking to the device?"@,
        LcdError::Refused { what } => what@,
        LcdError::FrameTooLarge { kb, width, height } => "frame ("@ + decimal(kb as nat)
            + "KB) exceeds the bucket size (1601KB) - only the resolution this was captured against ("@
            + resolution_text(width, height) + ") is supported for now"@,
        LcdError::FrameSizeMismatch { got, expected, width, height } => "frame size "@ + decimal(
            got as nat,
        ) + " does not match expected "@ + decimal(expected as nat) + " for "@ + resolution_text(
            width,
            height,
        ),
        LcdError::NotSquare { width, height } => "LCD frames are assumed square, got "@
            + resolution_text(width, height),
    }
}

fn push_hex_byte(out: &mut Vec<char>, b: u8)
    ensures
        final(out)@ == old(out)@ + hex_byte(b),
{
    let hi = b / 16;
    let lo = b % 16;
    let h: char = if hi < 10 {
        (48u8 + hi) as char
    } else {
        (87u8 + hi) as char
    };
    let l: char = if lo < 10 {
        (48u8 + lo) as char
    } else {
        (87u8 + lo) as char
    };
    out.push(h);
    out.push(l);
}

fn push_resolution(out: &mut Vec<char>, width: u32, height: u32)
    ensures
        final(out)@ == old(out)@ + resolution_text(width, height),
{
    push_str(out, "(");
    push_decimal(out, width as u64);
    push_str(out, ", ");
    push_decimal(out, height as u64);
    push_str(out, ")");
}

impl LcdError {
    /// The message reported for this error.
    pub fn message(&self) -> (s: String)
        ensures
            s@ == lcd_error_text(*self),
    {
        let mut v: Vec<char> = Vec::new();
        match self {
            LcdError::CommandTooLong => push_str(&mut v, "HID command longer than one report"),
            LcdError::NoMatchingResponse { header } => {
                push_str(&mut v, "no HID response matching [");
                push_hex_byte(&mut v, header[0]);
                push_str(&mut v, ", ");
                push_hex_byte(&mut v, header[1]);
                push_str(
                    &mut v,
                    "] after 200 packets - is another process also talking to the device?",
                );
            },
            LcdError::Refused { what } => push_str(&mut v, what.as_str()),
            LcdError::FrameTooLarge { kb, width, height } => {
                push_str(&mut v, "frame (");
                push_decimal(&mut v, *kb);
                push_str(
                    &mut v,
                    "KB) exceeds the bucket size (1601KB) - only the resolution this was captured against (",
                );
                push_resolution(&mut v, *width, *height);
                push_str(&mut v, ") is supported for now");
            },
            LcdError::FrameSizeMismatch { got, expected, width, height } => {
                push_str(&mut v, "frame size ");
                push_decimal(&mut v, *got as u64);
                push_str(&mut v, " does not match expected ");
                push_decimal(&mut v, *expected as u64);
                push_str(&mut v, " for ");
                push_resolution(&mut v, *width, *height);
            },
            LcdError::NotSquare { width, height } => {
                push_str(&mut v, "LCD frames are assumed square, got ");
                push_resolution(&mut v, *width, *height);
            },
        }
        string_from_chars(&v)
    }
}

/// `cmd` zero-padded to a full report.
pub open spec fn padded_report(cmd: Seq<u8>) -> Seq<u8> {
    Seq::new(HID_REPORT_LEN as nat, |i: int| if i < cmd.len() { cmd[i] } else { 0u8 })
}

/// The 64-byte report carrying `cmd`: the command bytes, zero-padded. The
/// command byte is byte 0; there is no report-ID prefix.
pub fn hid_report(cmd: &Vec<u8>) -> (r: Result<Vec<u8>, LcdError>)
    ensures
        cmd@.len() <= HID_REPORT_LEN ==> (r matches Ok(v) && v@ == padded_report(cmd@)),
        cmd@.len() > HID_REPORT_LEN ==> r matches Err(LcdError::CommandTooLong),
{
    if cmd.len() > HID_REPORT_LEN {
        return Err(LcdError::CommandTooLong);
    }
    let mut v: Vec<u8> = Vec::new();
    let mut i: usize = 0;
    while i < HID_REPORT_LEN
        invariant
            cmd@.len() <= HID_REPORT_LEN,
            i <= HID_REPORT_LEN,
            v@.len() == i,
            forall|j: int| 0 <= j < i ==> v@[j] == padded_report(cmd@)[j],
        decreases HID_REPORT_LEN - i,
    {
        if i < cmd.len() {
            v.push(cmd[i]);
        } else {
            v.push(0);
        }
        i = i + 1;
    }
    assert(v@ =~= padded_report(cmd@));
    Ok(v)
}

/// What to do with a packet read while waiting for a response.
#[derive(Clone, Copy, Debug, PartialEq, Eq, Structural)]
pub enum HidStep {
    /// The packet is the response.
    Matched,
    /// Unrelated traffic on the shared report stream: read another.
    ReadAnother,
    /// The attempt budget is spent.
    GiveUp,
}

/// Decides on the `attempt`-th packet (counting from 1) read after a
/// command: a packet whose first two bytes are `header` is the response;
/// anything else is skipped, up to [`HID_MAX_ATTEMPTS`] packets in all.
pub fn hid_step(attempt: u32, packet: &[u8; 64], header: [u8; 2]) -> (s: HidStep)
    ensures
        s == (if packet@[0] == header@[0] && packet@[1] == header@[1] {
            HidStep::Matched
        } else if attempt >= HID_MAX_ATTEMPTS {
            HidStep::GiveUp
        } else {
            HidStep::ReadAnother
        }),
{
    if packet[0] == header[0] && packet[1] == header[1] {
        HidStep::Matched
    } else if attempt >= HID_MAX_ATTEMPTS {
        HidStep::GiveUp
    } else {
        HidStep::ReadAnother
    }
}

/// Byte 14 of a response is the device's success flag for bucket and
/// mode-switch operations.
pub fn response_ok(response: &[u8; 64]) -> (b: bool)
    ensures
        b == (response@[14] == 1u8),
{
    response[14] == 0x01
}

/// Turns a response's failure flag into an error naming the operation.
pub fn ensure_ok(response: &[u8; 64], what: &str) -> (r: Result<(), LcdError>)
    ensures
        response@[14] == 1u8 ==> r is Ok,
        response@[14] != 1u8 ==> (r matches Err(LcdError::Refused { what: w }) && w@ == what@),
{
    if response_ok(response) {
        Ok(())
    } else {
        Err(LcdError::Refused { what: String::from_str(what) })
    }
}

/// A command and the header of the response it expects.
#[derive(Debug)]
pub struct HidCommand {
    pub bytes: Vec<u8>,
    pub expect: [u8; 2],
}

pub open spec fn is_command(c: HidCommand, bytes: Seq<u8>, expect: Seq<u8>) -> bool {
    c.bytes@ == bytes && c.expect@ == expect
}

/// Asks for the panel's settings; byte 26 of the answer is its orientation.
pub fn lcd_info_command() -> (c: HidCommand)
    ensures
        is_command(c, seq![0x30u8, 0x01u8], seq![0x31u8, 0x01u8]),
{
    HidCommand { bytes: vec![0x30u8, 0x01u8], expect: [0x31u8, 0x01u8] }
}

/// Orientation in clockwise quarter turns, from the `lcd_info_command` answer.
pub fn orientation_from_info(info: &[u8; 64]) -> (o: u8)
    ensures
        o == info@[26],
{
    info[26]
}

/// Switches the panel to the firmware's built-in liquid-temperature screen.
pub fn builtin_screen_command() -> (c: HidCommand)
    ensures
        is_command(c, seq![0x38u8, 0x01u8, 0x02u8, 0x00u8], seq![0x39u8, 0x01u8]),
{
    HidCommand { bytes: vec![0x38u8, 0x01u8, 0x02u8, 0x00u8], expect: [0x39u8, 0x01u8] }
}

/// Deletes `bucket`; harmless if it does not exist.
pub fn delete_bucket_command(bucket: u8) -> (c: HidCommand)
    ensures
        is_command(c, seq![0x32u8, 0x02u8, bucket], seq![0x33u8, 0x02u8]),
{
    HidCommand { bytes: vec![0x32u8, 0x02u8, bucket], expect: [0x33u8, 0x02u8] }
}

/// Start address, in KB, of `bucket`'s fixed memory slot.
pub open spec fn bucket_address(bucket: u8) -> int {
    bucket * BUCKET_SIZE_KB
}

/// Creates `bucket` at its fixed slot: index, index + 1, address and size as
/// little-endian 16-bit values in KB, then 0x01. The device answers with
/// header 0x33 0x01.
pub fn create_bucket_command(bucket: u8) -> (c: HidCommand)
    requires
        bucket_address(bucket) <= 0xFFFF,
    ensures
        is_command(
            c,
            seq![
                0x32u8,
                0x01u8,
                bucket,
                (bucket + 1) as u8,
                (bucket_address(bucket) % 256) as u8,
                (bucket_address(bucket) / 256) as u8,
                0x41u8,
                0x06u8,
                0x01u8,
            ],
            seq![0x33u8, 0x01u8],
        ),
{
    let addr: u16 = bucket as u16 * BUCKET_SIZE_KB;
    let lo = (addr % 256) as u8;
    let hi = (addr / 256) as u8;
    HidCommand {
        bytes: vec![0x32u8, 0x01u8, bucket, bucket + 1, lo, hi, 0x41u8, 0x06u8, 0x01u8],
        expect: [0x33u8, 0x01u8],
    }
}

/// Cancels any stale transfer.
pub fn cancel_transfer_command() -> (c: HidCommand)
    ensures
        is_command(c, seq![0x36u8, 0x03u8], seq![0x37u8, 0x03u8]),
{
    HidCommand { bytes: vec![0x36u8, 0x03u8], expect: [0x37u8, 0x03u8] }
}

/// Starts a transfer into `bucket`.
pub fn start_transfer_command(bucket: u8) -> (c: HidCommand)
    ensures
        is_command(c, seq![0x36u8, 0x01u8, bucket], seq![0x37u8, 0x01u8]),
{
    HidCommand { bytes: vec![0x36u8, 0x01u8, bucket], expect: [0x37u8, 0x01u8] }
}

/// Ends the transfer.
pub fn end_transfer_command() -> (c: HidCommand)
    ensures
        is_command(c, seq![0x36u8, 0x02u8], seq![0x37u8, 0x02u8]),
{
    HidCommand { bytes: vec![0x36u8, 0x02u8], expect: [0x37u8, 0x02u8] }
}

/// Shows `bucket`; resent on its own, it is also the keep-alive.
pub fn switch_command(bucket: u8) -> (c: HidCommand)
    ensures
        is_command(c, seq![0x38u8, 0x01u8, 0x04u8, bucket], seq![0x39u8, 0x01u8]),
{
    HidCommand { bytes: vec![0x38u8, 0x01u8, 0x04u8, bucket], expect: [0x39u8, 0x01u8] }
}

/// The clean slate at startup: switch to the built-in screen (a bucket on
/// screen cannot be deleted), then delete all 16 buckets.
pub fn startup_commands() -> (cs: Vec<HidCommand>)
    ensures
        cs@.len() == 17,
        is_command(cs@[0], seq![0x38u8, 0x01u8, 0x02u8, 0x00u8], seq![0x39u8, 0x01u8]),
        forall|i: int|
            1 <= i < 17 ==> is_command(
                #[trigger] cs@[i],
                seq![0x32u8, 0x02u8, (i - 1) as u8],
                seq![0x33u8, 0x02u8],
            ),
{
    let mut cs: Vec<HidCommand> = Vec::new();
    cs.push(builtin_screen_command());
    let mut i: u8 = 0;
    while i < 16
        invariant
            i <= 16,
            cs@.len() == i + 1,
            is_command(cs@[0], seq![0x38u8, 0x01u8, 0x02u8, 0x00u8], seq![0x39u8, 0x01u8]),
            forall|j: int|
                1 <= j < i + 1 ==> is_command(
                    #[trigger] cs@[j],
                    seq![0x32u8, 0x02u8, (j - 1) as u8],
                    seq![0x33u8, 0x02u8],
                ),
        decreases 16 - i,
    {
        cs.push(delete_bucket_command(i));
        i = i + 1;
    }
    cs
}

/// What a failed upload step does to the upload.
#[derive(Debug)]
pub enum ReplyCheck {
    /// Nothing: a failure to send or to get an answer is ignored.
    Ignore,
    /// The command must be sent and answered; the answer is not examined.
    Answer,
    /// The answer must also report success, or the upload fails with this
    /// message.
    Accept(&'static str),
}

/// One action of an upload.
#[derive(Debug)]
pub enum UploadAction {
    /// Send a command and treat its outcome as the check says.
    Send(HidCommand, ReplyCheck),
    /// Send the bulk header and the rotated frame.
    Frame,
    /// Record the target bucket as the one on screen.
    Commit,
}

/// An upload step, and the name under which a paced upload pauses after it.
#[derive(Debug)]
pub struct UploadStep {
    pub action: UploadAction,
    pub pause_after: Option<&'static str>,
}

pub open spec fn sends(s: UploadStep, bytes: Seq<u8>, expect: Seq<u8>) -> bool {
    s.action matches UploadAction::Send(c, _) && is_command(c, bytes, expect)
}

pub open spec fn ignores_failure(s: UploadStep) -> bool {
    s.action matches UploadAction::Send(_, ReplyCheck::Ignore)
}

pub open spec fn needs_answer(s: UploadStep) -> bool {
    s.action matches UploadAction::Send(_, ReplyCheck::Answer)
}

pub open spec fn refuses_with(s: UploadStep, msg: Seq<char>) -> bool {
    s.action matches UploadAction::Send(_, ReplyCheck::Accept(m)) && m@ == msg
}

pub open spec fn pauses_as(s: UploadStep, name: Option<Seq<char>>) -> bool {
    match (s.pause_after, name) {
        (None, None) => true,
        (Some(l), Some(n)) => l@ == n,
        _ => false,
    }
}

/// The steps that put a frame into `target`, a bucket that is not on
/// screen, and show it, in order: delete the bucket (any failure ignored),
/// create it (answer checked), cancel a stale transfer (answer needed),
/// start the transfer (answer checked), send the frame, end the transfer
/// (answer checked), switch to the bucket (answer checked), and record it
/// as on screen.
pub fn upload_steps(target: u8) -> (steps: Vec<UploadStep>)
    requires
        target == BUCKET_A || target == BUCKET_B,
    ensures
        steps@.len() == 8,
        sends(steps@[0], seq![0x32u8, 0x02u8, target], seq![0x33u8, 0x02u8]),
        ignores_failure(steps@[0]),
        pauses_as(steps@[0], None),
        sends(
            steps@[1],
            seq![
                0x32u8,
                0x01u8,
                target,
                (target + 1) as u8,
                (bucket_address(target) % 256) as u8,
                (bucket_address(target) / 256) as u8,
                0x41u8,
                0x06u8,
                0x01u8,
            ],
            seq![0x33u8, 0x01u8],
        ),
        refuses_with(steps@[1], "device rejected bucket setup for LCD gauge"@),
        pauses_as(steps@[1], Some("bucket deleted+created"@)),
        sends(steps@[2], seq![0x36u8, 0x03u8], seq![0x37u8, 0x03u8]),
        needs_answer(steps@[2]),
        pauses_as(steps@[2], Some("cancel 36 03"@)),
        sends(steps@[3], seq![0x36u8, 0x01u8, target], seq![0x37u8, 0x01u8]),
        refuses_with(steps@[3], "device refused to start LCD data transfer"@),
        pauses_as(steps@[3], Some("start transfer 36 01"@)),
        steps@[4].action is Frame,
        pauses_as(steps@[4], Some("bulk data sent"@)),
        sends(steps@[5], seq![0x36u8, 0x02u8], seq![0x37u8, 0x02u8]),
        refuses_with(steps@[5], "device refused to end LCD data transfer"@),
        pauses_as(steps@[5], Some("end transfer 36 02"@)),
        sends(steps@[6], seq![0x38u8, 0x01u8, 0x04u8, target], seq![0x39u8, 0x01u8]),
        refuses_with(steps@[6], "device rejected LCD mode-switch commit"@),
        pauses_as(steps@[6], None),
        steps@[7].action is Commit,
        pauses_as(steps@[7], Some("switched to new bucket"@)),
{
    vec![
        UploadStep {
            action: UploadAction::Send(delete_bucket_command(target), ReplyCheck::Ignore),
            pause_after: None,
        },
        UploadStep {
            action: UploadAction::Send(
                create_bucket_command(target),
                ReplyCheck::Accept("device rejected bucket setup for LCD gauge"),
            ),
            pause_after: Some("bucket deleted+created"),
        },
        UploadStep {
            action: UploadAction::Send(cancel_transfer_command(), ReplyCheck::Answer),
            pause_after: Some("cancel 36 03"),
        },
        UploadStep {
            action: UploadAction::Send(
                start_transfer_command(target),
                ReplyCheck::Accept("device refused to start LCD data transfer"),
            ),
            pause_after: Some("start transfer 36 01"),
        },
        UploadStep { action: UploadAction::Frame, pause_after: Some("bulk data sent") },
        UploadStep {
            action: UploadAction::Send(
                end_transfer_command(),
                ReplyCheck::Accept("device refused to end LCD data transfer"),
            ),
            pause_after: Some("end transfer 36 02"),
        },
        UploadStep {
            action: UploadAction::Send(
                switch_command(target),
                ReplyCheck::Accept("device rejected LCD mode-switch commit"),
            ),
            pause_after: None,
        },
        UploadStep { action: UploadAction::Commit, pause_after: Some("switched to new bucket") },
    ]
}

/// The 20-byte header sent as its own bulk transfer ahead of a frame: the
/// magic preamble, the RGBA data type, three zero bytes and the frame's
/// length as a little-endian 32-bit value.
pub open spec fn bulk_header_bytes(len: u32) -> Seq<u8> {
    BULK_MAGIC@ + seq![
        DATA_TYPE_RGBA,
        0u8,
        0u8,
        0u8,
        (len % 0x100) as u8,
        ((len / 0x100) % 0x100) as u8,
        ((len / 0x10000) % 0x100) as u8,
        (len / 0x1000000) as u8,
    ]
}

/// Builds the bulk header for a frame of `len` bytes.
pub fn bulk_header(len: u32) -> (h: Vec<u8>)
    ensures
        h@ == bulk_header_bytes(len),
{
    let mut h: Vec<u8> = Vec::new();
    let mut i: usize = 0;
    while i < 12
        invariant
            i <= 12,
            h@ == BULK_MAGIC@.subrange(0, i as int),
        decreases 12 - i,
    {
        h.push(BULK_MAGIC[i]);
        assert(BULK_MAGIC@.subrange(0, i + 1) == BULK_MAGIC@.subrange(0, i as int).push(
            BULK_MAGIC@[i as int],
        ));
        i = i + 1;
    }
    assert(BULK_MAGIC@.subrange(0, 12) == BULK_MAGIC@);
    h.push(DATA_TYPE_RGBA);
    h.push(0);
    h.push(0);
    h.push(0);
    h.push((len % 0x100) as u8);
    h.push(((len / 0x100) % 0x100) as u8);
    h.push(((len / 0x10000) % 0x100) as u8);
    h.push((len / 0x1000000) as u8);
    assert(h@ =~= bulk_header_bytes(len));
    h
}

/// The bucket a new frame goes to: the one not on screen.
pub open spec fn next_bucket(active: Option<u8>) -> u8 {
    if active == Some(BUCKET_A) {
        BUCKET_B
    } else {
        BUCKET_A
    }
}

/// Byte `c` of pixel (`x`, `y`) in a row-major RGBA frame `size` pixels wide.
pub open spec fn pixel_index(size: int, x: int, y: int, c: int) -> int {
    (y * size + x) * 4 + c
}

/// The pixel of the source frame that lands at (`x`, `y`) after `turns`
/// clockwise quarter turns of a square frame `size` pixels wide.
pub open spec fn rotation_source(size: int, turns: int, x: int, y: int) -> (int, int) {
    if turns == 0 {
        (x, y)
    } else if turns == 1 {
        (y, size - 1 - x)
    } else if turns == 2 {
        (size - 1 - x, size - 1 - y)
    } else {
        (size - 1 - y, x)
    }
}

/// A square RGBA frame `size` pixels wide turned `turns` clockwise quarter
/// turns (0..=3).
pub open spec fn rotated_frame(rgba: Seq<u8>, size: int, turns: int) -> Seq<u8> {
    Seq::new(
        rgba.len(),
        |i: int|
            {
                let p = i / 4;
                let (sx, sy) = rotation_source(size, turns, p % size, p / size);
                rgba[pixel_index(size, sx, sy, i % 4)]
            },
    )
}

/// Rotates a square RGBA frame one quarter turn clockwise.
///
/// Wraps `image::imageops::rotate90` on an `RgbaImage` built from the bytes
/// with `ImageBuffer::from_raw` and taken apart with `into_raw`. Its source
/// writes input pixel (x, y) to output pixel (size - 1 - y, x) of a buffer
/// of the same (square) dimensions, which is what the contract states.
#[verifier::external_body]
fn rotate_quarter(rgba: &Vec<u8>, size: u32) -> (out: Vec<u8>)
    requires
        rgba@.len() == 4 * size * size,
    ensures
        out@ == rotated_frame(rgba@, size as int, 1),
{
    let img = image::RgbaImage::from_raw(size, size, rgba.clone()).expect("length matches size");
    image::imageops::rotate90(&img).into_raw()
}

/// Rotates a square RGBA frame half a turn.
///
/// Wraps `image::imageops::rotate180` as `rotate_quarter` wraps
/// `rotate90`; its source writes input pixel (x, y) to output pixel
/// (size - 1 - x, size - 1 - y).
#[verifier::external_body]
fn rotate_half(rgba: &Vec<u8>, size: u32) -> (out: Vec<u8>)
    requires
        rgba@.len() == 4 * size * size,
    ensures
        out@ == rotated_frame(rgba@, size as int, 2),
{
    let img = image::RgbaImage::from_raw(size, size, rgba.clone()).expect("length matches size");
    image::imageops::rotate180(&img).into_raw()
}

/// Rotates a square RGBA frame three quarter turns clockwise.
///
/// Wraps `image::imageops::rotate270` as `rotate_quarter` wraps
/// `rotate90`; its source writes input pixel (x, y) to output pixel
/// (y, size - 1 - x).
#[verifier::external_body]
fn rotate_three_quarters(rgba: &Vec<u8>, size: u32) -> (out: Vec<u8>)
    requires
        rgba@.len() == 4 * size * size,
    ensures
        out@ == rotated_frame(rgba@, size as int, 3),
{
    let img = image::RgbaImage::from_raw(size, size, rgba.clone()).expect("length matches size");
    image::imageops::rotate270(&img).into_raw()
}

/// Rotates a square RGBA frame so it shows upright on a panel configured
/// for `orientation_quarter_turns` clockwise quarter turns (taken modulo 4),
/// which the firmware does not apply to uploaded images itself.
pub fn rotate_for_device(rgba: &Vec<u8>, size: u32, orientation_quarter_turns: u8) -> (out: Vec<
    u8,
>)
    requires
        rgba@.len() == 4 * size * size,
    ensures
        out@ == rotated_frame(rgba@, size as int, (orientation_quarter_turns % 4) as int),
{
    let turns = orientation_quarter_turns % 4;
    if turns == 0 {
        let out = rgba.clone();
        proof {
            assert forall|i: int| 0 <= i < rgba@.len() implies #[trigger] rotated_frame(
                rgba@,
                size as int,
                0,
            )[i] == rgba@[i] by {
                let sz = size as int;
                assert(sz > 0) by (nonlinear_arith)
                    requires
                        0 <= i < 4 * sz * sz,
                        sz >= 0,
                ;
                lemma_pixel_index_decomposes(sz, i);
            }
            assert(rotated_frame(rgba@, size as int, 0) =~= rgba@);
        }
        out
    } else if turns == 1 {
        rotate_quarter(rgba, size)
    } else if turns == 2 {
        rotate_half(rgba, size)
    } else {
        rotate_three_quarters(rgba, size)
    }
}

/// Taking a byte index apart into pixel and channel and putting it back
/// together gives the same index.
proof fn lemma_pixel_index_decomposes(size: int, i: int)
    requires
        size > 0,
        0 <= i,
    ensures
        pixel_index(size, (i / 4) % size, (i / 4) / size, i % 4) == i,
{
    let p = i / 4;
    vstd::arithmetic::div_mod::lemma_fundamental_div_mod(i, 4);
    vstd::arithmetic::div_mod::lemma_fundamental_div_mod(p, size);
    assert(p == size * (p / size) + p % size);
    assert((p / size) * size == size * (p / size)) by (nonlinear_arith);
}

/// The byte index of channel `c` of an in-frame pixel (`x`, `y`) names that
/// pixel and channel again.
proof fn lemma_pixel_index_parts(size: int, x: int, y: int, c: int)
    requires
        0 <= x < size,
        0 <= y < size,
        0 <= c < 4,
    ensures
        0 <= pixel_index(size, x, y, c) < 4 * size * size,
        pixel_index(size, x, y, c) / 4 == y * size + x,
        pixel_index(size, x, y, c) % 4 == c,
        (y * size + x) % size == x,
        (y * size + x) / size == y,
{
    let p = y * size + x;
    assert(0 <= p < size * size) by (nonlinear_arith)
        requires
            p == y * size + x,
            0 <= x < size,
            0 <= y < size,
    ;
    assert(0 <= p * 4 + c < 4 * size * size) by (nonlinear_arith)
        requires
            0 <= p < size * size,
            0 <= c < 4,
    ;
    vstd::arithmetic::div_mod::lemma_fundamental_div_mod_converse(p * 4 + c, 4, p, c);
    vstd::arithmetic::div_mod::lemma_fundamental_div_mod_converse(p, size, y, x);
}

/// A byte index inside a frame lies in an in-frame pixel.
proof fn lemma_index_in_frame(size: int, i: int)
    requires
        size >= 0,
        0 <= i < 4 * size * size,
    ensures
        size > 0,
        0 <= (i / 4) % size < size,
        0 <= (i / 4) / size < size,
        0 <= i % 4 < 4,
{
    assert(size > 0) by (nonlinear_arith)
        requires
            size >= 0,
            0 <= i < 4 * size * size,
    ;
    let p = i / 4;
    assert(p < size * size) by (nonlinear_arith)
        requires
            p == i / 4,
            0 <= i < 4 * size * size,
    ;
    assert(p / size < size) by (nonlinear_arith)
        requires
            0 <= p < size * size,
            size > 0,
    ;
}

/// Turning a square frame by `turns` quarter turns takes every in-frame
/// pixel from an in-frame pixel, and turning back by the complementary
/// number of quarter turns leads each pixel to where it started: the
/// pixels are permuted one for one, none lost or doubled.
pub proof fn lemma_rotation_source_is_bijective(size: int, turns: int, x: int, y: int)
    requires
        0 <= turns < 4,
        0 <= x < size,
        0 <= y < size,
    ensures
        ({
            let (sx, sy) = rotation_source(size, turns, x, y);
            0 <= sx < size && 0 <= sy < size
        }),
        ({
            let (sx, sy) = rotation_source(size, turns, x, y);
            rotation_source(size, (4 - turns) % 4, sx, sy) == (x, y)
        }),
        ({
            let (sx, sy) = rotation_source(size, (4 - turns) % 4, x, y);
            rotation_source(size, turns, sx, sy) == (x, y)
        }),
{
}

/// A turned frame carries each pixel's four bytes whole: the bytes of
/// output pixel (`x`, `y`) are those of the pixel it is taken from.
pub proof fn lemma_rotation_moves_whole_pixels(rgba: Seq<u8>, size: int, turns: int, x: int, y: int)
    requires
        rgba.len() == 4 * size * size,
        0 <= turns < 4,
        0 <= x < size,
        0 <= y < size,
    ensures
        rotated_frame(rgba, size, turns).len() == rgba.len(),
        forall|c: int|
            0 <= c < 4 ==> {
                let (sx, sy) = rotation_source(size, turns, x, y);
                #[trigger] rotated_frame(rgba, size, turns)[pixel_index(size, x, y, c)]
                    == rgba[pixel_index(size, sx, sy, c)]
            },
{
    assert forall|c: int| 0 <= c < 4 implies {
        let (sx, sy) = rotation_source(size, turns, x, y);
        #[trigger] rotated_frame(rgba, size, turns)[pixel_index(size, x, y, c)]
            == rgba[pixel_index(size, sx, sy, c)]
    } by {
        lemma_pixel_index_parts(size, x, y, c);
    }
}

/// Turning a frame by `turns` quarter turns and then by the complementary
/// number of quarter turns gives back the frame it started from.
pub proof fn lemma_rotation_undone(rgba: Seq<u8>, size: int, turns: int)
    requires
        size >= 0,
        rgba.len() == 4 * size * size,
        0 <= turns < 4,
    ensures
        rotated_frame(rotated_frame(rgba, size, turns), size, (4 - turns) % 4) == rgba,
{
    let back = (4 - turns) % 4;
    let once = rotated_frame(rgba, size, turns);
    let twice = rotated_frame(once, size, back);
    assert forall|i: int| 0 <= i < rgba.len() implies #[trigger] twice[i] == rgba[i] by {
        lemma_index_in_frame(size, i);
        let p = i / 4;
        let c = i % 4;
        let x = p % size;
        let y = p / size;
        let (bx, by) = rotation_source(size, back, x, y);
        lemma_rotation_source_is_bijective(size, turns, x, y);
        assert(0 <= back < 4);
        lemma_rotation_source_is_bijective(size, back, x, y);
        assert((4 - back) % 4 == turns);
        lemma_pixel_index_parts(size, bx, by, c);
        let j = pixel_index(size, bx, by, c);
        assert(twice[i] == once[j]);
        assert(rotation_source(size, turns, bx, by) == (x, y));
        assert(once[j] == rgba[pixel_index(size, x, y, c)]);
        lemma_pixel_index_decomposes(size, i);
    }
    assert(twice =~= rgba);
}

/// The panel's protocol state: resolution, orientation and which bucket is
/// on screen.
#[derive(Debug)]
pub struct LcdSession {
    pub width: u32,
    pub height: u32,
    /// Byte length of every frame: width x height x 4.
    pub frame_len: usize,
    /// Clockwise quarter turns the firmware applies to its own screens but
    /// not to uploaded frames.
    pub orientation_quarter_turns: u8,
    /// Bucket on screen, once a frame has been committed.
    pub active_bucket: Option<u8>,
}

/// KB a frame of the given resolution occupies, rounded up.
pub open spec fn frame_kb(width: u32, height: u32) -> int {
    (width * height * 4 + 1023) / 1024
}

impl LcdSession {
    /// A session for frames of the given resolution, once the panel has
    /// reported its orientation. Fails when a frame would not fit in a bucket.
    pub fn new(width: u32, height: u32, orientation_quarter_turns: u8) -> (r: Result<
        LcdSession,
        LcdError,
    >)
        ensures
            frame_kb(width, height) <= BUCKET_SIZE_KB ==> (r matches Ok(s) && s.width == width
                && s.height == height && s.frame_len == width * height * 4
                && s.orientation_quarter_turns == orientation_quarter_turns
                && s.active_bucket is None),
            frame_kb(width, height) > BUCKET_SIZE_KB ==> (r matches Err(
                LcdError::FrameTooLarge { kb, width: w, height: h },
            ) && kb == frame_kb(width, height) && w == width && h == height),
    {
        let w = width as u128;
        let h = height as u128;
        assert(w * h <= 0xFFFF_FFFF * 0xFFFF_FFFF) by (nonlinear_arith)
            requires
                w <= 0xFFFF_FFFF,
                h <= 0xFFFF_FFFF,
        ;
        let len: u128 = w * h * 4;
        let kb: u128 = (len + 1023) / 1024;
        if kb > BUCKET_SIZE_KB as u128 {
            return Err(LcdError::FrameTooLarge { kb: kb as u64, width, height });
        }
        Ok(
            LcdSession {
                width,
                height,
                frame_len: len as usize,
                orientation_quarter_turns,
                active_bucket: None,
            },
        )
    }

    /// Checks a frame about to be uploaded and picks its bucket: the frame
    /// must be exactly `frame_len` bytes and the resolution square.
    pub fn begin_upload(&self, frame_len: usize) -> (r: Result<u8, LcdError>)
        ensures
            frame_len != self.frame_len ==> (r matches Err(
                LcdError::FrameSizeMismatch { got, expected, width: w, height: h },
            ) && got == frame_len && expected == self.frame_len && w == self.width && h
                == self.height),
            frame_len == self.frame_len && self.width != self.height ==> (r matches Err(
                LcdError::NotSquare { width, height },
            ) && width == self.width && height == self.height),
            frame_len == self.frame_len && self.width == self.height ==> r == Ok::<u8, LcdError>(
                next_bucket(self.active_bucket),
            ),
    {
        if frame_len != self.frame_len {
            return Err(
                LcdError::FrameSizeMismatch {
                    got: frame_len,
                    expected: self.frame_len,
                    width: self.width,
                    height: self.height,
                },
            );
        }
        if self.width != self.height {
            return Err(LcdError::NotSquare { width: self.width, height: self.height });
        }
        match self.active_bucket {
            Some(b) => if b == BUCKET_A {
                Ok(BUCKET_B)
            } else {
                Ok(BUCKET_A)
            },
            None => Ok(BUCKET_A),
        }
    }

    /// Records that `bucket` is now on screen.
    pub fn committed(&mut self, bucket: u8)
        ensures
            final(self).active_bucket == Some(bucket),
            final(self).width == old(self).width,
            final(self).height == old(self).height,
            final(self).frame_len == old(self).frame_len,
            final(self).orientation_quarter_turns == old(self).orientation_quarter_turns,
    {
        self.active_bucket = Some(bucket);
    }

    /// The bucket the keep-alive re-commits, if a frame is on screen.
    pub fn keepalive_bucket(&self) -> (b: Option<u8>)
        ensures
            b == self.active_bucket,
    {
        self.active_bucket
    }
}


/// Characters before the first newline.
pub open spec fn line_len(s: Seq<char>) -> nat
    decreases s.len(),
{
    if s.len() == 0 || s[0] == '\n' {
        0
    } else {
        1 + line_len(s.drop_first())
    }
}

/// The first line of `s` as `str::lines` yields it: up to the first
/// newline, without a carriage return right before that newline.
pub open spec fn first_line(s: Seq<char>) -> Seq<char> {
    let e = line_len(s) as int;
    let l = s.take(e);
    if e < s.len() && l.len() > 0 && l.last() == '\r' {
        l.drop_last()
    } else {
        l
    }
}

pub open spec fn hid_id_prefix() -> Seq<char> {
    "HID_ID="@
}

/// The value of the first `HID_ID=` line of a sysfs `uevent` file, if any.
pub open spec fn first_hid_id(s: Seq<char>) -> Option<Seq<char>>
    decreases s.len(),
{
    let l = first_line(s);
    if l.len() >= 7 && l.take(7) == hid_id_prefix() {
        Some(l.skip(7))
    } else if line_len(s) >= s.len() {
        None
    } else {
        first_hid_id(s.skip(line_len(s) as int + 1))
    }
}

pub open spec fn ascii_lower(c: char) -> char {
    if 'A' <= c <= 'Z' {
        ((c as u32) + 32) as char
    } else {
        c
    }
}

/// Equal up to ASCII case.
pub open spec fn eq_ignoring_ascii_case(a: Seq<char>, b: Seq<char>) -> bool {
    a.len() == b.len() && forall|i: int| 0 <= i < a.len() ==> ascii_lower(#[trigger] a[i]) == ascii_lower(b[i])
}

/// The Kraken's `HID_ID`: bus, vendor and product, each zero-padded to
/// eight hex digits.
pub open spec fn kraken_hid_id() -> Seq<char> {
    "0003:00001E71:0000300C"@
}

proof fn lemma_line_len(s: Seq<char>, start: int, e: int)
    requires
        0 <= start <= e <= s.len(),
        forall|j: int| start <= j < e ==> s[j] != '\n',
        e == s.len() || s[e] == '\n',
    ensures
        line_len(s.skip(start)) == e - start,
    decreases e - start,
{
    if start < e {
        assert(s.skip(start).drop_first() == s.skip(start + 1));
        lemma_line_len(s, start + 1, e);
    } else if e < s.len() {
        assert(s.skip(start)[0] == s[e]);
    }
}

fn lower(c: char) -> (l: char)
    ensures
        l == ascii_lower(c),
{
    if 'A' <= c && c <= 'Z' {
        let x = c as u32 + 32;
        let b = x as u8;
        b as char
    } else {
        c
    }
}

/// Whether a hidraw device's `uevent` file belongs to the Kraken: its first
/// `HID_ID=` line names the Kraken's bus, vendor and product, in either case.
pub fn uevent_is_kraken(uevent: &str) -> (b: bool)
    ensures
        b == (first_hid_id(uevent@) matches Some(id) && eq_ignoring_ascii_case(
            id,
            kraken_hid_id(),
        )),
{
    proof {
        reveal_strlit("HID_ID=");
        reveal_strlit("0003:00001E71:0000300C");
    }
    let s = chars_of(uevent);
    let want = chars_of("0003:00001E71:0000300C");
    let prefix = chars_of("HID_ID=");
    let n = s.len();
    let mut start: usize = 0;
    assert(s@.skip(0) == s@);
    loop
        invariant
            n == s@.len(),
            s@ == uevent@,
            want@ == kraken_hid_id(),
            prefix@ == hid_id_prefix(),
            prefix@.len() == 7,
            start <= n,
            first_hid_id(s@) == first_hid_id(s@.skip(start as int)),
        decreases n - start,
    {
        let mut e: usize = start;
        while e < n && s[e] != '\n'
            invariant
                n == s@.len(),
                start <= e <= n,
                forall|j: int| start <= j < e ==> s@[j] != '\n',
            decreases n - e,
        {
            e = e + 1;
        }
        proof {
            lemma_line_len(s@, start as int, e as int);
        }
        let ghost rest = s@.skip(start as int);
        let mut le: usize = e;
        if e < n && le > start && s[le - 1] == '\r' {
            le = le - 1;
        }
        assert(first_line(rest) == s@.subrange(start as int, le as int));
        if le - start >= 7 {
            let mut k: usize = 0;
            let mut pre = true;
            while k < 7
                invariant
                    start + 7 <= le <= n,
                    n == s@.len(),
                    prefix@.len() == 7,
                    k <= 7,
                    pre == (forall|j: int| 0 <= j < k ==> s@[start + j] == prefix@[j]),
                decreases 7 - k,
            {
                if s[start + k] != prefix[k] {
                    pre = false;
                }
                k = k + 1;
            }
            let ghost line = s@.subrange(start as int, le as int);
            assert(pre == (line.take(7) =~= hid_id_prefix()));
            if pre {
                let ghost id = line.skip(7);
                assert(first_hid_id(rest) == Some(id));
                if le - start - 7 != want.len() {
                    return false;
                }
                let mut j: usize = 0;
                while j < want.len()
                    invariant
                        n == s@.len(),
                        start + 7 + want@.len() == le <= n,
                        j <= want@.len(),
                        id == s@.subrange(start + 7, le as int),
                        first_hid_id(uevent@) == Some(id),
                        want@ == kraken_hid_id(),
                        forall|m: int| 0 <= m < j ==> ascii_lower(id[m]) == ascii_lower(want@[m]),
                    decreases want@.len() - j,
                {
                    if lower(s[start + 7 + j]) != lower(want[j]) {
                        assert(id[j as int] == s@[start + 7 + j]);
                        assert(!eq_ignoring_ascii_case(id, kraken_hid_id()));
                        return false;
                    }
                    j = j + 1;
                }
                return true;
            }
        }
        if e >= n {
            return false;
        }
        assert(rest.skip(line_len(rest) as int + 1) == s@.skip(e + 1));
        start = e + 1;
    }
}


/// Double buffering: a new frame never goes into the bucket on screen, and
/// always into one of the two buckets.
pub proof fn lemma_upload_never_targets_the_bucket_on_screen(active: Option<u8>)
    requires
        active matches Some(b) ==> b == BUCKET_A || b == BUCKET_B,
    ensures
        next_bucket(active) == BUCKET_A || next_bucket(active) == BUCKET_B,
        active matches Some(b) ==> next_bucket(active) != b,
{
}

} // verus!
