//! The indirect capture: having the kernel write its working buffer to a
//! bitmap file and reading that file.
//!
//! The capture is a fixed sequence of steps against the filesystem. The
//! caller performs each step and reports how it went; [`SunxiCapture`] decides
//! what comes next. The kernel has one working buffer, so no other capture
//! may run between the first step and the last.

use crate::dump::SunxiDump;
use crate::error::FbInkError;
use vstd::prelude::*;

verus! {

/// Where the scratch filesystem is mounted. The kernel writes into it, so it
/// is kept in memory.
pub fn mount_path() -> (r: &'static str)
    ensures
        r@ == "/mnt/flash"@,
{
    "/mnt/flash"
}

/// The file that the kernel writes the working buffer to.
pub fn bitmap_path() -> (r: &'static str)
    ensures
        r@ == "/mnt/flash/workingbuffer.bmp"@,
{
    "/mnt/flash/workingbuffer.bmp"
}

/// The control file whose reading makes the kernel write the bitmap.
pub fn trigger_path() -> (r: &'static str)
    ensures
        r@ == "/sys/devices/virtual/disp/disp/waveform/get_working_buffer"@,
{
    "/sys/devices/virtual/disp/disp/waveform/get_working_buffer"
}

/// The arguments of the `mount` command that mounts the scratch filesystem:
/// three megabytes in memory, without access times.
pub fn mount_arguments() -> (r: Vec<&'static str>)
    ensures
        r@.len() == 6,
        r@[0]@ == "-t"@,
        r@[1]@ == "tmpfs"@,
        r@[2]@ == "tmpfs"@,
        r@[3]@ == "/mnt/flash"@,
        r@[4]@ == "-o"@,
        r@[5]@ == "noatime,size=3M"@,
{
    let mut arguments: Vec<&'static str> = Vec::new();
    arguments.push("-t");
    arguments.push("tmpfs");
    arguments.push("tmpfs");
    arguments.push("/mnt/flash");
    arguments.push("-o");
    arguments.push("noatime,size=3M");
    arguments
}

/// The text without the white space that leads and trails it.
pub uninterp spec fn trimmed(text: Seq<char>) -> Seq<char>;

/// True when the character is one of the decimal digits `0` to `9`.
pub open spec fn is_digit(c: char) -> bool {
    48 <= c as u32 <= 57
}

/// The number that a sequence of decimal digits stands for; zero for the
/// empty sequence.
pub open spec fn digits_value(digits: Seq<char>) -> int
    decreases digits.len(),
{
    if digits.len() == 0 {
        0
    } else {
        10 * digits_value(digits.drop_last()) + (digits.last() as u32 - 48)
    }
}

/// The number that the text is the numeral of: an optional sign, `+` or `-`,
/// then one decimal digit or more and nothing else, for a number that fits
/// 32 bits. Any other text stands for no number.
pub open spec fn parsed_i32(text: Seq<char>) -> Option<i32> {
    let signed = text.len() > 0 && (text[0] == '-' || text[0] == '+');
    let digits = if signed {
        text.skip(1)
    } else {
        text
    };
    let value = if signed && text[0] == '-' {
        -digits_value(digits)
    } else {
        digits_value(digits)
    };
    if digits.len() > 0 && (forall|i: int| 0 <= i < digits.len() ==> is_digit(#[trigger] digits[i]))
        && i32::MIN <= value <= i32::MAX {
        Some(value as i32)
    } else {
        None
    }
}

/// `str::trim`: the text without leading and trailing white space.
#[verifier::external_body]
fn trim(text: &str) -> (r: &str)
    ensures
        r@ == trimmed(text@),
{
    text.trim()
}

/// `str::parse::<i32>`: the number that the text is the numeral of, or `None`
/// where it is none. The standard library takes an optional sign followed by
/// decimal digits only, and refuses the empty text, a sign alone, any other
/// character, and a number outside 32 bits.
#[verifier::external_body]
fn parse_i32(text: &str) -> (r: Option<i32>)
    ensures
        r == parsed_i32(text@),
{
    text.parse::<i32>().ok()
}

/// `proc_mounts::MountIter` over the text of a mount table: for each entry
/// the place where it is mounted, or `None` for an entry that cannot be read
/// or whose place is not valid text.
#[verifier::external_body]
fn mount_points(table: &str) -> (r: Vec<Option<String>>) {
    proc_mounts::MountIter::new_from_reader(table.as_bytes())
        .map(|entry| entry.ok().and_then(|mount| mount.dest.to_str().map(String::from)))
        .collect()
}

/// True when the kernel's answer to the trigger, trimmed and read as a
/// number, is zero.
pub open spec fn trigger_reports_success(text: Seq<char>) -> bool {
    parsed_i32(trimmed(text)) == Some(0i32)
}

/// What the number read from the trigger means: zero is success, anything
/// else, and no number at all, is a failed capture.
pub fn trigger_outcome(answer: Option<i32>) -> (r: Result<(), FbInkError>)
    ensures
        answer == Some(0i32) ==> r is Ok,
        answer != Some(0i32) ==> r matches Err(FbInkError::SunxiDumpError),
{
    match answer {
        Some(0) => Ok(()),
        _ => Err(FbInkError::SunxiDumpError),
    }
}

/// Reads the kernel's answer to the trigger.
pub fn check_trigger(text: &str) -> (r: Result<(), FbInkError>)
    ensures
        trigger_reports_success(text@) ==> r is Ok,
        !trigger_reports_success(text@) ==> r matches Err(FbInkError::SunxiDumpError),
{
    trigger_outcome(parse_i32(trim(text)))
}

/// True when one of the mount points is `path`.
pub open spec fn mounted_at(points: Seq<Option<String>>, path: Seq<char>) -> bool {
    exists|i: int| 0 <= i < points.len() && is_place(#[trigger] points[i], path)
}

/// True when the entry of a mount table is mounted at `path`.
pub open spec fn is_place(entry: Option<String>, path: Seq<char>) -> bool {
    match entry {
        Some(place) => place@ == path,
        None => false,
    }
}

/// Looks for a mount point among those of a mount table.
pub fn is_mounted(points: &Vec<Option<String>>, path: &str) -> (r: bool)
    ensures
        r == mounted_at(points@, path@),
{
    let wanted = path.to_owned();
    let mut i: usize = 0;
    while i < points.len()
        invariant
            i <= points.len(),
            wanted@ == path@,
            forall|j: int| 0 <= j < i ==> !is_place(#[trigger] points@[j], path@),
        decreases points.len() - i,
    {
        match &points[i] {
            Some(place) => {
                if *place == wanted {
                    return true;
                }
            },
            None => {},
        }
        i += 1;
    }
    false
}

/// A step of the capture that the caller performs.
#[derive(Debug, Clone, Copy, PartialEq, Eq, Structural)]
pub enum CaptureStep {
    /// Create the directory [`mount_path`], with its parents.
    CreateMountPoint,
    /// Read the table of mounted filesystems as text.
    ReadMountTable,
    /// Run `mount` with [`mount_arguments`]. How the command ends does not
    /// matter, only that it ran.
    MountScratch,
    /// Read the file at [`trigger_path`] as text.
    ReadTrigger,
    /// Read the bytes of the file at [`bitmap_path`].
    ReadBitmap,
}

/// How a step went.
#[derive(Debug)]
pub enum CaptureEvent {
    /// The step was performed and has nothing to hand over.
    Done,
    /// The text that the step read.
    Text(String),
    /// The bytes that the step read.
    Bytes(Vec<u8>),
    /// The step failed.
    Failed(std::io::Error),
}

/// Where a capture stands after an event.
#[derive(Debug)]
pub enum CaptureProgress {
    /// The capture goes on with the step that the machine now waits for.
    Continue(SunxiCapture),
    /// The capture has ended.
    Finished(Result<SunxiDump, FbInkError>),
}

/// A capture in progress.
#[derive(Debug)]
pub struct SunxiCapture {
    rota: u8,
    awaiting: CaptureStep,
}

impl SunxiCapture {
    /// The native rotation code that the bitmap will be read under.
    pub closed spec fn spec_rota(&self) -> u8 {
        self.rota
    }

    /// The step that the caller is to perform next.
    pub closed spec fn spec_awaiting(&self) -> CaptureStep {
        self.awaiting
    }

    /// Starts a capture. The first step is to create the mount point.
    pub fn begin(current_rota: u8) -> (r: SunxiCapture)
        ensures
            r.spec_rota() == current_rota,
            r.spec_awaiting() == CaptureStep::CreateMountPoint,
    {
        SunxiCapture { rota: current_rota, awaiting: CaptureStep::CreateMountPoint }
    }

    #[verifier::when_used_as_spec(spec_rota)]
    pub fn rota(&self) -> (r: u8)
        ensures
            r == self.spec_rota(),
    {
        self.rota
    }

    #[verifier::when_used_as_spec(spec_awaiting)]
    pub fn awaiting(&self) -> (r: CaptureStep)
        ensures
            r == self.spec_awaiting(),
    {
        self.awaiting
    }

    /// The step after the mount table has been read: the trigger where the
    /// scratch filesystem is mounted, the mount where it is not.
    pub fn after_mount_table(points: &Vec<Option<String>>) -> (r: CaptureStep)
        ensures
            r == if mounted_at(points@, "/mnt/flash"@) {
                CaptureStep::ReadTrigger
            } else {
                CaptureStep::MountScratch
            },
    {
        if is_mounted(points, mount_path()) {
            CaptureStep::ReadTrigger
        } else {
            CaptureStep::MountScratch
        }
    }

    /// Takes the event that ended the awaited step and decides how the
    /// capture goes on.
    ///
    /// A failed step ends the capture with its error. An event that the step
    /// cannot end with ends it with `InvalidArgument`. Otherwise the steps
    /// follow each other in their fixed order: the mount point, the mount
    /// table, the mount where the table does not show the scratch
    /// filesystem, the trigger, the bitmap. A trigger that does not report
    /// success ends the capture with `SunxiDumpError`, and the bitmap ends it
    /// with the snapshot, or with the reason why it holds none.
    pub fn advance(self, event: CaptureEvent) -> (r: CaptureProgress)
        ensures
            r matches CaptureProgress::Continue(next) ==> next.spec_rota() == self.spec_rota(),
            match event {
                CaptureEvent::Failed(e) => r matches CaptureProgress::Finished(
                    Err(FbInkError::IoError(error)),
                ) && error == e,
                CaptureEvent::Done => match self.spec_awaiting() {
                    CaptureStep::CreateMountPoint => r matches CaptureProgress::Continue(next)
                        && next.spec_awaiting() == CaptureStep::ReadMountTable,
                    CaptureStep::MountScratch => r matches CaptureProgress::Continue(next)
                        && next.spec_awaiting() == CaptureStep::ReadTrigger,
                    _ => r matches CaptureProgress::Finished(
                        Err(FbInkError::InvalidArgument(_)),
                    ),
                },
                CaptureEvent::Text(text) => match self.spec_awaiting() {
                    CaptureStep::ReadMountTable => r matches CaptureProgress::Continue(next) && (
                    next.spec_awaiting() == CaptureStep::ReadTrigger || next.spec_awaiting()
                        == CaptureStep::MountScratch),
                    CaptureStep::ReadTrigger => if trigger_reports_success(text@) {
                        r matches CaptureProgress::Continue(next) && next.spec_awaiting()
                            == CaptureStep::ReadBitmap
                    } else {
                        r matches CaptureProgress::Finished(Err(FbInkError::SunxiDumpError))
                    },
                    _ => r matches CaptureProgress::Finished(
                        Err(FbInkError::InvalidArgument(_)),
                    ),
                },
                CaptureEvent::Bytes(bytes) => match self.spec_awaiting() {
                    CaptureStep::ReadBitmap => r matches CaptureProgress::Finished(made)
                        && SunxiDump::decoded(self.spec_rota(), bytes@, made),
                    _ => r matches CaptureProgress::Finished(
                        Err(FbInkError::InvalidArgument(_)),
                    ),
                },
            },
    {
        let rota = self.rota;
        match event {
            CaptureEvent::Failed(e) => CaptureProgress::Finished(Err(FbInkError::IoError(e))),
            CaptureEvent::Done => match self.awaiting {
                CaptureStep::CreateMountPoint => CaptureProgress::Continue(
                    SunxiCapture { rota, awaiting: CaptureStep::ReadMountTable },
                ),
                CaptureStep::MountScratch => CaptureProgress::Continue(
                    SunxiCapture { rota, awaiting: CaptureStep::ReadTrigger },
                ),
                _ => CaptureProgress::Finished(Err(out_of_turn())),
            },
            CaptureEvent::Text(text) => match self.awaiting {
                CaptureStep::ReadMountTable => {
                    let points = mount_points(text.as_str());
                    CaptureProgress::Continue(
                        SunxiCapture { rota, awaiting: Self::after_mount_table(&points) },
                    )
                },
                CaptureStep::ReadTrigger => match check_trigger(text.as_str()) {
                    Ok(_) => CaptureProgress::Continue(
                        SunxiCapture { rota, awaiting: CaptureStep::ReadBitmap },
                    ),
                    Err(e) => CaptureProgress::Finished(Err(e)),
                },
                _ => CaptureProgress::Finished(Err(out_of_turn())),
            },
            CaptureEvent::Bytes(bytes) => match self.awaiting {
                CaptureStep::ReadBitmap => CaptureProgress::Finished(
                    SunxiDump::new(rota, bytes.as_slice()),
                ),
                _ => CaptureProgress::Finished(Err(out_of_turn())),
            },
        }
    }
}

fn out_of_turn() -> (r: FbInkError)
    ensures
        r matches FbInkError::InvalidArgument(msg) && msg@
            == "the event does not answer the awaited step"@,
{
    FbInkError::InvalidArgument("the event does not answer the awaited step".to_owned())
}

} // verus!
