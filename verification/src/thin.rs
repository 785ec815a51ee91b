//! What each status code of the display driver means.
//!
//! The driver reports most failures as a negated error number. One function
//! per driver call turns the status that the call returned into the result
//! that the caller sees. A status that a call gives no meaning comes back in
//! `Other`, exactly as the driver returned it.

use crate::error::{outcome, ErrorView, FbInkError};
use crate::text::{decimal, decimal_text, signed_decimal, signed_decimal_text};
use vstd::prelude::*;
use vstd::string::StringExecFns;

verus! {

/// `libc::EXIT_SUCCESS`, which is 0.
#[verifier::external_body]
fn exit_success() -> (r: i32)
    ensures
        r == 0,
{
    libc::EXIT_SUCCESS
}

/// `libc::EXIT_FAILURE`, which is 1.
#[verifier::external_body]
fn exit_failure() -> (r: i32)
    ensures
        r == 1,
{
    libc::EXIT_FAILURE
}

/// `libc::ENOSYS`, which is 38 in the error table that Linux uses on x86, ARM
/// and RISC-V.
#[verifier::external_body]
fn enosys() -> (r: i32)
    ensures
        r == 38,
{
    libc::ENOSYS
}

/// `libc::EINVAL`, which is 22 on Linux.
#[verifier::external_body]
fn einval() -> (r: i32)
    ensures
        r == 22,
{
    libc::EINVAL
}

/// `libc::ERANGE`, which is 34 on Linux.
#[verifier::external_body]
fn erange() -> (r: i32)
    ensures
        r == 34,
{
    libc::ERANGE
}

/// `libc::ENOTSUP`, which is 95 in the error table that Linux uses on x86, ARM
/// and RISC-V.
#[verifier::external_body]
fn enotsup() -> (r: i32)
    ensures
        r == 95,
{
    libc::ENOTSUP
}

/// The error number that a driver call without result reports failure with.
pub open spec fn spec_exit_failure() -> int {
    1
}

/// The error number for a capability that the driver was built without.
pub open spec fn spec_enosys() -> int {
    38
}

/// The error number for an invalid argument.
pub open spec fn spec_einval() -> int {
    22
}

/// The error number for a value out of range.
pub open spec fn spec_erange() -> int {
    34
}

/// The error number for an operation that the device does not support.
pub open spec fn spec_enotsup() -> int {
    95
}

/// The status code with its sign turned, in 32-bit two's complement.
pub open spec fn negated(rv: i32) -> i32 {
    if rv == i32::MIN {
        i32::MIN
    } else {
        (-rv) as i32
    }
}

fn negate(rv: i32) -> (r: i32)
    ensures
        r == negated(rv),
{
    if rv == i32::MIN {
        i32::MIN
    } else {
        -rv
    }
}

/// What the error numbers mean for one driver call: the name that a generic
/// failure is reported under, and the details for a missing capability and
/// for an invalid argument. A call that does not give an error number a
/// meaning of its own has `None` there.
pub struct StatusTable {
    pub failure: Option<&'static str>,
    pub unsupported: Option<&'static str>,
    pub invalid: Option<&'static str>,
}

/// The mathematical content of a [`StatusTable`].
pub struct StatusTableView {
    pub failure: Option<Seq<char>>,
    pub unsupported: Option<Seq<char>>,
    pub invalid: Option<Seq<char>>,
}

impl View for StatusTable {
    type V = StatusTableView;

    open spec fn view(&self) -> StatusTableView {
        StatusTableView {
            failure: match self.failure {
                Some(text) => Some(text@),
                None => None,
            },
            unsupported: match self.unsupported {
                Some(text) => Some(text@),
                None => None,
            },
            invalid: match self.invalid {
                Some(text) => Some(text@),
                None => None,
            },
        }
    }
}

/// The error that a nonzero status stands for under a table. The driver
/// reports an error number negated, so the status is recognised by its
/// negation; a status that the table gives no meaning is carried as it came.
pub open spec fn error_of(rv: i32, table: StatusTableView) -> ErrorView {
    let code = negated(rv);
    if code == spec_exit_failure() && table.failure is Some {
        ErrorView::ExitFailure(table.failure.unwrap())
    } else if code == spec_enosys() && table.unsupported is Some {
        ErrorView::NotSupported(table.unsupported.unwrap())
    } else if code == spec_einval() && table.invalid is Some {
        ErrorView::InvalidArgument(table.invalid.unwrap())
    } else {
        ErrorView::Other(rv)
    }
}

/// The result of a driver call that returns nothing but its status: zero is
/// success, and any other status is the error that it stands for.
pub open spec fn status_of(rv: i32, table: StatusTableView) -> Result<(), ErrorView> {
    if rv == 0 {
        Ok(())
    } else {
        Err(error_of(rv, table))
    }
}

fn error_for(rv: i32, table: &StatusTable) -> (e: FbInkError)
    ensures
        e@ == error_of(rv, table@),
{
    let code = negate(rv);
    if code == exit_failure() {
        if let Some(operation) = table.failure {
            return FbInkError::ExitFailure(operation.to_owned());
        }
    }
    if code == enosys() {
        if let Some(detail) = table.unsupported {
            return FbInkError::NotSupported(detail.to_owned());
        }
    }
    if code == einval() {
        if let Some(detail) = table.invalid {
            return FbInkError::InvalidArgument(detail.to_owned());
        }
    }
    FbInkError::Other(rv)
}

/// Decodes the status of a driver call that returns nothing else.
pub fn decode_status(rv: i32, table: &StatusTable) -> (r: Result<(), FbInkError>)
    ensures
        outcome(r) == status_of(rv, table@),
{
    if rv == exit_success() {
        Ok(())
    } else {
        Err(error_for(rv, table))
    }
}

/// The detail of the error for a driver built without image support.
pub open spec fn no_image_support() -> Seq<char> {
    "FBInk was built without image support"@
}

/// The detail of the error for a refresh on a device without an e-ink panel.
pub open spec fn no_refresh() -> Seq<char> {
    "Refresh is only supported on eInk devices"@
}

/// The detail of the error for a driver built without drawing support.
pub open spec fn no_drawing() -> Seq<char> {
    "FBInk was built without drawing support"@
}

/// The detail of the error for a rotation query on another device family.
pub open spec fn no_canonical_rotation() -> Seq<char> {
    "Canonical rotation is only supported on Kobo devices"@
}

/// The table of a driver call that gives only generic failure a meaning.
pub open spec fn plain_table(operation: Seq<char>) -> StatusTableView {
    StatusTableView { failure: Some(operation), unsupported: None, invalid: None }
}

/// The table of a driver call that can fail and can be unsupported.
pub open spec fn capability_table(operation: Seq<char>, unsupported: Seq<char>)
    -> StatusTableView {
    StatusTableView { failure: Some(operation), unsupported: Some(unsupported), invalid: None }
}

/// The table of a driver call that can fail, be unsupported, or refuse its
/// argument.
pub open spec fn full_table(operation: Seq<char>, unsupported: Seq<char>, invalid: Seq<char>)
    -> StatusTableView {
    StatusTableView {
        failure: Some(operation),
        unsupported: Some(unsupported),
        invalid: Some(invalid),
    }
}

/// Opening the framebuffer returns a file descriptor, or the negated failure
/// code.
pub fn fbink_open(rv: i32) -> (r: Result<i32, FbInkError>)
    ensures
        outcome(r) == if rv == -spec_exit_failure() {
            Err::<i32, ErrorView>(ErrorView::ExitFailure("open"@))
        } else {
            Ok::<i32, ErrorView>(rv)
        },
{
    if negate(rv) == exit_failure() {
        Err(FbInkError::ExitFailure("open".to_owned()))
    } else {
        Ok(rv)
    }
}

/// Closing the framebuffer.
pub fn fbink_close(rv: i32) -> (r: Result<(), FbInkError>)
    ensures
        outcome(r) == status_of(rv, plain_table("close"@)),
{
    decode_status(rv, &StatusTable { failure: Some("close"), unsupported: None, invalid: None })
}

/// Initialising the driver.
pub fn fbink_init(rv: i32) -> (r: Result<(), FbInkError>)
    ensures
        outcome(r) == status_of(
            rv,
            capability_table("init"@, "Your device is not supported by FBInk"@),
        ),
{
    decode_status(
        rv,
        &StatusTable {
            failure: Some("init"),
            unsupported: Some("Your device is not supported by FBInk"),
            invalid: None,
        },
    )
}

/// What changed at a reinitialisation, as the bits that the driver returned,
/// or `None` where nothing changed.
pub type ReinitResult = Result<Option<u32>, FbInkError>;

/// What a reinitialisation owes: zero is success without changes, a code
/// above 256 holds the flags of what changed, and anything else is an error.
/// The generic failure comes negated; every other code is reported as it
/// came.
pub open spec fn reinit_of(rv: i32) -> Result<Option<u32>, ErrorView> {
    if rv == 0 {
        Ok(None)
    } else if rv == -spec_exit_failure() {
        Err(ErrorView::ExitFailure("reinit"@))
    } else if rv > 256 {
        Ok(Some(rv as u32))
    } else {
        Err(ErrorView::Other(rv))
    }
}

/// Reinitialising the driver.
pub fn fbink_reinit(rv: i32) -> (r: ReinitResult)
    ensures
        outcome(r) == reinit_of(rv),
{
    if rv == exit_success() {
        Ok(None)
    } else if negate(rv) == exit_failure() {
        Err(FbInkError::ExitFailure("reinit".to_owned()))
    } else if rv > 256 {
        Ok(Some(rv as u32))
    } else {
        Err(FbInkError::Other(rv))
    }
}

/// What printing text owes: a positive code is the number of rows printed;
/// the error numbers come negated, and an unknown code is reported as it
/// came.
pub open spec fn print_of(rv: i32) -> Result<i32, ErrorView> {
    if rv > 0 {
        Ok(rv)
    } else if negated(rv) == spec_exit_failure() {
        Err(ErrorView::ExitFailure("print"@))
    } else if negated(rv) == spec_einval() {
        Err(ErrorView::InvalidArgument("empty string"@))
    } else if negated(rv) == spec_enosys() {
        Err(ErrorView::NotSupported("fixed-cell fonts"@))
    } else {
        Err(ErrorView::Other(rv))
    }
}

/// Printing text.
pub fn fbink_print(rv: i32) -> (r: Result<i32, FbInkError>)
    ensures
        outcome(r) == print_of(rv),
{
    if rv > 0 {
        return Ok(rv);
    }
    let code = negate(rv);
    if code == exit_failure() {
        Err(FbInkError::ExitFailure("print".to_owned()))
    } else if code == einval() {
        Err(FbInkError::InvalidArgument("empty string".to_owned()))
    } else if code == enosys() {
        Err(FbInkError::NotSupported("fixed-cell fonts".to_owned()))
    } else {
        Err(FbInkError::Other(rv))
    }
}

/// Refreshing a region given by coordinates.
pub fn fbink_refresh(rv: i32) -> (r: Result<(), FbInkError>)
    ensures
        outcome(r) == status_of(rv, capability_table("refresh"@, no_refresh())),
{
    decode_status(
        rv,
        &StatusTable {
            failure: Some("refresh"),
            unsupported: Some("Refresh is only supported on eInk devices"),
            invalid: None,
        },
    )
}

/// Refreshing a rectangle.
pub fn fbink_refresh_rect(rv: i32) -> (r: Result<(), FbInkError>)
    ensures
        outcome(r) == status_of(rv, capability_table("refresh_rect"@, no_refresh())),
{
    decode_status(
        rv,
        &StatusTable {
            failure: Some("refresh_rect"),
            unsupported: Some("Refresh is only supported on eInk devices"),
            invalid: None,
        },
    )
}

/// Refreshing a region given in grid cells.
pub fn fbink_grid_refresh(rv: i32) -> (r: Result<(), FbInkError>)
    ensures
        outcome(r) == status_of(rv, capability_table("grid_refresh"@, no_refresh())),
{
    decode_status(
        rv,
        &StatusTable {
            failure: Some("grid_refresh"),
            unsupported: Some("Refresh is only supported on eInk devices"),
            invalid: None,
        },
    )
}

/// Clearing a region.
pub fn fbink_cls(rv: i32) -> (r: Result<(), FbInkError>)
    ensures
        outcome(r) == status_of(rv, capability_table("cls"@, no_drawing())),
{
    decode_status(
        rv,
        &StatusTable {
            failure: Some("cls"),
            unsupported: Some("FBInk was built without drawing support"),
            invalid: None,
        },
    )
}

/// Clearing a region given in grid cells.
pub fn fbink_grid_clear(rv: i32) -> (r: Result<(), FbInkError>)
    ensures
        outcome(r) == status_of(rv, capability_table("grid_clear"@, no_drawing())),
{
    decode_status(
        rv,
        &StatusTable {
            failure: Some("grid_clear"),
            unsupported: Some("FBInk was built without drawing support"),
            invalid: None,
        },
    )
}

/// Capturing the whole display.
pub fn fbink_dump(rv: i32) -> (r: Result<(), FbInkError>)
    ensures
        outcome(r) == status_of(rv, capability_table("dump"@, no_image_support())),
{
    decode_status(
        rv,
        &StatusTable {
            failure: Some("dump"),
            unsupported: Some("FBInk was built without image support"),
            invalid: None,
        },
    )
}

/// Capturing a region with the driver's positioning rules applied.
pub fn fbink_region_dump(rv: i32) -> (r: Result<(), FbInkError>)
    ensures
        outcome(r) == status_of(
            rv,
            full_table("region_dump"@, no_image_support(), "empty region"@),
        ),
{
    decode_status(
        rv,
        &StatusTable {
            failure: Some("region_dump"),
            unsupported: Some("FBInk was built without image support"),
            invalid: Some("empty region"),
        },
    )
}

/// Capturing a rectangle as it is given.
pub fn fbink_rect_dump(rv: i32) -> (r: Result<(), FbInkError>)
    ensures
        outcome(r) == status_of(
            rv,
            full_table("rect_dump"@, no_image_support(), "region out of bounds"@),
        ),
{
    decode_status(
        rv,
        &StatusTable {
            failure: Some("rect_dump"),
            unsupported: Some("FBInk was built without image support"),
            invalid: Some("region out of bounds"),
        },
    )
}

/// Handing a captured buffer back to the display.
pub fn fbink_restore(rv: i32) -> (r: Result<(), FbInkError>)
    ensures
        outcome(r) == status_of(rv, full_table("restore"@, no_image_support(), "no data"@)),
{
    decode_status(
        rv,
        &StatusTable {
            failure: Some("restore"),
            unsupported: Some("FBInk was built without image support"),
            invalid: Some("no data"),
        },
    )
}

/// Printing packed pixels.
pub fn fbink_print_raw_data(rv: i32) -> (r: Result<(), FbInkError>)
    ensures
        outcome(r) == status_of(rv, capability_table("print_raw_data"@, no_image_support())),
{
    decode_status(
        rv,
        &StatusTable {
            failure: Some("print_raw_data"),
            unsupported: Some("FBInk was built without image support"),
            invalid: None,
        },
    )
}

/// Waiting for one update to complete.
pub fn fbink_wait_for_complete(rv: i32) -> (r: Result<(), FbInkError>)
    ensures
        outcome(r) == status_of(
            rv,
            capability_table(
                "wait_for_complete"@,
                "wait_for_complete not supported on this device"@,
            ),
        ),
{
    decode_status(
        rv,
        &StatusTable {
            failure: Some("wait_for_complete"),
            unsupported: Some("wait_for_complete not supported on this device"),
            invalid: None,
        },
    )
}

/// Waiting for any update to complete.
pub fn fbink_wait_for_any_complete(rv: i32) -> (r: Result<(), FbInkError>)
    ensures
        outcome(r) == status_of(
            rv,
            capability_table(
                "wait_for_any_complete"@,
                "wait_for_any_complete not supported on this device"@,
            ),
        ),
{
    decode_status(
        rv,
        &StatusTable {
            failure: Some("wait_for_any_complete"),
            unsupported: Some("wait_for_any_complete not supported on this device"),
            invalid: None,
        },
    )
}

/// Releasing the buffer of a capture. A second release of the same buffer is
/// an error of its own, not a generic failure.
pub fn fbink_free_dump_data(rv: i32) -> (r: Result<(), FbInkError>)
    ensures
        outcome(r) == status_of(
            rv,
            StatusTableView {
                failure: None,
                unsupported: Some(no_image_support()),
                invalid: Some("Dump was already freed"@),
            },
        ),
{
    decode_status(
        rv,
        &StatusTable {
            failure: None,
            unsupported: Some("FBInk was built without image support"),
            invalid: Some("Dump was already freed"),
        },
    )
}

/// What a rotation translation owes. The driver answers with a rotation from
/// 0 to 3 or with an error number, not negated: the one for a missing
/// capability, the one for a code out of range, or any other.
pub open spec fn rotation_of(rv: i32) -> Result<i32, ErrorView> {
    if rv == spec_enosys() {
        Err(ErrorView::NotSupported(no_canonical_rotation()))
    } else if rv == spec_erange() {
        Err(ErrorView::OutOfRange(decimal(spec_erange() as nat) + " is not a valid rotation"@))
    } else if 0 <= rv <= 3 {
        Ok(rv)
    } else {
        Err(ErrorView::Other(rv))
    }
}

fn decode_rotation(rv: i32) -> (r: Result<i32, FbInkError>)
    ensures
        outcome(r) == rotation_of(rv),
{
    if rv == enosys() {
        Err(
            FbInkError::NotSupported(
                "Canonical rotation is only supported on Kobo devices".to_owned(),
            ),
        )
    } else if rv == erange() {
        let mut text = decimal_text(erange() as u32);
        text.append(" is not a valid rotation");
        Err(FbInkError::OutOfRange(text))
    } else if 0 <= rv && rv <= 3 {
        Ok(rv)
    } else {
        Err(FbInkError::Other(rv))
    }
}

/// The driver's answer, a 32-bit value, read as a signed status.
pub open spec fn signed_status(rv: u32) -> i32 {
    if rv > i32::MAX {
        (rv - 0x1_0000_0000) as i32
    } else {
        rv as i32
    }
}

/// Translating a canonical rotation to the native one.
pub fn fbink_rota_canonical_to_native(rv: u32) -> (r: Result<u32, FbInkError>)
    ensures
        match rotation_of(signed_status(rv)) {
            Ok(rota) => r == Ok::<u32, FbInkError>(rv),
            Err(e) => r matches Err(error) && error@ == e,
        },
{
    let status: i32 = if rv > 0x7fff_ffff {
        let low: u32 = rv - 0x8000_0000;
        low as i32 + i32::MIN
    } else {
        rv as i32
    };
    match decode_rotation(status) {
        Ok(_) => Ok(rv),
        Err(e) => Err(e),
    }
}

/// Translating a native rotation to the canonical one.
pub fn fbink_rota_native_to_canonical(rv: u8) -> (r: Result<u8, FbInkError>)
    ensures
        match rotation_of(rv as i32) {
            Ok(rota) => r == Ok::<u8, FbInkError>(rv),
            Err(e) => r matches Err(error) && error@ == e,
        },
{
    match decode_rotation(rv as i32) {
        Ok(_) => Ok(rv),
        Err(e) => Err(e),
    }
}

/// The status of the rotation override with its sign dropped, in 32-bit
/// two's complement.
pub open spec fn magnitude(rv: i32) -> i32 {
    if rv < 0 {
        negated(rv)
    } else {
        rv
    }
}

/// What forcing a rotation mode owes. The error numbers and the flags of
/// what changed may come with either sign; a status without a meaning is
/// carried as it came.
pub open spec fn enforce_rota_of(rv: i32, mode: i8) -> Result<Option<u32>, ErrorView> {
    let code = magnitude(rv);
    if code == 0 {
        Ok(None)
    } else if code == spec_enosys() {
        Err(ErrorView::NotSupported("Only supported on Kobos with Sunxi SoCs"@))
    } else if code == spec_einval() {
        Err(ErrorView::InvalidArgument(signed_decimal(mode as int) + " is not a valid mode"@))
    } else if code == spec_enotsup() {
        Err(ErrorView::NotSupported(signed_decimal(mode as int) + " is not supported"@))
    } else if code > 256 {
        Ok(Some(code as u32))
    } else {
        Err(ErrorView::Other(rv))
    }
}

/// Forcing how initialisation handles rotation on sunxi SoCs. `mode` is the
/// code of the mode that was asked for.
pub fn fbink_sunxi_ntx_enforce_rota(rv: i32, mode: i8) -> (r: ReinitResult)
    ensures
        outcome(r) == enforce_rota_of(rv, mode),
{
    let code = if rv < 0 {
        negate(rv)
    } else {
        rv
    };
    if code == exit_success() {
        Ok(None)
    } else if code == enosys() {
        Err(FbInkError::NotSupported("Only supported on Kobos with Sunxi SoCs".to_owned()))
    } else if code == einval() {
        let mut text = signed_decimal_text(mode as i32);
        text.append(" is not a valid mode");
        Err(FbInkError::InvalidArgument(text))
    } else if code == enotsup() {
        let mut text = signed_decimal_text(mode as i32);
        text.append(" is not supported");
        Err(FbInkError::NotSupported(text))
    } else if code > 256 {
        Ok(Some(code as u32))
    } else {
        Err(FbInkError::Other(rv))
    }
}

} // verus!
