//! The state of the display as the driver reports it, and what the library
//! derives from it.

use crate::text::{decimal, decimal_text};
use crate::thin::{fbink_rota_native_to_canonical, rotation_of};
use vstd::prelude::*;
use vstd::string::StringExecFns;

verus! {

/// A device-independent orientation of the display.
#[derive(Debug, Clone, Copy, PartialEq, Eq, Structural)]
pub enum CanonicalRotation {
    Upright,
    Clockwise,
    UpsideDown,
    CounterClockwise,
}

impl CanonicalRotation {
    /// The orientation with the given index; an index above 3 stands for
    /// upright.
    pub open spec fn spec_from_primitive(code: u8) -> CanonicalRotation {
        if code == 1 {
            CanonicalRotation::Clockwise
        } else if code == 2 {
            CanonicalRotation::UpsideDown
        } else if code == 3 {
            CanonicalRotation::CounterClockwise
        } else {
            CanonicalRotation::Upright
        }
    }

    /// The index of the orientation.
    pub open spec fn spec_code(self) -> u8 {
        match self {
            CanonicalRotation::Upright => 0,
            CanonicalRotation::Clockwise => 1,
            CanonicalRotation::UpsideDown => 2,
            CanonicalRotation::CounterClockwise => 3,
        }
    }

    /// The name of the orientation.
    pub open spec fn spec_name(self) -> Seq<char> {
        match self {
            CanonicalRotation::Upright => "upright"@,
            CanonicalRotation::Clockwise => "clockwise"@,
            CanonicalRotation::UpsideDown => "upside down"@,
            CanonicalRotation::CounterClockwise => "counterclockwise"@,
        }
    }

    #[verifier::when_used_as_spec(spec_from_primitive)]
    pub fn from_primitive(code: u8) -> (r: CanonicalRotation)
        ensures
            r == Self::spec_from_primitive(code),
    {
        if code == 1 {
            CanonicalRotation::Clockwise
        } else if code == 2 {
            CanonicalRotation::UpsideDown
        } else if code == 3 {
            CanonicalRotation::CounterClockwise
        } else {
            CanonicalRotation::Upright
        }
    }

    #[verifier::when_used_as_spec(spec_code)]
    pub fn code(self) -> (r: u8)
        ensures
            r == self.spec_code(),
    {
        match self {
            CanonicalRotation::Upright => 0,
            CanonicalRotation::Clockwise => 1,
            CanonicalRotation::UpsideDown => 2,
            CanonicalRotation::CounterClockwise => 3,
        }
    }

    pub fn name(self) -> (r: &'static str)
        ensures
            r@ == self.spec_name(),
    {
        match self {
            CanonicalRotation::Upright => "upright",
            CanonicalRotation::Clockwise => "clockwise",
            CanonicalRotation::UpsideDown => "upside down",
            CanonicalRotation::CounterClockwise => "counterclockwise",
        }
    }
}

impl Default for CanonicalRotation {
    fn default() -> (r: CanonicalRotation)
        ensures
            r == CanonicalRotation::Upright,
    {
        CanonicalRotation::Upright
    }
}

/// An index and the orientation it stands for determine each other.
pub proof fn lemma_rotation_codes(rotation: CanonicalRotation, code: u8)
    ensures
        CanonicalRotation::spec_from_primitive(rotation.spec_code()) == rotation,
        code <= 3 ==> CanonicalRotation::spec_from_primitive(code).spec_code() == code,
        code > 3 ==> CanonicalRotation::spec_from_primitive(code) == CanonicalRotation::Upright,
{
}

/// What a screenshot asks the driver for.
#[derive(Debug, Clone, Copy, PartialEq, Eq, Structural)]
pub enum CaptureRequest {
    /// Capture this region into a buffer.
    Direct { x: i16, y: i16, width: u16, height: u16 },
    /// Have the kernel write its working buffer to a bitmap file, to be read
    /// under the given native rotation code.
    Indirect { rota: u8 },
}

/// The state of the display. Where the driver has a code of its own for a
/// value, the code is held as it came.
#[derive(Debug, Clone)]
pub struct FbInkState {
    pub user_hz: i64,
    pub font_name: String,
    pub view_width: u32,
    pub view_height: u32,
    pub screen_width: u32,
    pub screen_height: u32,
    pub scanline_stride: u32,
    pub bpp: u32,
    pub inverted_grayscale: bool,
    pub device_name: String,
    pub device_codename: String,
    pub device_platform: String,
    pub device_id: u16,
    pub pen_fg_color: u8,
    pub pen_bg_color: u8,
    pub screen_dpi: u16,
    pub font_w: u16,
    pub font_h: u16,
    pub max_cols: u16,
    pub max_rows: u16,
    pub view_hori_origin: u8,
    pub view_vert_origin: u8,
    pub view_vert_offset: u8,
    pub fontsize_mult: u8,
    pub glyph_width: u8,
    pub glyph_height: u8,
    pub is_perfect_fit: bool,
    pub is_mtk: bool,
    pub is_sunxi: bool,
    pub sunxi_has_fbdamage: bool,
    pub sunxi_force_rota: i8,
    pub is_kindle_legacy: bool,
    pub is_kobo_non_mt: bool,
    pub unreliable_wait_for: bool,
    pub can_wake_epdc: bool,
    pub ntx_boot_rota: u8,
    pub ntx_rota_quirk: u8,
    pub rotation_map: [u8; 4],
    pub touch_swap_axes: bool,
    pub touch_mirror_x: bool,
    pub touch_mirror_y: bool,
    pub is_ntx_quirky_landscape: bool,
    pub current_rota: u8,
    pub can_rotate: bool,
    pub can_hw_invert: bool,
    pub has_eclipse_wfm: bool,
    pub has_color_panel: bool,
    pub pixel_format: u8,
    pub can_wait_for_submission: bool,
}

impl FbInkState {
    /// The orientation of the display, given the driver's answer to the
    /// translation of `current_rota`. Where the driver has no translation for
    /// this device, or answers with anything but a rotation, the native code
    /// itself is taken for the canonical index.
    pub open spec fn spec_canonical_rotation(&self, translated: u8) -> CanonicalRotation {
        match rotation_of(translated as i32) {
            Ok(_) => CanonicalRotation::spec_from_primitive(translated),
            Err(_) => CanonicalRotation::spec_from_primitive(self.current_rota),
        }
    }

    /// The region that a screenshot captures: the visible part of the
    /// display, its dimensions cut to 16 bits, or the kernel's working buffer
    /// on the SoC family that has no buffer to capture from.
    pub open spec fn spec_screenshot_request(&self) -> CaptureRequest {
        if self.is_sunxi {
            CaptureRequest::Indirect { rota: self.current_rota }
        } else {
            CaptureRequest::Direct {
                x: 0,
                y: 0,
                width: (self.view_width % 0x1_0000) as u16,
                height: (self.view_height % 0x1_0000) as u16,
            }
        }
    }

    /// One line that names the device: the model, or the name that the
    /// device reports where the model is not known, then the device's number,
    /// platform and code name.
    pub open spec fn spec_device_details(&self, model: Option<Seq<char>>) -> Seq<char> {
        let name = match model {
            Some(known) => known,
            None => self.device_name@,
        };
        name + " ("@ + decimal(self.device_id as nat) + " => "@ + self.device_platform@ + " @ "@
            + self.device_codename@ + ")"@
    }

    pub fn canonical_rotation(&self, translated: u8) -> (r: CanonicalRotation)
        ensures
            r == self.spec_canonical_rotation(translated),
    {
        match fbink_rota_native_to_canonical(translated) {
            Ok(rotation) => CanonicalRotation::from_primitive(rotation),
            Err(_) => CanonicalRotation::from_primitive(self.current_rota),
        }
    }

    pub fn screenshot_request(&self) -> (r: CaptureRequest)
        ensures
            r == self.spec_screenshot_request(),
    {
        if self.is_sunxi {
            CaptureRequest::Indirect { rota: self.current_rota }
        } else {
            CaptureRequest::Direct {
                x: 0,
                y: 0,
                width: (self.view_width % 0x1_0000) as u16,
                height: (self.view_height % 0x1_0000) as u16,
            }
        }
    }

    /// `model` is the name of the device's model where the number of the
    /// device is a known one.
    pub fn device_details(&self, model: Option<&str>) -> (r: String)
        ensures
            r@ == self.spec_device_details(
                match model {
                    Some(known) => Some(known@),
                    None => None,
                },
            ),
    {
        let mut text = match model {
            Some(known) => known.to_owned(),
            None => self.device_name.clone(),
        };
        text.append(" (");
        let number = decimal_text(self.device_id as u32);
        text.append(number.as_str());
        text.append(" => ");
        text.append(self.device_platform.as_str());
        text.append(" @ ");
        text.append(self.device_codename.as_str());
        text.append(")");
        text
    }
}

} // verus!
