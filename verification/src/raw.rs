//! The enumerated tags of the kernel's mode-setting interface, together with
//! the numeric codes under which the kernel transmits them.
//!
//! Explicit discriminants are avoided on purpose: each enum carries a pair of
//! total, mutually inverse functions between tags and codes, so that decoding
//! a hardware-supplied word is an ordinary, specified operation.

use vstd::prelude::*;

verus! {

/// Classification bits of a display mode. Each tag stands for a mask; a mode
/// "has" a tag when all bits of that mask are set in its type word.
#[derive(Clone, Copy, Debug, PartialEq, Eq, Structural)]
pub enum drm_mode_type {
    /// The mode is built into the driver.
    Builtin,
    /// The mode's clock is constant (carries the builtin bit as well).
    ClockC,
    /// The mode's CRTC timings are constant (carries the builtin bit as well).
    CrtcC,
    /// The sink reports this mode as the preferred one.
    Preferred,
    /// The default mode of the sink.
    Default,
    /// The mode was supplied by the user.
    UserDef,
    /// The mode was generated by the driver.
    Driver,
}

impl drm_mode_type {
    /// The bitmask a classification tag stands for.
    pub open spec fn spec_mask(self) -> u32 {
        match self {
            drm_mode_type::Builtin => 0x01,
            drm_mode_type::ClockC => 0x03,
            drm_mode_type::CrtcC => 0x05,
            drm_mode_type::Preferred => 0x08,
            drm_mode_type::Default => 0x10,
            drm_mode_type::UserDef => 0x20,
            drm_mode_type::Driver => 0x40,
        }
    }

    /// Returns the bitmask this classification tag stands for.
    pub fn mask(self) -> (r: u32)
        ensures
            r == self.spec_mask(),
    {
        match self {
            drm_mode_type::Builtin => 0x01,
            drm_mode_type::ClockC => 0x03,
            drm_mode_type::CrtcC => 0x05,
            drm_mode_type::Preferred => 0x08,
            drm_mode_type::Default => 0x10,
            drm_mode_type::UserDef => 0x20,
            drm_mode_type::Driver => 0x40,
        }
    }
}

/// The kind of object a property query addresses.
#[derive(Clone, Copy, Debug, PartialEq, Eq, Structural)]
pub enum drm_mode_object_type {
    /// Any object kind.
    Any,
    /// A property object.
    Property,
    /// A blob object.
    Blob,
    /// A connector.
    Connector,
    /// A CRTC.
    Crtc,
    /// A mode object.
    Mode,
    /// An encoder.
    Encoder,
    /// A plane.
    Plane,
    /// A framebuffer.
    Fb,
}

impl drm_mode_object_type {
    /// The magic word the kernel uses for an object kind.
    pub open spec fn spec_value(self) -> u32 {
        match self {
            drm_mode_object_type::Any => 0,
            drm_mode_object_type::Property => 0xb0b0b0b0,
            drm_mode_object_type::Blob => 0xbbbbbbbb,
            drm_mode_object_type::Connector => 0xc0c0c0c0,
            drm_mode_object_type::Crtc => 0xcccccccc,
            drm_mode_object_type::Mode => 0xdededede,
            drm_mode_object_type::Encoder => 0xe0e0e0e0,
            drm_mode_object_type::Plane => 0xeeeeeeee,
            drm_mode_object_type::Fb => 0xfbfbfbfb,
        }
    }

    /// Returns the numeric word transmitted for this object kind.
    pub fn value(self) -> (r: u32)
        ensures
            r == self.spec_value(),
    {
        match self {
            drm_mode_object_type::Any => 0,
            drm_mode_object_type::Property => 0xb0b0b0b0,
            drm_mode_object_type::Blob => 0xbbbbbbbb,
            drm_mode_object_type::Connector => 0xc0c0c0c0,
            drm_mode_object_type::Crtc => 0xcccccccc,
            drm_mode_object_type::Mode => 0xdededede,
            drm_mode_object_type::Encoder => 0xe0e0e0e0,
            drm_mode_object_type::Plane => 0xeeeeeeee,
            drm_mode_object_type::Fb => 0xfbfbfbfb,
        }
    }
}

/// Whether a connector currently drives a sink.
#[derive(Clone, Copy, Debug, PartialEq, Eq, Structural)]
pub enum drm_connector_status {
    /// The connector is connected to a sink and can be enabled.
    Connected,
    /// The connector has not detected a sink. Whether it can be enabled
    /// anyway is driver-dependent.
    Disconnected,
    /// The status could not reliably be determined. The connector can be
    /// enabled with a fallback mode.
    Unknown,
}

impl drm_connector_status {
    /// The numeric code the kernel reports for a status.
    pub open spec fn spec_value(self) -> u32 {
        match self {
            drm_connector_status::Connected => 1,
            drm_connector_status::Disconnected => 2,
            drm_connector_status::Unknown => 3,
        }
    }

    /// The status a reported code stands for, if any.
    pub open spec fn spec_from_value(v: u32) -> Option<drm_connector_status> {
        if v == 1 {
            Some(drm_connector_status::Connected)
        } else if v == 2 {
            Some(drm_connector_status::Disconnected)
        } else if v == 3 {
            Some(drm_connector_status::Unknown)
        } else {
            None
        }
    }

    /// Returns the numeric code of this status.
    pub fn value(self) -> (r: u32)
        ensures
            r == self.spec_value(),
    {
        match self {
            drm_connector_status::Connected => 1,
            drm_connector_status::Disconnected => 2,
            drm_connector_status::Unknown => 3,
        }
    }

    /// Decodes a reported status code; out-of-range codes yield `None`.
    pub fn from_value(v: u32) -> (r: Option<drm_connector_status>)
        ensures
            r == Self::spec_from_value(v),
    {
        if v == 1 {
            Some(drm_connector_status::Connected)
        } else if v == 2 {
            Some(drm_connector_status::Disconnected)
        } else if v == 3 {
            Some(drm_connector_status::Unknown)
        } else {
            None
        }
    }
}

/// The physical kind of a connector.
#[derive(Clone, Copy, Debug, PartialEq, Eq, Structural)]
pub enum drm_mode_connector_type {
    /// The connector kind could not be determined.
    Unknown,
    /// A VGA DE-15 connector.
    VGA,
    /// A DVI-I connector.
    DVII,
    /// A DVI-D connector.
    DVID,
    /// A DVI-A connector.
    DVIA,
    /// An RCA connector carrying a CVBS signal.
    Composite,
    /// An S-Video connector.
    SVIDEO,
    /// An LVDS connector.
    LVDS,
    /// A component connector.
    Component,
    /// A mini-DIN-9 connector.
    MiniDin9,
    /// A DisplayPort connector.
    DisplayPort,
    /// An HDMI-A connector.
    HDMIA,
    /// An HDMI-B connector.
    HDMIB,
    /// A TV connector.
    TV,
    /// An embedded DisplayPort connector.
    EDP,
    /// A virtual connector.
    Virtual,
    /// A MIPI-DSI connector.
    DSI,
    /// A MIPI-DPI connector.
    DPI,
    /// A writeback connector.
    Writeback,
    /// An SPI-based display connector.
    SPI,
}

impl drm_mode_connector_type {
    /// The numeric code the kernel reports for a connector kind.
    pub open spec fn spec_value(self) -> u32 {
        match self {
            drm_mode_connector_type::Unknown => 0,
            drm_mode_connector_type::VGA => 1,
            drm_mode_connector_type::DVII => 2,
            drm_mode_connector_type::DVID => 3,
            drm_mode_connector_type::DVIA => 4,
            drm_mode_connector_type::Composite => 5,
            drm_mode_connector_type::SVIDEO => 6,
            drm_mode_connector_type::LVDS => 7,
            drm_mode_connector_type::Component => 8,
            drm_mode_connector_type::MiniDin9 => 9,
            drm_mode_connector_type::DisplayPort => 10,
            drm_mode_connector_type::HDMIA => 11,
            drm_mode_connector_type::HDMIB => 12,
            drm_mode_connector_type::TV => 13,
            drm_mode_connector_type::EDP => 14,
            drm_mode_connector_type::Virtual => 15,
            drm_mode_connector_type::DSI => 16,
            drm_mode_connector_type::DPI => 17,
            drm_mode_connector_type::Writeback => 18,
            drm_mode_connector_type::SPI => 19,
        }
    }

    /// The connector kind a reported code stands for, if any.
    pub open spec fn spec_from_value(v: u32) -> Option<drm_mode_connector_type> {
        if v == 0 {
            Some(drm_mode_connector_type::Unknown)
        } else if v == 1 {
            Some(drm_mode_connector_type::VGA)
        } else if v == 2 {
            Some(drm_mode_connector_type::DVII)
        } else if v == 3 {
            Some(drm_mode_connector_type::DVID)
        } else if v == 4 {
            Some(drm_mode_connector_type::DVIA)
        } else if v == 5 {
            Some(drm_mode_connector_type::Composite)
        } else if v == 6 {
            Some(drm_mode_connector_type::SVIDEO)
        } else if v == 7 {
            Some(drm_mode_connector_type::LVDS)
        } else if v == 8 {
            Some(drm_mode_connector_type::Component)
        } else if v == 9 {
            Some(drm_mode_connector_type::MiniDin9)
        } else if v == 10 {
            Some(drm_mode_connector_type::DisplayPort)
        } else if v == 11 {
            Some(drm_mode_connector_type::HDMIA)
        } else if v == 12 {
            Some(drm_mode_connector_type::HDMIB)
        } else if v == 13 {
            Some(drm_mode_connector_type::TV)
        } else if v == 14 {
            Some(drm_mode_connector_type::EDP)
        } else if v == 15 {
            Some(drm_mode_connector_type::Virtual)
        } else if v == 16 {
            Some(drm_mode_connector_type::DSI)
        } else if v == 17 {
            Some(drm_mode_connector_type::DPI)
        } else if v == 18 {
            Some(drm_mode_connector_type::Writeback)
        } else if v == 19 {
            Some(drm_mode_connector_type::SPI)
        } else {
            None
        }
    }

    /// Returns the numeric code of this connector kind.
    pub fn value(self) -> (r: u32)
        ensures
            r == self.spec_value(),
    {
        match self {
            drm_mode_connector_type::Unknown => 0,
            drm_mode_connector_type::VGA => 1,
            drm_mode_connector_type::DVII => 2,
            drm_mode_connector_type::DVID => 3,
            drm_mode_connector_type::DVIA => 4,
            drm_mode_connector_type::Composite => 5,
            drm_mode_connector_type::SVIDEO => 6,
            drm_mode_connector_type::LVDS => 7,
            drm_mode_connector_type::Component => 8,
            drm_mode_connector_type::MiniDin9 => 9,
            drm_mode_connector_type::DisplayPort => 10,
            drm_mode_connector_type::HDMIA => 11,
            drm_mode_connector_type::HDMIB => 12,
            drm_mode_connector_type::TV => 13,
            drm_mode_connector_type::EDP => 14,
            drm_mode_connector_type::Virtual => 15,
            drm_mode_connector_type::DSI => 16,
            drm_mode_connector_type::DPI => 17,
            drm_mode_connector_type::Writeback => 18,
            drm_mode_connector_type::SPI => 19,
        }
    }

    /// Decodes a reported connector-kind code; unknown codes yield `None`.
    pub fn from_value(v: u32) -> (r: Option<drm_mode_connector_type>)
        ensures
            r == Self::spec_from_value(v),
    {
        if v == 0 {
            Some(drm_mode_connector_type::Unknown)
        } else if v == 1 {
            Some(drm_mode_connector_type::VGA)
        } else if v == 2 {
            Some(drm_mode_connector_type::DVII)
        } else if v == 3 {
            Some(drm_mode_connector_type::DVID)
        } else if v == 4 {
            Some(drm_mode_connector_type::DVIA)
        } else if v == 5 {
            Some(drm_mode_connector_type::Composite)
        } else if v == 6 {
            Some(drm_mode_connector_type::SVIDEO)
        } else if v == 7 {
            Some(drm_mode_connector_type::LVDS)
        } else if v == 8 {
            Some(drm_mode_connector_type::Component)
        } else if v == 9 {
            Some(drm_mode_connector_type::MiniDin9)
        } else if v == 10 {
            Some(drm_mode_connector_type::DisplayPort)
        } else if v == 11 {
            Some(drm_mode_connector_type::HDMIA)
        } else if v == 12 {
            Some(drm_mode_connector_type::HDMIB)
        } else if v == 13 {
            Some(drm_mode_connector_type::TV)
        } else if v == 14 {
            Some(drm_mode_connector_type::EDP)
        } else if v == 15 {
            Some(drm_mode_connector_type::Virtual)
        } else if v == 16 {
            Some(drm_mode_connector_type::DSI)
        } else if v == 17 {
            Some(drm_mode_connector_type::DPI)
        } else if v == 18 {
            Some(drm_mode_connector_type::Writeback)
        } else if v == 19 {
            Some(drm_mode_connector_type::SPI)
        } else {
            None
        }
    }

    /// The human-readable name of a connector kind.
    pub open spec fn spec_label(self) -> Seq<char> {
        match self {
            drm_mode_connector_type::Unknown => "Unknown"@,
            drm_mode_connector_type::VGA => "VGA"@,
            drm_mode_connector_type::DVII => "DVI-I"@,
            drm_mode_connector_type::DVID => "DVI-D"@,
            drm_mode_connector_type::DVIA => "DVI-A"@,
            drm_mode_connector_type::Composite => "Composite"@,
            drm_mode_connector_type::SVIDEO => "S-VIDEO"@,
            drm_mode_connector_type::LVDS => "LVDS"@,
            drm_mode_connector_type::Component => "Component"@,
            drm_mode_connector_type::MiniDin9 => "MiniDin9"@,
            drm_mode_connector_type::DisplayPort => "DisplayPort"@,
            drm_mode_connector_type::HDMIA => "HDMI-A"@,
            drm_mode_connector_type::HDMIB => "HDMI-B"@,
            drm_mode_connector_type::TV => "TV"@,
            drm_mode_connector_type::EDP => "eDP"@,
            drm_mode_connector_type::Virtual => "Virtual"@,
            drm_mode_connector_type::DSI => "DSI"@,
            drm_mode_connector_type::DPI => "DPI"@,
            drm_mode_connector_type::Writeback => "Writeback"@,
            drm_mode_connector_type::SPI => "SPI"@,
        }
    }

    /// Returns the human-readable name of this connector kind.
    pub fn label(self) -> (r: String)
        ensures
            r@ == self.spec_label(),
    {
        match self {
            drm_mode_connector_type::Unknown => "Unknown".to_owned(),
            drm_mode_connector_type::VGA => "VGA".to_owned(),
            drm_mode_connector_type::DVII => "DVI-I".to_owned(),
            drm_mode_connector_type::DVID => "DVI-D".to_owned(),
            drm_mode_connector_type::DVIA => "DVI-A".to_owned(),
            drm_mode_connector_type::Composite => "Composite".to_owned(),
            drm_mode_connector_type::SVIDEO => "S-VIDEO".to_owned(),
            drm_mode_connector_type::LVDS => "LVDS".to_owned(),
            drm_mode_connector_type::Component => "Component".to_owned(),
            drm_mode_connector_type::MiniDin9 => "MiniDin9".to_owned(),
            drm_mode_connector_type::DisplayPort => "DisplayPort".to_owned(),
            drm_mode_connector_type::HDMIA => "HDMI-A".to_owned(),
            drm_mode_connector_type::HDMIB => "HDMI-B".to_owned(),
            drm_mode_connector_type::TV => "TV".to_owned(),
            drm_mode_connector_type::EDP => "eDP".to_owned(),
            drm_mode_connector_type::Virtual => "Virtual".to_owned(),
            drm_mode_connector_type::DSI => "DSI".to_owned(),
            drm_mode_connector_type::DPI => "DPI".to_owned(),
            drm_mode_connector_type::Writeback => "Writeback".to_owned(),
            drm_mode_connector_type::SPI => "SPI".to_owned(),
        }
    }
}

/// The signal-conversion stage an encoder implements.
#[derive(Clone, Copy, Debug, PartialEq, Eq, Structural)]
pub enum drm_mode_encoder_type {
    /// No encoder stage.
    NoEncoder,
    /// A digital-to-analog converter.
    DAC,
    /// A TMDS transmitter.
    TMDS,
    /// An LVDS transmitter.
    LVDS,
    /// A DAC feeding a TV output.
    TVDAC,
    /// A virtual encoder.
    Virtual,
    /// A MIPI-DSI encoder.
    DSI,
    /// A DisplayPort multi-stream encoder.
    DPMST,
    /// A MIPI-DPI encoder.
    DPI,
}

impl drm_mode_encoder_type {
    /// The numeric code the kernel reports for an encoder kind.
    pub open spec fn spec_value(self) -> u32 {
        match self {
            drm_mode_encoder_type::NoEncoder => 0,
            drm_mode_encoder_type::DAC => 1,
            drm_mode_encoder_type::TMDS => 2,
            drm_mode_encoder_type::LVDS => 3,
            drm_mode_encoder_type::TVDAC => 4,
            drm_mode_encoder_type::Virtual => 5,
            drm_mode_encoder_type::DSI => 6,
            drm_mode_encoder_type::DPMST => 7,
            drm_mode_encoder_type::DPI => 8,
        }
    }

    /// The encoder kind a reported code stands for, if any.
    pub open spec fn spec_from_value(v: u32) -> Option<drm_mode_encoder_type> {
        if v == 0 {
            Some(drm_mode_encoder_type::NoEncoder)
        } else if v == 1 {
            Some(drm_mode_encoder_type::DAC)
        } else if v == 2 {
            Some(drm_mode_encoder_type::TMDS)
        } else if v == 3 {
            Some(drm_mode_encoder_type::LVDS)
        } else if v == 4 {
            Some(drm_mode_encoder_type::TVDAC)
        } else if v == 5 {
            Some(drm_mode_encoder_type::Virtual)
        } else if v == 6 {
            Some(drm_mode_encoder_type::DSI)
        } else if v == 7 {
            Some(drm_mode_encoder_type::DPMST)
        } else if v == 8 {
            Some(drm_mode_encoder_type::DPI)
        } else {
            None
        }
    }

    /// Returns the numeric code of this encoder kind.
    pub fn value(self) -> (r: u32)
        ensures
            r == self.spec_value(),
    {
        match self {
            drm_mode_encoder_type::NoEncoder => 0,
            drm_mode_encoder_type::DAC => 1,
            drm_mode_encoder_type::TMDS => 2,
            drm_mode_encoder_type::LVDS => 3,
            drm_mode_encoder_type::TVDAC => 4,
            drm_mode_encoder_type::Virtual => 5,
            drm_mode_encoder_type::DSI => 6,
            drm_mode_encoder_type::DPMST => 7,
            drm_mode_encoder_type::DPI => 8,
        }
    }

    /// Decodes a reported encoder-kind code; unknown codes yield `None`.
    pub fn from_value(v: u32) -> (r: Option<drm_mode_encoder_type>)
        ensures
            r == Self::spec_from_value(v),
    {
        if v == 0 {
            Some(drm_mode_encoder_type::NoEncoder)
        } else if v == 1 {
            Some(drm_mode_encoder_type::DAC)
        } else if v == 2 {
            Some(drm_mode_encoder_type::TMDS)
        } else if v == 3 {
            Some(drm_mode_encoder_type::LVDS)
        } else if v == 4 {
            Some(drm_mode_encoder_type::TVDAC)
        } else if v == 5 {
            Some(drm_mode_encoder_type::Virtual)
        } else if v == 6 {
            Some(drm_mode_encoder_type::DSI)
        } else if v == 7 {
            Some(drm_mode_encoder_type::DPMST)
        } else if v == 8 {
            Some(drm_mode_encoder_type::DPI)
        } else {
            None
        }
    }
}

} // verus!
