use vstd::prelude::*;

verus! {

/// Connector type codes, as the kernel reports them in a connector's
/// `connector_type` field.
pub const DRM_MODE_CONNECTOR_UNKNOWN: u32 = 0;
pub const DRM_MODE_CONNECTOR_VGA: u32 = 1;
pub const DRM_MODE_CONNECTOR_DVII: u32 = 2;
pub const DRM_MODE_CONNECTOR_DVID: u32 = 3;
pub const DRM_MODE_CONNECTOR_DVIA: u32 = 4;
pub const DRM_MODE_CONNECTOR_COMPOSITE: u32 = 5;
pub const DRM_MODE_CONNECTOR_SVIDEO: u32 = 6;
pub const DRM_MODE_CONNECTOR_LVDS: u32 = 7;
pub const DRM_MODE_CONNECTOR_COMPONENT: u32 = 8;
pub const DRM_MODE_CONNECTOR_9PINDIN: u32 = 9;
pub const DRM_MODE_CONNECTOR_DISPLAYPORT: u32 = 10;
pub const DRM_MODE_CONNECTOR_HDMIA: u32 = 11;
pub const DRM_MODE_CONNECTOR_HDMIB: u32 = 12;
pub const DRM_MODE_CONNECTOR_TV: u32 = 13;
pub const DRM_MODE_CONNECTOR_EDP: u32 = 14;
pub const DRM_MODE_CONNECTOR_VIRTUAL: u32 = 15;
pub const DRM_MODE_CONNECTOR_DSI: u32 = 16;

/// A connector's connection state.
#[derive(Clone, Copy, Debug, PartialEq, Eq, Structural)]
pub enum Connection {
    Connected,
    Disconnected,
    Unknown,
}

/// A connector's subpixel layout.
#[derive(Clone, Copy, Debug, PartialEq, Eq, Structural)]
pub enum SubPixel {
    Unknown,
    HorizontalRgb,
    HorizontalBgr,
    VerticalRgb,
    VerticalBgr,
    NoSubpixels,
}

/// One supported display timing of a connector: the visible resolution and
/// the refresh rate.
#[derive(Clone, Copy, Debug, PartialEq, Eq, Structural)]
pub struct ModeInfo {
    pub hdisplay: u16,
    pub vdisplay: u16,
    pub vrefresh: u32,
}

/// A connector as the kernel reports it: one physical display output with
/// its type, connection state, physical size, supported modes and attached
/// properties.
///
/// The caller copies each field out of the kernel's connector query before
/// the reply is released. `props` and `prop_values` are parallel lists: the
/// kernel reports one value per property id.
pub struct Connector {
    pub connector_id: u32,
    /// Id of the encoder currently driving this connector.
    pub encoder_id: u32,
    /// One of the `DRM_MODE_CONNECTOR_*` codes.
    pub connector_type: u32,
    pub connection: Connection,
    /// Physical width in millimeters.
    pub mm_width: u32,
    /// Physical height in millimeters.
    pub mm_height: u32,
    pub subpixel: SubPixel,
    pub modes: Vec<ModeInfo>,
    /// Ids of the properties attached to this connector.
    pub props: Vec<u32>,
    /// Current value of each property in `props`, in the same order.
    pub prop_values: Vec<u64>,
    /// How many encoders could drive this connector.
    pub count_encoders: u32,
}

impl Connector {
    /// Whether a display is attached: the kernel reported the connected state.
    pub fn connected(&self) -> (r: bool)
        ensures
            r == (self.connection is Connected),
    {
        match self.connection {
            Connection::Connected => true,
            _ => false,
        }
    }

    /// The supported modes, in the order the kernel reported them.
    pub fn modes(&self) -> (r: &Vec<ModeInfo>)
        ensures
            r@ == self.modes@,
    {
        &self.modes
    }

    /// The attached property ids, in the order the kernel reported them.
    pub fn property_ids(&self) -> (r: &Vec<u32>)
        ensures
            r@ == self.props@,
    {
        &self.props
    }

    /// Pairs each property id with its reported value, position by position.
    /// The kernel reports the two lists with equal length; should they
    /// differ, the pairing stops at the shorter one.
    pub fn property_id_value_pairs(&self) -> (r: Vec<(u32, u64)>)
        ensures
            r@.len() == if self.props@.len() <= self.prop_values@.len() {
                self.props@.len()
            } else {
                self.prop_values@.len()
            },
            forall|j: int|
                0 <= j < r@.len() ==> r@[j] == (self.props@[j], self.prop_values@[j]),
    {
        let n: usize = if self.props.len() <= self.prop_values.len() {
            self.props.len()
        } else {
            self.prop_values.len()
        };
        let mut pairs: Vec<(u32, u64)> = Vec::new();
        let mut i: usize = 0;
        while i < n
            invariant
                i <= n,
                n <= self.props@.len(),
                n <= self.prop_values@.len(),
                pairs@.len() == i,
                forall|j: int|
                    0 <= j < i ==> pairs@[j] == (self.props@[j], self.prop_values@[j]),
            decreases n - i,
        {
            pairs.push((self.props[i], self.prop_values[i]));
            i = i + 1;
        }
        pairs
    }
}

/// The label that `connector_type_str` owes for each connector type code.
pub open spec fn spec_connector_type_str(t: u32) -> Seq<char> {
    if t == DRM_MODE_CONNECTOR_UNKNOWN {
        "unknown"@
    } else if t == DRM_MODE_CONNECTOR_VGA {
        "vga"@
    } else if t == DRM_MODE_CONNECTOR_DVII {
        "dvi-i"@
    } else if t == DRM_MODE_CONNECTOR_DVID {
        "dvi-d"@
    } else if t == DRM_MODE_CONNECTOR_DVIA {
        "dvi-a"@
    } else if t == DRM_MODE_CONNECTOR_COMPOSITE {
        "composite"@
    } else if t == DRM_MODE_CONNECTOR_SVIDEO {
        "s-video"@
    } else if t == DRM_MODE_CONNECTOR_LVDS {
        "lvds"@
    } else if t == DRM_MODE_CONNECTOR_COMPONENT {
        "component"@
    } else if t == DRM_MODE_CONNECTOR_9PINDIN {
        "9 pin din"@
    } else if t == DRM_MODE_CONNECTOR_DISPLAYPORT {
        "displayport"@
    } else if t == DRM_MODE_CONNECTOR_HDMIA {
        "hdmi a"@
    } else if t == DRM_MODE_CONNECTOR_HDMIB {
        "hdmi b"@
    } else if t == DRM_MODE_CONNECTOR_TV {
        "tv"@
    } else if t == DRM_MODE_CONNECTOR_EDP {
        "edp"@
    } else if t == DRM_MODE_CONNECTOR_VIRTUAL {
        "virtual"@
    } else if t == DRM_MODE_CONNECTOR_DSI {
        "dsi"@
    } else {
        "-- invalid --"@
    }
}

/// A human-readable label for the connector's type code.
pub fn connector_type_str(connector: &Connector) -> (r: &'static str)
    ensures
        r@ == spec_connector_type_str(connector.connector_type),
{
    let t = connector.connector_type;
    if t == DRM_MODE_CONNECTOR_UNKNOWN {
        "unknown"
    } else if t == DRM_MODE_CONNECTOR_VGA {
        "vga"
    } else if t == DRM_MODE_CONNECTOR_DVII {
        "dvi-i"
    } else if t == DRM_MODE_CONNECTOR_DVID {
        "dvi-d"
    } else if t == DRM_MODE_CONNECTOR_DVIA {
        "dvi-a"
    } else if t == DRM_MODE_CONNECTOR_COMPOSITE {
        "composite"
    } else if t == DRM_MODE_CONNECTOR_SVIDEO {
        "s-video"
    } else if t == DRM_MODE_CONNECTOR_LVDS {
        "lvds"
    } else if t == DRM_MODE_CONNECTOR_COMPONENT {
        "component"
    } else if t == DRM_MODE_CONNECTOR_9PINDIN {
        "9 pin din"
    } else if t == DRM_MODE_CONNECTOR_DISPLAYPORT {
        "displayport"
    } else if t == DRM_MODE_CONNECTOR_HDMIA {
        "hdmi a"
    } else if t == DRM_MODE_CONNECTOR_HDMIB {
        "hdmi b"
    } else if t == DRM_MODE_CONNECTOR_TV {
        "tv"
    } else if t == DRM_MODE_CONNECTOR_EDP {
        "edp"
    } else if t == DRM_MODE_CONNECTOR_VIRTUAL {
        "virtual"
    } else if t == DRM_MODE_CONNECTOR_DSI {
        "dsi"
    } else {
        "-- invalid --"
    }
}

/// The label that `connector_connection_str` owes for each connection state.
pub open spec fn spec_connection_str(c: Connection) -> Seq<char> {
    match c {
        Connection::Connected => "connected"@,
        Connection::Disconnected => "disconnected"@,
        Connection::Unknown => "unknown"@,
    }
}

/// A human-readable label for the connector's connection state.
pub fn connector_connection_str(connector: &Connector) -> (r: &'static str)
    ensures
        r@ == spec_connection_str(connector.connection),
{
    match connector.connection {
        Connection::Connected => "connected",
        Connection::Disconnected => "disconnected",
        Connection::Unknown => "unknown",
    }
}

/// The label that `connector_subpixel_str` owes for each subpixel layout.
pub open spec fn spec_subpixel_str(s: SubPixel) -> Seq<char> {
    match s {
        SubPixel::Unknown => "unknown"@,
        SubPixel::HorizontalRgb => "horizontal rgb"@,
        SubPixel::HorizontalBgr => "horizontal bgr"@,
        SubPixel::VerticalRgb => "vertical rgb"@,
        SubPixel::VerticalBgr => "vertical bgr"@,
        SubPixel::NoSubpixels => "none"@,
    }
}

/// A human-readable label for the connector's subpixel layout.
pub fn connector_subpixel_str(connector: &Connector) -> (r: &'static str)
    ensures
        r@ == spec_subpixel_str(connector.subpixel),
{
    match connector.subpixel {
        SubPixel::Unknown => "unknown",
        SubPixel::HorizontalRgb => "horizontal rgb",
        SubPixel::HorizontalBgr => "horizontal bgr",
        SubPixel::VerticalRgb => "vertical rgb",
        SubPixel::VerticalBgr => "vertical bgr",
        SubPixel::NoSubpixels => "none",
    }
}

} // verus!
