//! The protocol data model: a device, its payloads in both directions, and
//! the typed segments that a payload is made of.

use vstd::prelude::*;

verus! {

/// The view of an optional string.
pub open spec fn opt_view(text: Option<String>) -> Option<Seq<char>> {
    match text {
        Some(t) => Some(t@),
        None => None,
    }
}

/// One contiguous, typed piece of a payload.
#[derive(Debug, Clone, PartialEq, Eq)]
pub enum PacketSegment {
    /// A piece of fixed width.
    Sized { name: String, bits: u32, datatype: String, description: Option<String> },
    /// A piece of variable width, ended as `termination` says.
    Unsized {
        name: String,
        termination: Option<String>,
        datatype: String,
        description: Option<String>,
    },
    /// A reference, by name, to a reusable struct that is defined elsewhere.
    Struct { name: String, struct_name: String },
}

/// The mathematical value of a `PacketSegment`.
pub enum SegmentView {
    Sized { name: Seq<char>, bits: u32, datatype: Seq<char>, description: Option<Seq<char>> },
    Unsized {
        name: Seq<char>,
        termination: Option<Seq<char>>,
        datatype: Seq<char>,
        description: Option<Seq<char>>,
    },
    Struct { name: Seq<char>, struct_name: Seq<char> },
}

impl View for PacketSegment {
    type V = SegmentView;

    open spec fn view(&self) -> SegmentView {
        match *self {
            PacketSegment::Sized { name, bits, datatype, description } => SegmentView::Sized {
                name: name@,
                bits,
                datatype: datatype@,
                description: opt_view(description),
            },
            PacketSegment::Unsized {
                name,
                termination,
                datatype,
                description,
            } => SegmentView::Unsized {
                name: name@,
                termination: opt_view(termination),
                datatype: datatype@,
                description: opt_view(description),
            },
            PacketSegment::Struct { name, struct_name } => SegmentView::Struct {
                name: name@,
                struct_name: struct_name@,
            },
        }
    }
}

impl DeepView for PacketSegment {
    type V = SegmentView;

    open spec fn deep_view(&self) -> SegmentView {
        self@
    }
}

impl SegmentView {
    /// The name under which the segment is shown.
    pub open spec fn display_name(self) -> Seq<char> {
        match self {
            SegmentView::Sized { name, .. } => name,
            SegmentView::Unsized { name, .. } => name,
            SegmentView::Struct { name, .. } => name,
        }
    }

    /// The bits that the segment adds to its payload's layout: its width
    /// where it is sized, nothing known otherwise.
    pub open spec fn layout_width(self) -> Option<u32> {
        match self {
            SegmentView::Sized { bits, .. } => Some(bits),
            SegmentView::Unsized { .. } => None,
            SegmentView::Struct { .. } => None,
        }
    }

    /// A segment is well formed when it has a name and, where it is sized, a
    /// positive width.
    pub open spec fn wf(self) -> bool {
        &&& self.display_name().len() > 0
        &&& self matches SegmentView::Sized { bits, .. } ==> bits > 0
    }
}

impl PacketSegment {
    /// The name under which the segment is shown. It is not empty where the
    /// segment is well formed.
    pub fn get_name(&self) -> (name: &String)
        ensures
            name@ == self@.display_name(),
            self@.wf() ==> name@.len() > 0,
    {
        match self {
            PacketSegment::Sized { name, .. } => name,
            PacketSegment::Unsized { name, .. } => name,
            PacketSegment::Struct { name, .. } => name,
        }
    }

    /// The width that the segment's block is laid out from.
    pub fn layout_width(&self) -> (width: Option<u32>)
        ensures
            width == self@.layout_width(),
    {
        match self {
            PacketSegment::Sized { bits, .. } => Some(*bits),
            PacketSegment::Unsized { .. } => None,
            PacketSegment::Struct { .. } => None,
        }
    }
}

/// One message body that is exchanged with the device: its segments in the
/// order in which they go over the wire.
#[derive(Debug, Clone, PartialEq, Eq)]
pub struct Payload {
    pub description: String,
    /// Values that are carried through to the page as they are.
    pub metadata: String,
    pub segments: Vec<PacketSegment>,
}

/// The mathematical value of a `Payload`.
pub struct PayloadView {
    pub description: Seq<char>,
    pub metadata: Seq<char>,
    pub segments: Seq<SegmentView>,
}

impl View for Payload {
    type V = PayloadView;

    open spec fn view(&self) -> PayloadView {
        PayloadView {
            description: self.description@,
            metadata: self.metadata@,
            segments: self.segments.deep_view(),
        }
    }
}

impl DeepView for Payload {
    type V = PayloadView;

    open spec fn deep_view(&self) -> PayloadView {
        self@
    }
}

/// The view of a list of named payloads.
pub open spec fn named_payloads(list: Seq<(String, Payload)>) -> Seq<(Seq<char>, PayloadView)> {
    Seq::new(list.len(), |i: int| (list[i].0@, list[i].1@))
}

/// No name occurs twice in the list.
pub open spec fn names_unique(list: Seq<(Seq<char>, PayloadView)>) -> bool {
    forall|i: int, j: int|
        0 <= i < j < list.len() ==> (#[trigger] list[i]).0 != (#[trigger] list[j]).0
}

/// The payloads of a device, by direction. Each list keeps the order in which
/// the payloads were declared, and a name stands for one payload within its
/// list; the two lists are separate namespaces.
#[derive(Debug, Clone, PartialEq, Eq)]
pub struct PayloadSet {
    /// The payloads that go to the device.
    pub tx: Vec<(String, Payload)>,
    /// The payloads that come from the device.
    pub rx: Vec<(String, Payload)>,
}

/// The mathematical value of a `PayloadSet`.
pub struct PayloadSetView {
    pub tx: Seq<(Seq<char>, PayloadView)>,
    pub rx: Seq<(Seq<char>, PayloadView)>,
}

impl View for PayloadSet {
    type V = PayloadSetView;

    open spec fn view(&self) -> PayloadSetView {
        PayloadSetView { tx: named_payloads(self.tx@), rx: named_payloads(self.rx@) }
    }
}

impl PayloadSetView {
    /// A name stands for one payload within its direction.
    pub open spec fn wf(self) -> bool {
        &&& names_unique(self.tx)
        &&& names_unique(self.rx)
    }
}

/// What the device is.
#[derive(Debug, Clone, PartialEq, Eq)]
pub struct DeviceInfo {
    pub name: String,
    pub description: String,
}

/// The mathematical value of a `DeviceInfo`.
pub struct DeviceInfoView {
    pub name: Seq<char>,
    pub description: Seq<char>,
}

impl View for DeviceInfo {
    type V = DeviceInfoView;

    open spec fn view(&self) -> DeviceInfoView {
        DeviceInfoView { name: self.name@, description: self.description@ }
    }
}

/// The description of a device's protocol.
#[derive(Debug, Clone, PartialEq, Eq)]
pub struct OpenPID {
    /// The version of the format that the description is written in, as it
    /// is shown.
    pub openpid_version: String,
    /// The version of the description itself, as it is shown.
    pub doc_version: String,
    pub device_info: DeviceInfo,
    pub payloads: PayloadSet,
}

/// The mathematical value of an `OpenPID`.
pub struct OpenPIDView {
    pub openpid_version: Seq<char>,
    pub doc_version: Seq<char>,
    pub device_info: DeviceInfoView,
    pub payloads: PayloadSetView,
}

impl View for OpenPID {
    type V = OpenPIDView;

    open spec fn view(&self) -> OpenPIDView {
        OpenPIDView {
            openpid_version: self.openpid_version@,
            doc_version: self.doc_version@,
            device_info: self.device_info@,
            payloads: self.payloads@,
        }
    }
}

} // verus!
