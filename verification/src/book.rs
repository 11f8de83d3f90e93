//! The page that documents one payload, and the diagram that goes with it.

use vstd::prelude::*;
use crate::diagram::{
    caption, diagram_text, entries_of, generate_packet_diagram, layout, lemma_no_width_no_total,
    total_bit_width, Entry,
};
use crate::model::{PacketSegment, Payload, PayloadView, SegmentView};
use crate::text::{decimal, push_decimal};

verus! {

/// Whether a payload goes to the device or comes from it.
#[derive(Debug, Clone, Copy, PartialEq, Eq)]
pub enum Direction {
    /// To the device.
    Tx,
    /// From the device.
    Rx,
}

impl Direction {
    /// The directory under which the direction's diagrams are kept.
    pub open spec fn path_component_text(self) -> Seq<char> {
        match self {
            Direction::Tx => "tx"@,
            Direction::Rx => "rx"@,
        }
    }

    /// The direction's name.
    pub open spec fn name_text(self) -> Seq<char> {
        match self {
            Direction::Tx => "Tx"@,
            Direction::Rx => "Rx"@,
        }
    }

    /// The directory under which the direction's diagrams are kept.
    pub fn path_component(self) -> (component: &'static str)
        ensures
            component@ == self.path_component_text(),
    {
        match self {
            Direction::Tx => "tx",
            Direction::Rx => "rx",
        }
    }

    /// The direction's name, as it is displayed.
    pub fn to_string(&self) -> (name: String)
        ensures
            name@ == self.name_text(),
    {
        match self {
            Direction::Tx => "Tx".to_owned(),
            Direction::Rx => "Rx".to_owned(),
        }
    }
}

/// The text of an optional description: nothing where there is none.
pub open spec fn text_or_empty(text: Option<Seq<char>>) -> Seq<char> {
    match text {
        Some(t) => t,
        None => Seq::empty(),
    }
}

/// How a segment of variable width ends, in words.
pub open spec fn termination_text(termination: Option<Seq<char>>) -> Seq<char> {
    match termination {
        Some(t) => t,
        None => "no additional termination"@,
    }
}

/// The text inside a segment's block: the name with the datatype, or for a
/// struct the name with the struct's name where the two differ.
pub open spec fn segment_label(segment: SegmentView) -> Seq<char> {
    match segment {
        SegmentView::Sized { name, datatype, .. } => name + " ("@ + datatype + ")"@,
        SegmentView::Unsized { name, datatype, .. } => name + " ("@ + datatype + ")"@,
        SegmentView::Struct { name, struct_name } => if name == struct_name {
            name
        } else {
            name + " ("@ + struct_name + ")"@
        },
    }
}

/// What the page says of a segment, under its heading.
pub open spec fn segment_description(segment: SegmentView) -> Seq<char> {
    match segment {
        SegmentView::Sized { bits, datatype, description, .. } => "*"@ + decimal(bits as nat)
            + "* bit-wide "@ + datatype + "\n"@ + text_or_empty(description) + "\n"@,
        SegmentView::Unsized { termination, datatype, description, .. } => datatype + " with "@
            + termination_text(termination) + "\n"@ + text_or_empty(description) + "\n"@,
        SegmentView::Struct { struct_name, .. } => "See struct ["@ + struct_name + "]("@
            + struct_name + ")"@,
    }
}

/// The section of one segment: a heading with its name, then its
/// description.
pub open spec fn segment_section(segment: SegmentView) -> Seq<char> {
    "### "@ + segment.display_name() + "\n"@ + segment_description(segment)
}

/// The sections of the segments in their order, a line break between each
/// two.
pub open spec fn segments_text(segments: Seq<SegmentView>) -> Seq<char>
    decreases segments.len(),
{
    if segments.len() == 0 {
        Seq::empty()
    } else if segments.len() == 1 {
        segment_section(segments[0])
    } else {
        segments_text(segments.drop_last()) + "\n"@ + segment_section(segments.last())
    }
}

/// What the diagram of a payload is laid out from: one entry per segment, in
/// the segments' order.
pub open spec fn payload_entries(segments: Seq<SegmentView>) -> Seq<Entry> {
    Seq::new(segments.len(), |i: int| (segment_label(segments[i]), segments[i].layout_width()))
}

/// Where the image of a payload's diagram is kept, relative to the directory
/// of the payloads.
pub open spec fn diagram_path_text(payload_name: Seq<char>, direction: Direction) -> Seq<char> {
    direction.path_component_text() + "/"@ + payload_name + ".png"@
}

/// The page of a payload.
pub open spec fn payload_markdown(
    payload_name: Seq<char>,
    payload: PayloadView,
    direction: Direction,
) -> Seq<char> {
    "# "@ + payload_name + "\n"@ + payload.description
        + "\n\n## Payload Segments\n![Packet Segment Description for "@ + payload_name + "]("@
        + diagram_path_text(payload_name, direction) + ")\n"@ + segments_text(payload.segments)
        + "\n\n\n## Hard-coded Values\n"@ + payload.metadata + "\n\n\n"@
}

/// The diagram of a payload holds one block per segment, in the segments'
/// order: the block at each place has that place as its index and carries
/// that segment's label and the caption of its width. This holds of every
/// payload but those that have segments and none of known, positive width,
/// which have no diagram.
pub proof fn lemma_blocks_follow_segments(payload: PayloadView)
    requires
        total_bit_width(payload_entries(payload.segments)) > 0 || payload.segments.len() == 0,
    ensures
        layout(payload_entries(payload.segments)).len() == payload.segments.len(),
        forall|i: int|
            0 <= i < payload.segments.len() ==> {
                &&& (#[trigger] layout(payload_entries(payload.segments))[i]).index == i
                &&& layout(payload_entries(payload.segments))[i].label == segment_label(
                    payload.segments[i],
                )
                &&& layout(payload_entries(payload.segments))[i].caption == caption(
                    payload.segments[i].layout_width(),
                )
            },
{
}

/// A payload whose segments have no known width sums to zero, so that it has
/// no diagram.
pub proof fn lemma_unsized_payload_has_no_diagram(payload_name: Seq<char>, payload: PayloadView)
    requires
        forall|i: int|
            0 <= i < payload.segments.len() ==> (#[trigger] payload.segments[i]).layout_width()
                is None,
    ensures
        total_bit_width(payload_entries(payload.segments)) == 0,
        diagram_text(payload_name, payload_entries(payload.segments)) == Seq::<char>::empty(),
{
    lemma_no_width_no_total(payload_entries(payload.segments));
}

/// The place of an image names its payload: within one direction, two
/// payloads with the same place have the same name.
pub proof fn lemma_path_names_the_payload(
    first: Seq<char>,
    second: Seq<char>,
    direction: Direction,
)
    requires
        diagram_path_text(first, direction) == diagram_path_text(second, direction),
    ensures
        first == second,
{
    let before = direction.path_component_text() + "/"@;
    let first_path = diagram_path_text(first, direction);
    let second_path = diagram_path_text(second, direction);
    assert(first_path.len() == before.len() + first.len() + ".png"@.len());
    assert(second_path.len() == before.len() + second.len() + ".png"@.len());
    assert forall|i: int| 0 <= i < first.len() implies first[i] == second[i] by {
        assert(first_path[before.len() + i] == first[i]);
        assert(second_path[before.len() + i] == second[i]);
    }
    assert(first =~= second);
}

/// The images of the two directions are kept apart, whatever the payloads
/// are called.
pub proof fn lemma_directions_are_kept_apart(sent: Seq<char>, received: Seq<char>)
    ensures
        diagram_path_text(sent, Direction::Tx) != diagram_path_text(received, Direction::Rx),
{
    reveal_strlit("tx");
    reveal_strlit("rx");
    assert(diagram_path_text(sent, Direction::Tx)[0] == 't');
    assert(diagram_path_text(received, Direction::Rx)[0] == 'r');
}

/// The text inside a segment's block.
pub fn label_of(segment: &PacketSegment) -> (label: String)
    ensures
        label@ == segment_label(segment@),
{
    let mut label = String::new();
    match segment {
        PacketSegment::Sized { name, datatype, .. } => {
            label.append(name.as_str());
            label.append(" (");
            label.append(datatype.as_str());
            label.append(")");
        },
        PacketSegment::Unsized { name, datatype, .. } => {
            label.append(name.as_str());
            label.append(" (");
            label.append(datatype.as_str());
            label.append(")");
        },
        PacketSegment::Struct { name, struct_name } => {
            label.append(name.as_str());
            if !(*name == *struct_name) {
                label.append(" (");
                label.append(struct_name.as_str());
                label.append(")");
            }
        },
    }
    assert(label@ =~= segment_label(segment@));
    label
}

/// Appends an optional description to `out`.
fn push_text_or_empty(out: &mut String, text: &Option<String>)
    ensures
        final(out)@ == old(out)@ + text_or_empty(crate::model::opt_view(*text)),
{
    match text {
        Some(t) => {
            out.append(t.as_str());
        },
        None => {},
    }
    assert(out@ =~= old(out)@ + text_or_empty(crate::model::opt_view(*text)));
}

/// What the page says of a segment, under its heading.
pub fn describe_segment(segment: &PacketSegment) -> (text: String)
    ensures
        text@ == segment_description(segment@),
{
    let mut text = String::new();
    match segment {
        PacketSegment::Sized { bits, datatype, description, .. } => {
            text.append("*");
            push_decimal(&mut text, *bits as u64);
            text.append("* bit-wide ");
            text.append(datatype.as_str());
            text.append("\n");
            push_text_or_empty(&mut text, description);
            text.append("\n");
        },
        PacketSegment::Unsized { termination, datatype, description, .. } => {
            text.append(datatype.as_str());
            text.append(" with ");
            match termination {
                Some(t) => {
                    text.append(t.as_str());
                },
                None => {
                    text.append("no additional termination");
                },
            }
            text.append("\n");
            push_text_or_empty(&mut text, description);
            text.append("\n");
        },
        PacketSegment::Struct { struct_name, .. } => {
            text.append("See struct [");
            text.append(struct_name.as_str());
            text.append("](");
            text.append(struct_name.as_str());
            text.append(")");
        },
    }
    assert(text@ =~= segment_description(segment@));
    text
}

/// The sections of a payload's segments.
pub fn segments_markdown(segments: &Vec<PacketSegment>) -> (text: String)
    ensures
        text@ == segments_text(segments.deep_view()),
{
    let ghost views = segments.deep_view();
    let mut text = String::new();
    let mut i: usize = 0;
    while i < segments.len()
        invariant
            i <= segments.len(),
            views == segments.deep_view(),
            text@ == segments_text(views.take(i as int)),
        decreases segments.len() - i,
    {
        proof {
            assert(views.take(i + 1).drop_last() =~= views.take(i as int));
            assert(views.take(i + 1).last() == segments@[i as int]@);
            assert(views.take(i + 1)[0] == views[0]);
        }
        if i > 0 {
            text.append("\n");
        }
        text.append("### ");
        text.append(segments[i].get_name().as_str());
        text.append("\n");
        let description = describe_segment(&segments[i]);
        text.append(description.as_str());
        assert(text@ =~= segments_text(views.take(i + 1)));
        i = i + 1;
    }
    assert(views.take(i as int) =~= views);
    text
}

/// What the diagram of a payload is laid out from.
pub fn diagram_entries(segments: &Vec<PacketSegment>) -> (entries: Vec<(String, Option<u32>)>)
    ensures
        entries_of(entries@) == payload_entries(segments.deep_view()),
{
    let mut entries: Vec<(String, Option<u32>)> = Vec::new();
    let mut i: usize = 0;
    while i < segments.len()
        invariant
            i <= segments.len(),
            entries@.len() == i,
            forall|j: int|
                0 <= j < i ==> (#[trigger] entries@[j]).0@ == segment_label(segments@[j]@)
                    && entries@[j].1 == segments@[j]@.layout_width(),
        decreases segments.len() - i,
    {
        entries.push((label_of(&segments[i]), segments[i].layout_width()));
        i = i + 1;
    }
    assert(entries_of(entries@) =~= payload_entries(segments.deep_view()));
    entries
}

/// Where the image of a payload's diagram is kept, relative to the directory
/// of the payloads.
pub fn diagram_path_relative(payload_name: &str, direction: Direction) -> (path: String)
    ensures
        path@ == diagram_path_text(payload_name@, direction),
{
    let mut path = String::new();
    path.append(direction.path_component());
    path.append("/");
    path.append(payload_name);
    path.append(".png");
    assert(path@ =~= diagram_path_text(payload_name@, direction));
    path
}

/// What documents one payload.
#[derive(Debug, Clone, PartialEq, Eq)]
pub struct PayloadDocument {
    /// The description of the payload's diagram, for the renderer. It is
    /// empty where the payload has no segment of known, positive width.
    pub diagram: String,
    /// Where the rendered image belongs, relative to the directory of the
    /// payloads.
    pub diagram_path: String,
    /// The payload's page.
    pub markdown: String,
}

/// The mathematical value of a `PayloadDocument`.
pub struct PayloadDocumentView {
    pub diagram: Seq<char>,
    pub diagram_path: Seq<char>,
    pub markdown: Seq<char>,
}

impl View for PayloadDocument {
    type V = PayloadDocumentView;

    open spec fn view(&self) -> PayloadDocumentView {
        PayloadDocumentView {
            diagram: self.diagram@,
            diagram_path: self.diagram_path@,
            markdown: self.markdown@,
        }
    }
}

impl DeepView for PayloadDocument {
    type V = PayloadDocumentView;

    open spec fn deep_view(&self) -> PayloadDocumentView {
        self@
    }
}

/// What documents the payload called `payload_name`.
pub open spec fn payload_document(
    payload_name: Seq<char>,
    payload: PayloadView,
    direction: Direction,
) -> PayloadDocumentView {
    PayloadDocumentView {
        diagram: diagram_text(payload_name, payload_entries(payload.segments)),
        diagram_path: diagram_path_text(payload_name, direction),
        markdown: payload_markdown(payload_name, payload, direction),
    }
}

/// The book that is written.
#[derive(Debug, Clone, PartialEq, Eq)]
pub struct Book {
    /// The directory of the book's sources.
    pub src_path: String,
}

impl Book {
    /// Documents one payload: the description of its diagram, laid out from
    /// its segments in their order; the place of the rendered image, which
    /// depends on the direction; and the page, which shows the image and
    /// describes each segment and the payload's metadata.
    pub fn document_payload(
        &self,
        payload: &Payload,
        payload_name: &str,
        direction: Direction,
    ) -> (document: PayloadDocument)
        ensures
            document@ == payload_document(payload_name@, payload@, direction),
    {
        let segments = segments_markdown(&payload.segments);
        let diagram = generate_packet_diagram(payload_name, diagram_entries(&payload.segments));
        let diagram_path = diagram_path_relative(payload_name, direction);
        let mut markdown = String::new();
        markdown.append("# ");
        markdown.append(payload_name);
        markdown.append("\n");
        markdown.append(payload.description.as_str());
        markdown.append("\n\n## Payload Segments\n![Packet Segment Description for ");
        markdown.append(payload_name);
        markdown.append("](");
        markdown.append(diagram_path.as_str());
        markdown.append(")\n");
        markdown.append(segments.as_str());
        markdown.append("\n\n\n## Hard-coded Values\n");
        markdown.append(payload.metadata.as_str());
        markdown.append("\n\n\n");
        assert(markdown@ =~= payload_markdown(payload_name@, payload@, direction));
        PayloadDocument { diagram, diagram_path, markdown }
    }
}

} // verus!
