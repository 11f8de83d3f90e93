use openpid_docgen::book::{
    describe_segment, diagram_entries, diagram_path_relative, label_of, segments_markdown, Book,
    Direction,
};
use openpid_docgen::diagram::layout_blocks;
use openpid_docgen::model::{PacketSegment, Payload};

fn sized(name: &str, bits: u32, datatype: &str, description: Option<&str>) -> PacketSegment {
    PacketSegment::Sized {
        name: name.to_string(),
        bits,
        datatype: datatype.to_string(),
        description: description.map(|d| d.to_string()),
    }
}

fn unsized_segment(
    name: &str,
    termination: Option<&str>,
    datatype: &str,
    description: Option<&str>,
) -> PacketSegment {
    PacketSegment::Unsized {
        name: name.to_string(),
        termination: termination.map(|t| t.to_string()),
        datatype: datatype.to_string(),
        description: description.map(|d| d.to_string()),
    }
}

fn struct_segment(name: &str, struct_name: &str) -> PacketSegment {
    PacketSegment::Struct { name: name.to_string(), struct_name: struct_name.to_string() }
}

fn book() -> Book {
    Book { src_path: "outputs/src".to_string() }
}

fn ping() -> Payload {
    Payload {
        description: "Liveness check".to_string(),
        metadata: "{}".to_string(),
        segments: vec![
            sized("opcode", 8, "u8", None),
            sized("seq", 16, "u16", Some("sequence number")),
        ],
    }
}

#[test]
fn every_variant_has_its_name() {
    assert_eq!(sized("opcode", 8, "u8", None).get_name(), "opcode");
    assert_eq!(unsized_segment("text", None, "str", None).get_name(), "text");
    assert_eq!(struct_segment("header", "Header").get_name(), "header");
    assert!(!struct_segment("header", "Header").get_name().is_empty());
}

#[test]
fn only_sized_segments_have_a_layout_width() {
    assert_eq!(sized("opcode", 8, "u8", None).layout_width(), Some(8));
    assert_eq!(unsized_segment("text", None, "str", None).layout_width(), None);
    assert_eq!(struct_segment("header", "Header").layout_width(), None);
}

#[test]
fn labels() {
    assert_eq!(label_of(&sized("opcode", 8, "u8", None)), "opcode (u8)");
    assert_eq!(label_of(&unsized_segment("text", None, "str", None)), "text (str)");
    assert_eq!(label_of(&struct_segment("header", "Header")), "header (Header)");
    assert_eq!(label_of(&struct_segment("Header", "Header")), "Header");
}

#[test]
fn description_of_a_sized_segment() {
    assert_eq!(describe_segment(&sized("opcode", 8, "u8", None)), "*8* bit-wide u8\n\n");
    assert_eq!(
        describe_segment(&sized("seq", 16, "u16", Some("sequence number"))),
        "*16* bit-wide u16\nsequence number\n"
    );
}

#[test]
fn description_of_an_unsized_segment() {
    assert_eq!(
        describe_segment(&unsized_segment("text", None, "str", None)),
        "str with no additional termination\n\n"
    );
    assert_eq!(
        describe_segment(&unsized_segment("text", Some("NullTerminated"), "str", Some("a name"))),
        "str with NullTerminated\na name\n"
    );
}

#[test]
fn description_of_a_struct_segment() {
    assert_eq!(
        describe_segment(&struct_segment("header", "Header")),
        "See struct [Header](Header)"
    );
}

#[test]
fn sections_are_joined_by_one_line_break() {
    assert_eq!(segments_markdown(&Vec::new()), "");
    assert_eq!(
        segments_markdown(&vec![struct_segment("header", "Header")]),
        "### header\nSee struct [Header](Header)"
    );
    assert_eq!(
        segments_markdown(&vec![
            struct_segment("header", "Header"),
            sized("opcode", 8, "u8", None),
            struct_segment("tail", "Tail"),
        ]),
        "### header\nSee struct [Header](Header)\n### opcode\n*8* bit-wide u8\n\n\n### tail\nSee struct [Tail](Tail)"
    );
}

#[test]
fn entries_follow_the_segments() {
    let segments = vec![
        sized("opcode", 8, "u8", None),
        unsized_segment("text", None, "str", None),
        struct_segment("tail", "Tail"),
        struct_segment("Crc", "Crc"),
    ];
    let entries = diagram_entries(&segments);
    assert_eq!(
        entries,
        vec![
            ("opcode (u8)".to_string(), Some(8)),
            ("text (str)".to_string(), None),
            ("tail (Tail)".to_string(), None),
            ("Crc".to_string(), None),
        ]
    );
    let blocks = layout_blocks(&entries);
    assert_eq!(blocks.len(), segments.len());
    assert_eq!(blocks[0].width, 2000);
    assert_eq!(blocks[1].width, 4000);
}

#[test]
fn direction_selects_the_directory() {
    assert_eq!(Direction::Tx.path_component(), "tx");
    assert_eq!(Direction::Rx.path_component(), "rx");
    assert_eq!(diagram_path_relative("Ping", Direction::Tx), "tx/Ping.png");
    assert_eq!(diagram_path_relative("Ping", Direction::Rx), "rx/Ping.png");
}

#[test]
fn direction_names() {
    assert_eq!(Direction::Tx.to_string(), "Tx");
    assert_eq!(Direction::Rx.to_string(), "Rx");
    assert_eq!(format!("{:?}", Direction::Tx), "Tx");
}

#[test]
fn ping_has_two_blocks() {
    let document = book().document_payload(&ping(), "Ping", Direction::Tx);
    assert_eq!(document.diagram.matches("explanation: |md").count(), 2);
    assert!(document.diagram.contains("0: 8 bits\n0: {\n"));
    assert!(document.diagram.contains("1: 16 bits\n1: {\n"));
    assert!(!document.diagram.contains("2: "));
    let first = document.diagram.find("0: 8 bits").unwrap();
    let second = document.diagram.find("1: 16 bits").unwrap();
    assert!(first < second);
    assert_eq!(
        document.diagram,
        "\nvars: {\n  d2-config: {\n    layout-engine: elk\n    theme-id: 0\n  }\n}\n\n\nPing {\n    style.font-size: 50\n    grid-rows: 1\n    grid-gap: 0\n    0: 8 bits\n0: {\n  explanation: |md opcode (u8) |\n  explanation.style.font-size: 55\n  width:664\n\n  style.font-size: 40\n}\n1: 16 bits\n1: {\n  explanation: |md seq (u16) |\n  explanation.style.font-size: 55\n  width:1328\n\n  style.font-size: 40\n}\n\n}\n"
    );
}

#[test]
fn ping_has_a_section_per_segment() {
    let document = book().document_payload(&ping(), "Ping", Direction::Tx);
    assert!(document.markdown.contains("### opcode\n*8* bit-wide u8\n"));
    assert!(document.markdown.contains("### seq\n*16* bit-wide u16\nsequence number\n"));
    assert_eq!(document.markdown.matches("### ").count(), 2);
    assert_eq!(document.diagram_path, "tx/Ping.png");
    assert_eq!(
        document.markdown,
        "# Ping\nLiveness check\n\n## Payload Segments\n![Packet Segment Description for Ping](tx/Ping.png)\n### opcode\n*8* bit-wide u8\n\n\n### seq\n*16* bit-wide u16\nsequence number\n\n\n\n## Hard-coded Values\n{}\n\n\n"
    );
}

#[test]
fn received_payloads_go_under_rx() {
    let document = book().document_payload(&ping(), "Ping", Direction::Rx);
    assert_eq!(document.diagram_path, "rx/Ping.png");
    assert!(document.markdown.contains("![Packet Segment Description for Ping](rx/Ping.png)\n"));
    let sent = book().document_payload(&ping(), "Ping", Direction::Tx);
    assert_eq!(document.diagram, sent.diagram);
}

#[test]
fn payload_without_known_width_has_no_diagram() {
    let payload = Payload {
        description: "Free text".to_string(),
        metadata: "{\"id\": 3}".to_string(),
        segments: vec![
            unsized_segment("text", Some("NullTerminated"), "str", None),
            struct_segment("tail", "Tail"),
        ],
    };
    let document = book().document_payload(&payload, "Log", Direction::Rx);
    assert_eq!(document.diagram, "");
    assert_eq!(document.diagram_path, "rx/Log.png");
    assert_eq!(
        document.markdown,
        "# Log\nFree text\n\n## Payload Segments\n![Packet Segment Description for Log](rx/Log.png)\n### text\nstr with NullTerminated\n\n\n### tail\nSee struct [Tail](Tail)\n\n\n## Hard-coded Values\n{\"id\": 3}\n\n\n"
    );
}

#[test]
fn payload_without_segments() {
    let payload =
        Payload { description: String::new(), metadata: String::new(), segments: Vec::new() };
    let document = book().document_payload(&payload, "Nop", Direction::Tx);
    assert_eq!(document.diagram, "");
    assert_eq!(
        document.markdown,
        "# Nop\n\n\n## Payload Segments\n![Packet Segment Description for Nop](tx/Nop.png)\n\n\n\n## Hard-coded Values\n\n\n\n"
    );
}

#[test]
fn metadata_is_carried_through_as_it_is() {
    let mut payload = ping();
    payload.metadata = "Table({\"opcode\": Integer(7)})\n# not a heading".to_string();
    let document = book().document_payload(&payload, "Ping", Direction::Tx);
    assert!(document
        .markdown
        .ends_with("## Hard-coded Values\nTable({\"opcode\": Integer(7)})\n# not a heading\n\n\n"));
}

#[test]
fn documenting_a_payload_twice_gives_the_same() {
    let first = book().document_payload(&ping(), "Ping", Direction::Tx);
    let second = book().document_payload(&ping(), "Ping", Direction::Tx);
    assert_eq!(first.diagram, second.diagram);
    assert_eq!(first.diagram_path, second.diagram_path);
    assert_eq!(first.markdown, second.markdown);
}
