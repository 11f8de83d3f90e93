//! The pages of the whole book: the contents, the page about the document,
//! and one index page per direction with the pages of its payloads.

use vstd::prelude::*;
use crate::book::{
    lemma_directions_are_kept_apart, lemma_path_names_the_payload, payload_document, Book,
    Direction, PayloadDocument, PayloadDocumentView,
};
use crate::model::{named_payloads, OpenPID, OpenPIDView, Payload, PayloadView};

verus! {

/// The table of contents.
pub open spec fn summary_text() -> Seq<char> {
    "# Contents\n[Sending Packets](index.md)\n\n# Packet Format\n- [Sent Packets](protocol/tx.md)\n- [Received Packets](protocol/rx.md)\n\n# Payloads\n- [Common Payload Structs](structs/index.md)\n- [To Device](payloads/tx.md)\n- [From Device](payloads/rx.md)\n\n# Transactions\n[What is a transaction?]()\n- [TODO]()\n\n----------\n[About this Document](about.md)\n"@
}

/// The page about the document: the two versions are shown as they are.
pub open spec fn about_text(openpid_version: Seq<char>, doc_version: Seq<char>) -> Seq<char> {
    "# About this Document\n\nThis document was generated by [OpenPID](TODO) vTODO on TODO.\n\nThe document it was generated from was written in OpenPID "@
        + openpid_version + "\n\nThe document it was generated from's version was "@ + doc_version
        + "\n\n"@
}

/// The documents of the payloads of one direction, in the payloads' order.
pub open spec fn payload_documents(
    payloads: Seq<(Seq<char>, PayloadView)>,
    direction: Direction,
) -> Seq<PayloadDocumentView> {
    Seq::new(payloads.len(), |i: int| payload_document(payloads[i].0, payloads[i].1, direction))
}

/// The pages of the documents, one after the other.
pub open spec fn pages_text(documents: Seq<PayloadDocumentView>) -> Seq<char>
    decreases documents.len(),
{
    if documents.len() == 0 {
        Seq::empty()
    } else {
        pages_text(documents.drop_last()) + documents.last().markdown
    }
}

/// The index page of the payloads that go to the device.
pub open spec fn tx_index_text(device_name: Seq<char>, pages: Seq<char>) -> Seq<char> {
    "# Sendable Payloads\nA payload is encapsulated by the [Packet Format](TODO) before it is sent. \n\nSendable payloads are \"sendable\" from your controller to "@
        + device_name + ".\n\n"@ + pages + "\n\n"@
}

/// The index page of the payloads that come from the device.
pub open spec fn rx_index_text(device_name: Seq<char>, pages: Seq<char>) -> Seq<char> {
    "# Receivable Payloads\nA payload is encapsulated by the [Packet Format](TODO) before it arries at your controller. \n\nRecievable payloads are \"recieved\" by your controller from "@
        + device_name + ".\n\n"@ + pages + "\n"@
}

/// The book's title.
pub open spec fn title_text(device_name: Seq<char>) -> Seq<char> {
    device_name + " - Interface Guide"@
}

/// What the book says of itself.
pub open spec fn description_text(device_name: Seq<char>, description: Seq<char>) -> Seq<char> {
    "Communication interface documentation for "@ + device_name + ": "@ + description
}

/// Everything that the book of one protocol is written from.
#[derive(Debug, Clone, PartialEq, Eq)]
pub struct Documentation {
    /// The documents of the payloads that go to the device.
    pub tx_payloads: Vec<PayloadDocument>,
    /// The documents of the payloads that come from the device.
    pub rx_payloads: Vec<PayloadDocument>,
    /// The table of contents.
    pub summary: String,
    /// The page about the document.
    pub about: String,
    /// The index page of the payloads that go to the device.
    pub tx_payloads_index: String,
    /// The index page of the payloads that come from the device.
    pub rx_payloads_index: String,
    /// The book's title.
    pub title: String,
    /// The book's author.
    pub author: String,
    /// What the book says of itself.
    pub description: String,
    /// The language that the book is written in.
    pub language: String,
}

/// The mathematical value of a `Documentation`.
pub struct DocumentationView {
    pub tx_payloads: Seq<PayloadDocumentView>,
    pub rx_payloads: Seq<PayloadDocumentView>,
    pub summary: Seq<char>,
    pub about: Seq<char>,
    pub tx_payloads_index: Seq<char>,
    pub rx_payloads_index: Seq<char>,
    pub title: Seq<char>,
    pub author: Seq<char>,
    pub description: Seq<char>,
    pub language: Seq<char>,
}

impl View for Documentation {
    type V = DocumentationView;

    open spec fn view(&self) -> DocumentationView {
        DocumentationView {
            tx_payloads: self.tx_payloads.deep_view(),
            rx_payloads: self.rx_payloads.deep_view(),
            summary: self.summary@,
            about: self.about@,
            tx_payloads_index: self.tx_payloads_index@,
            rx_payloads_index: self.rx_payloads_index@,
            title: self.title@,
            author: self.author@,
            description: self.description@,
            language: self.language@,
        }
    }
}

/// The documentation of a protocol.
pub open spec fn documentation(pid: OpenPIDView) -> DocumentationView {
    let tx = payload_documents(pid.payloads.tx, Direction::Tx);
    let rx = payload_documents(pid.payloads.rx, Direction::Rx);
    DocumentationView {
        tx_payloads: tx,
        rx_payloads: rx,
        summary: summary_text(),
        about: about_text(pid.openpid_version, pid.doc_version),
        tx_payloads_index: tx_index_text(pid.device_info.name, pages_text(tx)),
        rx_payloads_index: rx_index_text(pid.device_info.name, pages_text(rx)),
        title: title_text(pid.device_info.name),
        author: "OpenPID DocGen"@,
        description: description_text(pid.device_info.name, pid.device_info.description),
        language: "English"@,
    }
}

/// Documenting is a function of the protocol's content: two runs on
/// protocols of the same value give the same diagrams and the same pages,
/// character for character.
pub proof fn lemma_documentation_is_deterministic(
    first: OpenPID,
    second: OpenPID,
    first_docs: Documentation,
    second_docs: Documentation,
)
    requires
        first@ == second@,
        first_docs@ == documentation(first@),
        second_docs@ == documentation(second@),
    ensures
        first_docs@ == second_docs@,
        first_docs.summary@ == second_docs.summary@,
        first_docs.about@ == second_docs.about@,
        first_docs.tx_payloads_index@ == second_docs.tx_payloads_index@,
        first_docs.rx_payloads_index@ == second_docs.rx_payloads_index@,
        first_docs.tx_payloads.deep_view() == second_docs.tx_payloads.deep_view(),
        first_docs.rx_payloads.deep_view() == second_docs.rx_payloads.deep_view(),
{
}

/// The places of a protocol's images: those of the payloads that go to the
/// device, then those of the payloads that come from it.
pub open spec fn image_paths(pid: OpenPIDView) -> Seq<Seq<char>> {
    let docs = documentation(pid);
    docs.tx_payloads.map_values(|document: PayloadDocumentView| document.diagram_path)
        + docs.rx_payloads.map_values(|document: PayloadDocumentView| document.diagram_path)
}

/// Where a name stands for one payload within its direction, every payload
/// has an image of its own: no place occurs twice among the images of a
/// protocol.
pub proof fn lemma_every_payload_has_its_image(pid: OpenPIDView)
    requires
        pid.payloads.wf(),
    ensures
        image_paths(pid).len() == pid.payloads.tx.len() + pid.payloads.rx.len(),
        forall|i: int, j: int|
            0 <= i < j < image_paths(pid).len() ==> image_paths(pid)[i] != image_paths(pid)[j],
{
    let tx = pid.payloads.tx;
    let rx = pid.payloads.rx;
    let paths = image_paths(pid);
    assert forall|i: int, j: int| 0 <= i < j < paths.len() implies paths[i] != paths[j] by {
        if j < tx.len() {
            if paths[i] == paths[j] {
                lemma_path_names_the_payload(tx[i].0, tx[j].0, Direction::Tx);
            }
        } else if i < tx.len() {
            lemma_directions_are_kept_apart(tx[i].0, rx[j - tx.len()].0);
        } else {
            if paths[i] == paths[j] {
                lemma_path_names_the_payload(
                    rx[i - tx.len()].0,
                    rx[j - tx.len()].0,
                    Direction::Rx,
                );
            }
        }
    }
}

/// Documents the payloads of one direction, in their order.
pub fn document_payloads(
    book: &Book,
    payloads: &Vec<(String, Payload)>,
    direction: Direction,
) -> (documents: Vec<PayloadDocument>)
    ensures
        documents.deep_view() == payload_documents(named_payloads(payloads@), direction),
{
    let mut documents: Vec<PayloadDocument> = Vec::new();
    let mut i: usize = 0;
    while i < payloads.len()
        invariant
            i <= payloads.len(),
            documents@.len() == i,
            forall|j: int|
                0 <= j < i ==> (#[trigger] documents@[j])@ == payload_document(
                    payloads@[j].0@,
                    payloads@[j].1@,
                    direction,
                ),
        decreases payloads.len() - i,
    {
        let document = book.document_payload(&payloads[i].1, payloads[i].0.as_str(), direction);
        documents.push(document);
        i = i + 1;
    }
    assert(documents.deep_view() =~= payload_documents(named_payloads(payloads@), direction));
    documents
}

/// The pages of the documents, one after the other.
pub fn pages_of(documents: &Vec<PayloadDocument>) -> (pages: String)
    ensures
        pages@ == pages_text(documents.deep_view()),
{
    let ghost views = documents.deep_view();
    let mut pages = String::new();
    let mut i: usize = 0;
    while i < documents.len()
        invariant
            i <= documents.len(),
            views == documents.deep_view(),
            pages@ == pages_text(views.take(i as int)),
        decreases documents.len() - i,
    {
        proof {
            assert(views.take(i + 1).drop_last() =~= views.take(i as int));
            assert(views.take(i + 1).last() == documents@[i as int]@);
        }
        pages.append(documents[i].markdown.as_str());
        i = i + 1;
    }
    assert(views.take(i as int) =~= views);
    pages
}

/// The table of contents.
pub fn summary() -> (text: String)
    ensures
        text@ == summary_text(),
{
    "# Contents\n[Sending Packets](index.md)\n\n# Packet Format\n- [Sent Packets](protocol/tx.md)\n- [Received Packets](protocol/rx.md)\n\n# Payloads\n- [Common Payload Structs](structs/index.md)\n- [To Device](payloads/tx.md)\n- [From Device](payloads/rx.md)\n\n# Transactions\n[What is a transaction?]()\n- [TODO]()\n\n----------\n[About this Document](about.md)\n".to_owned()
}

/// The page about the document.
pub fn about(openpid_version: &str, doc_version: &str) -> (text: String)
    ensures
        text@ == about_text(openpid_version@, doc_version@),
{
    let mut text = String::new();
    text.append("# About this Document\n\nThis document was generated by [OpenPID](TODO) vTODO on TODO.\n\nThe document it was generated from was written in OpenPID ");
    text.append(openpid_version);
    text.append("\n\nThe document it was generated from's version was ");
    text.append(doc_version);
    text.append("\n\n");
    assert(text@ =~= about_text(openpid_version@, doc_version@));
    text
}

/// The index page of the payloads that go to the device.
pub fn tx_payloads_index(device_name: &str, pages: &str) -> (text: String)
    ensures
        text@ == tx_index_text(device_name@, pages@),
{
    let mut text = String::new();
    text.append("# Sendable Payloads\nA payload is encapsulated by the [Packet Format](TODO) before it is sent. \n\nSendable payloads are \"sendable\" from your controller to ");
    text.append(device_name);
    text.append(".\n\n");
    text.append(pages);
    text.append("\n\n");
    assert(text@ =~= tx_index_text(device_name@, pages@));
    text
}

/// The index page of the payloads that come from the device.
pub fn rx_payloads_index(device_name: &str, pages: &str) -> (text: String)
    ensures
        text@ == rx_index_text(device_name@, pages@),
{
    let mut text = String::new();
    text.append("# Receivable Payloads\nA payload is encapsulated by the [Packet Format](TODO) before it arries at your controller. \n\nRecievable payloads are \"recieved\" by your controller from ");
    text.append(device_name);
    text.append(".\n\n");
    text.append(pages);
    text.append("\n");
    assert(text@ =~= rx_index_text(device_name@, pages@));
    text
}

/// Documents a protocol: every payload of both directions, each direction in
/// the order of its payloads; the table of contents; the page about the
/// document, with the two versions as they are; the index page of each
/// direction, which holds the pages of its payloads; and what the book says
/// of itself.
pub fn document(pid: &OpenPID, book: &Book) -> (docs: Documentation)
    ensures
        docs@ == documentation(pid@),
{
    let tx_payloads = document_payloads(book, &pid.payloads.tx, Direction::Tx);
    let rx_payloads = document_payloads(book, &pid.payloads.rx, Direction::Rx);
    let tx_pages = pages_of(&tx_payloads);
    let rx_pages = pages_of(&rx_payloads);
    let device_name = pid.device_info.name.as_str();
    let mut title = String::new();
    title.append(device_name);
    title.append(" - Interface Guide");
    assert(title@ =~= title_text(device_name@));
    let mut description = String::new();
    description.append("Communication interface documentation for ");
    description.append(device_name);
    description.append(": ");
    description.append(pid.device_info.description.as_str());
    assert(description@ =~= description_text(device_name@, pid.device_info.description@));
    Documentation {
        summary: summary(),
        about: about(pid.openpid_version.as_str(), pid.doc_version.as_str()),
        tx_payloads_index: tx_payloads_index(device_name, tx_pages.as_str()),
        rx_payloads_index: rx_payloads_index(device_name, rx_pages.as_str()),
        tx_payloads,
        rx_payloads,
        title,
        author: "OpenPID DocGen".to_owned(),
        description,
        language: "English".to_owned(),
    }
}

} // verus!
