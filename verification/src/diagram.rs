//! The layout of a packet diagram: every entry becomes one block whose visual
//! width is proportional to its bit width, inside a fixed visual budget.

use vstd::prelude::*;
use crate::text::{decimal, push_decimal};

verus! {

/// The visual units that the blocks of known width share.
pub const BUDGET: u32 = 2000;

/// The nominal bit width that stands for an entry of unknown width.
pub const VARIABLE_WIDTH: u32 = 16;

/// What a diagram is laid out from: a label and, where it is known, a bit
/// width.
pub type Entry = (Seq<char>, Option<u32>);

/// The sum of the widths that are present. An entry without a width adds
/// nothing.
pub open spec fn total_bit_width(entries: Seq<Entry>) -> nat
    decreases entries.len(),
{
    if entries.len() == 0 {
        0
    } else {
        total_bit_width(entries.drop_last()) + entry_bits(entries.last().1)
    }
}

/// The bits that one entry adds to the total.
pub open spec fn entry_bits(size: Option<u32>) -> nat {
    match size {
        Some(bits) => bits as nat,
        None => 0,
    }
}

/// The visual units per bit: the budget divided by the total, rounded down.
pub open spec fn scale(entries: Seq<Entry>) -> nat {
    BUDGET as nat / total_bit_width(entries)
}

/// The caption under a block's index.
pub open spec fn caption(size: Option<u32>) -> Seq<char> {
    match size {
        Some(bits) => decimal(bits as nat) + " bits"@,
        None => "Variable"@,
    }
}

/// The visual width of a block at a given scale.
pub open spec fn block_width(size: Option<u32>, scale: nat) -> nat {
    match size {
        Some(bits) => bits as nat * scale,
        None => VARIABLE_WIDTH as nat * scale,
    }
}

/// One block of a diagram.
#[derive(Debug, Clone, PartialEq, Eq)]
pub struct DiagramBlock {
    /// The block's place in the row, from zero.
    pub index: usize,
    /// The text shown inside the block.
    pub label: String,
    /// The size caption.
    pub caption: String,
    /// The visual width.
    pub width: u32,
}

/// The mathematical value of a `DiagramBlock`.
pub struct BlockView {
    pub index: nat,
    pub label: Seq<char>,
    pub caption: Seq<char>,
    pub width: nat,
}

impl View for DiagramBlock {
    type V = BlockView;

    open spec fn view(&self) -> BlockView {
        BlockView {
            index: self.index as nat,
            label: self.label@,
            caption: self.caption@,
            width: self.width as nat,
        }
    }
}

impl DeepView for DiagramBlock {
    type V = BlockView;

    open spec fn deep_view(&self) -> BlockView {
        self@
    }
}

/// The block of the entry at place `i`.
pub open spec fn block_of(entries: Seq<Entry>, i: int) -> BlockView {
    BlockView {
        index: i as nat,
        label: entries[i].0,
        caption: caption(entries[i].1),
        width: block_width(entries[i].1, scale(entries)),
    }
}

/// The blocks of a diagram: none where the total is zero, else one per entry,
/// in the entries' order.
pub open spec fn layout(entries: Seq<Entry>) -> Seq<BlockView> {
    if total_bit_width(entries) == 0 {
        Seq::empty()
    } else {
        Seq::new(entries.len(), |i: int| block_of(entries, i))
    }
}

/// The description of one block.
pub open spec fn block_text(block: BlockView) -> Seq<char> {
    decimal(block.index) + ": "@ + block.caption + "\n"@ + decimal(block.index)
        + ": {\n  explanation: |md "@ + block.label
        + " |\n  explanation.style.font-size: 55\n  width:"@ + decimal(block.width)
        + "\n\n  style.font-size: 40\n}\n"@
}

/// The descriptions of the blocks, one after the other.
pub open spec fn blocks_text(blocks: Seq<BlockView>) -> Seq<char>
    decreases blocks.len(),
{
    if blocks.len() == 0 {
        Seq::empty()
    } else {
        blocks_text(blocks.drop_last()) + block_text(blocks.last())
    }
}

/// The description of a container called `name` that holds `blocks` in one
/// row without gaps, after the preamble that configures the renderer.
pub open spec fn container_text(name: Seq<char>, blocks: Seq<BlockView>) -> Seq<char> {
    "\nvars: {\n  d2-config: {\n    layout-engine: elk\n    theme-id: 0\n  }\n}\n\n\n"@ + name
        + " {\n    style.font-size: 50\n    grid-rows: 1\n    grid-gap: 0\n    "@
        + blocks_text(blocks) + "\n}\n"@
}

/// The description of the diagram of `entries`: empty where the total is
/// zero.
pub open spec fn diagram_text(name: Seq<char>, entries: Seq<Entry>) -> Seq<char> {
    if total_bit_width(entries) == 0 {
        Seq::empty()
    } else {
        container_text(name, layout(entries))
    }
}

/// Entries of which none has a width sum to zero.
pub proof fn lemma_no_width_no_total(entries: Seq<Entry>)
    requires
        forall|i: int| 0 <= i < entries.len() ==> (#[trigger] entries[i]).1 is None,
    ensures
        total_bit_width(entries) == 0,
    decreases entries.len(),
{
    if entries.len() > 0 {
        lemma_no_width_no_total(entries.drop_last());
    }
}

/// Every width that is present is at most the total.
pub proof fn lemma_total_bounds(entries: Seq<Entry>, i: int)
    requires
        0 <= i < entries.len(),
    ensures
        entry_bits(entries[i].1) <= total_bit_width(entries),
    decreases entries.len(),
{
    if i < entries.len() - 1 {
        lemma_total_bounds(entries.drop_last(), i);
    }
}

/// No block is wider than sixteen times the budget, and a block of known
/// width is no wider than the budget.
pub proof fn lemma_block_width_bound(entries: Seq<Entry>, i: int)
    requires
        0 <= i < entries.len(),
        total_bit_width(entries) > 0,
    ensures
        block_width(entries[i].1, scale(entries)) <= VARIABLE_WIDTH * BUDGET,
        entries[i].1 is Some ==> block_width(entries[i].1, scale(entries)) <= BUDGET,
{
    let total = total_bit_width(entries);
    let s = scale(entries);
    lemma_total_bounds(entries, i);
    assert(s * total <= BUDGET) by (nonlinear_arith)
        requires
            s == BUDGET as nat / total,
            total > 0,
    ;
    assert(s <= BUDGET) by (nonlinear_arith)
        requires
            s * total <= BUDGET,
            total > 0,
    ;
    match entries[i].1 {
        Some(bits) => {
            assert(bits as nat * s <= BUDGET) by (nonlinear_arith)
                requires
                    bits as nat <= total,
                    s * total <= BUDGET,
            ;
        },
        None => {
            assert(VARIABLE_WIDTH as nat * s <= VARIABLE_WIDTH * BUDGET) by (nonlinear_arith)
                requires
                    s <= BUDGET,
            ;
        },
    }
}

/// A diagram holds one block per entry, in the entries' order: the block at
/// each place has that place as its index and carries that entry's label and
/// the caption of its width. This holds of every list of entries but those
/// that are not empty and whose widths sum to zero, which have no diagram.
pub proof fn lemma_blocks_follow_entries(entries: Seq<Entry>)
    requires
        total_bit_width(entries) > 0 || entries.len() == 0,
    ensures
        layout(entries).len() == entries.len(),
        forall|i: int|
            0 <= i < entries.len() ==> {
                &&& (#[trigger] layout(entries)[i]).index == i
                &&& layout(entries)[i].label == entries[i].0
                &&& layout(entries)[i].caption == caption(entries[i].1)
            },
{
}

/// Where the widths sum to more than zero, the scale is the budget divided by
/// their sum, rounded down; a block of known width is as wide as its bits
/// times the scale, and a block of unknown width as wide as sixteen bits.
pub proof fn lemma_widths_are_scaled(entries: Seq<Entry>, i: int)
    requires
        total_bit_width(entries) > 0,
        0 <= i < entries.len(),
    ensures
        scale(entries) == 2000nat / total_bit_width(entries),
        entries[i].1 matches Some(bits) ==> layout(entries)[i].width == bits * scale(entries),
        entries[i].1 is None ==> layout(entries)[i].width == 16 * scale(entries),
{
}

/// The entries that a list of labels and widths stands for.
pub open spec fn entries_of(contents: Seq<(String, Option<u32>)>) -> Seq<Entry> {
    Seq::new(contents.len(), |i: int| (contents[i].0@, contents[i].1))
}

/// Sums the widths that are present in `contents`.
pub fn sum_bit_widths(contents: &Vec<(String, Option<u32>)>) -> (total: u128)
    ensures
        total == total_bit_width(entries_of(contents@)),
{
    let ghost entries = entries_of(contents@);
    let mut total: u128 = 0;
    let mut i: usize = 0;
    while i < contents.len()
        invariant
            i <= contents.len(),
            entries == entries_of(contents@),
            total == total_bit_width(entries.take(i as int)),
            total <= i * u32::MAX,
        decreases contents.len() - i,
    {
        proof {
            assert(entries.take(i + 1).drop_last() =~= entries.take(i as int));
            assert((i + 1) * u32::MAX <= u128::MAX) by (nonlinear_arith)
                requires
                    i <= u64::MAX,
            ;
            assert((i + 1) * u32::MAX == i * u32::MAX + u32::MAX) by (nonlinear_arith);
        }
        match contents[i].1 {
            Some(bits) => {
                total = total + bits as u128;
            },
            None => {},
        }
        i = i + 1;
    }
    assert(entries.take(i as int) =~= entries);
    total
}

/// The caption of a block as a string.
pub fn caption_string(size: Option<u32>) -> (text: String)
    ensures
        text@ == caption(size),
{
    let mut text = String::new();
    match size {
        Some(bits) => {
            push_decimal(&mut text, bits as u64);
            text.append(" bits");
        },
        None => {
            text.append("Variable");
        },
    }
    assert(text@ =~= caption(size));
    text
}

/// Lays out the blocks of a diagram. The result is empty where the widths
/// that are present sum to zero; else it holds one block per entry, in the
/// entries' order, each as wide as its bits times the scale.
pub fn layout_blocks(contents: &Vec<(String, Option<u32>)>) -> (blocks: Vec<DiagramBlock>)
    ensures
        blocks.deep_view() == layout(entries_of(contents@)),
        total_bit_width(entries_of(contents@)) == 0 ==> blocks@.len() == 0,
        total_bit_width(entries_of(contents@)) > 0 ==> blocks@.len() == contents@.len(),
        total_bit_width(entries_of(contents@)) > 0 ==> forall|i: int|
            0 <= i < contents@.len() ==> (#[trigger] blocks@[i]).width == block_width(
                contents@[i].1,
                BUDGET as nat / total_bit_width(entries_of(contents@)),
            ),
{
    let ghost entries = entries_of(contents@);
    let mut blocks: Vec<DiagramBlock> = Vec::new();
    let total = sum_bit_widths(contents);
    if total == 0 {
        assert(blocks.deep_view() =~= layout(entries));
        return blocks;
    }
    let per_bit: u32 = (BUDGET as u128 / total) as u32;
    let mut i: usize = 0;
    while i < contents.len()
        invariant
            i <= contents.len(),
            entries == entries_of(contents@),
            total == total_bit_width(entries),
            total > 0,
            per_bit == scale(entries),
            blocks@.len() == i,
            forall|j: int| 0 <= j < i ==> (#[trigger] blocks@[j])@ == block_of(entries, j),
        decreases contents.len() - i,
    {
        let size = contents[i].1;
        proof {
            lemma_block_width_bound(entries, i as int);
        }
        let width: u32 = match size {
            Some(bits) => bits * per_bit,
            None => VARIABLE_WIDTH * per_bit,
        };
        let block = DiagramBlock {
            index: i,
            label: contents[i].0.clone(),
            caption: caption_string(size),
            width,
        };
        assert(block@ == block_of(entries, i as int));
        blocks.push(block);
        i = i + 1;
    }
    assert(blocks.deep_view() =~= layout(entries));
    blocks
}

/// Appends the description of one block to `out`.
pub fn push_block_text(out: &mut String, block: &DiagramBlock)
    ensures
        final(out)@ == old(out)@ + block_text(block@),
{
    push_decimal(out, block.index as u64);
    out.append(": ");
    out.append(block.caption.as_str());
    out.append("\n");
    push_decimal(out, block.index as u64);
    out.append(": {\n  explanation: |md ");
    out.append(block.label.as_str());
    out.append(" |\n  explanation.style.font-size: 55\n  width:");
    push_decimal(out, block.width as u64);
    out.append("\n\n  style.font-size: 40\n}\n");
    assert(out@ =~= old(out)@ + block_text(block@));
}

/// The descriptions of `blocks`, one after the other.
pub fn blocks_string(blocks: &Vec<DiagramBlock>) -> (text: String)
    ensures
        text@ == blocks_text(blocks.deep_view()),
{
    let ghost views = blocks.deep_view();
    let mut text = String::new();
    let mut i: usize = 0;
    while i < blocks.len()
        invariant
            i <= blocks.len(),
            views == blocks.deep_view(),
            text@ == blocks_text(views.take(i as int)),
        decreases blocks.len() - i,
    {
        proof {
            assert(views.take(i + 1).drop_last() =~= views.take(i as int));
            assert(views.take(i + 1).last() == blocks@[i as int]@);
        }
        push_block_text(&mut text, &blocks[i]);
        i = i + 1;
    }
    assert(views.take(i as int) =~= views);
    text
}

/// Describes the diagram of a packet, or of anything laid out like one: a
/// container called `name` with one block per entry of `contents`, each as
/// wide as its share of the budget. Where the widths that are present sum to
/// zero there is nothing to scale by, and the description is empty.
pub fn generate_packet_diagram(name: &str, contents: Vec<(String, Option<u32>)>) -> (diagram:
    String)
    ensures
        diagram@ == diagram_text(name@, entries_of(contents@)),
        total_bit_width(entries_of(contents@)) == 0 ==> diagram@ == Seq::<char>::empty(),
{
    let blocks = layout_blocks(&contents);
    let mut diagram = String::new();
    if blocks.len() == 0 {
        proof {
            if total_bit_width(entries_of(contents@)) > 0 {
                assert(entries_of(contents@).len() > 0);
            }
        }
        return diagram;
    }
    let stuffing = blocks_string(&blocks);
    diagram.append("\nvars: {\n  d2-config: {\n    layout-engine: elk\n    theme-id: 0\n  }\n}\n\n\n");
    diagram.append(name);
    diagram.append(" {\n    style.font-size: 50\n    grid-rows: 1\n    grid-gap: 0\n    ");
    diagram.append(stuffing.as_str());
    diagram.append("\n}\n");
    assert(diagram@ =~= container_text(name@, layout(entries_of(contents@))));
    diagram
}

} // verus!
