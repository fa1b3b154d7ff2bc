//! From a snapshot to what is drawn: a table of labelled values with a
//! footer line, described as plain data for a painter to put on screen.

use vstd::prelude::*;
use crate::sysmon::snapshot::{text_of, MetricsSnapshot, SnapshotView};
use crate::sysmon::Sysmon;
use crate::text::{decimal, decimal_text, join, joined, texts, two_decimal_text, two_decimals};
use crate::text::{digit_char, is_digit, lemma_decimal_is_numeral};
use crate::units::{gb_hundredths, hundredths_of_gb};

verus! {

/// Share of the height that the table takes, in percent.
pub const TABLE_PERCENT: u16 = 90;

/// Height of the footer, in lines.
pub const FOOTER_LINES: u16 = 1;

/// Width of the label column, in cells.
pub const LABEL_WIDTH: u16 = 20;

/// Least width of the value column, in cells.
pub const VALUE_MIN_WIDTH: u16 = 10;

/// One line of the table, as plain values.
pub struct RowView {
    pub label: Seq<char>,
    pub value: Seq<char>,
}

/// What is drawn, as plain values.
pub struct TreeView {
    pub title: Seq<char>,
    pub header: RowView,
    pub rows: Seq<RowView>,
    pub footer: Seq<char>,
    pub table_percent: u16,
    pub footer_lines: u16,
    pub label_width: u16,
    pub value_min_width: u16,
}

/// One line of the table: a label and the value beside it.
#[derive(Debug)]
pub struct TableRow {
    pub label: String,
    pub value: String,
}

impl View for TableRow {
    type V = RowView;

    open spec fn view(&self) -> RowView {
        RowView { label: self.label@, value: self.value@ }
    }
}

/// What is drawn: a titled table under a header, a footer line below it,
/// and the sizes that lay them out.
#[derive(Debug)]
pub struct WidgetTree {
    pub title: String,
    pub header: TableRow,
    pub rows: Vec<TableRow>,
    pub footer: String,
    /// Share of the height that the table takes, in percent.
    pub table_percent: u16,
    /// Height of the footer, in lines.
    pub footer_lines: u16,
    /// Width of the label column, in cells.
    pub label_width: u16,
    /// Least width of the value column, in cells.
    pub value_min_width: u16,
}

/// The lines that a sequence of rows holds, in order.
pub open spec fn row_views(rows: Seq<TableRow>) -> Seq<RowView> {
    Seq::new(rows.len(), |i: int| rows[i]@)
}

impl View for WidgetTree {
    type V = TreeView;

    open spec fn view(&self) -> TreeView {
        TreeView {
            title: self.title@,
            header: self.header@,
            rows: row_views(self.rows@),
            footer: self.footer@,
            table_percent: self.table_percent,
            footer_lines: self.footer_lines,
            label_width: self.label_width,
            value_min_width: self.value_min_width,
        }
    }
}

/// The value shown for an identity string: the string, or "Unknown" where
/// there is none.
pub open spec fn or_unknown(value: Option<Seq<char>>) -> Seq<char> {
    match value {
        Some(text) => text,
        None => "Unknown"@,
    }
}

/// The value shown for the disks: the names joined by a comma and a
/// space, or "No disks found" where there is none.
pub open spec fn disks_line(names: Seq<Seq<char>>) -> Seq<char> {
    if names.len() == 0 {
        "No disks found"@
    } else {
        joined(names, ", "@)
    }
}

/// The value shown for a memory counter: gigabytes with two decimals, a
/// space and the unit.
pub open spec fn gb_line(bytes: u64) -> Seq<char> {
    two_decimals(gb_hundredths(bytes as nat)) + " GB"@
}

/// The eight lines of the table, in their fixed order.
pub open spec fn table_rows(snapshot: SnapshotView) -> Seq<RowView> {
    seq![
        RowView { label: "OS NAME"@, value: or_unknown(snapshot.os_name) },
        RowView { label: "OS VERSION"@, value: or_unknown(snapshot.os_version) },
        RowView { label: "KERNEL VERSION"@, value: or_unknown(snapshot.kernel_version) },
        RowView { label: "HOST NAME"@, value: or_unknown(snapshot.host_name) },
        RowView { label: "DISKS"@, value: disks_line(snapshot.disk_names) },
        RowView { label: "NB CPUS"@, value: decimal(snapshot.cpu_count as nat) },
        RowView { label: "RAM TOTAL"@, value: gb_line(snapshot.total_memory_bytes) },
        RowView { label: "RAM USED"@, value: gb_line(snapshot.used_memory_bytes) },
    ]
}

/// What is drawn for a snapshot.
pub open spec fn rendered(snapshot: SnapshotView) -> TreeView {
    TreeView {
        title: " System Monitor "@,
        header: RowView { label: "KEY"@, value: "VALUE"@ },
        rows: table_rows(snapshot),
        footer: "Press 'q' to quit"@,
        table_percent: TABLE_PERCENT,
        footer_lines: FOOTER_LINES,
        label_width: LABEL_WIDTH,
        value_min_width: VALUE_MIN_WIDTH,
    }
}

/// A table line from a label and an optional value; "Unknown" stands for a
/// value that is absent.
pub fn row(label: &str, value: &Option<String>) -> (line: TableRow)
    ensures
        line@ == (RowView { label: label@, value: or_unknown(text_of(*value)) }),
{
    let shown = match value {
        Some(text) => text.clone(),
        None => String::from_str("Unknown"),
    };
    TableRow { label: String::from_str(label), value: shown }
}

/// The value shown for the disks.
pub fn disks_text(names: &Vec<String>) -> (line: String)
    ensures
        line@ == disks_line(texts(names@)),
{
    if names.len() == 0 {
        String::from_str("No disks found")
    } else {
        join(names, ", ")
    }
}

/// The value shown for a memory counter of `bytes` bytes.
pub fn gb_text(bytes: u64) -> (line: String)
    ensures
        line@ == gb_line(bytes),
{
    let mut line = two_decimal_text(hundredths_of_gb(bytes));
    line.append(" GB");
    line
}

/// Describes what is drawn for `snapshot`.
pub fn render(snapshot: &MetricsSnapshot) -> (tree: WidgetTree)
    ensures
        tree@ == rendered(snapshot@),
{
    let mut rows: Vec<TableRow> = Vec::new();
    rows.push(row("OS NAME", &snapshot.os_name));
    rows.push(row("OS VERSION", &snapshot.os_version));
    rows.push(row("KERNEL VERSION", &snapshot.kernel_version));
    rows.push(row("HOST NAME", &snapshot.host_name));
    rows.push(
        TableRow { label: String::from_str("DISKS"), value: disks_text(&snapshot.disk_names) },
    );
    rows.push(
        TableRow {
            label: String::from_str("NB CPUS"),
            value: decimal_text(snapshot.cpu_count as u64),
        },
    );
    rows.push(
        TableRow {
            label: String::from_str("RAM TOTAL"),
            value: gb_text(snapshot.total_memory_bytes),
        },
    );
    rows.push(
        TableRow {
            label: String::from_str("RAM USED"),
            value: gb_text(snapshot.used_memory_bytes),
        },
    );
    assert(row_views(rows@) =~= table_rows(snapshot@));
    WidgetTree {
        title: String::from_str(" System Monitor "),
        header: TableRow { label: String::from_str("KEY"), value: String::from_str("VALUE") },
        rows,
        footer: String::from_str("Press 'q' to quit"),
        table_percent: TABLE_PERCENT,
        footer_lines: FOOTER_LINES,
        label_width: LABEL_WIDTH,
        value_min_width: VALUE_MIN_WIDTH,
    }
}

/// Whether `tree` is what is drawn for a snapshot built from `provider`:
/// its memory, processor and disk lines show what the provider holds.
pub open spec fn draws_for(tree: TreeView, provider: Sysmon) -> bool {
    exists|snapshot: MetricsSnapshot|
        snapshot.reads(&provider) && tree == #[trigger] rendered(snapshot@)
}

/// Samples the host through a fresh provider and describes the frame to
/// draw: the rendering of the snapshot built from that provider.
pub fn draw() -> (tree: WidgetTree)
    ensures
        exists|provider: Sysmon| #[trigger] draws_for(tree@, provider),
{
    let sysmon = Sysmon::new();
    let snapshot = MetricsSnapshot::build(&sysmon);
    let tree = render(&snapshot);
    assert(draws_for(tree@, sysmon));
    tree
}

/// A memory value is a numeral, a point, two digits, a space and "GB",
/// and nothing else.
pub proof fn lemma_memory_value_shape(bytes: u64)
    ensures
        ({
            let line = gb_line(bytes);
            let n = line.len() as int;
            &&& n >= 7
            &&& forall|i: int| 0 <= i < n - 6 ==> is_digit(#[trigger] line[i])
            &&& line[n - 6] == '.'
            &&& is_digit(line[n - 5])
            &&& is_digit(line[n - 4])
            &&& line.subrange(n - 3, n) == " GB"@
        }),
{
    let hundredths = gb_hundredths(bytes as nat);
    let units = decimal(hundredths / 100);
    let line = gb_line(bytes);
    let n = line.len() as int;
    reveal_strlit(" GB");
    lemma_decimal_is_numeral(hundredths / 100);
    assert(n == units.len() + 6);
    assert forall|i: int| 0 <= i < n - 6 implies is_digit(#[trigger] line[i]) by {
        assert(line[i] == units[i]);
    }
    assert(is_digit(digit_char(hundredths / 10 % 10)));
    assert(is_digit(digit_char(hundredths % 10)));
    assert(line.subrange(n - 3, n) =~= " GB"@);
}

/// The two memory lines are formatted apart: the line of the total is
/// fixed by the total alone, the line of the used memory by that alone.
pub proof fn lemma_memory_lines_are_independent(first: SnapshotView, second: SnapshotView)
    ensures
        rendered(first).rows[6].value == gb_line(first.total_memory_bytes),
        rendered(first).rows[7].value == gb_line(first.used_memory_bytes),
        first.total_memory_bytes == second.total_memory_bytes ==> rendered(first).rows[6]
            == rendered(second).rows[6],
        first.used_memory_bytes == second.used_memory_bytes ==> rendered(first).rows[7]
            == rendered(second).rows[7],
{
}

/// An identity string that is absent shows as "Unknown", one that is
/// present as itself.
pub proof fn lemma_identity_lines(snapshot: SnapshotView)
    ensures
        rendered(snapshot).rows[0].value == or_unknown(snapshot.os_name),
        rendered(snapshot).rows[1].value == or_unknown(snapshot.os_version),
        rendered(snapshot).rows[2].value == or_unknown(snapshot.kernel_version),
        rendered(snapshot).rows[3].value == or_unknown(snapshot.host_name),
        forall|value: Option<Seq<char>>| value is None ==> #[trigger] or_unknown(value) == "Unknown"@,
        forall|value: Option<Seq<char>>| value is Some ==> #[trigger] or_unknown(value) == value->0,
{
}

/// With no disk the line says so; with one it is the name; with more, the
/// names in order with a comma and a space between neighbours.
pub proof fn lemma_disks_line(snapshot: SnapshotView)
    ensures
        rendered(snapshot).rows[4].value == disks_line(snapshot.disk_names),
        snapshot.disk_names.len() == 0 ==> disks_line(snapshot.disk_names) == "No disks found"@,
        snapshot.disk_names.len() == 1 ==> disks_line(snapshot.disk_names)
            == snapshot.disk_names[0],
        snapshot.disk_names.len() == 2 ==> disks_line(snapshot.disk_names)
            == snapshot.disk_names[0] + ", "@ + snapshot.disk_names[1],
        snapshot.disk_names.len() >= 2 ==> disks_line(snapshot.disk_names) == disks_line(
            snapshot.disk_names.drop_last(),
        ) + ", "@ + snapshot.disk_names.last(),
{
    let names = snapshot.disk_names;
    if names.len() >= 2 {
        assert(joined(names, ", "@) == joined(names.drop_last(), ", "@) + ", "@ + names.last());
        if names.len() == 2 {
            assert(names.drop_last().len() == 1);
            assert(joined(names.drop_last(), ", "@) == names.drop_last()[0]);
        }
    }
}

/// The frame's fixed parts: eight lines in a fixed order, each label within
/// the label column, the table over nine tenths of the height and the
/// footer on one line.
pub proof fn lemma_frame_layout(snapshot: SnapshotView)
    ensures
        rendered(snapshot).rows.len() == 8,
        rendered(snapshot).rows[0].label == "OS NAME"@,
        rendered(snapshot).rows[1].label == "OS VERSION"@,
        rendered(snapshot).rows[2].label == "KERNEL VERSION"@,
        rendered(snapshot).rows[3].label == "HOST NAME"@,
        rendered(snapshot).rows[4].label == "DISKS"@,
        rendered(snapshot).rows[5].label == "NB CPUS"@,
        rendered(snapshot).rows[6].label == "RAM TOTAL"@,
        rendered(snapshot).rows[7].label == "RAM USED"@,
        forall|i: int|
            0 <= i < 8 ==> (#[trigger] rendered(snapshot).rows[i]).label.len() <= rendered(
                snapshot,
            ).label_width,
        rendered(snapshot).table_percent >= 90,
        rendered(snapshot).footer_lines == 1,
        rendered(snapshot).footer == "Press 'q' to quit"@,
{
    reveal_strlit("OS NAME");
    reveal_strlit("OS VERSION");
    reveal_strlit("KERNEL VERSION");
    reveal_strlit("HOST NAME");
    reveal_strlit("DISKS");
    reveal_strlit("NB CPUS");
    reveal_strlit("RAM TOTAL");
    reveal_strlit("RAM USED");
}

} // verus!
