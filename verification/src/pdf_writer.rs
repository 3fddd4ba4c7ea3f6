//! The report generator: what each PDF report holds, as a list of blocks that
//! a renderer lays out page by page.
use crate::pattern::{find_all, regex_matches};
use crate::rekognition_ops::{celebrities_records, celebrities_text, celebrity_details,
    celebrity_header_list, celebrity_headers, Celebrity};
use crate::s3_ops::{file_name_of_key, key_file_name, without_leading_slash};
use crate::text::{begins_with, concat_all, concat_texts, decimal, decimal_u64, joined, listed,
    str_views, views, without_first};
use vstd::prelude::*;
use vstd::string::*;

verus! {

/// A colour by its red, green and blue parts.
#[derive(Clone, Copy, Debug, PartialEq, Eq, Structural)]
pub struct Color {
    pub red: u8,
    pub green: u8,
    pub blue: u8,
}

/// Where a paragraph stands on the line.
#[derive(Clone, Copy, Debug, PartialEq, Eq, Structural)]
pub enum Align {
    Left,
    Center,
}

/// One centred, bold table cell.
#[derive(Clone, Debug)]
pub struct Cell {
    pub text: String,
    pub color: Color,
}

/// One table row: cells, or an empty row that sets two groups apart.
#[derive(Clone, Debug)]
pub enum Row {
    Cells(Vec<Cell>),
    Gap,
}

/// A framed table with columns of equal weight.
#[derive(Clone, Debug)]
pub struct Table {
    pub columns: usize,
    pub rows: Vec<Row>,
}

/// One block of a report, laid out below the block before it.
#[derive(Clone, Debug)]
pub enum Block {
    Paragraph { text: String, align: Align, bold: bool, color: Option<Color> },
    /// Vertical space, counted in lines.
    Space { lines: u8 },
    /// A centred picture, read from `path`; where `fill` holds a width and a
    /// height, the picture is first resized to fill them.
    Picture { path: String, fill: Option<(u32, u32)> },
    Grid { table: Table },
}

/// A report: its title, its page set-up and its blocks from top to bottom.
#[derive(Clone, Debug)]
pub struct Report {
    pub title: String,
    /// The page margins.
    pub margins: u8,
    /// The line spacing, in hundredths of a line.
    pub line_spacing: u32,
    pub blocks: Vec<Block>,
    /// The file that the rendered report is written to.
    pub file_name: String,
}

pub struct CellView {
    pub text: Seq<char>,
    pub color: Color,
}

pub enum RowView {
    Cells(Seq<CellView>),
    Gap,
}

pub struct TableView {
    pub columns: nat,
    pub rows: Seq<RowView>,
}

pub enum BlockView {
    Paragraph { text: Seq<char>, align: Align, bold: bool, color: Option<Color> },
    Space { lines: u8 },
    Picture { path: Seq<char>, fill: Option<(u32, u32)> },
    Grid { table: TableView },
}

pub struct ReportView {
    pub title: Seq<char>,
    pub margins: u8,
    pub line_spacing: u32,
    pub blocks: Seq<BlockView>,
    pub file_name: Seq<char>,
}

impl View for Cell {
    type V = CellView;

    open spec fn view(&self) -> CellView {
        CellView { text: self.text@, color: self.color }
    }
}

impl View for Row {
    type V = RowView;

    open spec fn view(&self) -> RowView {
        match self {
            Row::Cells(cells) => RowView::Cells(cells@.map_values(|c: Cell| c@)),
            Row::Gap => RowView::Gap,
        }
    }
}

impl View for Table {
    type V = TableView;

    open spec fn view(&self) -> TableView {
        TableView { columns: self.columns as nat, rows: self.rows@.map_values(|r: Row| r@) }
    }
}

impl View for Block {
    type V = BlockView;

    open spec fn view(&self) -> BlockView {
        match self {
            Block::Paragraph { text, align, bold, color } => BlockView::Paragraph {
                text: text@,
                align: *align,
                bold: *bold,
                color: *color,
            },
            Block::Space { lines } => BlockView::Space { lines: *lines },
            Block::Picture { path, fill } => BlockView::Picture { path: path@, fill: *fill },
            Block::Grid { table } => BlockView::Grid { table: table@ },
        }
    }
}

impl View for Report {
    type V = ReportView;

    open spec fn view(&self) -> ReportView {
        ReportView {
            title: self.title@,
            margins: self.margins,
            line_spacing: self.line_spacing,
            blocks: self.blocks@.map_values(|b: Block| b@),
            file_name: self.file_name@,
        }
    }
}

/// The colour of a table's left column and of a one-column table.
pub open spec fn header_color() -> Color {
    Color { red: 34, green: 91, blue: 247 }
}

/// The colour of a table's right column.
pub open spec fn value_color() -> Color {
    Color { red: 208, green: 97, blue: 0 }
}

/// The colour of the lines that say what a report is about.
pub open spec fn note_color() -> Color {
    Color { red: 0, green: 128, blue: 0 }
}

/// A row of two cells: a header on the left, its value on the right.
pub open spec fn pair_row(header: Seq<char>, value: Seq<char>) -> RowView {
    RowView::Cells(
        seq![
            CellView { text: header, color: header_color() },
            CellView { text: value, color: value_color() },
        ],
    )
}

/// A row of one header-coloured cell.
pub open spec fn single_row(text: Seq<char>) -> RowView {
    RowView::Cells(seq![CellView { text, color: header_color() }])
}

/// The rows that a list of records fills: record `k` stands beside header
/// `k` modulo the number of headers, and an empty row follows every `group`
/// records. Without headers there are no rows.
pub open spec fn paired_rows(headers: Seq<Seq<char>>, records: Seq<Seq<char>>, group: int) -> Seq<
    RowView,
>
    recommends
        group > 0,
    decreases records.len(),
{
    if headers.len() == 0 || records.len() == 0 {
        Seq::empty()
    } else {
        let k = records.len() - 1;
        let before = paired_rows(headers, records.drop_last(), group);
        let row = pair_row(headers[k % (headers.len() as int)], records[k]);
        if (k + 1) % group == 0 {
            before.push(row).push(RowView::Gap)
        } else {
            before.push(row)
        }
    }
}

/// How a quotient grows by one step: it rises by one exactly where the
/// step reaches a multiple of the divisor.
proof fn lemma_quotient_step(n: int, group: int)
    requires
        n >= 1,
        group > 0,
    ensures
        n / group == (n - 1) / group + (if n % group == 0 {
            1int
        } else {
            0int
        }),
{
    vstd::arithmetic::div_mod::lemma_fundamental_div_mod(n, group);
    vstd::arithmetic::div_mod::lemma_fundamental_div_mod(n - 1, group);
    let q = n / group;
    let p = (n - 1) / group;
    let r = n % group;
    let t = (n - 1) % group;
    assert(0 <= r < group && 0 <= t < group);
    assert(group * q + r == group * p + t + 1);
    assert(q == p + (if r == 0 {
        1int
    } else {
        0int
    })) by (nonlinear_arith)
        requires
            group > 0,
            0 <= r < group,
            0 <= t < group,
            group * q + r == group * p + t + 1,
    ;
}

/// With at least one header, `n` records fill `n` rows of cells and one
/// empty row for every full group: `n + n / group` rows in all.
pub proof fn lemma_paired_rows_len(
    headers: Seq<Seq<char>>,
    records: Seq<Seq<char>>,
    group: int,
)
    requires
        group > 0,
        headers.len() > 0,
    ensures
        paired_rows(headers, records, group).len() == records.len() + records.len() as int
            / group,
    decreases records.len(),
{
    if records.len() > 0 {
        lemma_paired_rows_len(headers, records.drop_last(), group);
        lemma_quotient_step(records.len() as int, group);
    }
}

/// With at least one header, record `k` stands in row `k + k / group`,
/// beside header `k` modulo the number of headers, and an empty row follows
/// it where `k + 1` is a multiple of `group`.
pub proof fn lemma_paired_rows_at(
    headers: Seq<Seq<char>>,
    records: Seq<Seq<char>>,
    group: int,
    k: int,
)
    requires
        group > 0,
        headers.len() > 0,
        0 <= k < records.len(),
    ensures
        k + k / group + 1 <= paired_rows(headers, records, group).len(),
        paired_rows(headers, records, group)[k + k / group] == pair_row(
            headers[k % (headers.len() as int)],
            records[k],
        ),
        (k + 1) % group == 0 ==> k + k / group + 1 < paired_rows(headers, records, group).len()
            && paired_rows(headers, records, group)[k + k / group + 1] == RowView::Gap,
    decreases records.len(),
{
    let n = records.len() as int;
    let before = paired_rows(headers, records.drop_last(), group);
    lemma_paired_rows_len(headers, records.drop_last(), group);
    lemma_paired_rows_len(headers, records, group);
    lemma_quotient_step(n, group);
    if k < n - 1 {
        lemma_paired_rows_at(headers, records.drop_last(), group, k);
        assert(records.drop_last()[k] == records[k]);
        lemma_quotient_step(k + 1, group);
    }
}

/// One row per text, each a single header-coloured cell.
pub open spec fn single_rows(texts: Seq<Seq<char>>) -> Seq<RowView> {
    texts.map_values(|t: Seq<char>| single_row(t))
}

/// A centred bold paragraph without colour: the heading of a page.
pub open spec fn heading(text: Seq<char>) -> BlockView {
    BlockView::Paragraph { text, align: Align::Center, bold: true, color: None }
}

/// A bold note-coloured paragraph.
pub open spec fn note(text: Seq<char>, align: Align) -> BlockView {
    BlockView::Paragraph { text, align, bold: true, color: Some(note_color()) }
}

/// A blank space of `lines` lines.
pub open spec fn space(lines: u8) -> BlockView {
    BlockView::Space { lines }
}

/// The table that `create_table` makes.
pub open spec fn titled_table(key: Seq<char>, value: Seq<char>) -> TableView {
    TableView { columns: 2, rows: seq![pair_row(key, value), RowView::Gap] }
}

/// The table that `create_table_with_one_column` makes.
pub open spec fn titled_column(header: Seq<char>) -> TableView {
    TableView { columns: 1, rows: seq![single_row(header), RowView::Gap] }
}

/// A report that holds nothing yet but its page set-up.
pub open spec fn blank_report() -> ReportView {
    ReportView {
        title: Seq::empty(),
        margins: 0,
        line_spacing: 100,
        blocks: Seq::empty(),
        file_name: Seq::empty(),
    }
}

fn blue() -> (c: Color)
    ensures
        c == header_color(),
{
    Color { red: 34, green: 91, blue: 247 }
}

fn orange() -> (c: Color)
    ensures
        c == value_color(),
{
    Color { red: 208, green: 97, blue: 0 }
}

fn green() -> (c: Color)
    ensures
        c == note_color(),
{
    Color { red: 0, green: 128, blue: 0 }
}

fn make_pair_row(header: &str, value: &str) -> (row: Row)
    ensures
        row@ == pair_row(header@, value@),
{
    let mut cells: Vec<Cell> = Vec::new();
    cells.push(Cell { text: String::from_str(header), color: blue() });
    cells.push(Cell { text: String::from_str(value), color: orange() });
    let row = Row::Cells(cells);
    assert(row@->Cells_0 =~= pair_row(header@, value@)->Cells_0);
    row
}

fn make_single_row(text: &str) -> (row: Row)
    ensures
        row@ == single_row(text@),
{
    let mut cells: Vec<Cell> = Vec::new();
    cells.push(Cell { text: String::from_str(text), color: blue() });
    let row = Row::Cells(cells);
    assert(row@->Cells_0 =~= single_row(text@)->Cells_0);
    row
}

pub(crate) fn make_heading(text: &str) -> (b: Block)
    ensures
        b@ == heading(text@),
{
    Block::Paragraph { text: String::from_str(text), align: Align::Center, bold: true, color: None }
}

pub(crate) fn make_note(label: &str, value: &str, align: Align) -> (b: Block)
    ensures
        b@ == note(label@ + value@, align),
{
    Block::Paragraph { text: joined(label, value), align, bold: true, color: Some(green()) }
}

pub(crate) fn make_space(lines: u8) -> (b: Block)
    ensures
        b@ == space(lines),
{
    Block::Space { lines }
}

fn push_row(table: &mut Table, row: Row)
    ensures
        final(table)@ == (TableView {
            columns: old(table)@.columns,
            rows: old(table)@.rows.push(row@),
        }),
{
    table.rows.push(row);
    assert(table@.rows =~= old(table)@.rows.push(row@));
}

pub(crate) fn push_block(blocks: &mut Vec<Block>, block: Block)
    ensures
        final(blocks)@.map_values(|b: Block| b@) == old(blocks)@.map_values(|b: Block| b@).push(
            block@,
        ),
{
    blocks.push(block);
    assert(blocks@.map_values(|b: Block| b@) =~= old(blocks)@.map_values(|b: Block| b@).push(
        block@,
    ));
}

/// An empty report: no title, no blocks and no file name, without margins
/// and with single line spacing.
pub fn build_document() -> (report: Report)
    ensures
        report@ == blank_report(),
{
    let report = Report {
        title: String::new(),
        margins: 0,
        line_spacing: 100,
        blocks: Vec::new(),
        file_name: String::new(),
    };
    assert(report@.blocks =~= Seq::empty());
    report
}

/// Gives the report its title and page set-up (margins of 20, one and a half
/// line spacing) and opens it with the centred bold `page_title`.
pub fn document_configuration(document: &mut Report, title: &str, page_title: &str)
    ensures
        final(document)@ == (ReportView {
            title: title@,
            margins: 20,
            line_spacing: 150,
            blocks: old(document)@.blocks.push(heading(page_title@)),
            file_name: old(document)@.file_name,
        }),
{
    document.title = String::from_str(title);
    document.line_spacing = 150;
    push_block(&mut document.blocks, make_heading(page_title));
    document.margins = 20;
}

/// A two-column table that holds its two column titles and an empty row.
pub fn create_table(key: &str, value: &str) -> (table: Table)
    ensures
        table@ == titled_table(key@, value@),
{
    let mut rows: Vec<Row> = Vec::new();
    rows.push(make_pair_row(key, value));
    rows.push(Row::Gap);
    let table = Table { columns: 2, rows };
    assert(table@.rows =~= titled_table(key@, value@).rows);
    table
}

/// A one-column table that holds its column title and an empty row.
pub fn create_table_with_one_column(header: &str) -> (table: Table)
    ensures
        table@ == titled_column(header@),
{
    let mut rows: Vec<Row> = Vec::new();
    rows.push(make_single_row(header));
    rows.push(Row::Gap);
    let table = Table { columns: 1, rows };
    assert(table@.rows =~= titled_column(header@).rows);
    table
}

/// Appends one single-cell row per e-mail address.
pub fn push_table_data_emails(emails: Vec<String>, table: &mut Table)
    ensures
        final(table)@ == (TableView {
            columns: old(table)@.columns,
            rows: old(table)@.rows + single_rows(views(emails@)),
        }),
{
    let mut i: usize = 0;
    while i < emails.len()
        invariant
            i <= emails.len(),
            table@.columns == old(table)@.columns,
            table@.rows == old(table)@.rows + single_rows(views(emails@.subrange(0, i as int))),
        decreases emails.len() - i,
    {
        push_row(table, make_single_row(emails[i].as_str()));
        proof {
            let before = single_rows(views(emails@.subrange(0, i as int)));
            let after = single_rows(views(emails@.subrange(0, i + 1)));
            assert(after =~= before.push(single_row(emails@[i as int]@)));
            assert(table@.rows =~= old(table)@.rows + after);
        }
        i = i + 1;
    }
    assert(emails@.subrange(0, i as int) =~= emails@);
}

/// Appends one row per record beside its header, with an empty row after
/// every `group` records.
fn push_rows(headers: &Vec<String>, records: &Vec<String>, table: &mut Table, group: usize)
    requires
        group > 0,
    ensures
        final(table)@ == (TableView {
            columns: old(table)@.columns,
            rows: old(table)@.rows + paired_rows(views(headers@), views(records@), group as int),
        }),
{
    if headers.len() == 0 {
        assert(table@.rows =~= old(table)@.rows + paired_rows(
            views(headers@),
            views(records@),
            group as int,
        ));
        return ;
    }
    let mut i: usize = 0;
    let mut column: usize = 0;
    let mut filled: usize = 0;
    while i < records.len()
        invariant
            i <= records.len(),
            group > 0,
            headers.len() > 0,
            column == i % headers.len(),
            filled == i % group,
            table@.columns == old(table)@.columns,
            table@.rows == old(table)@.rows + paired_rows(
                views(headers@),
                views(records@.subrange(0, i as int)),
                group as int,
            ),
        decreases records.len() - i,
    {
        push_row(table, make_pair_row(headers[column].as_str(), records[i].as_str()));
        proof {
            let h = views(headers@);
            let before = views(records@.subrange(0, i as int));
            let after = views(records@.subrange(0, i + 1));
            assert(after.drop_last() =~= before);
            assert(after.last() == records@[i as int]@);
            assert(h[i as int % (h.len() as int)] == headers@[column as int]@);
            assert((i + 1) % (group as int) == 0 <==> filled + 1 == group) by (nonlinear_arith)
                requires
                    filled == i % group,
                    group > 0,
            ;
        }
        column = if column + 1 == headers.len() {
            0
        } else {
            column + 1
        };
        filled = filled + 1;
        if filled == group {
            push_row(table, Row::Gap);
            filled = 0;
        }
        proof {
            let after = paired_rows(
                views(headers@),
                views(records@.subrange(0, i + 1)),
                group as int,
            );
            assert(table@.rows =~= old(table)@.rows + after);
            assert(column == (i + 1) % (headers.len() as int)) by (nonlinear_arith)
                requires
                    headers.len() > 0,
                    column == (if (i % headers.len()) + 1 == headers.len() {
                        0
                    } else {
                        (i % headers.len()) + 1
                    }),
            ;
            assert(filled == (i + 1) % (group as int)) by (nonlinear_arith)
                requires
                    group > 0,
                    filled == (if (i % group) + 1 == group {
                        0
                    } else {
                        (i % group) + 1
                    }),
            ;
        }
        i = i + 1;
    }
    assert(records@.subrange(0, i as int) =~= records@);
}

fn owned_texts(parts: &Vec<&str>) -> (out: Vec<String>)
    ensures
        views(out@) == str_views(parts@),
{
    let mut out: Vec<String> = Vec::new();
    let mut i: usize = 0;
    while i < parts.len()
        invariant
            i <= parts.len(),
            out@.len() == i,
            forall|k: int| 0 <= k < i ==> out@[k]@ == parts@[k]@,
        decreases parts.len() - i,
    {
        out.push(String::from_str(parts[i]));
        i = i + 1;
    }
    assert(views(out@) =~= str_views(parts@));
    out
}

/// Appends the celebrity records beside their headers, five to a group.
pub fn push_table_data_celebrity_results(
    headers: Vec<String>,
    records: Vec<String>,
    table: &mut Table,
)
    ensures
        final(table)@ == (TableView {
            columns: old(table)@.columns,
            rows: old(table)@.rows + paired_rows(views(headers@), views(records@), 5),
        }),
{
    push_rows(&headers, &records, table, 5);
}

/// Appends the celebrity records to the table, five to a group, then puts
/// the table and a blank line at the end of the report.
pub fn push_each_table_data_celebrity_results_to_a_document(
    headers: Vec<String>,
    records: Vec<String>,
    table: Table,
    document: &mut Report,
)
    ensures
        final(document)@ == (ReportView {
            blocks: old(document)@.blocks.push(
                BlockView::Grid {
                    table: TableView {
                        columns: table@.columns,
                        rows: table@.rows + paired_rows(views(headers@), views(records@), 5),
                    },
                },
            ).push(space(1)),
            ..old(document)@
        }),
{
    let mut table = table;
    push_rows(&headers, &records, &mut table, 5);
    push_block(&mut document.blocks, Block::Grid { table });
    push_block(&mut document.blocks, make_space(1));
}

/// Appends the text-detection records beside their headers, four to a group.
pub fn push_table_data_text_results(headers: &Vec<&str>, records: Vec<String>, table: &mut Table)
    ensures
        final(table)@ == (TableView {
            columns: old(table)@.columns,
            rows: old(table)@.rows + paired_rows(str_views(headers@), views(records@), 4),
        }),
{
    let headers = owned_texts(headers);
    push_rows(&headers, &records, table, 4);
}

/// Appends the face-detection records beside their headers, nine to a group.
pub fn push_table_data_face_results(headers: &Vec<&str>, records: Vec<String>, table: &mut Table)
    ensures
        final(table)@ == (TableView {
            columns: old(table)@.columns,
            rows: old(table)@.rows + paired_rows(str_views(headers@), views(records@), 9),
        }),
{
    let headers = owned_texts(headers);
    push_rows(&headers, &records, table, 9);
}

/// Appends the identity details beside their headers, four to a group.
pub fn push_table_data_emails_identies(
    headers: &Vec<&str>,
    identities: Vec<String>,
    table: &mut Table,
)
    ensures
        final(table)@ == (TableView {
            columns: old(table)@.columns,
            rows: old(table)@.rows + paired_rows(str_views(headers@), views(identities@), 4),
        }),
{
    let headers = owned_texts(headers);
    push_rows(&headers, &identities, table, 4);
}

/// A two-column table under its column titles, filled with `rows`.
pub open spec fn filled_table(key: Seq<char>, value: Seq<char>, rows: Seq<RowView>) -> BlockView {
    BlockView::Grid { table: TableView { columns: 2, rows: titled_table(key, value).rows + rows } }
}

/// The report on the e-mail addresses of a contact list.
pub open spec fn email_report(emails: Seq<Seq<char>>, list: Seq<char>, region: Seq<char>)
    -> ReportView {
    ReportView {
        title: "Email List"@,
        margins: 20,
        line_spacing: 150,
        blocks: seq![
            heading("Emails in the Specified List"@),
            space(1),
            note("Contact List Name: "@ + list, Align::Left),
            note("Region Name: "@ + region, Align::Left),
            space(1),
            BlockView::Grid {
                table: TableView {
                    columns: 1,
                    rows: titled_column("Emails"@).rows + single_rows(emails),
                },
            },
        ],
        file_name: "Emails.pdf"@,
    }
}

/// The report on the e-mail addresses of a contact list: one address per
/// row under the list's name and region, to be written to `Emails.pdf`.
pub fn create_email_pdf(emails: Vec<String>, contact_list_name: &str, region_name: &str) -> (report:
    Report)
    ensures
        report@ == email_report(views(emails@), contact_list_name@, region_name@),
{
    let mut table = create_table_with_one_column("Emails");
    push_table_data_emails(emails, &mut table);
    let mut document = build_document();
    document_configuration(&mut document, "Email List", "Emails in the Specified List");
    push_block(&mut document.blocks, make_space(1));
    push_block(
        &mut document.blocks,
        make_note("Contact List Name: ", contact_list_name, Align::Left),
    );
    push_block(&mut document.blocks, make_note("Region Name: ", region_name, Align::Left));
    push_block(&mut document.blocks, make_space(1));
    push_block(&mut document.blocks, Block::Grid { table });
    document.file_name = String::from_str("Emails.pdf");
    assert(document@.blocks =~= email_report(
        views(emails@),
        contact_list_name@,
        region_name@,
    ).blocks);
    document
}

/// The report on a text-detection job.
pub open spec fn text_result_report(
    headers: Seq<Seq<char>>,
    records: Seq<Seq<char>>,
    job_id: Seq<char>,
    bucket: Seq<char>,
    video: Seq<char>,
) -> ReportView {
    ReportView {
        title: "Text Detection Results"@,
        margins: 20,
        line_spacing: 150,
        blocks: seq![
            heading("Result of Start Text Detection Task"@),
            space(1),
            note("Job ID:  "@ + job_id, Align::Left),
            note("Bucket Name:  "@ + bucket, Align::Left),
            note("Key Text Video Name:  "@ + video, Align::Left),
            space(1),
            filled_table("Text Information"@, "Predictions"@, paired_rows(headers, records, 4)),
        ],
        file_name: "Text_Detection_Results.pdf"@,
    }
}

/// The report on a text-detection job: the job, the bucket and the video
/// it read, then one row per record, four records to a group; to be written
/// to `Text_Detection_Results.pdf`.
pub fn create_text_result_pdf(
    headers: &Vec<&str>,
    records: Vec<String>,
    job_id: String,
    names: (String, String),
) -> (report: Report)
    ensures
        report@ == text_result_report(
            str_views(headers@),
            views(records@),
            job_id@,
            names.0@,
            names.1@,
        ),
{
    let mut table = create_table("Text Information", "Predictions");
    push_table_data_text_results(headers, records, &mut table);
    let mut document = build_document();
    document_configuration(
        &mut document,
        "Text Detection Results",
        "Result of Start Text Detection Task",
    );
    push_block(&mut document.blocks, make_space(1));
    push_block(&mut document.blocks, make_note("Job ID:  ", job_id.as_str(), Align::Left));
    push_block(&mut document.blocks, make_note("Bucket Name:  ", names.0.as_str(), Align::Left));
    push_block(
        &mut document.blocks,
        make_note("Key Text Video Name:  ", names.1.as_str(), Align::Left),
    );
    push_block(&mut document.blocks, make_space(1));
    push_block(&mut document.blocks, Block::Grid { table });
    document.file_name = String::from_str("Text_Detection_Results.pdf");
    assert(document@.blocks =~= text_result_report(
        str_views(headers@),
        views(records@),
        job_id@,
        names.0@,
        names.1@,
    ).blocks);
    document
}

/// The report on a face-detection job.
pub open spec fn face_result_report(
    headers: Seq<Seq<char>>,
    records: Seq<Seq<char>>,
    job_id: Seq<char>,
    bucket: Seq<char>,
    video: Seq<char>,
) -> ReportView {
    ReportView {
        title: "Face Detection Results"@,
        margins: 20,
        line_spacing: 150,
        blocks: seq![
            heading("Result of Start Face Detection Task"@),
            space(1),
            note("Job ID:  "@ + job_id, Align::Left),
            note("Bucket Name:  "@ + bucket, Align::Left),
            note("Key Face Video Name:  "@ + video, Align::Left),
            space(1),
            filled_table("Face Information"@, "Predictions"@, paired_rows(headers, records, 9)),
        ],
        file_name: "Face_Detection_Results.pdf"@,
    }
}

/// The report on a face-detection job: the job, the bucket and the video
/// it read, then one row per record, nine records to a group; to be written
/// to `Face_Detection_Results.pdf`.
pub fn create_face_result_pdf(
    headers: &Vec<&str>,
    records: Vec<String>,
    job_id: &str,
    names: (String, String),
) -> (report: Report)
    ensures
        report@ == face_result_report(
            str_views(headers@),
            views(records@),
            job_id@,
            names.0@,
            names.1@,
        ),
{
    let mut table = create_table("Face Information", "Predictions");
    push_table_data_face_results(headers, records, &mut table);
    let mut document = build_document();
    document_configuration(
        &mut document,
        "Face Detection Results",
        "Result of Start Face Detection Task",
    );
    push_block(&mut document.blocks, make_space(1));
    push_block(&mut document.blocks, make_note("Job ID:  ", job_id, Align::Left));
    push_block(&mut document.blocks, make_note("Bucket Name:  ", names.0.as_str(), Align::Left));
    push_block(
        &mut document.blocks,
        make_note("Key Face Video Name:  ", names.1.as_str(), Align::Left),
    );
    push_block(&mut document.blocks, make_space(1));
    push_block(&mut document.blocks, Block::Grid { table });
    document.file_name = String::from_str("Face_Detection_Results.pdf");
    assert(document@.blocks =~= face_result_report(
        str_views(headers@),
        views(records@),
        job_id@,
        names.0@,
        names.1@,
    ).blocks);
    document
}

/// The report on the e-mail identities of a region.
pub open spec fn email_identities_report(
    headers: Seq<Seq<char>>,
    identities: Seq<Seq<char>>,
    region: Seq<char>,
) -> ReportView {
    ReportView {
        title: "Email Identies"@,
        margins: 20,
        line_spacing: 150,
        blocks: seq![
            heading("Result of List Email Identities"@),
            space(1),
            note("Region Name:  "@ + region, Align::Left),
            space(1),
            filled_table("Identity Info"@, "Values"@, paired_rows(headers, identities, 4)),
        ],
        file_name: "EmailIdentitiesInfo.pdf"@,
    }
}

/// The report on the e-mail identities of a region: one row per detail,
/// four details to a group; to be written to `EmailIdentitiesInfo.pdf`.
pub fn create_email_identities_pdf(
    headers: &Vec<&str>,
    identities: Vec<String>,
    region_name: &str,
) -> (report: Report)
    ensures
        report@ == email_identities_report(str_views(headers@), views(identities@), region_name@),
{
    let mut table = create_table("Identity Info", "Values");
    push_table_data_emails_identies(headers, identities, &mut table);
    let mut document = build_document();
    document_configuration(&mut document, "Email Identies", "Result of List Email Identities");
    push_block(&mut document.blocks, make_space(1));
    push_block(&mut document.blocks, make_note("Region Name:  ", region_name, Align::Left));
    push_block(&mut document.blocks, make_space(1));
    push_block(&mut document.blocks, Block::Grid { table });
    document.file_name = String::from_str("EmailIdentitiesInfo.pdf");
    assert(document@.blocks =~= email_identities_report(
        str_views(headers@),
        views(identities@),
        region_name@,
    ).blocks);
    document
}

/// The four blocks that show one picture of the face-details directory: its
/// name, a blank line, the picture itself and two blank lines.
pub open spec fn face_image_blocks(name: Seq<char>) -> Seq<BlockView> {
    seq![
        BlockView::Paragraph {
            text: "Image Name: "@ + name,
            align: Align::Center,
            bold: false,
            color: Some(note_color()),
        },
        space(1),
        BlockView::Picture { path: "face_details_images/"@ + name, fill: None },
        space(2),
    ]
}

/// The blocks of all the pictures, in the order of their names.
pub open spec fn all_face_image_blocks(names: Seq<Seq<char>>) -> Seq<BlockView>
    decreases names.len(),
{
    if names.len() == 0 {
        Seq::empty()
    } else {
        all_face_image_blocks(names.drop_last()) + face_image_blocks(names.last())
    }
}

/// Puts each picture of the directory `face_details_images/` at the end of
/// the report, under its name. `image_names` are the directory's entries.
pub fn push_images_into_document(document: &mut Report, image_names: &Vec<String>)
    ensures
        final(document)@ == (ReportView {
            blocks: old(document)@.blocks + all_face_image_blocks(views(image_names@)),
            ..old(document)@
        }),
{
    let mut i: usize = 0;
    assert(document@.blocks =~= old(document)@.blocks + all_face_image_blocks(
        views(image_names@.subrange(0, 0)),
    ));
    while i < image_names.len()
        invariant
            i <= image_names.len(),
            document@ == (ReportView {
                blocks: old(document)@.blocks + all_face_image_blocks(
                    views(image_names@.subrange(0, i as int)),
                ),
                ..old(document)@
            }),
        decreases image_names.len() - i,
    {
        let name = image_names[i].as_str();
        push_block(
            &mut document.blocks,
            Block::Paragraph {
                text: joined("Image Name: ", name),
                align: Align::Center,
                bold: false,
                color: Some(green()),
            },
        );
        push_block(&mut document.blocks, make_space(1));
        push_block(
            &mut document.blocks,
            Block::Picture { path: joined("face_details_images/", name), fill: None },
        );
        push_block(&mut document.blocks, make_space(2));
        proof {
            let before = views(image_names@.subrange(0, i as int));
            let after = views(image_names@.subrange(0, i + 1));
            assert(after.drop_last() =~= before);
            assert(after.last() == name@);
            assert(document@.blocks =~= old(document)@.blocks + all_face_image_blocks(after));
        }
        i = i + 1;
    }
    assert(image_names@.subrange(0, i as int) =~= image_names@);
}

/// The report on the faces detected in the pictures of a bucket.
pub open spec fn detect_face_report(bucket: Seq<char>, prefix: Seq<char>, names: Seq<Seq<char>>)
    -> ReportView {
    ReportView {
        title: "DetectFaces"@,
        margins: 20,
        line_spacing: 150,
        blocks: seq![
            heading("Result of DetectFaces"@),
            space(1),
            note("Bucket Name:  "@ + bucket, Align::Left),
            space(1),
            note("Bucket Path Prefix:  "@ + prefix, Align::Left),
            space(1),
        ] + all_face_image_blocks(names),
        file_name: "DetectFaces.pdf"@,
    }
}

/// The report on the faces detected in the pictures of a bucket: the bucket
/// and the path prefix, then every picture of `face_details_images/` under
/// its name; to be written to `DetectFaces.pdf`.
pub fn create_detect_face_image_pdf(
    bucket_name: &str,
    path_prefix: &str,
    image_names: &Vec<String>,
) -> (report: Report)
    ensures
        report@ == detect_face_report(bucket_name@, path_prefix@, views(image_names@)),
{
    let mut document = build_document();
    document_configuration(&mut document, "DetectFaces", "Result of DetectFaces");
    push_block(&mut document.blocks, make_space(1));
    push_block(&mut document.blocks, make_note("Bucket Name:  ", bucket_name, Align::Left));
    push_block(&mut document.blocks, make_space(1));
    push_block(&mut document.blocks, make_note("Bucket Path Prefix:  ", path_prefix, Align::Left));
    push_block(&mut document.blocks, make_space(1));
    push_images_into_document(&mut document, image_names);
    document.file_name = String::from_str("DetectFaces.pdf");
    assert(document@.blocks =~= detect_face_report(
        bucket_name@,
        path_prefix@,
        views(image_names@),
    ).blocks);
    document
}

/// The pattern of the last part of a local path: what follows the last
/// character that no file name may hold.
pub open spec fn local_name_pattern() -> Seq<char> {
    r#"[^\\/:\*\?"<>\|]+$"#@
}

/// The file name of a local path; `None` where the pattern does not compile.
pub open spec fn local_file_name(path: Seq<char>) -> Option<Seq<char>> {
    match regex_matches(local_name_pattern(), path) {
        Some(found) => Some(without_leading_slash(concat_all(found))),
        None => None,
    }
}

/// The file name that a search of a local path gives: the matches written
/// together, without a leading slash.
pub fn local_name_from_matches(found: &Vec<String>) -> (name: String)
    ensures
        name@ == without_leading_slash(concat_all(views(found@))),
{
    let whole = concat_texts(found);
    if begins_with(whole.as_str(), '/') {
        without_first(whole.as_str())
    } else {
        whole
    }
}

/// The file name of the picture at a local path.
pub fn file_name_of_path(path: &str) -> (name: Option<String>)
    ensures
        match name {
            Some(n) => local_file_name(path@) == Some(n@),
            None => local_file_name(path@) is None,
        },
{
    match find_all(r#"[^\\/:\*\?"<>\|]+$"#, path) {
        Some(found) => Some(local_name_from_matches(&found)),
        None => None,
    }
}

/// An object that has to be fetched from a bucket and saved before a report
/// can show it.
pub struct Download {
    pub bucket: String,
    pub key: String,
    pub save_as: String,
}

/// The report on the celebrities of one picture, and the object to fetch
/// for it where the picture lies in a bucket.
pub struct CelebrityPdf {
    pub report: Report,
    pub download: Option<Download>,
}

/// A picture under the lines that say where it comes from, and the table of
/// what was recognised in it.
pub open spec fn picture_blocks(
    notes: Seq<BlockView>,
    picture: Seq<char>,
    fill: (u32, u32),
    headers: Seq<Seq<char>>,
    records: Seq<Seq<char>>,
) -> Seq<BlockView> {
    notes + seq![
        space(1),
        BlockView::Picture { path: picture, fill: Some(fill) },
        filled_table("Celebrity Information"@, "Predictions"@, paired_rows(headers, records, 5)),
    ]
}

/// The report on the celebrities of one picture.
pub open spec fn celebrity_report(
    notes: Seq<BlockView>,
    picture: Seq<char>,
    headers: Seq<Seq<char>>,
    records: Seq<Seq<char>>,
    file_name: Seq<char>,
) -> ReportView {
    ReportView {
        title: "Celebrity"@,
        margins: 20,
        line_spacing: 150,
        blocks: seq![heading("Result of Recognize Celebrities"@), space(1)] + picture_blocks(
            notes,
            picture,
            (800, 800),
            headers,
            records,
        ),
        file_name: "CelebrityResults_"@ + file_name + ".pdf"@,
    }
}

/// The line that names a local picture.
pub open spec fn local_notes(path: Seq<char>) -> Seq<BlockView> {
    seq![note("Local Image Path:  "@ + path, Align::Center)]
}

/// The lines that name a picture of a bucket.
pub open spec fn bucket_notes(bucket: Seq<char>, key: Seq<char>) -> Seq<BlockView> {
    seq![
        note("Bucket Name:  "@ + bucket, Align::Center),
        note("Key Image Name:  "@ + key, Align::Center),
    ]
}

/// Whether `pdf` is the report on the celebrities of one picture: of the
/// local picture where a path is given, else of the bucket's object, which
/// is then to be saved under its file name; nothing where neither a path nor
/// both bucket and key are given, or where a pattern does not compile.
pub open spec fn is_celebrity_pdf(
    pdf: Option<CelebrityPdf>,
    headers: Seq<Seq<char>>,
    records: Seq<Seq<char>>,
    local: Option<&str>,
    bucket: Option<&str>,
    key: Option<&str>,
) -> bool {
    match local {
        Some(path) => match local_file_name(path@) {
            Some(name) => pdf is Some && pdf->0.download is None && pdf->0.report@
                == celebrity_report(local_notes(path@), path@, headers, records, name),
            None => pdf is None,
        },
        None => match (bucket, key) {
            (Some(b), Some(k)) => match key_file_name(k@) {
                Some(name) => {
                    &&& pdf is Some
                    &&& pdf->0.report@ == celebrity_report(
                        bucket_notes(b@, k@),
                        name,
                        headers,
                        records,
                        name,
                    )
                    &&& pdf->0.download is Some
                    &&& pdf->0.download->0.bucket@ == b@
                    &&& pdf->0.download->0.key@ == k@
                    &&& pdf->0.download->0.save_as@ == name
                },
                None => pdf is None,
            },
            _ => pdf is None,
        },
    }
}

fn push_picture(
    blocks: &mut Vec<Block>,
    picture: &str,
    fill: (u32, u32),
    headers: Vec<String>,
    records: Vec<String>,
)
    ensures
        final(blocks)@.map_values(|b: Block| b@) == old(blocks)@.map_values(|b: Block| b@) + seq![
            space(1),
            BlockView::Picture { path: picture@, fill: Some(fill) },
            filled_table(
                "Celebrity Information"@,
                "Predictions"@,
                paired_rows(views(headers@), views(records@), 5),
            ),
        ],
{
    let mut table = create_table("Celebrity Information", "Predictions");
    push_table_data_celebrity_results(headers, records, &mut table);
    push_block(blocks, make_space(1));
    push_block(blocks, Block::Picture { path: String::from_str(picture), fill: Some(fill) });
    push_block(blocks, Block::Grid { table });
    assert(blocks@.map_values(|b: Block| b@) =~= old(blocks)@.map_values(|b: Block| b@) + seq![
        space(1),
        BlockView::Picture { path: picture@, fill: Some(fill) },
        filled_table(
            "Celebrity Information"@,
            "Predictions"@,
            paired_rows(views(headers@), views(records@), 5),
        ),
    ]);
}

fn celebrity_pdf_name(file_name: &str) -> (name: String)
    ensures
        name@ == "CelebrityResults_"@ + file_name@ + ".pdf"@,
{
    let mut name = String::from_str("CelebrityResults_");
    name.append(file_name);
    name.append(".pdf");
    name
}

/// The report on the celebrities of one picture: where the picture comes
/// from, the picture resized to fill 800 by 800, and one row per record,
/// five records to a group; to be written to `CelebrityResults_`, the
/// picture's file name and `.pdf`.
pub fn create_celebrity_pdf(
    face_info: Vec<String>,
    predictions: Vec<String>,
    local_image_path: Option<&str>,
    bucket_and_key: (Option<&str>, Option<&str>),
) -> (pdf: Option<CelebrityPdf>)
    ensures
        is_celebrity_pdf(
            pdf,
            views(face_info@),
            views(predictions@),
            local_image_path,
            bucket_and_key.0,
            bucket_and_key.1,
        ),
{
    let mut document = build_document();
    document_configuration(&mut document, "Celebrity", "Result of Recognize Celebrities");
    push_block(&mut document.blocks, make_space(1));
    match local_image_path {
        Some(image_path) => match file_name_of_path(image_path) {
            Some(file_name) => {
                push_block(
                    &mut document.blocks,
                    make_note("Local Image Path:  ", image_path, Align::Center),
                );
                push_picture(&mut document.blocks, image_path, (800, 800), face_info, predictions);
                document.file_name = celebrity_pdf_name(file_name.as_str());
                assert(document@.blocks =~= celebrity_report(
                    local_notes(image_path@),
                    image_path@,
                    views(face_info@),
                    views(predictions@),
                    file_name@,
                ).blocks);
                Some(CelebrityPdf { report: document, download: None })
            },
            None => None,
        },
        None => match bucket_and_key {
            (Some(bucket_name), Some(key_image_name)) => match file_name_of_key(key_image_name) {
                Some(file_name) => {
                    push_block(
                        &mut document.blocks,
                        make_note("Bucket Name:  ", bucket_name, Align::Center),
                    );
                    push_block(
                        &mut document.blocks,
                        make_note("Key Image Name:  ", key_image_name, Align::Center),
                    );
                    push_picture(
                        &mut document.blocks,
                        file_name.as_str(),
                        (800, 800),
                        face_info,
                        predictions,
                    );
                    document.file_name = celebrity_pdf_name(file_name.as_str());
                    assert(document@.blocks =~= celebrity_report(
                        bucket_notes(bucket_name@, key_image_name@),
                        file_name@,
                        views(face_info@),
                        views(predictions@),
                        file_name@,
                    ).blocks);
                    Some(
                        CelebrityPdf {
                            report: document,
                            download: Some(
                                Download {
                                    bucket: String::from_str(bucket_name),
                                    key: String::from_str(key_image_name),
                                    save_as: file_name,
                                },
                            ),
                        },
                    )
                },
                None => None,
            },
            _ => None,
        },
    }
}

/// The text file that lists the celebrities of one picture.
pub struct DetailsFile {
    pub name: String,
    pub text: String,
}

/// The report on the celebrities of many pictures, with the text files that
/// go with it and the objects that have to be fetched for it.
pub struct Album {
    pub report: Report,
    pub details: Vec<DetailsFile>,
    pub downloads: Vec<Download>,
}

/// The plain values of a list of text files: name and text.
pub open spec fn details_view(files: Seq<DetailsFile>) -> Seq<(Seq<char>, Seq<char>)> {
    files.map_values(|f: DetailsFile| (f.name@, f.text@))
}

/// The plain values of a list of downloads: bucket, key and file.
pub open spec fn downloads_view(list: Seq<Download>) -> Seq<(Seq<char>, Seq<char>, Seq<char>)> {
    list.map_values(|d: Download| (d.bucket@, d.key@, d.save_as@))
}

/// The celebrities recognised in picture `i`; none where nothing is known
/// of that picture.
pub open spec fn found_at(found: Seq<Option<Vec<Celebrity>>>, i: int) -> Seq<Celebrity> {
    if 0 <= i < found.len() {
        listed(found[i])
    } else {
        Seq::empty()
    }
}

/// The blocks of one picture of an album: where it comes from, the picture
/// resized to fill 800 by 600, its table and a blank line.
pub open spec fn album_entry_blocks(
    notes: Seq<BlockView>,
    picture: Seq<char>,
    celebrities: Seq<Celebrity>,
) -> Seq<BlockView> {
    picture_blocks(
        notes,
        picture,
        (800, 600),
        celebrity_headers(),
        celebrities_records(celebrities),
    ) + seq![space(1)]
}

/// The path of a picture of a directory.
pub open spec fn path_in(directory: Seq<char>, name: Seq<char>) -> Seq<char> {
    directory + "/"@ + name
}

/// The blocks of the pictures of a directory, in the order of their names.
pub open spec fn local_album_blocks(
    directory: Seq<char>,
    names: Seq<Seq<char>>,
    found: Seq<Option<Vec<Celebrity>>>,
) -> Seq<BlockView>
    decreases names.len(),
{
    if names.len() == 0 {
        Seq::empty()
    } else {
        let path = path_in(directory, names.last());
        local_album_blocks(directory, names.drop_last(), found) + album_entry_blocks(
            local_notes(path),
            path,
            found_at(found, names.len() - 1),
        )
    }
}

/// The text files of the pictures of a directory: every picture writes the
/// file `CelebrityDetails_0.txt` anew.
pub open spec fn local_album_details(names: Seq<Seq<char>>, found: Seq<Option<Vec<Celebrity>>>)
    -> Seq<(Seq<char>, Seq<char>)>
    decreases names.len(),
{
    if names.len() == 0 {
        Seq::empty()
    } else {
        local_album_details(names.drop_last(), found).push(
            (
                "CelebrityDetails_0.txt"@,
                celebrities_text(found_at(found, names.len() - 1), true),
            ),
        )
    }
}

/// Whether every key has a file name.
pub open spec fn all_named(keys: Seq<Seq<char>>) -> bool {
    forall|i: int| 0 <= i < keys.len() ==> (#[trigger] key_file_name(keys[i])) is Some
}

/// Where the object `key` is saved before the album shows it.
pub open spec fn saved_path(key: Seq<char>) -> Seq<char> {
    "DownloadedImages/"@ + key_file_name(key)->0
}

/// The blocks of the pictures of a bucket, in the order of their keys.
pub open spec fn bucket_album_blocks(
    bucket: Seq<char>,
    keys: Seq<Seq<char>>,
    found: Seq<Option<Vec<Celebrity>>>,
) -> Seq<BlockView>
    decreases keys.len(),
{
    if keys.len() == 0 {
        Seq::empty()
    } else {
        bucket_album_blocks(bucket, keys.drop_last(), found) + album_entry_blocks(
            bucket_notes(bucket, keys.last()),
            saved_path(keys.last()),
            found_at(found, keys.len() - 1),
        )
    }
}

/// The text files of the pictures of a bucket: picture `i` writes the file
/// `CelebrityDetails_i.txt`.
pub open spec fn bucket_album_details(keys: Seq<Seq<char>>, found: Seq<Option<Vec<Celebrity>>>)
    -> Seq<(Seq<char>, Seq<char>)>
    decreases keys.len(),
{
    if keys.len() == 0 {
        Seq::empty()
    } else {
        bucket_album_details(keys.drop_last(), found).push(
            (
                "CelebrityDetails_"@ + decimal(keys.len() - 1) + ".txt"@,
                celebrities_text(found_at(found, keys.len() - 1), true),
            ),
        )
    }
}

/// The objects that an album of a bucket fetches.
pub open spec fn bucket_album_downloads(bucket: Seq<char>, keys: Seq<Seq<char>>) -> Seq<
    (Seq<char>, Seq<char>, Seq<char>),
>
    decreases keys.len(),
{
    if keys.len() == 0 {
        Seq::empty()
    } else {
        bucket_album_downloads(bucket, keys.drop_last()).push(
            (bucket, keys.last(), saved_path(keys.last())),
        )
    }
}

/// The album report that holds `blocks` under its heading.
pub open spec fn album_report(blocks: Seq<BlockView>) -> ReportView {
    ReportView {
        title: "Celebrity"@,
        margins: 20,
        line_spacing: 150,
        blocks: seq![heading("Result of Recognize Celebrities"@), space(1)] + blocks,
        file_name: "CelebrityResults.pdf"@,
    }
}

/// The texts of a list that may be missing.
pub open spec fn listed_texts(entries: Option<Vec<String>>) -> Seq<Seq<char>> {
    match entries {
        Some(list) => views(list@),
        None => Seq::empty(),
    }
}

/// The keys after the first; none where there is no key at all.
pub open spec fn after_first(entries: Seq<Seq<char>>) -> Seq<Seq<char>> {
    if entries.len() > 0 {
        entries.skip(1)
    } else {
        entries
    }
}

/// Whether `album` is the album of the pictures that `entries` names: of
/// the files of the directory, or else of the keys of the bucket after the
/// first, or else an album without pictures. There is no album where a key
/// has no file name.
pub open spec fn is_album(
    album: Option<Album>,
    directory: Option<&str>,
    entries: Option<Vec<String>>,
    bucket: Option<&str>,
    found: Seq<Option<Vec<Celebrity>>>,
) -> bool {
    match directory {
        Some(dir) => {
            let names = listed_texts(entries);
            &&& album is Some
            &&& album->0.report@ == album_report(local_album_blocks(dir@, names, found))
            &&& details_view(album->0.details@) == local_album_details(names, found)
            &&& album->0.downloads@.len() == 0
        },
        None => match bucket {
            Some(b) => {
                let keys = after_first(listed_texts(entries));
                if all_named(keys) {
                    &&& album is Some
                    &&& album->0.report@ == album_report(bucket_album_blocks(b@, keys, found))
                    &&& details_view(album->0.details@) == bucket_album_details(keys, found)
                    &&& downloads_view(album->0.downloads@) == bucket_album_downloads(b@, keys)
                } else {
                    album is None
                }
            },
            None => {
                &&& album is Some
                &&& album->0.report@ == album_report(Seq::empty())
                &&& album->0.details@.len() == 0
                &&& album->0.downloads@.len() == 0
            },
        },
    }
}

fn details_at(found: &Vec<Option<Vec<Celebrity>>>, i: usize) -> (out: (String, Vec<String>))
    ensures
        out.0@ == celebrities_text(found_at(found@, i as int), true),
        views(out.1@) == celebrities_records(found_at(found@, i as int)),
{
    if i < found.len() {
        match &found[i] {
            Some(list) => celebrity_details(list, true),
            None => {
                let records: Vec<String> = Vec::new();
                assert(views(records@) =~= Seq::<Seq<char>>::empty());
                (String::new(), records)
            },
        }
    } else {
        let records: Vec<String> = Vec::new();
        assert(views(records@) =~= Seq::<Seq<char>>::empty());
        (String::new(), records)
    }
}

fn push_details(details: &mut Vec<DetailsFile>, name: String, text: String)
    ensures
        details_view(final(details)@) == details_view(old(details)@).push((name@, text@)),
{
    details.push(DetailsFile { name, text });
    assert(details_view(details@) =~= details_view(old(details)@).push((name@, text@)));
}

fn push_download(downloads: &mut Vec<Download>, bucket: &str, key: &str, save_as: &str)
    ensures
        downloads_view(final(downloads)@) == downloads_view(old(downloads)@).push(
            (bucket@, key@, save_as@),
        ),
{
    downloads.push(
        Download {
            bucket: String::from_str(bucket),
            key: String::from_str(key),
            save_as: String::from_str(save_as),
        },
    );
    assert(downloads_view(downloads@) =~= downloads_view(old(downloads)@).push(
        (bucket@, key@, save_as@),
    ));
}

/// Puts one picture of an album behind the lines that name it.
fn push_album_picture(blocks: &mut Vec<Block>, picture: &str, records: Vec<String>)
    ensures
        final(blocks)@.map_values(|b: Block| b@) == old(blocks)@.map_values(|b: Block| b@)
            + picture_blocks(
            Seq::empty(),
            picture@,
            (800, 600),
            celebrity_headers(),
            views(records@),
        ) + seq![space(1)],
{
    push_picture(blocks, picture, (800, 600), celebrity_header_list(), records);
    push_block(blocks, make_space(1));
    assert(blocks@.map_values(|b: Block| b@) =~= old(blocks)@.map_values(|b: Block| b@)
        + picture_blocks(
        Seq::empty(),
        picture@,
        (800, 600),
        celebrity_headers(),
        views(records@),
    ) + seq![space(1)]);
}

fn details_name(count: usize) -> (name: String)
    ensures
        name@ == "CelebrityDetails_"@ + decimal(count as int) + ".txt"@,
{
    let mut name = String::from_str("CelebrityDetails_");
    name.append(decimal_u64(count as u64).as_str());
    name.append(".txt");
    name
}

fn local_album(directory: &str, names: &Vec<String>, found: &Vec<Option<Vec<Celebrity>>>) -> (album:
    Album)
    ensures
        album.report@ == album_report(local_album_blocks(directory@, views(names@), found@)),
        details_view(album.details@) == local_album_details(views(names@), found@),
        album.downloads@.len() == 0,
{
    let mut document = build_document();
    document_configuration(&mut document, "Celebrity", "Result of Recognize Celebrities");
    push_block(&mut document.blocks, make_space(1));
    document.file_name = String::from_str("CelebrityResults.pdf");
    let mut details: Vec<DetailsFile> = Vec::new();
    let mut i: usize = 0;
    assert(document@.blocks =~= album_report(
        local_album_blocks(directory@, views(names@.take(0)), found@),
    ).blocks);
    assert(details_view(details@) =~= local_album_details(views(names@.take(0)), found@));
    while i < names.len()
        invariant
            i <= names.len(),
            document@ == album_report(
                local_album_blocks(directory@, views(names@.take(i as int)), found@),
            ),
            details_view(details@) == local_album_details(views(names@.take(i as int)), found@),
        decreases names.len() - i,
    {
        let mut path = String::from_str(directory);
        path.append("/");
        path.append(names[i].as_str());
        let (text, records) = details_at(found, i);
        push_block(
            &mut document.blocks,
            make_note("Local Image Path:  ", path.as_str(), Align::Center),
        );
        push_album_picture(&mut document.blocks, path.as_str(), records);
        push_details(&mut details, details_name(0), text);
        proof {
            let before = views(names@.take(i as int));
            let after = views(names@.take(i + 1));
            assert(after.drop_last() =~= before);
            assert(after.last() == names@[i as int]@);
            assert(after.len() - 1 == i);
            reveal_strlit("0");
            assert(decimal(0) =~= "0"@);
            assert("CelebrityDetails_"@ + decimal(0) + ".txt"@ =~= "CelebrityDetails_0.txt"@) by {
                reveal_strlit("CelebrityDetails_");
                reveal_strlit(".txt");
                reveal_strlit("CelebrityDetails_0.txt");
            }
            assert(document@.blocks =~= album_report(
                local_album_blocks(directory@, after, found@),
            ).blocks);
        }
        i = i + 1;
    }
    assert(names@.take(i as int) =~= names@);
    Album { report: document, details, downloads: Vec::new() }
}

fn bucket_album(bucket: &str, entries: &Vec<String>, found: &Vec<Option<Vec<Celebrity>>>) -> (album:
    Option<Album>)
    ensures
        ({
            let keys = after_first(views(entries@));
            if all_named(keys) {
                &&& album is Some
                &&& album->0.report@ == album_report(bucket_album_blocks(bucket@, keys, found@))
                &&& details_view(album->0.details@) == bucket_album_details(keys, found@)
                &&& downloads_view(album->0.downloads@) == bucket_album_downloads(bucket@, keys)
            } else {
                album is None
            }
        }),
{
    let ghost keys = after_first(views(entries@));
    let mut document = build_document();
    document_configuration(&mut document, "Celebrity", "Result of Recognize Celebrities");
    push_block(&mut document.blocks, make_space(1));
    document.file_name = String::from_str("CelebrityResults.pdf");
    let mut details: Vec<DetailsFile> = Vec::new();
    let mut downloads: Vec<Download> = Vec::new();
    let total: usize = if entries.len() == 0 {
        0
    } else {
        entries.len() - 1
    };
    let mut count: usize = 0;
    assert(document@.blocks =~= album_report(
        bucket_album_blocks(bucket@, keys.take(0), found@),
    ).blocks);
    assert(details_view(details@) =~= bucket_album_details(keys.take(0), found@));
    assert(downloads_view(downloads@) =~= bucket_album_downloads(bucket@, keys.take(0)));
    while count < total
        invariant
            count <= total,
            total == keys.len(),
            keys == after_first(views(entries@)),
            total < entries.len() || total == 0,
            all_named(keys.take(count as int)),
            document@ == album_report(
                bucket_album_blocks(bucket@, keys.take(count as int), found@),
            ),
            details_view(details@) == bucket_album_details(keys.take(count as int), found@),
            downloads_view(downloads@) == bucket_album_downloads(
                bucket@,
                keys.take(count as int),
            ),
        decreases total - count,
    {
        let key = entries[count + 1].as_str();
        assert(key@ == keys[count as int]);
        let file_name = match file_name_of_key(key) {
            Some(name) => name,
            None => {
                return None;
            },
        };
        let path = joined("DownloadedImages/", file_name.as_str());
        let (text, records) = details_at(found, count);
        push_block(&mut document.blocks, make_note("Bucket Name:  ", bucket, Align::Center));
        push_block(&mut document.blocks, make_note("Key Image Name:  ", key, Align::Center));
        push_album_picture(&mut document.blocks, path.as_str(), records);
        push_details(&mut details, details_name(count), text);
        push_download(&mut downloads, bucket, key, path.as_str());
        proof {
            let before = keys.take(count as int);
            let after = keys.take(count + 1);
            assert(after.drop_last() =~= before);
            assert(after.last() == key@);
            assert(after.len() - 1 == count);
            assert forall|i: int| 0 <= i < after.len() implies (#[trigger] key_file_name(
                after[i],
            )) is Some by {
                if i < count {
                    assert(after[i] == before[i]);
                }
            }
            assert(document@.blocks =~= album_report(
                bucket_album_blocks(bucket@, after, found@),
            ).blocks);
        }
        count = count + 1;
    }
    assert(keys.take(count as int) =~= keys);
    Some(Album { report: document, details, downloads })
}

/// The report on the celebrities of many pictures: the files of a
/// directory, or else the objects of a bucket, whose first key is passed
/// over. `entries` names the files or the keys, and `found` holds what was
/// recognised in each picture that the album shows, in their order. Every
/// picture stands under the lines that name it, resized to fill 800 by 600
/// and followed by its table; the report is to be written to
/// `CelebrityResults.pdf`.
pub fn create_celebrity_single_pdf(
    local_image_dir: Option<&str>,
    entries: Option<Vec<String>>,
    bucket_name: Option<&str>,
    found: &Vec<Option<Vec<Celebrity>>>,
) -> (album: Option<Album>)
    requires
        local_image_dir is None && bucket_name is Some ==> entries is Some,
    ensures
        is_album(album, local_image_dir, entries, bucket_name, found@),
{
    match local_image_dir {
        Some(directory) => {
            let names = match entries {
                Some(names) => names,
                None => {
                    let names: Vec<String> = Vec::new();
                    assert(views(names@) =~= Seq::<Seq<char>>::empty());
                    names
                },
            };
            Some(local_album(directory, &names, found))
        },
        None => match bucket_name {
            Some(bucket) => match entries {
                Some(keys) => bucket_album(bucket, &keys, found),
                None => None,
            },
            None => {
                let mut document = build_document();
                document_configuration(
                    &mut document,
                    "Celebrity",
                    "Result of Recognize Celebrities",
                );
                push_block(&mut document.blocks, make_space(1));
                document.file_name = String::from_str("CelebrityResults.pdf");
                assert(document@.blocks =~= album_report(Seq::empty()).blocks);
                Some(Album { report: document, details: Vec::new(), downloads: Vec::new() })
            },
        },
    }
}

/// What the service recognised in one picture of an album: the headers and
/// the records of its table, and the text of its details file.
pub fn recognize_celebrities(celebrity_faces: &Option<Vec<Celebrity>>, count: usize) -> (out: (
    Vec<String>,
    Vec<String>,
    DetailsFile,
))
    ensures
        views(out.0@) == celebrity_headers(),
        views(out.1@) == celebrities_records(listed(*celebrity_faces)),
        out.2.name@ == "CelebrityDetails_"@ + decimal(count as int) + ".txt"@,
        out.2.text@ == celebrities_text(listed(*celebrity_faces), true),
{
    let headers = celebrity_header_list();
    let (text, records) = match celebrity_faces {
        Some(list) => celebrity_details(list, true),
        None => {
            let records: Vec<String> = Vec::new();
            assert(views(records@) =~= Seq::<Seq<char>>::empty());
            (String::new(), records)
        },
    };
    (headers, records, DetailsFile { name: details_name(count), text })
}

} // verus!
