//! What the services hand to the terminal: lines, messages and blocks, and
//! the layout of tables.

use crate::text::{blanks, spaces};
use std::rc::Rc;
use vstd::prelude::*;
use vstd::string::*;

verus! {

/// A piece of output.
#[derive(Debug)]
pub enum FormatType {
    Bold(String),
    RawLine(String),
    /// A heading with a body below it.
    Block(Rc<FormatType>, Rc<FormatType>),
    /// Pieces that follow one another.
    Chain(Vec<FormatType>),
    Success(String),
    Error(String),
    Info(String),
}

/// Where a text stands in its column.
#[derive(Debug, Clone, Copy, PartialEq, Eq, Structural)]
pub enum FormatAlignment {
    Left,
    Right,
    Center,
}

/// The blanks before and after a text of `len` bytes in a column of `max_len`.
pub open spec fn margins(alignment: FormatAlignment, len: nat, max_len: nat) -> (nat, nat)
    recommends
        len <= max_len,
{
    let free = (max_len - len) as nat;
    match alignment {
        FormatAlignment::Left => (0, free),
        FormatAlignment::Right => (free, 0),
        FormatAlignment::Center => ((free + 1) / 2, free / 2),
    }
}

/// A text in its column: blanks, the text, blanks.
pub open spec fn align_spec(
    text: Seq<char>,
    len: nat,
    alignment: FormatAlignment,
    max_len: nat,
    padding: (nat, nat),
) -> Seq<char> {
    blanks(padding.0 + margins(alignment, len, max_len).0) + text + blanks(
        padding.1 + margins(alignment, len, max_len).1,
    )
}

/// What something turns into when it is handed to the terminal.
pub trait FormatTypeable {
    /// Whether `r` is the piece of output that `self` turns into.
    spec fn formats_to(self, r: FormatType) -> bool where Self: Sized;

    fn format(self) -> (r: FormatType) where Self: Sized
        ensures
            self.formats_to(r),
    ;
}

impl FormatTypeable for FormatType {
    open spec fn formats_to(self, r: FormatType) -> bool {
        r == self
    }

    fn format(self) -> (r: FormatType) {
        self
    }
}

impl FormatTypeable for Result<FormatType, String> {
    open spec fn formats_to(self, r: FormatType) -> bool {
        r == (match self {
            Ok(value) => value,
            Err(message) => FormatType::Error(message),
        })
    }

    fn format(self) -> (r: FormatType) {
        match self {
            Ok(value) => value,
            Err(message) => FormatType::Error(message),
        }
    }
}

impl FormatTypeable for String {
    open spec fn formats_to(self, r: FormatType) -> bool {
        r == FormatType::Success(self)
    }

    fn format(self) -> (r: FormatType) {
        FormatType::Success(self)
    }
}

impl FormatTypeable for &str {
    open spec fn formats_to(self, r: FormatType) -> bool {
        r matches FormatType::Success(s) && s@ == self@
    }

    fn format(self) -> (r: FormatType) {
        FormatType::Success(self.to_owned())
    }
}

/// Makes a piece of output of a given kind from a text.
pub trait IntoFormatType {
    spec fn text(self) -> Seq<char> where Self: Sized;

    fn info(self) -> (r: FormatType) where Self: Sized
        ensures
            r matches FormatType::Info(s) && s@ == self.text(),
    ;

    fn success(self) -> (r: FormatType) where Self: Sized
        ensures
            r matches FormatType::Success(s) && s@ == self.text(),
    ;

    fn error(self) -> (r: FormatType) where Self: Sized
        ensures
            r matches FormatType::Error(s) && s@ == self.text(),
    ;

    fn line(self) -> (r: FormatType) where Self: Sized
        ensures
            r matches FormatType::RawLine(s) && s@ == self.text(),
    ;
}

impl IntoFormatType for String {
    open spec fn text(self) -> Seq<char> {
        self@
    }

    fn info(self) -> (r: FormatType) {
        FormatType::Info(self)
    }

    fn success(self) -> (r: FormatType) {
        FormatType::Success(self)
    }

    fn error(self) -> (r: FormatType) {
        FormatType::Error(self)
    }

    fn line(self) -> (r: FormatType) {
        FormatType::RawLine(self)
    }
}

impl IntoFormatType for &str {
    open spec fn text(self) -> Seq<char> {
        self@
    }

    fn info(self) -> (r: FormatType) {
        FormatType::Info(self.to_owned())
    }

    fn success(self) -> (r: FormatType) {
        FormatType::Success(self.to_owned())
    }

    fn error(self) -> (r: FormatType) {
        FormatType::Error(self.to_owned())
    }

    fn line(self) -> (r: FormatType) {
        FormatType::RawLine(self.to_owned())
    }
}

impl FormatType {
    /// The pieces of `self` followed by `other`: a chain grows by one piece,
    /// anything else begins a chain of two.
    pub fn chain(self, other: FormatType) -> (r: FormatType)
        ensures
            r matches FormatType::Chain(items) && items@ == (match self {
                FormatType::Chain(before) => before@.push(other),
                _ => seq![self, other],
            }),
    {
        match self {
            FormatType::Chain(mut items) => {
                items.push(other);
                FormatType::Chain(items)
            },
            _ => {
                let mut items: Vec<FormatType> = Vec::new();
                items.push(self);
                items.push(other);
                FormatType::Chain(items)
            },
        }
    }

    /// A block with `self` as its heading and `body` below it.
    pub fn block(self, body: FormatType) -> (r: FormatType)
        ensures
            r matches FormatType::Block(heading, below) && *heading == self && *below == body,
    {
        FormatType::Block(Rc::new(self), Rc::new(body))
    }

    /// Puts a text into a column of `max_len` bytes, with `padding` blanks
    /// more before and after it.
    pub fn align(str: &str, alignment: FormatAlignment, max_len: usize, padding: (usize, usize)) -> (r:
        String)
        requires
            str.spec_bytes().len() <= max_len,
            padding.0 + max_len <= usize::MAX,
            padding.1 + max_len <= usize::MAX,
        ensures
            r@ == align_spec(
                str@,
                str.spec_bytes().len(),
                alignment,
                max_len as nat,
                (padding.0 as nat, padding.1 as nat),
            ),
    {
        let free: usize = max_len - str.as_bytes().len();
        let (left, right): (usize, usize) = match alignment {
            FormatAlignment::Left => (0, free),
            FormatAlignment::Right => (free, 0),
            FormatAlignment::Center => (free / 2 + free % 2, free / 2),
        };
        let padding_left = spaces(padding.0 + left);
        let padding_right = spaces(padding.1 + right);
        padding_left.concat(str).concat(padding_right.as_str())
    }
}

/// The number of bytes that a text takes.
pub open spec fn byte_len(text: Seq<char>) -> nat {
    vstd::utf8::encode_utf8(text).len()
}

/// The greatest number of bytes that one of the texts takes.
pub open spec fn widest(texts: Seq<Seq<char>>) -> nat
    decreases texts.len(),
{
    if texts.len() == 0 {
        0
    } else if widest(texts.drop_last()) >= byte_len(texts.last()) {
        widest(texts.drop_last())
    } else {
        byte_len(texts.last())
    }
}

/// The length of the longest column.
pub open spec fn row_count(columns: Seq<Seq<Seq<char>>>) -> nat
    decreases columns.len(),
{
    if columns.len() == 0 {
        0
    } else if row_count(columns.drop_last()) >= columns.last().len() {
        row_count(columns.drop_last())
    } else {
        columns.last().len()
    }
}

/// The text of a column in a row; the empty text below the column's end.
pub open spec fn cell(column: Seq<Seq<char>>, row: int) -> Seq<char> {
    if 0 <= row < column.len() {
        column[row]
    } else {
        Seq::empty()
    }
}

/// The width of a column: that of its widest text, its heading included.
pub open spec fn width(heading: Seq<char>, column: Seq<Seq<char>>) -> nat {
    if byte_len(heading) >= widest(column) {
        byte_len(heading)
    } else {
        widest(column)
    }
}

/// The pieces with `sep` between them.
pub open spec fn joined(pieces: Seq<Seq<char>>, sep: Seq<char>) -> Seq<char>
    decreases pieces.len(),
{
    if pieces.len() == 0 {
        Seq::empty()
    } else if pieces.len() == 1 {
        pieces[0]
    } else {
        joined(pieces.drop_last(), sep) + sep + pieces.last()
    }
}

/// The first `upto` headings, each in its column.
pub open spec fn heading_cells(
    header: Seq<Seq<char>>,
    columns: Seq<Seq<Seq<char>>>,
    alignment: Seq<FormatAlignment>,
    upto: int,
) -> Seq<Seq<char>> {
    Seq::new(
        upto as nat,
        |j: int|
            align_spec(
                header[j],
                byte_len(header[j]),
                alignment[j],
                width(header[j], columns[j]),
                (0, 0),
            ),
    )
}

/// The texts of a row in the first `upto` columns, each in its column.
pub open spec fn row_cells(
    header: Seq<Seq<char>>,
    columns: Seq<Seq<Seq<char>>>,
    alignment: Seq<FormatAlignment>,
    row: int,
    upto: int,
) -> Seq<Seq<char>> {
    Seq::new(
        upto as nat,
        |j: int|
            align_spec(
                cell(columns[j], row),
                byte_len(cell(columns[j], row)),
                alignment[j],
                width(header[j], columns[j]),
                (0, 0),
            ),
    )
}

/// The line of the headings of a table.
pub open spec fn heading_line(
    header: Seq<Seq<char>>,
    columns: Seq<Seq<Seq<char>>>,
    alignment: Seq<FormatAlignment>,
) -> Seq<char> {
    joined(heading_cells(header, columns, alignment, header.len() as int), " | "@)
}

/// The line of a row of a table.
pub open spec fn row_line(
    header: Seq<Seq<char>>,
    columns: Seq<Seq<Seq<char>>>,
    alignment: Seq<FormatAlignment>,
    row: int,
) -> Seq<char> {
    joined(row_cells(header, columns, alignment, row, header.len() as int), "   "@)
}

/// The lines of a table: the headings, then the rows.
pub open spec fn table_lines(
    header: Seq<Seq<char>>,
    columns: Seq<Seq<Seq<char>>>,
    alignment: Seq<FormatAlignment>,
) -> Seq<Seq<char>> {
    Seq::new(
        row_count(columns) + 1,
        |k: int|
            if k == 0 {
                heading_line(header, columns, alignment)
            } else {
                row_line(header, columns, alignment, k - 1)
            },
    )
}

/// The texts of pieces that are raw lines.
pub open spec fn raw_lines(items: Seq<FormatType>) -> Seq<Seq<char>> {
    Seq::new(
        items.len(),
        |k: int|
            match items[k] {
                FormatType::RawLine(s) => s@,
                _ => Seq::empty(),
            },
    )
}

/// Whether every piece is a raw line.
pub open spec fn all_raw(items: Seq<FormatType>) -> bool {
    forall|k: int| 0 <= k < items.len() ==> (#[trigger] items[k]) is RawLine
}

/// Whether a piece of output is the table with these headings, columns and
/// alignments: the line of the headings alone where there are no rows, and
/// else the chain of the raw lines of the table.
pub open spec fn is_table(
    piece: FormatType,
    header: Seq<Seq<char>>,
    columns: Seq<Seq<Seq<char>>>,
    alignment: Seq<FormatAlignment>,
) -> bool {
    match piece {
        FormatType::RawLine(line) => row_count(columns) == 0 && line@ == heading_line(
            header,
            columns,
            alignment,
        ),
        FormatType::Chain(items) => row_count(columns) > 0 && all_raw(items@) && raw_lines(items@)
            == table_lines(header, columns, alignment),
        _ => false,
    }
}

/// The columns as lists of texts.
pub open spec fn column_views(columns: Seq<Vec<String>>) -> Seq<Seq<Seq<char>>> {
    Seq::new(columns.len(), |j: int| columns[j].deep_view())
}

/// None of the texts takes more bytes than the widest.
pub proof fn lemma_widest_bounds(texts: Seq<Seq<char>>, i: int)
    requires
        0 <= i < texts.len(),
    ensures
        byte_len(texts[i]) <= widest(texts),
    decreases texts.len(),
{
    if i < texts.len() - 1 {
        lemma_widest_bounds(texts.drop_last(), i);
    }
}

fn widest_of(column: &Vec<String>) -> (r: usize)
    ensures
        r == widest(column.deep_view()),
{
    let mut best: usize = 0;
    let mut i: usize = 0;
    while i < column.len()
        invariant
            i <= column@.len(),
            best == widest(column.deep_view().take(i as int)),
        decreases column@.len() - i,
    {
        proof {
            let now = column.deep_view().take(i + 1);
            assert(now.drop_last() =~= column.deep_view().take(i as int));
        }
        let len = column[i].as_str().as_bytes().len();
        if len > best {
            best = len;
        }
        i += 1;
    }
    proof {
        assert(column.deep_view().take(i as int) =~= column.deep_view());
    }
    best
}

fn join_cells(cells: &Vec<String>, sep: &str) -> (r: String)
    ensures
        r@ == joined(cells.deep_view(), sep@),
{
    let mut out = String::new();
    let mut j: usize = 0;
    while j < cells.len()
        invariant
            j <= cells@.len(),
            out@ == joined(cells.deep_view().take(j as int), sep@),
        decreases cells@.len() - j,
    {
        proof {
            let now = cells.deep_view().take(j + 1);
            assert(now.drop_last() =~= cells.deep_view().take(j as int));
        }
        if j > 0 {
            out.append(sep);
        }
        out.append(cells[j].as_str());
        j += 1;
    }
    proof {
        assert(cells.deep_view().take(j as int) =~= cells.deep_view());
    }
    out
}

/// Lays a table out: a line of headings with ` | ` between them, then one
/// line for each row with three blanks between the columns. Every column is
/// as wide as its widest text, and a column that ends early goes on with
/// empty texts. A table without rows is the line of its headings alone.
pub fn table(header: &Vec<String>, columns: &Vec<Vec<String>>, alignment: &Vec<FormatAlignment>) -> (r:
    FormatType)
    requires
        header@.len() == columns@.len(),
        header@.len() == alignment@.len(),
    ensures
        is_table(r, header.deep_view(), column_views(columns@), alignment@),
{
    let ghost heads = header.deep_view();
    let ghost cols = column_views(columns@);
    let ghost aligns = alignment@;
    let n = header.len();
    // The number of rows, and the width of each column.
    let mut rows: usize = 0;
    let mut widths: Vec<usize> = Vec::new();
    let mut j: usize = 0;
    while j < n
        invariant
            j <= n,
            n == header@.len(),
            n == columns@.len(),
            heads == header.deep_view(),
            cols == column_views(columns@),
            rows == row_count(cols.take(j as int)),
            widths@.len() == j,
            forall|k: int| 0 <= k < j ==> (#[trigger] widths@[k]) == width(heads[k], cols[k]),
        decreases n - j,
    {
        proof {
            let now = cols.take(j + 1);
            assert(now.drop_last() =~= cols.take(j as int));
        }
        if columns[j].len() > rows {
            rows = columns[j].len();
        }
        let inner = widest_of(&columns[j]);
        let own = header[j].as_str().as_bytes().len();
        widths.push(if own >= inner {
            own
        } else {
            inner
        });
        j += 1;
    }
    proof {
        assert(cols.take(j as int) =~= cols);
    }
    // The line of the headings.
    let mut cells: Vec<String> = Vec::new();
    let mut j: usize = 0;
    while j < n
        invariant
            j <= n,
            n == header@.len(),
            n == columns@.len(),
            n == alignment@.len(),
            heads == header.deep_view(),
            cols == column_views(columns@),
            aligns == alignment@,
            widths@.len() == n,
            forall|k: int| 0 <= k < n ==> (#[trigger] widths@[k]) == width(heads[k], cols[k]),
            cells.deep_view() =~= heading_cells(heads, cols, aligns, j as int),
        decreases n - j,
    {
        let text = FormatType::align(header[j].as_str(), alignment[j], widths[j], (0, 0));
        let ghost before = cells.deep_view();
        cells.push(text);
        proof {
            assert(cells.deep_view() =~= before.push(text@));
        }
        j += 1;
    }
    let heading = join_cells(&cells, " | ");
    let mut acc = FormatType::RawLine(heading);
    let ghost mut lines: Seq<Seq<char>> = seq![heading@];
    let mut i: usize = 0;
    while i < rows
        invariant
            i <= rows,
            n == header@.len(),
            n == columns@.len(),
            n == alignment@.len(),
            heads == header.deep_view(),
            cols == column_views(columns@),
            aligns == alignment@,
            rows == row_count(cols),
            widths@.len() == n,
            forall|k: int| 0 <= k < n ==> (#[trigger] widths@[k]) == width(heads[k], cols[k]),
            lines == table_lines(heads, cols, aligns).take(i + 1),
            i == 0 ==> (acc matches FormatType::RawLine(line) && line@ == lines[0]),
            i > 0 ==> (acc matches FormatType::Chain(items) && all_raw(items@) && raw_lines(
                items@,
            ) == lines),
        decreases rows - i,
    {
        let mut row: Vec<String> = Vec::new();
        let mut j: usize = 0;
        while j < n
            invariant
                j <= n,
                i < rows,
                n == header@.len(),
                n == columns@.len(),
                n == alignment@.len(),
                heads == header.deep_view(),
                cols == column_views(columns@),
                aligns == alignment@,
                widths@.len() == n,
                forall|k: int| 0 <= k < n ==> (#[trigger] widths@[k]) == width(heads[k], cols[k]),
                row.deep_view() =~= row_cells(heads, cols, aligns, i as int, j as int),
            decreases n - j,
        {
            let text = if i < columns[j].len() {
                proof {
                    lemma_widest_bounds(cols[j as int], i as int);
                }
                FormatType::align(columns[j][i].as_str(), alignment[j], widths[j], (0, 0))
            } else {
                proof {
                    reveal_strlit("");
                }
                FormatType::align("", alignment[j], widths[j], (0, 0))
            };
            let ghost before = row.deep_view();
            row.push(text);
            proof {
                assert(row.deep_view() =~= before.push(text@));
            }
            j += 1;
        }
        let line = join_cells(&row, "   ");
        acc = acc.chain(FormatType::RawLine(line));
        proof {
            lines = lines.push(line@);
        }
        i += 1;
    }
    proof {
        assert(table_lines(heads, cols, aligns).take(rows + 1) =~= table_lines(heads, cols, aligns));
    }
    acc
}

} // verus!
