//! Prints a two-dimensional collection of values to a column-aligned,
//! optionally styled grid of text.
//!
//! The printer measures the widest cell of every column, pads each cell to
//! that width plus a configurable spacing, and wraps the cells of styled
//! columns in ANSI escape sequences.

pub mod style;

use vstd::prelude::*;

use crate::style::{StyleOpt, spec_stylize, stylize};

verus! {

/// The one configuration error: a column index or a styles sequence whose
/// length disagrees with the configured column count.
#[derive(Debug, Clone, Copy, PartialEq, Eq, Structural)]
pub enum GridPrinterErr {
    DimensionErr,
}

impl GridPrinterErr {
    /// A human-readable description of the error.
    pub fn message(&self) -> (r: String)
        ensures
            r@ == "DimensionErr. Caused by mismatch in dimension size between method calls."@,
    {
        String::from_str("DimensionErr. Caused by mismatch in dimension size between method calls.")
    }
}

/// The cell at row `i`, column `j` of the grid `g`, under the policy that a
/// missing row or a missing entry reads as the empty string.
pub open spec fn cell_at(g: Seq<Seq<Seq<char>>>, i: int, j: int) -> Seq<char> {
    if 0 <= i < g.len() && 0 <= j < g[i].len() {
        g[i][j]
    } else {
        Seq::empty()
    }
}

/// The width of column `j` over the first `rows` rows of `g`: the length of
/// the longest cell, 0 when there are no rows.
pub open spec fn col_width(g: Seq<Seq<Seq<char>>>, rows: nat, j: int) -> nat
    decreases rows,
{
    if rows == 0 {
        0
    } else {
        let prev = col_width(g, (rows - 1) as nat, j);
        let cur = cell_at(g, rows - 1, j).len();
        if cur > prev {
            cur
        } else {
            prev
        }
    }
}

/// `n` padding spaces.
pub open spec fn pad_seq(n: nat) -> Seq<char> {
    Seq::new(n, |i: int| ' ')
}

/// A cell as emitted: stylized when its column has a style, bare otherwise.
pub open spec fn spec_styled(c: Seq<char>, st: Option<StyleOpt>) -> Seq<char> {
    match st {
        None => c,
        Some(s) => spec_stylize(c, s),
    }
}

/// The number of padding spaces after the cell at row `i`, column `j`: the
/// column's width minus the cell's own length, plus the column spacing.
pub open spec fn spec_pad_len(g: Seq<Seq<Seq<char>>>, rows: nat, spacing: nat, i: int, j: int) -> nat {
    (col_width(g, rows, j) + spacing - cell_at(g, i, j).len()) as nat
}

/// The full slot the cell at row `i`, column `j` occupies in the output: the
/// possibly stylized cell followed by its padding.
pub open spec fn spec_slot(
    g: Seq<Seq<Seq<char>>>,
    rows: nat,
    spacing: nat,
    styles: Seq<Option<StyleOpt>>,
    i: int,
    j: int,
) -> Seq<char> {
    spec_styled(cell_at(g, i, j), styles[j]) + pad_seq(spec_pad_len(g, rows, spacing, i, j))
}

/// The first `n` slots of row `i`, concatenated.
pub open spec fn spec_row_prefix(
    g: Seq<Seq<Seq<char>>>,
    rows: nat,
    spacing: nat,
    styles: Seq<Option<StyleOpt>>,
    i: int,
    n: int,
) -> Seq<char>
    decreases n,
{
    if n <= 0 {
        Seq::empty()
    } else {
        spec_row_prefix(g, rows, spacing, styles, i, n - 1) + spec_slot(g, rows, spacing, styles, i, n - 1)
    }
}

/// Row `i` as emitted: its `cols` slots followed by a line break.
pub open spec fn spec_row(
    g: Seq<Seq<Seq<char>>>,
    rows: nat,
    cols: nat,
    spacing: nat,
    styles: Seq<Option<StyleOpt>>,
    i: int,
) -> Seq<char> {
    spec_row_prefix(g, rows, spacing, styles, i, cols as int) + "\n"@
}

/// The whole rendered grid, one sequence of characters per row. The result
/// depends on the configuration and the grid alone. With zero columns
/// nothing is emitted at all, not even line breaks: a line break follows
/// only the last column of a row, and there is no column.
pub open spec fn spec_render(
    g: Seq<Seq<Seq<char>>>,
    rows: nat,
    cols: nat,
    spacing: nat,
    styles: Seq<Option<StyleOpt>>,
) -> Seq<Seq<char>> {
    if cols == 0 {
        Seq::empty()
    } else {
        Seq::new(rows, |i: int| spec_row(g, rows, cols, spacing, styles, i))
    }
}

/// A `Vec` of `n` unset column styles.
fn none_styles(n: usize) -> (v: Vec<Option<StyleOpt>>)
    ensures
        v@ == Seq::new(n as nat, |i: int| Option::<StyleOpt>::None),
{
    let mut v: Vec<Option<StyleOpt>> = Vec::new();
    let mut i: usize = 0;
    while i < n
        invariant
            i <= n,
            v@ == Seq::new(i as nat, |k: int| Option::<StyleOpt>::None),
        decreases n - i,
    {
        v.push(None);
        i = i + 1;
        proof {
            assert(v@ =~= Seq::new(i as nat, |k: int| Option::<StyleOpt>::None));
        }
    }
    v
}

/// A `Vec` of `n` zero column widths.
fn zero_widths(n: usize) -> (v: Vec<usize>)
    ensures
        v@ == Seq::new(n as nat, |i: int| 0usize),
{
    let mut v: Vec<usize> = Vec::new();
    let mut i: usize = 0;
    while i < n
        invariant
            i <= n,
            v@ == Seq::new(i as nat, |k: int| 0usize),
        decreases n - i,
    {
        v.push(0);
        i = i + 1;
        proof {
            assert(v@ =~= Seq::new(i as nat, |k: int| 0usize));
        }
    }
    v
}

/// A builder that accumulates validated configuration for a [`GridPrinter`].
#[derive(Debug)]
pub struct GridPrinterBuilder {
    pub rows: usize,
    pub cols: usize,
    pub col_spacing: usize,
    pub col_styles: Option<Vec<Option<StyleOpt>>>,
}

impl GridPrinterBuilder {
    /// A styles sequence is only ever stored with one entry per column.
    pub open spec fn wf(&self) -> bool {
        match self.col_styles {
            None => true,
            Some(v) => v@.len() == self.cols,
        }
    }

    /// The per-column styles this builder has accumulated, one entry per
    /// column; all unset while no style has been assigned.
    pub open spec fn styles(&self) -> Seq<Option<StyleOpt>> {
        match self.col_styles {
            None => Seq::new(self.cols as nat, |j: int| None),
            Some(v) => v@,
        }
    }
}

impl Default for GridPrinterBuilder {
    /// One row, one column, the default spacing of 2, no styles.
    fn default() -> (r: Self)
        ensures
            r.rows == 1,
            r.cols == 1,
            r.col_spacing == 2,
            r.col_styles is None,
            r.wf(),
    {
        GridPrinterBuilder { rows: 1, cols: 1, col_spacing: 2, col_styles: None }
    }
}

impl GridPrinterBuilder {
    /// Starts a configuration with the given dimensions. Zero is legal and
    /// simply yields no output.
    pub fn new(rows: usize, cols: usize) -> (r: Self)
        ensures
            r.rows == rows,
            r.cols == cols,
            r.col_spacing == 2,
            r.col_styles is None,
            r.wf(),
    {
        GridPrinterBuilder { rows, cols, ..Default::default() }
    }

    /// Sets the number of blank characters appended after the longest value
    /// in each column.
    pub fn col_spacing(self, col_spacing: usize) -> (r: Self)
        ensures
            r == (GridPrinterBuilder { col_spacing, ..self }),
    {
        GridPrinterBuilder { col_spacing, ..self }
    }

    /// Replaces the whole styles sequence. Rejected when the sequence's
    /// length is not exactly the column count; nothing is replaced then.
    pub fn col_styles(self, col_styles: Vec<Option<StyleOpt>>) -> (r: Result<Self, GridPrinterErr>)
        ensures
            col_styles@.len() == self.cols ==> r == Ok::<Self, GridPrinterErr>(
                GridPrinterBuilder { col_styles: Some(col_styles), ..self },
            ),
            col_styles@.len() != self.cols ==> r == Err::<Self, GridPrinterErr>(
                GridPrinterErr::DimensionErr,
            ),
    {
        match col_styles.len() == self.cols {
            false => Err(GridPrinterErr::DimensionErr),
            true => Ok(GridPrinterBuilder { col_styles: Some(col_styles), ..self }),
        }
    }

    /// Assigns a style to the column at `idx`. Rejected when `idx` is not a
    /// valid column index; a first assignment allocates the all-unset styles
    /// sequence only after that check, so a rejected call mutates nothing.
    pub fn col_style(self, idx: usize, opt: StyleOpt) -> (r: Result<Self, GridPrinterErr>)
        requires
            self.wf(),
        ensures
            idx >= self.cols ==> r == Err::<Self, GridPrinterErr>(GridPrinterErr::DimensionErr),
            idx < self.cols ==> {
                &&& r is Ok
                &&& r->Ok_0.rows == self.rows
                &&& r->Ok_0.cols == self.cols
                &&& r->Ok_0.col_spacing == self.col_spacing
                &&& r->Ok_0.col_styles is Some
                &&& r->Ok_0.styles() == self.styles().update(idx as int, Some(opt))
                &&& r->Ok_0.wf()
            },
    {
        if idx >= self.cols {
            return Err(GridPrinterErr::DimensionErr);
        }
        let GridPrinterBuilder { rows, cols, col_spacing, col_styles } = self;
        let mut styles: Vec<Option<StyleOpt>> = match col_styles {
            Some(v) => v,
            None => none_styles(cols),
        };
        styles[idx] = Some(opt);
        Ok(GridPrinterBuilder { rows, cols, col_spacing, col_styles: Some(styles) })
    }

    /// Finalizes the configuration, giving the printer its zero-initialized
    /// width cache.
    pub fn build(self) -> (r: GridPrinter)
        requires
            self.wf(),
        ensures
            r.rows == self.rows,
            r.cols == self.cols,
            r.col_spacing == self.col_spacing,
            r.col_styles == self.col_styles,
            r.styles() == self.styles(),
            r.max_widths@ == Seq::new(self.cols as nat, |j: int| 0usize),
            r.wf(),
    {
        let GridPrinterBuilder { rows, cols, col_spacing, col_styles } = self;
        GridPrinter { rows, cols, col_spacing, col_styles, max_widths: zero_widths(cols) }
    }
}

/// A borrowed optional style, as the optional style it points to.
pub open spec fn opt_style(st: Option<&StyleOpt>) -> Option<StyleOpt> {
    match st {
        None => None,
        Some(s) => Some(*s),
    }
}

/// A column is at least as wide as each of its cells: the measurement pass
/// runs over the whole column before any cell is padded.
pub proof fn lemma_col_width_ge_cell(g: Seq<Seq<Seq<char>>>, rows: nat, i: int, j: int)
    requires
        0 <= i < rows,
    ensures
        cell_at(g, i, j).len() <= col_width(g, rows, j),
    decreases rows,
{
    if i < rows - 1 {
        lemma_col_width_ge_cell(g, (rows - 1) as nat, i, j);
    }
}

/// A column is no wider than a bound that every one of its cells respects.
pub proof fn lemma_col_width_bound(g: Seq<Seq<Seq<char>>>, rows: nat, j: int, bound: nat)
    requires
        forall|i: int| 0 <= i < rows ==> cell_at(g, i, j).len() <= bound,
    ensures
        col_width(g, rows, j) <= bound,
    decreases rows,
{
    if rows > 0 {
        lemma_col_width_bound(g, (rows - 1) as nat, j, bound);
    }
}

/// Each cell's slot shows the column's measured width plus the column
/// spacing: counting the cell's own text and the padding after it, every
/// slot of a column occupies the same number of visible characters,
/// whatever the column's styling.
pub proof fn lemma_column_width(g: Seq<Seq<Seq<char>>>, rows: nat, spacing: nat, i: int, j: int)
    requires
        0 <= i < rows,
    ensures
        cell_at(g, i, j).len() + spec_pad_len(g, rows, spacing, i, j) == col_width(g, rows, j)
            + spacing,
{
    lemma_col_width_ge_cell(g, rows, i, j);
}

/// Styling never changes the padding: a styled cell's slot carries exactly
/// the same padding as the unstyled slot of the same cell, although the
/// styled slot emits at least as many characters.
pub proof fn lemma_style_keeps_padding(
    g: Seq<Seq<Seq<char>>>,
    rows: nat,
    spacing: nat,
    styled: Seq<Option<StyleOpt>>,
    unstyled: Seq<Option<StyleOpt>>,
    i: int,
    j: int,
)
    requires
        unstyled[j] is None,
    ensures
        spec_slot(g, rows, spacing, unstyled, i, j) == cell_at(g, i, j) + pad_seq(
            spec_pad_len(g, rows, spacing, i, j),
        ),
        spec_slot(g, rows, spacing, styled, i, j) == spec_styled(cell_at(g, i, j), styled[j])
            + pad_seq(spec_pad_len(g, rows, spacing, i, j)),
        spec_slot(g, rows, spacing, styled, i, j).len() >= spec_slot(
            g,
            rows,
            spacing,
            unstyled,
            i,
            j,
        ).len(),
{
}

/// Rendering is deterministic: the output is a function of the
/// configuration and the grid alone, never of the width cache, so rendering
/// the same input twice on the same printer gives identical output.
pub proof fn lemma_render_deterministic(p1: GridPrinter, p2: GridPrinter, g: Seq<Seq<Seq<char>>>)
    requires
        p1.rows == p2.rows,
        p1.cols == p2.cols,
        p1.col_spacing == p2.col_spacing,
        p1.styles() == p2.styles(),
    ensures
        spec_render(g, p1.rows as nat, p1.cols as nat, p1.col_spacing as nat, p1.styles())
            == spec_render(g, p2.rows as nat, p2.cols as nat, p2.col_spacing as nat, p2.styles()),
{
}

/// A missing cell, whether its whole row is absent or only the entry,
/// renders as an empty string padded to the column's full width plus the
/// spacing; no error is raised anywhere on this path.
pub proof fn lemma_missing_cell(
    g: Seq<Seq<Seq<char>>>,
    rows: nat,
    spacing: nat,
    styles: Seq<Option<StyleOpt>>,
    i: int,
    j: int,
)
    requires
        0 <= i < rows,
        0 <= j,
        g.len() <= i || g[i].len() <= j,
        styles[j] is None,
    ensures
        cell_at(g, i, j) == Seq::<char>::empty(),
        spec_slot(g, rows, spacing, styles, i, j) =~= pad_seq((col_width(g, rows, j) + spacing) as nat),
{
    assert(spec_slot(g, rows, spacing, styles, i, j) =~= pad_seq(
        (col_width(g, rows, j) + spacing) as nat,
    ));
}

/// Padding carries no escape codes: every character of it is a plain space.
pub proof fn lemma_padding_plain(n: nat, k: int)
    requires
        0 <= k < n,
    ensures
        pad_seq(n)[k] == ' ',
{
}

/// Renders two-dimensional data as a column-aligned, optionally styled grid
/// of text. The configuration is immutable; `max_widths` is a derived cache
/// recomputed from scratch on every rendering.
pub struct GridPrinter {
    pub rows: usize,
    pub cols: usize,
    pub col_spacing: usize,
    pub col_styles: Option<Vec<Option<StyleOpt>>>,
    pub max_widths: Vec<usize>,
}

impl GridPrinter {
    /// The width cache has one entry per column, and a styles sequence is
    /// only ever stored with one entry per column.
    pub open spec fn wf(&self) -> bool {
        &&& self.max_widths@.len() == self.cols
        &&& match self.col_styles {
            None => true,
            Some(v) => v@.len() == self.cols,
        }
    }

    /// The per-column styles of this printer, one entry per column; all
    /// unset when none were configured.
    pub open spec fn styles(&self) -> Seq<Option<StyleOpt>> {
        match self.col_styles {
            None => Seq::new(self.cols as nat, |j: int| None),
            Some(v) => v@,
        }
    }

    /// A printer with the given dimensions and the default configuration.
    pub fn new(rows: usize, cols: usize) -> (r: Self)
        ensures
            r.rows == rows,
            r.cols == cols,
            r.col_spacing == 2,
            r.col_styles is None,
            r.max_widths@ == Seq::new(cols as nat, |j: int| 0usize),
            r.wf(),
    {
        GridPrinterBuilder::new(rows, cols).build()
    }

    /// Starts a builder with the given dimensions.
    pub fn builder(rows: usize, cols: usize) -> (r: GridPrinterBuilder)
        ensures
            r.rows == rows,
            r.cols == cols,
            r.col_spacing == 2,
            r.col_styles is None,
            r.wf(),
    {
        GridPrinterBuilder::new(rows, cols)
    }

    /// `n` padding spaces as a string.
    fn pad(n: usize) -> (r: String)
        ensures
            r@ == pad_seq(n as nat),
    {
        let mut r = String::new();
        let mut i: usize = 0;
        proof {
            assert(r@ =~= pad_seq(0));
        }
        while i < n
            invariant
                i <= n,
                r@ == pad_seq(i as nat),
            decreases n - i,
        {
            r.append(" ");
            i = i + 1;
            proof {
                reveal_strlit(" ");
                assert(r@ =~= pad_seq(i as nat));
            }
        }
        r
    }

    /// Stylizes one cell with its column's optional style and pads it to the
    /// column's cached width plus the column spacing. The cell must not be
    /// wider than the cached width: the measurement pass guarantees that,
    /// and the padding arithmetic depends on it.
    pub fn render_cell(&self, cell: &str, col_idx: usize, style_opt: Option<&StyleOpt>) -> (r: String)
        requires
            col_idx < self.max_widths@.len(),
            cell@.len() <= self.max_widths@[col_idx as int],
            self.max_widths@[col_idx as int] + self.col_spacing <= usize::MAX,
        ensures
            r@ == spec_styled(cell@, opt_style(style_opt)) + pad_seq(
                (self.max_widths@[col_idx as int] + self.col_spacing - cell@.len()) as nat,
            ),
    {
        let styled: String = match style_opt {
            None => cell.to_owned(),
            Some(st) => stylize(cell, st),
        };
        let col_width = self.max_widths[col_idx];
        let pad = Self::pad(col_width - cell.unicode_len() + self.col_spacing);
        let r = styled.concat(pad.as_str());
        proof {
            assert(r@ =~= spec_styled(cell@, opt_style(style_opt)) + pad_seq(
                (self.max_widths@[col_idx as int] + self.col_spacing - cell@.len()) as nat,
            ));
        }
        r
    }

    /// Renders `source` as the configured `rows x cols` grid, one string per
    /// row with its trailing line break; with zero rows or zero columns the
    /// output is empty. Missing rows and missing cells read as empty
    /// strings; data beyond the configured shape is never read. The width
    /// cache is recomputed from scratch, so the output is a function of the
    /// configuration and `source` alone. Cells so wide that padding them
    /// would overflow the width arithmetic are excluded up front.
    #[verifier::loop_isolation(false)]
    #[verifier::rlimit(50)]
    pub fn render(&mut self, source: &Vec<Vec<String>>) -> (out: Vec<String>)
        requires
            old(self).wf(),
            forall|i: int, j: int|
                0 <= i < old(self).rows && 0 <= j < old(self).cols ==> cell_at(
                    source.deep_view(),
                    i,
                    j,
                ).len() + old(self).col_spacing <= usize::MAX,
        ensures
            final(self).rows == old(self).rows,
            final(self).cols == old(self).cols,
            final(self).col_spacing == old(self).col_spacing,
            final(self).col_styles == old(self).col_styles,
            final(self).wf(),
            forall|j: int|
                0 <= j < old(self).cols ==> final(self).max_widths@[j] == col_width(
                    source.deep_view(),
                    old(self).rows as nat,
                    j,
                ),
            out.deep_view() == spec_render(
                source.deep_view(),
                old(self).rows as nat,
                old(self).cols as nat,
                old(self).col_spacing as nat,
                old(self).styles(),
            ),
    {
        let ghost g = source.deep_view();
        let ghost sts = old(self).styles();
        let rows: usize = self.rows;
        let cols: usize = self.cols;
        let spacing: usize = self.col_spacing;

        // Measurement: the whole column is scanned before any cell of it is
        // padded, because a later row's long value widens the entire column.
        let mut widths: Vec<usize> = Vec::new();
        for j in 0..cols
            invariant
                widths@.len() == j,
                forall|k: int| 0 <= k < j ==> widths@[k] == col_width(g, rows as nat, k),
        {
            let mut w: usize = 0;
            for i in 0..rows
                invariant
                    w == col_width(g, i as nat, j as int),
                    w + spacing <= usize::MAX,
            {
                let len: usize = if i < source.len() {
                    let row: &Vec<String> = &source[i];
                    if j < row.len() {
                        row[j].as_str().unicode_len()
                    } else {
                        0
                    }
                } else {
                    0
                };
                proof {
                    assert(len == cell_at(g, i as int, j as int).len());
                }
                if len > w {
                    w = len;
                }
            }
            widths.push(w);
        }
        self.max_widths = widths;

        // Emission, in row-major order. With zero columns there is no cell
        // and no last column for a line break to follow, so nothing at all
        // is emitted, however many rows are configured.
        let mut out: Vec<String> = Vec::new();
        if cols == 0 {
            proof {
                assert(out.deep_view() =~= spec_render(g, rows as nat, cols as nat, spacing as nat, sts));
            }
            return out;
        }
        for i in 0..rows
            invariant
                self.rows == old(self).rows,
                self.cols == old(self).cols,
                self.col_spacing == old(self).col_spacing,
                self.col_styles == old(self).col_styles,
                self.max_widths@.len() == cols,
                forall|k: int| 0 <= k < cols ==> self.max_widths@[k] == col_width(g, rows as nat, k),
                out@.len() == i,
                forall|r: int|
                    0 <= r < i ==> out.deep_view()[r] == spec_row(
                        g,
                        rows as nat,
                        cols as nat,
                        spacing as nat,
                        sts,
                        r,
                    ),
        {
            let mut line = String::new();
            for j in 0..cols
                invariant
                    self.rows == old(self).rows,
                    self.cols == old(self).cols,
                    self.col_spacing == old(self).col_spacing,
                    self.col_styles == old(self).col_styles,
                    self.max_widths@.len() == cols,
                    forall|k: int|
                        0 <= k < cols ==> self.max_widths@[k] == col_width(g, rows as nat, k),
                    line@ == spec_row_prefix(g, rows as nat, spacing as nat, sts, i as int, j as int),
            {
                let cell: &str = if i < source.len() {
                    let row: &Vec<String> = &source[i];
                    if j < row.len() {
                        row[j].as_str()
                    } else {
                        ""
                    }
                } else {
                    ""
                };
                proof {
                    reveal_strlit("");
                    assert(cell@ =~= cell_at(g, i as int, j as int));
                }
                let style_opt: Option<&StyleOpt> = match &self.col_styles {
                    None => None,
                    Some(v) => match &v[j] {
                        None => None,
                        Some(st) => Some(st),
                    },
                };
                proof {
                    assert(opt_style(style_opt) == sts[j as int]);
                    lemma_col_width_ge_cell(g, rows as nat, i as int, j as int);
                    lemma_col_width_bound(g, rows as nat, j as int, (usize::MAX - spacing) as nat);
                }
                let piece = self.render_cell(cell, j, style_opt);
                line.append(piece.as_str());
                proof {
                    assert(line@ == spec_row_prefix(
                        g,
                        rows as nat,
                        spacing as nat,
                        sts,
                        i as int,
                        j + 1,
                    ));
                }
            }
            line.append("\n");
            proof {
                assert(line@ == spec_row(g, rows as nat, cols as nat, spacing as nat, sts, i as int));
            }
            let ghost out_pre = out.deep_view();
            let ghost line_v = line@;
            out.push(line);
            proof {
                assert(out.deep_view() =~= out_pre.push(line_v));
            }
        }
        proof {
            assert(out.deep_view() =~= spec_render(
                g,
                rows as nat,
                cols as nat,
                spacing as nat,
                sts,
            ));
        }
        out
    }
}

} // verus!
