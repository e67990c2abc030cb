//! Tables: columns with headers, rows of values, and their consistency rules.
use vstd::prelude::*;
use crate::geometry::Size;
use crate::styles::Margin;
use crate::text::TextBlockContent;
use crate::pages::{paginate_rows, paginated, pages_view};
use core::ops::Add;
use vstd::std_specs::ops::AddSpec;

verus! {

/// Why a table cannot be laid out.
#[derive(Debug, Clone, PartialEq, Eq, Structural)]
pub enum TableError {
    /// Row is too wide for the table
    RowTooWide,
    /// Number of Columns and Values do not match
    ColumnValueMismatch { columns: usize, values: usize, in_row: Option<usize> },
    /// Header row is too wide for the table
    HeaderDoesNotFit,
    /// Columns have not been initialized
    GridBuilderColumnsNotInitialized,
    /// A Grid can only have at max 1 autofill columns
    MultipleAutoFillColumns,
    /// Table is not allowed to create more pages
    NoNewPageAllowed,
}

/// Where on a page a table may go.
#[derive(Debug, Clone, PartialEq)]
pub struct TablePageRules<U> {
    pub page_size: Size<U>,
    pub table_start_y: Option<U>,
    pub table_stop_y: Option<U>,
    /// The margin for the page Left, Right
    pub margin: Option<Margin<U>>,
}

/// Width limits of a column.
#[derive(Debug, Clone, PartialEq, Default)]
pub struct ColumnStyle<W> {
    pub max_width: Option<W>,
    pub min_width: Option<W>,
}

/// A column of a table: its header, and its width limits.
#[derive(Debug, Clone, PartialEq)]
pub struct Column<U, W> {
    pub header: TextBlockContent<U>,
    pub styles: Option<ColumnStyle<W>>,
}

impl<U, W> Column<U, W> {
    /// A column with a header and no styles.
    pub fn new(header: TextBlockContent<U>) -> (r: Self)
        ensures
            r.header == header,
            r.styles is None,
    {
        Column { header, styles: None }
    }

    /// Sets the column's maximum width, keeping its other styles.
    pub fn with_max_width(self, max_width: W) -> (r: Self)
        ensures
            r.header == self.header,
            r.styles matches Some(s) && s.max_width == Some(max_width) && s.min_width == match self.styles {
                Some(old) => old.min_width,
                None => None,
            },
    {
        let styles = match self.styles {
            Some(s) => ColumnStyle { max_width: Some(max_width), min_width: s.min_width },
            None => ColumnStyle { max_width: Some(max_width), min_width: None },
        };
        Column { header: self.header, styles: Some(styles) }
    }

    /// Sets the column's minimum width, keeping its other styles.
    pub fn with_min_width(self, min_width: W) -> (r: Self)
        ensures
            r.header == self.header,
            r.styles matches Some(s) && s.min_width == Some(min_width) && s.max_width == match self.styles {
                Some(old) => old.max_width,
                None => None,
            },
    {
        let styles = match self.styles {
            Some(s) => ColumnStyle { max_width: s.max_width, min_width: Some(min_width) },
            None => ColumnStyle { max_width: None, min_width: Some(min_width) },
        };
        Column { header: self.header, styles: Some(styles) }
    }
}

/// The value of a cell: text, or blank space.
#[derive(Debug, Clone, PartialEq)]
pub enum TableValue<U> {
    Text(TextBlockContent<U>),
    BlankSpace,
}

/// A row of a table: its values, one per column, and its styles.
#[derive(Debug, Clone, PartialEq)]
pub struct Row<U, S> {
    pub values: Vec<TableValue<U>>,
    /// Overrides of the default styles for this row
    pub styles: Option<S>,
}

impl<U, S> Row<U, S> {
    /// A row of values, without styles.
    pub fn new(values: Vec<TableValue<U>>) -> (r: Self)
        ensures
            r.values == values,
            r.styles is None,
    {
        Row { values, styles: None }
    }

    /// Sets the row's styles.
    pub fn with_styles(self, styles: S) -> (r: Self)
        ensures
            r.values == self.values,
            r.styles == Some(styles),
    {
        Row { values: self.values, styles: Some(styles) }
    }

    /// The number of values (columns) of the row.
    pub fn number_of_columns(&self) -> (r: usize)
        ensures
            r == self.values@.len(),
    {
        self.values.len()
    }
}

/// Row styles that alternate: even rows, odd rows.
#[derive(Debug, Clone, PartialEq, Default)]
pub struct AlternatingRowStyles<S> {
    pub even_row_styles: S,
    pub odd_row_styles: S,
}

impl<S> AlternatingRowStyles<S> {
    /// The styles of the row at `index`: even rows get the even styles, odd rows the odd ones.
    pub fn row_for_index(&self, index: usize) -> (r: &S)
        ensures
            *r == if index % 2 == 0 {
                self.even_row_styles
            } else {
                self.odd_row_styles
            },
    {
        if index % 2 == 0 {
            &self.even_row_styles
        } else {
            &self.odd_row_styles
        }
    }
}

/// The first row whose number of values differs from the number of columns, if any.
pub open spec fn first_mismatch<U, S>(rows: Seq<Row<U, S>>, columns: nat) -> Option<int> {
    if exists|i: int| 0 <= i < rows.len() && rows[i].values@.len() != columns {
        Some(choose|i: int| 0 <= i < rows.len() && rows[i].values@.len() != columns && forall|j: int|
            0 <= j < i ==> rows[j].values@.len() == columns)
    } else {
        None
    }
}

/// A table: columns and rows.
#[derive(Debug, Clone, PartialEq)]
pub struct Table<U, W, S> {
    pub columns: Vec<Column<U, W>>,
    pub rows: Vec<Row<U, S>>,
}

impl<U, W, S> Table<U, W, S> {
    /// A table without columns or rows.
    pub fn new() -> (r: Self)
        ensures
            r.columns@.len() == 0,
            r.rows@.len() == 0,
    {
        Table { columns: Vec::new(), rows: Vec::new() }
    }

    /// Appends a column.
    pub fn add_column(&mut self, column: Column<U, W>)
        ensures
            final(self).columns@ == old(self).columns@.push(column),
            final(self).rows@ == old(self).rows@,
    {
        self.columns.push(column);
    }

    /// Appends a row.
    pub fn add_row(&mut self, row: Row<U, S>)
        ensures
            final(self).rows@ == old(self).rows@.push(row),
            final(self).columns@ == old(self).columns@,
    {
        self.rows.push(row);
    }

    /// The number of columns.
    pub fn number_of_columns(&self) -> (r: usize)
        ensures
            r == self.columns@.len(),
    {
        self.columns.len()
    }

    /// The number of rows.
    pub fn number_of_rows(&self) -> (r: usize)
        ensures
            r == self.rows@.len(),
    {
        self.rows.len()
    }

    /// Checks that every row has one value per column; reports the first row that does not.
    pub fn validate(&self) -> (r: Result<(), TableError>)
        ensures
            match first_mismatch(self.rows@, self.columns@.len()) {
                None => r is Ok,
                Some(i) => r == Err::<(), TableError>(
                    TableError::ColumnValueMismatch {
                        columns: self.columns@.len() as usize,
                        values: self.rows@[i].values@.len() as usize,
                        in_row: Some(i as usize),
                    },
                ),
            },
    {
        let columns = self.number_of_columns();
        let mut row_index: usize = 0;
        while row_index < self.rows.len()
            invariant
                columns == self.columns@.len(),
                row_index <= self.rows.len(),
                forall|j: int| 0 <= j < row_index ==> self.rows@[j].values@.len() == columns,
            decreases self.rows.len() - row_index,
        {
            let values = self.rows[row_index].number_of_columns();
            if columns != values {
                proof {
                    let i = row_index as int;
                    let c = choose|k: int| 0 <= k < self.rows@.len() && self.rows@[k].values@.len() != columns
                        && forall|j: int| 0 <= j < k ==> self.rows@[j].values@.len() == columns;
                    assert(c == i) by {
                        if c < i {
                            assert(self.rows@[c].values@.len() == columns);
                        }
                        if c > i {
                            assert(self.rows@[i].values@.len() == columns);
                        }
                    }
                }
                return Err(TableError::ColumnValueMismatch { columns, values, in_row: Some(row_index) });
            }
            row_index = row_index + 1;
        }
        Ok(())
    }

    /// Which rows go on which page, once the table is checked: the rows' and header's
    /// heights measured by the caller (`row_heights[i]` for row `i`), split over pages as
    /// `paginate_rows` does. A row whose values do not match the columns is the error that
    /// `validate` reports.
    pub fn plan_pages<H: Copy + Add<Output = H> + PartialOrd>(
        &self,
        row_heights: &Vec<H>,
        header_height: H,
        first_available: H,
        next_available: H,
    ) -> (r: Result<Vec<Vec<usize>>, TableError>)
        requires
            row_heights@.len() == self.rows@.len(),
            forall|a: H, b: H| #[trigger] a.add_req(b),
        ensures
            match first_mismatch(self.rows@, self.columns@.len()) {
                None => r matches Ok(pages) && paginated(
                    row_heights@,
                    pages_view(pages@),
                    header_height,
                    first_available,
                    next_available,
                ),
                Some(i) => r == Err::<Vec<Vec<usize>>, TableError>(
                    TableError::ColumnValueMismatch {
                        columns: self.columns@.len() as usize,
                        values: self.rows@[i].values@.len() as usize,
                        in_row: Some(i as usize),
                    },
                ),
            },
    {
        match self.validate() {
            Err(e) => Err(e),
            Ok(()) => Ok(paginate_rows(row_heights, header_height, first_available, next_available)),
        }
    }
}

} // verus!
