use vstd::prelude::*;

use crate::html::compile_selector_raw;
use crate::html::row_cells;
use crate::html::row_cells_raw;
use crate::html::selector_compiles;
use crate::text::dec_digits;
use crate::text::two_dec_digits;
use crate::text::u64_to_dec;
use crate::text::u64_two_dec;

verus! {

use vstd::string::StringExecFns;
use vstd::arithmetic::div_mod::lemma_div_is_ordered;
use vstd::arithmetic::div_mod::lemma_fundamental_div_mod_converse;
use vstd::arithmetic::mul::lemma_mul_inequality;

/// One share-buyback disclosure row, as published in the bordered table:
/// nineteen string fields read from fixed cell positions.
pub struct StockBuyback {
    /// Cell 0: the row's ordinal.
    pub serial_no: String,
    /// Cell 1: the company's ticker code.
    pub company_code: String,
    /// Cell 2: the company's name.
    pub company_name: String,
    /// Cell 3: the date of the board resolution.
    pub board_resolution_date: String,
    /// Cell 4: the purpose of the buyback.
    pub purpose: String,
    /// Cell 5: the upper bound on the total buyback amount.
    pub amount_limit: String,
    /// Cell 6: the number of shares planned to be bought back.
    pub planned_shares: String,
    /// Cell 7: the lower end of the planned price range.
    pub price_range_low: String,
    /// Cell 8: the upper end of the planned price range.
    pub price_range_high: String,
    /// Cell 9: the first day of the planned buyback period.
    pub period_start: String,
    /// Cell 10: the last day of the planned buyback period.
    pub period_end: String,
    /// Cell 11: whether the buyback has been carried out in full ("Y" when
    /// completed).
    pub completed: String,
    /// Cell 13: the number of shares bought back this time.
    pub bought_shares: String,
    /// Cell 14: the number of bought-back shares cancelled or transferred.
    pub cancelled_or_transferred_shares: String,
    /// Cell 14 as well: the bought shares as a share of the planned shares.
    /// The upstream table reads the same cell into this field and the one
    /// above; whether one of the two was meant to read a neighbouring cell
    /// is an open question, so the duplication is preserved.
    pub bought_ratio_of_planned: String,
    /// Cell 15: the total amount spent this time.
    pub bought_amount: String,
    /// Cell 16: the average price paid per share.
    pub average_price: String,
    /// Cell 17: the bought shares as a share of all issued shares.
    pub bought_ratio_of_issued: String,
    /// Cell 18: the reason the buyback was not carried out in full.
    pub incomplete_reason: String,
}

/// The `i`-th cell's text, or the empty sequence where the row has no such
/// cell: a field whose cell lies beyond the row's end stays empty.
pub open spec fn cell(cells: Seq<Seq<char>>, i: int) -> Seq<char> {
    if 0 <= i < cells.len() {
        cells[i]
    } else {
        Seq::empty()
    }
}

/// The views of a record's nineteen fields, in declaration order.
pub open spec fn record_view(b: StockBuyback) -> Seq<Seq<char>> {
    seq![
        b.serial_no@,
        b.company_code@,
        b.company_name@,
        b.board_resolution_date@,
        b.purpose@,
        b.amount_limit@,
        b.planned_shares@,
        b.price_range_low@,
        b.price_range_high@,
        b.period_start@,
        b.period_end@,
        b.completed@,
        b.bought_shares@,
        b.cancelled_or_transferred_shares@,
        b.bought_ratio_of_planned@,
        b.bought_amount@,
        b.average_price@,
        b.bought_ratio_of_issued@,
        b.incomplete_reason@,
    ]
}

/// The field views a row's cells yield: cells 0 to 11 in order, then the
/// fixed positions 13, 14, 14 (the preserved duplication), 15, 16, 17, 18.
/// Cell 12 is never read.
pub open spec fn row_record(cells: Seq<Seq<char>>) -> Seq<Seq<char>> {
    seq![
        cell(cells, 0),
        cell(cells, 1),
        cell(cells, 2),
        cell(cells, 3),
        cell(cells, 4),
        cell(cells, 5),
        cell(cells, 6),
        cell(cells, 7),
        cell(cells, 8),
        cell(cells, 9),
        cell(cells, 10),
        cell(cells, 11),
        cell(cells, 13),
        cell(cells, 14),
        cell(cells, 14),
        cell(cells, 15),
        cell(cells, 16),
        cell(cells, 17),
        cell(cells, 18),
    ]
}

/// The records that a sequence of rows yields, in order: one per row with
/// at least sixteen cells; shorter rows yield nothing.
pub open spec fn spec_records(rows: Seq<Seq<Seq<char>>>) -> Seq<Seq<Seq<char>>>
    decreases rows.len(),
{
    if rows.len() == 0 {
        Seq::empty()
    } else {
        spec_records(rows.drop_last()) + if rows.last().len() >= 16 {
            seq![row_record(rows.last())]
        } else {
            Seq::empty()
        }
    }
}

/// Whether the record's completed marker is the literal "Y".
pub open spec fn is_completed(b: StockBuyback) -> bool {
    b.completed@ == "Y"@
}

/// How many records of the sequence are marked completed.
pub open spec fn spec_completed_count(s: Seq<StockBuyback>) -> nat
    decreases s.len(),
{
    if s.len() == 0 {
        0
    } else {
        spec_completed_count(s.drop_last()) + if is_completed(s.last()) {
            1nat
        } else {
            0nat
        }
    }
}

/// The completion rate in hundredths of a percent, rounded to the nearest
/// hundredth with halves rounded up, as the two-decimal formatting of the
/// exact rate rounds; an empty input is guarded to zero rather than
/// dividing by zero.
pub open spec fn spec_pct_hundredths(total: nat, completed: nat) -> nat {
    if total == 0 {
        0
    } else {
        (completed * 20000 + total) / (2 * total)
    }
}

/// The summary text: the total count, the completed count, and the
/// completion rate with two decimal places.
pub open spec fn stats_text(total: nat, completed: nat) -> Seq<char> {
    let pct = spec_pct_hundredths(total, completed);
    "總公司數："@ + dec_digits(total) + " 家\n已完成回購："@ + dec_digits(completed) + " 家\n完成率："@
        + dec_digits(pct / 100) + "."@ + two_dec_digits(pct % 100) + "%"@
}

/// The selector text that picks the disclosure table's data rows: the
/// alternating even and odd row classes of the bordered table.
pub open spec fn buyback_row_selector() -> Seq<char> {
    "table.hasBorder tr.even, table.hasBorder tr.odd"@
}

/// The selector text that picks the cells of one row.
pub open spec fn buyback_cell_selector() -> Seq<char> {
    "td"@
}

impl StockBuyback {
    /// The `i`-th cell's text as an owned string, empty where the row is too
    /// short to have that cell.
    fn cell_text(cells: &Vec<String>, i: usize) -> (r: String)
        ensures
            r@ == cell(cells.deep_view(), i as int),
    {
        if i < cells.len() {
            cells[i].clone()
        } else {
            String::new()
        }
    }

    /// Builds one record from a row's cell texts: a row with at least
    /// sixteen cells yields a record whose fields read the documented cell
    /// positions (positions past the row's end read as empty); a shorter
    /// row yields nothing.
    pub fn from_cells(cells: &Vec<String>) -> (r: Option<StockBuyback>)
        ensures
            r is Some <==> cells@.len() >= 16,
            r is Some ==> record_view(r->Some_0) == row_record(cells.deep_view()),
    {
        if cells.len() < 16 {
            None
        } else {
            let b = StockBuyback {
                serial_no: Self::cell_text(cells, 0),
                company_code: Self::cell_text(cells, 1),
                company_name: Self::cell_text(cells, 2),
                board_resolution_date: Self::cell_text(cells, 3),
                purpose: Self::cell_text(cells, 4),
                amount_limit: Self::cell_text(cells, 5),
                planned_shares: Self::cell_text(cells, 6),
                price_range_low: Self::cell_text(cells, 7),
                price_range_high: Self::cell_text(cells, 8),
                period_start: Self::cell_text(cells, 9),
                period_end: Self::cell_text(cells, 10),
                completed: Self::cell_text(cells, 11),
                bought_shares: Self::cell_text(cells, 13),
                cancelled_or_transferred_shares: Self::cell_text(cells, 14),
                bought_ratio_of_planned: Self::cell_text(cells, 14),
                bought_amount: Self::cell_text(cells, 15),
                average_price: Self::cell_text(cells, 16),
                bought_ratio_of_issued: Self::cell_text(cells, 17),
                incomplete_reason: Self::cell_text(cells, 18),
            };
            proof {
                assert(record_view(b) =~= row_record(cells.deep_view()));
            }
            Some(b)
        }
    }

    /// Builds the records of every row with at least sixteen cells, in row
    /// order, skipping shorter rows entirely.
    pub fn records_from_rows(rows: &Vec<Vec<String>>) -> (r: Vec<StockBuyback>)
        ensures
            r@.map_values(|b: StockBuyback| record_view(b)) == spec_records(rows.deep_view()),
    {
        let ghost rv = rows.deep_view();
        let mut r: Vec<StockBuyback> = Vec::new();
        let mut i: usize = 0;
        while i < rows.len()
            invariant
                i <= rows.len(),
                rv == rows.deep_view(),
                r@.map_values(|b: StockBuyback| record_view(b)) == spec_records(
                    rv.subrange(0, i as int),
                ),
            decreases rows.len() - i,
        {
            proof {
                assert(rv[i as int] == rows@[i as int].deep_view());
            }
            match Self::from_cells(&rows[i]) {
                Some(b) => {
                    r.push(b);
                },
                None => {},
            }
            proof {
                let prefix = rv.subrange(0, i + 1);
                assert(prefix.drop_last() =~= rv.subrange(0, i as int));
                assert(prefix.last() == rv[i as int]);
                assert(r@.map_values(|b: StockBuyback| record_view(b)) =~= spec_records(prefix));
            }
            i = i + 1;
        }
        proof {
            assert(rv.subrange(0, rows@.len() as int) =~= rv);
        }
        r
    }

    /// Parses the HTML and builds one record per sufficiently long table
    /// row of the bordered table's alternating even and odd row classes.
    /// Each field is the cell's inner markup with surrounding whitespace
    /// trimmed; inner tags are kept verbatim. The two fixed selectors are
    /// valid; were compilation nevertheless refused, the result would be
    /// empty.
    pub fn parse_from_html(html_content: &str) -> (records: Vec<StockBuyback>)
        ensures
            (selector_compiles(buyback_row_selector()) && selector_compiles(
                buyback_cell_selector(),
            )) ==> records@.map_values(|b: StockBuyback| record_view(b)) == spec_records(
                row_cells(html_content@, buyback_row_selector(), buyback_cell_selector()),
            ),
            !(selector_compiles(buyback_row_selector()) && selector_compiles(
                buyback_cell_selector(),
            )) ==> records@.len() == 0,
    {
        let row_selector_text = "table.hasBorder tr.even, table.hasBorder tr.odd";
        let cell_selector_text = "td";
        if compile_selector_raw(row_selector_text).is_none() {
            return Vec::new();
        }
        if compile_selector_raw(cell_selector_text).is_none() {
            return Vec::new();
        }
        let rows = row_cells_raw(html_content, row_selector_text, cell_selector_text);
        Self::records_from_rows(&rows)
    }

    /// The summary text over the given records: how many there are, how
    /// many are marked completed, and the completion rate in percent with
    /// two decimal places, rounded to the nearest hundredth. An empty input
    /// reports a rate of zero rather than dividing by zero.
    pub fn get_total_stats(buybacks: &[StockBuyback]) -> (r: String)
        ensures
            r@ == stats_text(buybacks@.len(), spec_completed_count(buybacks@)),
    {
        let total: usize = buybacks.len();
        let marker: String = "Y".to_owned();
        let mut completed: usize = 0;
        let mut i: usize = 0;
        while i < total
            invariant
                total == buybacks@.len(),
                i <= total,
                marker@ == "Y"@,
                completed == spec_completed_count(buybacks@.subrange(0, i as int)),
                completed <= i,
            decreases total - i,
        {
            if buybacks[i].completed == marker {
                completed = completed + 1;
            }
            proof {
                let prefix = buybacks@.subrange(0, i + 1);
                assert(prefix.drop_last() =~= buybacks@.subrange(0, i as int));
                assert(prefix.last() == buybacks@[i as int]);
            }
            i = i + 1;
        }
        proof {
            assert(buybacks@.subrange(0, buybacks@.len() as int) =~= buybacks@);
        }
        let pct: u64 = if total == 0 {
            0u64
        } else {
            let wide: u128 = ((completed as u128) * 20000 + (total as u128)) / (2
                * (total as u128));
            proof {
                let c = completed as int;
                let t = total as int;
                lemma_mul_inequality(c, t, 20000);
                lemma_div_is_ordered(c * 20000 + t, (2 * t) * 10000 + t, 2 * t);
                lemma_fundamental_div_mod_converse((2 * t) * 10000 + t, 2 * t, 10000, t);
            }
            wide as u64
        };
        let whole = u64_to_dec(pct / 100);
        let frac = u64_two_dec(pct % 100);
        let count_text = u64_to_dec(completed as u64);
        let total_text = u64_to_dec(total as u64);
        let mut s: String = "總公司數：".to_owned();
        s.append(total_text.as_str());
        s.append(" 家\n已完成回購：");
        s.append(count_text.as_str());
        s.append(" 家\n完成率：");
        s.append(whole.as_str());
        s.append(".");
        s.append(frac.as_str());
        s.append("%");
        proof {
            assert(s@ =~= stats_text(buybacks@.len(), spec_completed_count(buybacks@)));
        }
        s
    }
}

} // verus!
