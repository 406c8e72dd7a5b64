use reqwest_app::StockBuyback;

fn row_html(cells: &[String]) -> String {
    let mut tds = String::new();
    for c in cells {
        tds.push_str("<td>");
        tds.push_str(c);
        tds.push_str("</td>");
    }
    format!("<table class=\"hasBorder\"><tr class=\"odd\">{}</tr></table>", tds)
}

fn numbered_cells(n: usize) -> Vec<String> {
    (1..=n).map(|i| format!("v{}", i)).collect()
}

fn record(completed: &str) -> StockBuyback {
    let cells: Vec<String> = (0..19).map(|_| String::new()).collect();
    let mut cells = cells;
    cells[11] = completed.to_string();
    StockBuyback::from_cells(&cells).unwrap()
}

#[test]
fn fifteen_cells_are_skipped() {
    let html = row_html(&numbered_cells(15));
    let records = StockBuyback::parse_from_html(&html);
    assert_eq!(records.len(), 0);
}

#[test]
fn sixteen_cells_produce_a_record() {
    let html = row_html(&numbered_cells(16));
    let records = StockBuyback::parse_from_html(&html);
    assert_eq!(records.len(), 1);
    let r = &records[0];
    assert_eq!(r.serial_no, "v1");
    assert_eq!(r.completed, "v12");
    assert_eq!(r.bought_shares, "v14");
    assert_eq!(r.cancelled_or_transferred_shares, "v15");
    assert_eq!(r.bought_ratio_of_planned, "v15");
    assert_eq!(r.bought_amount, "v16");
    assert_eq!(r.average_price, "");
    assert_eq!(r.bought_ratio_of_issued, "");
    assert_eq!(r.incomplete_reason, "");
}

#[test]
fn nineteen_cells_fill_every_field() {
    let mut cells = numbered_cells(19);
    cells[11] = "  <b>Y</b> ".to_string();
    cells[4] = " 庫藏股 ".to_string();
    let html = row_html(&cells);
    let records = StockBuyback::parse_from_html(&html);
    assert_eq!(records.len(), 1);
    let r = &records[0];
    assert_eq!(r.serial_no, "v1");
    assert_eq!(r.company_code, "v2");
    assert_eq!(r.company_name, "v3");
    assert_eq!(r.board_resolution_date, "v4");
    assert_eq!(r.purpose, "庫藏股");
    assert_eq!(r.amount_limit, "v6");
    assert_eq!(r.planned_shares, "v7");
    assert_eq!(r.price_range_low, "v8");
    assert_eq!(r.price_range_high, "v9");
    assert_eq!(r.period_start, "v10");
    assert_eq!(r.period_end, "v11");
    assert_eq!(r.completed, "<b>Y</b>");
    assert_eq!(r.bought_shares, "v14");
    assert_eq!(r.cancelled_or_transferred_shares, "v15");
    assert_eq!(r.bought_ratio_of_planned, "v15");
    assert_eq!(r.bought_amount, "v16");
    assert_eq!(r.average_price, "v17");
    assert_eq!(r.bought_ratio_of_issued, "v18");
    assert_eq!(r.incomplete_reason, "v19");
}

#[test]
fn even_and_odd_rows_match_others_do_not() {
    let cells: String = (1..=16).map(|i| format!("<td>r{}</td>", i)).collect();
    let html = format!(
        "<table class=\"hasBorder\">\
         <tr class=\"odd\">{c}</tr>\
         <tr class=\"plain\">{c}</tr>\
         <tr class=\"even\">{c}</tr>\
         </table>\
         <table><tr class=\"odd\">{c}</tr></table>",
        c = cells
    );
    let records = StockBuyback::parse_from_html(&html);
    assert_eq!(records.len(), 2);
}

#[test]
fn from_cells_needs_sixteen() {
    let fifteen: Vec<String> = numbered_cells(15);
    assert!(StockBuyback::from_cells(&fifteen).is_none());
    let sixteen: Vec<String> = numbered_cells(16);
    let r = StockBuyback::from_cells(&sixteen).unwrap();
    assert_eq!(r.company_code, "v2");
    assert_eq!(r.incomplete_reason, "");
}

#[test]
fn records_from_rows_skips_short_rows() {
    let rows = vec![numbered_cells(16), numbered_cells(3), numbered_cells(19), Vec::new()];
    let records = StockBuyback::records_from_rows(&rows);
    assert_eq!(records.len(), 2);
    assert_eq!(records[0].serial_no, "v1");
    assert_eq!(records[1].incomplete_reason, "v19");
}

#[test]
fn stats_on_empty_input_are_guarded() {
    let stats = StockBuyback::get_total_stats(&[]);
    assert_eq!(stats, "總公司數：0 家\n已完成回購：0 家\n完成率：0.00%");
}

#[test]
fn stats_count_exact_y_only() {
    let records = vec![record("Y"), record("N"), record("y"), record("<b>Y</b>")];
    let stats = StockBuyback::get_total_stats(&records);
    assert_eq!(stats, "總公司數：4 家\n已完成回購：1 家\n完成率：25.00%");
}

#[test]
fn stats_rate_rounds_to_nearest() {
    let records = vec![record("Y"), record("N"), record("N")];
    let stats = StockBuyback::get_total_stats(&records);
    assert_eq!(stats, "總公司數：3 家\n已完成回購：1 家\n完成率：33.33%");
    let records = vec![record("Y"), record("Y"), record("N")];
    let stats = StockBuyback::get_total_stats(&records);
    assert_eq!(stats, "總公司數：3 家\n已完成回購：2 家\n完成率：66.67%");
    let records = vec![record("Y"), record("N"), record("N"), record("N"), record("N"), record("N")];
    let stats = StockBuyback::get_total_stats(&records);
    assert_eq!(stats, "總公司數：6 家\n已完成回購：1 家\n完成率：16.67%");
}

#[test]
fn stats_all_completed() {
    let records = vec![record("Y"), record("Y")];
    let stats = StockBuyback::get_total_stats(&records);
    assert_eq!(stats, "總公司數：2 家\n已完成回購：2 家\n完成率：100.00%");
}
