mod errors;
mod extract;
mod html;
mod stocks;
mod text;

pub use errors::ScraperError;
pub use extract::DataExtractor;
pub use extract::filter_nonempty_first;
pub use extract::lemma_nonempty_first_filtered;
pub use extract::or_empty;
pub use extract::pair_views;
pub use extract::pairs_or_empty;
pub use extract::spec_nonempty_first;
pub use html::HtmlDocument;
pub use html::attr_options;
pub use html::matches_within_first;
pub use html::row_cells;
pub use html::selector_compiles;
pub use stocks::StockBuyback;
pub use stocks::buyback_cell_selector;
pub use stocks::buyback_row_selector;
pub use stocks::cell;
pub use stocks::is_completed;
pub use stocks::record_view;
pub use stocks::row_record;
pub use stocks::spec_completed_count;
pub use stocks::spec_pct_hundredths;
pub use stocks::spec_records;
pub use stocks::stats_text;
pub use text::dec_digits;
pub use text::two_dec_digits;
pub use text::u64_to_dec;
pub use text::u64_two_dec;
