//! The text of single cells, shared by the three encodings. A field that is
//! absent is shown as `N/A`, never as an empty cell and never as zero.

use vstd::prelude::*;
use vstd::string::*;
use crate::text::{decimal, decimal_text, text_or};
use crate::units::{
    gib_one_decimal, gib_one_decimal_text, percent_one_decimal, percent_one_decimal_text,
    percent_two_decimals, percent_two_decimals_text, uptime_days, uptime_days_hours,
    uptime_days_hours_text, uptime_days_text, used_total, used_total_text,
};

verus! {

/// The marker shown in place of an absent field.
pub open spec fn not_available() -> Seq<char> {
    "N/A"@
}

/// A text field, or the marker where it is absent.
pub open spec fn text_cell(field: Option<Seq<char>>) -> Seq<char> {
    match field {
        Some(s) => s,
        None => not_available(),
    }
}

/// A count, or the marker where it is absent.
pub open spec fn count_cell(field: Option<u32>) -> Seq<char> {
    match field {
        Some(n) => decimal(n as nat),
        None => not_available(),
    }
}

/// The condensed `used/total` cell in whole gibibytes, or the marker where
/// either side is absent.
pub open spec fn used_total_cell(used: Option<u64>, total: Option<u64>) -> Seq<char> {
    match (used, total) {
        (Some(u), Some(t)) => used_total_text(u, t),
        _ => not_available(),
    }
}

/// A byte quantity in gibibytes with one decimal place, or the marker.
pub open spec fn gib_cell(field: Option<u64>) -> Seq<char> {
    match field {
        Some(b) => gib_one_decimal_text(b),
        None => not_available(),
    }
}

/// A CPU load as a percentage with one decimal place, or the marker.
pub open spec fn percent_cell(field: Option<u64>) -> Seq<char> {
    match field {
        Some(m) => percent_one_decimal_text(m),
        None => not_available(),
    }
}

/// A CPU load as a percentage with two decimal places, as the detail of a
/// node shows it, or the marker.
pub open spec fn percent_detail_cell(field: Option<u64>) -> Seq<char> {
    match field {
        Some(m) => percent_two_decimals_text(m),
        None => not_available(),
    }
}

/// An uptime in days with one decimal place, or the marker.
pub open spec fn uptime_days_cell(field: Option<u64>) -> Seq<char> {
    match field {
        Some(s) => uptime_days_text(s),
        None => not_available(),
    }
}

/// An uptime as whole days and hours, or the marker.
pub open spec fn uptime_days_hours_cell(field: Option<u64>) -> Seq<char> {
    match field {
        Some(s) => uptime_days_hours_text(s),
        None => not_available(),
    }
}

/// The marker is the three characters `N/A`: it is neither the empty text
/// nor the numeral zero.
pub proof fn lemma_not_available_is_literal()
    ensures
        not_available() == seq!['N', '/', 'A'],
        not_available() != Seq::<char>::empty(),
        not_available() != decimal(0),
{
    reveal_strlit("N/A");
    assert(decimal(0).len() == 1);
}

/// Every cell of an absent field is the marker.
pub proof fn lemma_absent_cells_are_not_available()
    ensures
        text_cell(None) == not_available(),
        count_cell(None) == not_available(),
        gib_cell(None) == not_available(),
        percent_cell(None) == not_available(),
        percent_detail_cell(None) == not_available(),
        uptime_days_cell(None) == not_available(),
        uptime_days_hours_cell(None) == not_available(),
        forall|side: Option<u64>| #[trigger] used_total_cell(None, side) == not_available(),
        forall|side: Option<u64>| #[trigger] used_total_cell(side, None) == not_available(),
{
}

pub fn render_text_cell(field: &Option<String>) -> (r: String)
    ensures
        r@ == text_cell(crate::models::opt_text(*field)),
{
    text_or(field, "N/A")
}

pub fn render_count_cell(field: Option<u32>) -> (r: String)
    ensures
        r@ == count_cell(field),
{
    match field {
        Some(n) => decimal_text(n as u64),
        None => String::from_str("N/A"),
    }
}

pub fn render_used_total_cell(used: Option<u64>, total: Option<u64>) -> (r: String)
    ensures
        r@ == used_total_cell(used, total),
{
    match (used, total) {
        (Some(u), Some(t)) => used_total(u, t),
        _ => String::from_str("N/A"),
    }
}

pub fn render_gib_cell(field: Option<u64>) -> (r: String)
    ensures
        r@ == gib_cell(field),
{
    match field {
        Some(b) => gib_one_decimal(b),
        None => String::from_str("N/A"),
    }
}

pub fn render_percent_cell(field: Option<u64>) -> (r: String)
    ensures
        r@ == percent_cell(field),
{
    match field {
        Some(m) => percent_one_decimal(m),
        None => String::from_str("N/A"),
    }
}

pub fn render_percent_detail_cell(field: Option<u64>) -> (r: String)
    ensures
        r@ == percent_detail_cell(field),
{
    match field {
        Some(m) => percent_two_decimals(m),
        None => String::from_str("N/A"),
    }
}

pub fn render_uptime_days_cell(field: Option<u64>) -> (r: String)
    ensures
        r@ == uptime_days_cell(field),
{
    match field {
        Some(s) => uptime_days(s),
        None => String::from_str("N/A"),
    }
}

pub fn render_uptime_days_hours_cell(field: Option<u64>) -> (r: String)
    ensures
        r@ == uptime_days_hours_cell(field),
{
    match field {
        Some(s) => uptime_days_hours(s),
        None => String::from_str("N/A"),
    }
}

} // verus!
