//! The rows of the report files that the marketplace writes as CSV.

use vstd::prelude::*;
use crate::text::str_eq;

verus! {

/// A row of the inventory report of the USA marketplace.
#[derive(Debug)]
pub struct InventoryReportRow {
    pub seller_part_number: String,
    pub ne_item_number: String,
    pub warehouse_location: String,
    pub fulfillment_option: String,
    pub inventory: i32,
}

impl Default for InventoryReportRow {
    fn default() -> (row: InventoryReportRow)
        ensures
            row.seller_part_number@.len() == 0,
            row.ne_item_number@.len() == 0,
            row.warehouse_location@.len() == 0,
            row.fulfillment_option@.len() == 0,
            row.inventory == 0,
    {
        InventoryReportRow {
            seller_part_number: String::new(),
            ne_item_number: String::new(),
            warehouse_location: String::new(),
            fulfillment_option: String::new(),
            inventory: 0,
        }
    }
}

/// The boolean that a cell of a report stands for: `True` and `False` with
/// a capital letter, and nothing else.
pub open spec fn flag_named(text: Seq<char>) -> Option<bool> {
    if text == "True"@ {
        Some(true)
    } else if text == "False"@ {
        Some(false)
    } else {
        None
    }
}

/// Reads a boolean cell of a report. Any text but `True` and `False` is no
/// boolean.
pub fn bool_from_string(text: &str) -> (flag: Option<bool>)
    ensures
        flag == flag_named(text@),
{
    if str_eq(text, "True") {
        Some(true)
    } else if str_eq(text, "False") {
        Some(false)
    } else {
        None
    }
}

} // verus!
