//! The messages of the inventory feeds.

use vstd::prelude::*;

verus! {

/// The message of an inventory update feed.
#[derive(Debug)]
pub struct InventoryUpdateFeedMessage {
    pub inventory: InventoryUpdateFeedInventory,
}

#[derive(Debug)]
pub struct InventoryUpdateFeedInventory {
    pub item: Vec<InventoryUpdateFeedItem>,
}

/// The stock of one part in one warehouse.
#[derive(Debug)]
pub struct InventoryUpdateFeedItem {
    pub seller_part_number: String,
    pub newegg_item_number: Option<String>,
    pub warehouse_location: String,
    pub fulfillment_option: Option<String>,
    /// The quantity in stock, written in decimal.
    pub inventory: String,
}

impl Default for InventoryUpdateFeedItem {
    fn default() -> (item: InventoryUpdateFeedItem)
        ensures
            item.seller_part_number@.len() == 0,
            item.newegg_item_number is None,
            item.warehouse_location@.len() == 0,
            item.fulfillment_option is None,
            item.inventory@.len() == 0,
    {
        InventoryUpdateFeedItem {
            seller_part_number: String::new(),
            newegg_item_number: None,
            warehouse_location: String::new(),
            fulfillment_option: None,
            inventory: String::new(),
        }
    }
}

/// The message of an inventory and price feed.
#[derive(Debug)]
pub struct InventoryAndPriceFeedMessage {
    pub inventory: InventoryAndPriceFeedInventory,
}

#[derive(Debug)]
pub struct InventoryAndPriceFeedInventory {
    pub item: Vec<InventoryAndPriceFeedFeedItem>,
}

/// The stock and the price of one part.
#[derive(Debug)]
pub struct InventoryAndPriceFeedFeedItem {
    pub seller_part_number: String,
    pub selling_price: Option<String>,
    /// The quantity in stock, written in decimal.
    pub inventory: String,
    pub fulfillment_option: Option<String>,
    pub shipping: String,
    pub activation_mark: Option<String>,
    pub currency: Option<String>,
    pub newegg_item_number: Option<String>,
}

impl Default for InventoryAndPriceFeedFeedItem {
    fn default() -> (item: InventoryAndPriceFeedFeedItem)
        ensures
            item.seller_part_number@.len() == 0,
            item.selling_price is None,
            item.inventory@.len() == 0,
            item.fulfillment_option is None,
            item.shipping@.len() == 0,
            item.activation_mark is None,
            item.currency is None,
            item.newegg_item_number is None,
    {
        InventoryAndPriceFeedFeedItem {
            seller_part_number: String::new(),
            selling_price: None,
            inventory: String::new(),
            fulfillment_option: None,
            shipping: String::new(),
            activation_mark: None,
            currency: None,
            newegg_item_number: None,
        }
    }
}

} // verus!
