//! Shopify inventory webhooks: how many vinyl units a campaign has sold.

use vstd::prelude::*;
use vstd::string::*;

use crate::constants::VINYL_TARGET;
use crate::text::{parse_i32, parse_i32_spec};

verus! {

/// The body of an inventory-level webhook.
#[derive(Debug, Clone)]
pub struct WebhookInventoryParams {
    pub webhook: WebhookPayload,
}

/// An inventory level as Shopify reports it.
#[derive(Debug, Clone)]
pub struct WebhookPayload {
    pub inventory_item_id: String,
    pub location_id: Option<i64>,
    pub available: Option<String>,
    pub updated_at: Option<String>,
}

/// The units a Shopify inventory webhook reports as available: its
/// `available` text as an `i32`, or 0 when it is absent or not a number.
pub fn available_units(available: Option<&str>) -> (r: i32)
    ensures
        r == match available {
            Some(s) => match parse_i32_spec(s@) {
                Some(v) => v,
                None => 0,
            },
            None => 0,
        },
{
    match available {
        Some(s) => match parse_i32(s) {
            Some(v) => v,
            None => 0,
        },
        None => 0,
    }
}

/// The vinyl units sold when `available` remain of the campaign's target.
pub fn vinyl_sold(available: i32) -> (r: i32)
    requires
        VINYL_TARGET - available <= i32::MAX,
    ensures
        r == VINYL_TARGET - available,
{
    VINYL_TARGET - available
}

/// The vinyl units a campaign has sold, from an inventory webhook: the
/// target less the units the webhook reports as available.
pub fn units_sold(payload: &WebhookPayload) -> (r: i32)
    requires
        VINYL_TARGET - (match payload.available {
            Some(s) => match parse_i32_spec(s@) {
                Some(v) => v,
                None => 0,
            },
            None => 0,
        }) <= i32::MAX,
    ensures
        r == VINYL_TARGET - (match payload.available {
            Some(s) => match parse_i32_spec(s@) {
                Some(v) => v,
                None => 0,
            },
            None => 0,
        }),
{
    let available = match &payload.available {
        Some(s) => available_units(Some(s.as_str())),
        None => available_units(None),
    };
    vinyl_sold(available)
}

/// The units sold, or `None` when the reported availability is so low that
/// the target less it does not fit an `i32` (where the count would
/// overflow).
pub fn checked_units_sold(payload: &WebhookPayload) -> (r: Option<i32>)
    ensures
        ({
            let a = match payload.available {
                Some(s) => match parse_i32_spec(s@) {
                    Some(v) => v,
                    None => 0,
                },
                None => 0,
            };
            if VINYL_TARGET - a <= i32::MAX {
                r == Some((VINYL_TARGET - a) as i32)
            } else {
                r is None
            }
        }),
{
    let available = match &payload.available {
        Some(s) => available_units(Some(s.as_str())),
        None => available_units(None),
    };
    if available < i32::MIN + 101 {
        None
    } else {
        Some(vinyl_sold(available))
    }
}

} // verus!
