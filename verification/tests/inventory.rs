use kbr_api_rust::inventory::{
    available_units, checked_units_sold, units_sold, vinyl_sold, WebhookInventoryParams,
    WebhookPayload,
};

fn payload(available: Option<&str>) -> WebhookPayload {
    WebhookPayload {
        inventory_item_id: "gid://1".to_string(),
        location_id: Some(3),
        available: available.map(|s| s.to_string()),
        updated_at: None,
    }
}

#[test]
fn inventory_units() {
    assert_eq!(available_units(Some("37")), 37);
    assert_eq!(available_units(Some("abc")), 0);
    assert_eq!(available_units(None), 0);
    assert_eq!(available_units(Some("99999999999")), 0);
    assert_eq!(vinyl_sold(37), 63);
    assert_eq!(vinyl_sold(-5), 105);
}

#[test]
fn units_sold_from_payload() {
    let params = WebhookInventoryParams { webhook: payload(Some("40")) };
    assert_eq!(units_sold(&params.webhook), 60);
    assert_eq!(units_sold(&payload(None)), 100);
    assert_eq!(units_sold(&payload(Some("n/a"))), 100);
    assert_eq!(checked_units_sold(&payload(Some("-2147483648"))), None);
    assert_eq!(checked_units_sold(&payload(Some("-2147483547"))), Some(i32::MAX));
}
