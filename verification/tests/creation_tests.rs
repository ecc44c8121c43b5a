use chrono::NaiveDate;
use order_service::creation::{
    insert_new_order, insert_new_order_items, insert_new_user, order_header, order_item_row,
    user_record,
};
use order_service::model::{NewOrderItem, Order, OrderItem, User};

#[test]
fn order_item_row_puts_the_line_under_the_order() {
    let moment = NaiveDate::from_ymd_opt(2023, 5, 4).unwrap().and_hms_opt(1, 2, 3).unwrap();
    let item = NewOrderItem { description: "Widget".to_string(), qty: 3, price: 250 };
    assert_eq!(
        order_item_row(11, 22, &item, moment),
        OrderItem {
            item_id: 11,
            order_id: 22,
            description: "Widget".to_string(),
            qty: 3,
            price: 250,
            created_at: moment,
        }
    );
}

#[test]
fn insert_new_order_items_builds_the_submitted_lines_in_order() {
    let items = vec![
        NewOrderItem { description: "A".to_string(), qty: 2, price: 500 },
        NewOrderItem { description: "B".to_string(), qty: 1, price: 300 },
        NewOrderItem { description: "A".to_string(), qty: 2, price: 500 },
    ];
    let rows = insert_new_order_items(77, &items);
    assert_eq!(rows.len(), 3);
    for (row, item) in rows.iter().zip(items.iter()) {
        assert_eq!(row.order_id, 77);
        assert_eq!(row.description, item.description);
        assert_eq!(row.qty, item.qty);
        assert_eq!(row.price, item.price);
    }
    assert_ne!(rows[0].item_id, rows[1].item_id);
    assert_ne!(rows[0].item_id, rows[2].item_id);
    assert_ne!(rows[1].item_id, rows[2].item_id);
}

#[test]
fn insert_new_order_items_of_no_lines_builds_none() {
    assert_eq!(insert_new_order_items(77, &Vec::new()), Vec::new());
}

#[test]
fn insert_new_order_carries_what_it_is_given() {
    let before = chrono::Utc::now().naive_utc();
    let order = insert_new_order(5, 6, Some("note".to_string()));
    let after = chrono::Utc::now().naive_utc();
    assert_eq!(order.order_id, 5);
    assert_eq!(order.user_id, 6);
    assert_eq!(order.note, Some("note".to_string()));
    assert!(before <= order.created_at && order.created_at <= after);
    assert_eq!(insert_new_order(5, 6, None).note, None);
}

#[test]
fn insert_new_user_carries_what_it_is_given() {
    let user = insert_new_user("Ann", "Doe", "ann@example.com", "secret");
    assert_eq!(user.first_name, "Ann");
    assert_eq!(user.last_name, "Doe");
    assert_eq!(user.email, "ann@example.com");
    assert_eq!(user.password, "secret");
    let other = insert_new_user("Ann", "Doe", "ann@example.com", "secret");
    assert_ne!(user.user_id, other.user_id);
}

#[test]
fn order_header_holds_what_it_is_given() {
    let moment = NaiveDate::from_ymd_opt(2023, 5, 4).unwrap().and_hms_opt(1, 2, 3).unwrap();
    assert_eq!(
        order_header(5, 6, Some("note".to_string()), moment),
        Order { order_id: 5, user_id: 6, note: Some("note".to_string()), created_at: moment }
    );
    assert_eq!(
        order_header(5, 6, None, moment),
        Order { order_id: 5, user_id: 6, note: None, created_at: moment }
    );
}

#[test]
fn user_record_holds_what_it_is_given() {
    let moment = NaiveDate::from_ymd_opt(2023, 5, 4).unwrap().and_hms_opt(1, 2, 3).unwrap();
    assert_eq!(
        user_record(9, "Ann", "Doe", "ann@example.com", "secret", moment),
        User {
            user_id: 9,
            first_name: "Ann".to_string(),
            last_name: "Doe".to_string(),
            email: "ann@example.com".to_string(),
            password: "secret".to_string(),
            created_at: moment,
        }
    );
}
