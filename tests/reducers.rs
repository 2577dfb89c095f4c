use outlet_ops::db::Db;
use outlet_ops::reducers::{
    add_asset, add_candidate, add_ingredient, add_product, add_supplier, approve_purchase_order,
    create_daily_checklist, create_employee, create_outlet, create_promotion, create_purchase_order,
    create_user, delete_outlet, mark_distribution_delivered, open_shift, record_sale, reject_purchase_order,
    request_distribution, update_asset_status, update_candidate_status, update_checklist_status,
    update_employee_status, update_inventory, update_outlet, ErrorKind, ReducerError,
};
use outlet_ops::schema::{
    AssetStatus, CandidateStatus, DiscountType, DistributionStatus, EmploymentStatus, Identity,
    IngredientStatus, OutletStatus, POStatus, PaymentMethod, PromotionStatus, PurchaseOrderItemInput,
    SaleItemInput, ShiftStatus, Timestamp, UserRole,
};
use outlet_ops::totals::{compute_sale_total, line_total, saturating_add};

fn now() -> Timestamp {
    Timestamp { micros: 1_700_000_000_000_000 }
}

fn s(x: &str) -> String {
    x.to_string()
}

fn sale_item(product_id: u64, quantity: i32, price: i64) -> SaleItemInput {
    SaleItemInput { product_id, quantity, price }
}

fn db_with_outlet() -> Db {
    let mut db = Db::new();
    create_outlet(&mut db, s("A"), s("Area"), s("Addr")).unwrap();
    db
}

#[test]
fn record_sale_total_and_items() {
    let mut db = db_with_outlet();
    let items = vec![sale_item(1, 2, 1000), sale_item(2, 1, 500)];
    assert!(record_sale(&mut db, 1, items, PaymentMethod::Cash, now()).is_ok());
    let sales = db.sales.rows();
    assert_eq!(sales.len(), 1);
    assert_eq!(sales[0].total, 2500);
    assert_eq!(sales[0].outlet_id, 1);
    assert_eq!(sales[0].payment_method, PaymentMethod::Cash);
    let lines = db.sale_items.rows();
    assert_eq!(lines.len(), 2);
    assert!(lines.iter().all(|l| l.sale_id == sales[0].id));
    assert_eq!((lines[0].product_id, lines[0].quantity, lines[0].price), (1, 2, 1000));
    assert_eq!((lines[1].product_id, lines[1].quantity, lines[1].price), (2, 1, 500));
}

#[test]
fn record_sale_empty_is_validation_error() {
    let mut db = db_with_outlet();
    let r = record_sale(&mut db, 1, vec![], PaymentMethod::Card, now());
    let e = r.unwrap_err();
    assert_eq!(e, ReducerError::EmptySale);
    assert_eq!(e.kind(), ErrorKind::Validation);
    assert_eq!(e.message(), "Sale must have at least one item");
    assert_eq!(db.sales.len(), 0);
    assert_eq!(db.sale_items.len(), 0);
}

#[test]
fn record_sale_saturates() {
    let mut db = Db::new();
    let items = vec![sale_item(1, 2, i64::MAX), sale_item(2, 1, 7)];
    record_sale(&mut db, 1, items, PaymentMethod::EWallet, now()).unwrap();
    assert_eq!(db.sales.rows()[0].total, i64::MAX);
    let items = vec![sale_item(1, 3, i64::MIN), sale_item(2, 1, 10)];
    record_sale(&mut db, 1, items, PaymentMethod::Transfer, now()).unwrap();
    assert_eq!(db.sales.rows()[1].total, i64::MIN + 10);
}

#[test]
fn sale_totals_match_items_across_sales() {
    let mut db = Db::new();
    record_sale(&mut db, 1, vec![sale_item(1, 3, 250)], PaymentMethod::Cash, now()).unwrap();
    record_sale(&mut db, 2, vec![sale_item(2, 2, 100), sale_item(3, 5, -20)], PaymentMethod::Card, now()).unwrap();
    for sale in db.sales.rows() {
        let sum: i64 = db
            .sale_items
            .rows()
            .iter()
            .filter(|l| l.sale_id == sale.id)
            .map(|l| l.price * l.quantity as i64)
            .sum();
        assert_eq!(sale.total, sum);
    }
    assert_eq!(db.sales.rows()[0].total, 750);
    assert_eq!(db.sales.rows()[1].total, 100);
}

#[test]
fn arithmetic_helpers() {
    assert_eq!(line_total(1000, 2), 2000);
    assert_eq!(line_total(i64::MAX, 2), i64::MAX);
    assert_eq!(line_total(i64::MAX, -2), i64::MIN);
    assert_eq!(saturating_add(i64::MAX, 1), i64::MAX);
    assert_eq!(saturating_add(i64::MIN, -1), i64::MIN);
    assert_eq!(saturating_add(40, 2), 42);
    assert_eq!(compute_sale_total(&vec![sale_item(1, 2, 1000), sale_item(2, 1, 500)]), 2500);
}

#[test]
fn purchase_order_items_are_stamped() {
    let mut db = Db::new();
    create_purchase_order(&mut db, 1, 1, 999, now(), vec![]).unwrap();
    let items = vec![
        PurchaseOrderItemInput { ingredient_id: 4, quantity: 5, price: 100 },
        PurchaseOrderItemInput { ingredient_id: 6, quantity: 8, price: 200 },
        PurchaseOrderItemInput { ingredient_id: 7, quantity: 1, price: 300 },
    ];
    create_purchase_order(&mut db, 2, 3, 12345, now(), items).unwrap();
    let po = &db.purchase_orders.rows()[1];
    assert_eq!(po.status, POStatus::Created);
    assert_eq!(po.total, 12345);
    let own: Vec<_> = db.purchase_order_items.rows().iter().filter(|r| r.purchase_order_id == po.id).collect();
    assert_eq!(own.len(), 3);
    assert_eq!(own[1].ingredient_id, 6);
    assert_eq!(db.purchase_order_items.len(), 3);
}

#[test]
fn approve_purchase_order_is_idempotent() {
    let mut db = Db::new();
    create_purchase_order(&mut db, 1, 1, 10, now(), vec![]).unwrap();
    let id = db.purchase_orders.rows()[0].id;
    approve_purchase_order(&mut db, id).unwrap();
    assert_eq!(db.purchase_orders.rows()[0].status, POStatus::Ordered);
    approve_purchase_order(&mut db, id).unwrap();
    assert_eq!(db.purchase_orders.rows()[0].status, POStatus::Ordered);
    reject_purchase_order(&mut db, id).unwrap();
    assert_eq!(db.purchase_orders.rows()[0].status, POStatus::Cancelled);
    let e = approve_purchase_order(&mut db, 77).unwrap_err();
    assert_eq!(e.message(), "Purchase order not found");
    assert_eq!(reject_purchase_order(&mut db, 77), Err(ReducerError::PurchaseOrderNotFound));
}

#[test]
fn distribution_same_outlet_rejected() {
    let mut db = db_with_outlet();
    let e = request_distribution(&mut db, 1, 1, 1, 5, now()).unwrap_err();
    assert_eq!(e, ReducerError::SameOutlets);
    assert_eq!(e.kind(), ErrorKind::Validation);
    assert_eq!(e.message(), "from_outlet_id and to_outlet_id must differ");
    assert_eq!(db.distributions.len(), 0);
    assert_eq!(request_distribution(&mut db, 9, 9, 2, 1, now()), Err(ReducerError::SameOutlets));
    assert_eq!(db.distributions.len(), 0);
}

#[test]
fn distribution_lifecycle() {
    let mut db = Db::new();
    request_distribution(&mut db, 1, 2, 3, 5, now()).unwrap();
    let d = &db.distributions.rows()[0];
    assert_eq!(d.status, DistributionStatus::Pending);
    let id = d.id;
    mark_distribution_delivered(&mut db, id).unwrap();
    assert_eq!(db.distributions.rows()[0].status, DistributionStatus::Delivered);
    assert_eq!(mark_distribution_delivered(&mut db, 42), Err(ReducerError::DistributionNotFound));
}

#[test]
fn create_user_twice_conflicts() {
    let mut db = Db::new();
    let p = Identity { high: 7, low: 9 };
    assert!(create_user(&mut db, p, s("a"), UserRole::Kasir, None).is_ok());
    let e = create_user(&mut db, p, s("b"), UserRole::HR, Some(1)).unwrap_err();
    assert_eq!(e, ReducerError::UserExists);
    assert_eq!(e.kind(), ErrorKind::Conflict);
    assert_eq!(e.message(), "User with this identity already exists");
    assert_eq!(db.users().iter().filter(|u| u.id == p).count(), 1);
    assert_eq!(db.users()[0].username, "a");
    let q = Identity { high: 7, low: 10 };
    assert!(create_user(&mut db, q, s("c"), UserRole::Finance, Some(1)).is_ok());
    assert_eq!(db.users().len(), 2);
}

#[test]
fn update_outlet_missing_leaves_store() {
    let mut db = db_with_outlet();
    let before = db.outlets.clone();
    let e = update_outlet(&mut db, 9999, s("X"), s("Y"), s("Z"), OutletStatus::Closed).unwrap_err();
    assert_eq!(e.message(), "Outlet not found");
    assert_eq!(e.kind(), ErrorKind::NotFound);
    assert_eq!(db.outlets, before);
    update_outlet(&mut db, 1, s("X"), s("Y"), s("Z"), OutletStatus::Renovation).unwrap();
    let o = db.outlets.get(1).unwrap();
    assert_eq!((o.name.as_str(), o.area.as_str(), o.address.as_str()), ("X", "Y", "Z"));
    assert_eq!(o.status, OutletStatus::Renovation);
}

#[test]
fn delete_outlet_keeps_keys_unique() {
    let mut db = db_with_outlet();
    create_outlet(&mut db, s("B"), s("B"), s("B")).unwrap();
    delete_outlet(&mut db, 1).unwrap();
    assert!(db.outlets.get(1).is_none());
    delete_outlet(&mut db, 1).unwrap();
    create_outlet(&mut db, s("C"), s("C"), s("C")).unwrap();
    let ids: Vec<u64> = db.outlets.rows().iter().map(|o| o.id).collect();
    assert_eq!(ids, vec![2, 3]);
}

#[test]
fn not_found_errors_for_every_update() {
    let mut db = Db::new();
    let t = now();
    assert_eq!(update_employee_status(&mut db, 5, EmploymentStatus::Inactive), Err(ReducerError::EmployeeNotFound));
    assert_eq!(update_inventory(&mut db, 5, 3), Err(ReducerError::IngredientNotFound));
    assert_eq!(update_checklist_status(&mut db, 5, true), Err(ReducerError::ChecklistNotFound));
    assert_eq!(update_candidate_status(&mut db, 5, CandidateStatus::Hired), Err(ReducerError::CandidateNotFound));
    assert_eq!(update_asset_status(&mut db, 5, AssetStatus::Broken, t), Err(ReducerError::AssetNotFound));
    assert_eq!(ReducerError::EmployeeNotFound.message(), "Employee not found");
    assert_eq!(ReducerError::IngredientNotFound.message(), "Ingredient not found");
    assert_eq!(ReducerError::ChecklistNotFound.message(), "Checklist not found");
    assert_eq!(ReducerError::CandidateNotFound.message(), "Candidate not found");
    assert_eq!(ReducerError::AssetNotFound.message(), "Asset not found");
    assert_eq!(ReducerError::DistributionNotFound.message(), "Distribution not found");
    assert_eq!(db.employees.len() + db.ingredients.len() + db.assets.len(), 0);
}

#[test]
fn inserts_and_field_updates() {
    let mut db = Db::new();
    let t = now();
    create_employee(&mut db, s("E"), s("Koki"), 1, 400, EmploymentStatus::Active).unwrap();
    update_employee_status(&mut db, 1, EmploymentStatus::Inactive).unwrap();
    let e = db.employees.get(1).unwrap();
    assert_eq!((e.name.as_str(), e.salary, e.status), ("E", 400, EmploymentStatus::Inactive));

    add_product(&mut db, s("P"), s("Makanan"), 1500, 1).unwrap();
    assert_eq!(db.products.get(1).unwrap().price, 1500);

    add_ingredient(&mut db, s("I"), s("kg"), 5, 10, 1, IngredientStatus::Active).unwrap();
    update_inventory(&mut db, 1, 2).unwrap();
    let i = db.ingredients.get(1).unwrap();
    assert_eq!((i.min_stock, i.stock), (5, 2));

    add_supplier(&mut db, s("S"), s("021"), 4).unwrap();
    assert_eq!(db.suppliers.get(1).unwrap().rating, 4);

    create_daily_checklist(&mut db, 1, s("Buka"), t).unwrap();
    assert!(!db.daily_checklists.get(1).unwrap().is_completed);
    update_checklist_status(&mut db, 1, true).unwrap();
    assert!(db.daily_checklists.get(1).unwrap().is_completed);

    open_shift(&mut db, 1, 1, t, 5000).unwrap();
    let sh = db.shift_reports.get(1).unwrap();
    assert_eq!((sh.shift_end, sh.final_cash, sh.status), (t, 0, ShiftStatus::Open));

    add_candidate(&mut db, s("C"), s("Kasir"), s("08"), s("c@x")).unwrap();
    assert_eq!(db.candidates.get(1).unwrap().status, CandidateStatus::Applied);
    update_candidate_status(&mut db, 1, CandidateStatus::Rejected).unwrap();
    assert_eq!(db.candidates.get(1).unwrap().status, CandidateStatus::Rejected);

    let later = Timestamp { micros: t.micros + 1 };
    create_promotion(&mut db, s("Pr"), DiscountType::Percentage, 1000, later, t, PromotionStatus::Draft).unwrap();
    assert_eq!(db.promotions.get(1).unwrap().status, PromotionStatus::Draft);

    add_asset(&mut db, 1, s("AC"), s("HVAC"), t).unwrap();
    assert_eq!(db.assets.get(1).unwrap().status, AssetStatus::InUse);
    update_asset_status(&mut db, 1, AssetStatus::Maintenance, later).unwrap();
    let a = db.assets.get(1).unwrap();
    assert_eq!((a.status, a.last_maintenance), (AssetStatus::Maintenance, later));
}
