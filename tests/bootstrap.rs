use outlet_ops::db::Db;
use outlet_ops::schema::{Identity, POStatus, PromotionStatus, ShiftStatus, Timestamp, UserRole};
use outlet_ops::seed::init;
use outlet_ops::time::{days_after, days_before, hours_after, saturating_earlier, saturating_later};

const DAY: i64 = 86_400_000_000;

fn seeded(now: Timestamp) -> Db {
    let mut db = Db::new();
    init(&mut db, now, Identity { high: 1, low: 2 }).unwrap();
    db
}

fn now() -> Timestamp {
    Timestamp { micros: 1_700_000_000_000_000 }
}

#[test]
fn bootstrap_counts() {
    let db = seeded(now());
    assert_eq!(db.outlets.len(), 18);
    assert_eq!(db.suppliers.len(), 5);
    assert_eq!(db.products.len(), 10);
    assert_eq!(db.ingredients.len(), 20);
    assert_eq!(db.employees.len(), 50);
    assert_eq!(db.sales.len(), 30);
    assert_eq!(db.purchase_orders.len(), 15);
    assert_eq!(db.distributions.len(), 10);
    assert_eq!(db.daily_checklists.len(), 18);
    assert_eq!(db.shift_reports.len(), 10);
    assert_eq!(db.candidates.len(), 15);
    assert_eq!(db.promotions.len(), 5);
    assert_eq!(db.assets.len(), 30);
    assert_eq!(db.cash_flow.len(), 50);
    assert_eq!(db.users().len(), 1);
    let admin = &db.users()[0];
    assert_eq!(admin.id, Identity { high: 1, low: 2 });
    assert_eq!(admin.username, "admin_pusat");
    assert_eq!(admin.role, UserRole::AdminPusat);
    assert_eq!(admin.outlet_id, None);
}

#[test]
fn bootstrap_references_resolve() {
    let db = seeded(now());
    let outlet = |id: u64| db.outlets.get(id).is_some();
    assert!(db.products.rows().iter().all(|r| outlet(r.outlet_id)));
    assert!(db.ingredients.rows().iter().all(|r| outlet(r.outlet_id) && r.stock > r.min_stock));
    assert!(db.employees.rows().iter().all(|r| outlet(r.outlet_id)));
    assert!(db.sales.rows().iter().all(|r| outlet(r.outlet_id)));
    assert!(db.sale_items.rows().iter().all(|r| db.sales.get(r.sale_id).is_some() && db.products.get(r.product_id).is_some()));
    assert!(db.purchase_orders.rows().iter().all(|r| outlet(r.outlet_id) && db.suppliers.get(r.supplier_id).is_some()));
    assert!(db
        .purchase_order_items
        .rows()
        .iter()
        .all(|r| db.purchase_orders.get(r.purchase_order_id).is_some() && db.ingredients.get(r.ingredient_id).is_some()));
    assert!(db.distributions.rows().iter().all(|r| outlet(r.from_outlet_id)
        && outlet(r.to_outlet_id)
        && r.from_outlet_id != r.to_outlet_id
        && db.ingredients.get(r.ingredient_id).is_some()));
    assert!(db.daily_checklists.rows().iter().all(|r| outlet(r.outlet_id)));
    assert!(db.shift_reports.rows().iter().all(|r| outlet(r.outlet_id) && db.employees.get(r.employee_id).is_some()));
    assert!(db.assets.rows().iter().all(|r| outlet(r.outlet_id)));
    assert!(db.cash_flow.rows().iter().all(|r| outlet(r.outlet_id)));
}

#[test]
fn bootstrap_sale_totals() {
    let db = seeded(now());
    let first = &db.sales.rows()[0];
    // one line of product 1 (Steak Wagyu) at quantity 1
    assert_eq!(first.total, 18_500_000);
    let second = &db.sales.rows()[1];
    // product 2 once and product 3 twice
    assert_eq!(second.total, 9_500_000 + 2 * 11_500_000);
    for sale in db.sales.rows() {
        let sum: i64 = db
            .sale_items
            .rows()
            .iter()
            .filter(|l| l.sale_id == sale.id)
            .map(|l| l.price * l.quantity as i64)
            .sum();
        assert_eq!(sale.total, sum);
    }
    assert_eq!(db.sale_items.len(), 60);
}

#[test]
fn bootstrap_text_and_values() {
    let db = seeded(now());
    let o = &db.outlets.rows()[0];
    assert_eq!(o.name, "Kampoeng Steak Jakarta Pusat");
    assert_eq!(o.area, "Pusat");
    assert_eq!(o.address, "Jl. Utama No. 1, Pusat");
    assert_eq!(db.outlets.rows()[17].address, "Jl. Utama No. 18, Balikpapan");
    assert_eq!(db.employees.rows()[49].name, "Karyawan 50");
    assert_eq!(db.employees.rows()[0].salary, 600_000_000);
    let c = &db.candidates.rows()[14];
    assert_eq!(c.name, "Pelamar 15");
    assert_eq!(c.phone, "08111111125");
    assert_eq!(c.email, "pelamar15@mail.com");
    assert_eq!(db.promotions.rows()[0].name, "Promo Spesial 1");
    assert_eq!(db.suppliers.rows()[1].rating, 5);
    assert_eq!(db.purchase_orders.rows()[2].status, POStatus::Received);
    assert_eq!(db.purchase_order_items.len(), 30);
    let shifts = db.shift_reports.rows();
    assert_eq!((shifts[0].status, shifts[0].final_cash), (ShiftStatus::Open, 0));
    assert_eq!(shifts[1].final_cash, shifts[1].initial_cash + 50_000_000);
}

#[test]
fn bootstrap_dates_are_offsets() {
    let t = now();
    let db = seeded(t);
    let p = db.promotions.rows();
    assert_eq!(p[0].status, PromotionStatus::Active);
    assert_eq!(p[0].start_date.micros, t.micros - 5 * DAY);
    assert_eq!(p[0].end_date.micros, t.micros + 5 * DAY);
    assert_eq!(p[1].start_date.micros, t.micros + 5 * DAY);
    assert_eq!(db.sales.rows()[1].date.micros, t.micros - 2 * DAY + 3_600_000_000);
    let s = &db.shift_reports.rows()[2];
    assert_eq!(s.shift_end.micros - s.shift_start.micros, 8 * 3_600_000_000);
}

#[test]
fn bootstrap_at_range_edges() {
    let low = seeded(Timestamp { micros: i64::MIN + 1 });
    assert!(low.cash_flow.rows().iter().all(|r| r.date.micros >= i64::MIN));
    assert_eq!(low.promotions.rows()[2].start_date.micros, i64::MIN);
    let high = seeded(Timestamp { micros: i64::MAX - 1 });
    assert_eq!(high.promotions.rows()[1].end_date.micros, i64::MAX);
}

#[test]
fn saturating_offsets() {
    let t = Timestamp { micros: 100 };
    assert_eq!(saturating_later(t, 5).micros, 105);
    assert_eq!(saturating_earlier(t, 5).micros, 95);
    assert_eq!(saturating_later(Timestamp { micros: i64::MAX - 1 }, 5).micros, i64::MAX);
    assert_eq!(saturating_earlier(Timestamp { micros: i64::MIN + 1 }, 5).micros, i64::MIN);
    assert_eq!(days_before(t, 1).micros, 100 - DAY);
    assert_eq!(days_after(t, 2).micros, 100 + 2 * DAY);
    assert_eq!(hours_after(t, 1).micros, 100 + 3_600_000_000);
}
