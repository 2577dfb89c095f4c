use crate::db::Db;
use crate::schema::{
    Asset, AssetStatus, Candidate, CandidateStatus, CashFlow, CashFlowType, DailyChecklist, DiscountType,
    Distribution, DistributionStatus, Employee, EmploymentStatus, Identity, Ingredient, IngredientStatus, Outlet,
    OutletStatus, POStatus, PaymentMethod, Product, Promotion, PromotionStatus, PurchaseOrder,
    PurchaseOrderItemInput, SaleItemInput, ShiftReport, ShiftStatus, Supplier, Timestamp, UserRole,
};
use crate::time::{days_after, days_before, hours_after};
use crate::totals::{sale_lines, saturating_add};
use crate::orders::order_lines;
use crate::reducers::{create_user, insert_order_items, record_sale, ReducerError};
use crate::table::{keys, Keyed, Table};
use crate::text::{numbered, numbered_between};
use vstd::prelude::*;

verus! {

/// Inserts the eighteen outlets, all open.
fn seed_outlets(db: &mut Db)
    requires
        old(db).wf(),
        old(db).outlets@.has_room(18),
    ensures
        final(db).wf(),
        final(db).outlets@.rows.len() == old(db).outlets@.rows.len() + 18,
        final(db).outlets@.next_id == old(db).outlets@.next_id + 18,
        *final(db) == (Db { outlets: final(db).outlets, ..*old(db) }),
{
    let areas: [&str; 18] = [
        "Pusat",
        "Barat",
        "Tangerang",
        "Bekasi",
        "Bogor",
        "Depok",
        "Bandung",
        "Surabaya",
        "Semarang",
        "Yogyakarta",
        "Medan",
        "Palembang",
        "Makassar",
        "Bali",
        "Malang",
        "Solo",
        "Pekanbaru",
        "Balikpapan",
    ];
    let mut i: usize = 0;
    while i < 18
        invariant
            i <= 18,
            db.wf(),
            db.outlets@.rows.len() == old(db).outlets@.rows.len() + i,
            db.outlets@.next_id == old(db).outlets@.next_id + i,
            old(db).outlets@.has_room(18),
            *db == (Db { outlets: db.outlets, ..*old(db) }),
        decreases 18 - i,
    {
        let area = areas[i];
        let name = if i < 2 {
            String::from_str("Kampoeng Steak Jakarta ").concat(area)
        } else {
            String::from_str("Kampoeng Steak ").concat(area)
        };
        let address = numbered_between("Jl. Utama No. ", i as u64 + 1, ", ").concat(area);
        let id = db.outlets.next_id();
        db.outlets.insert(
            Outlet { id, name, area: String::from_str(area), address, status: OutletStatus::Open },
        );
        i = i + 1;
    }
}

/// Inserts the five suppliers, rated four or five.
fn seed_suppliers(db: &mut Db)
    requires
        old(db).wf(),
        old(db).suppliers@.has_room(5),
    ensures
        final(db).wf(),
        final(db).suppliers@.rows.len() == old(db).suppliers@.rows.len() + 5,
        final(db).suppliers@.next_id == old(db).suppliers@.next_id + 5,
        *final(db) == (Db { suppliers: final(db).suppliers, ..*old(db) }),
{
    let names: [&str; 5] = [
        "PT Daging Prima",
        "PT Sayur Fresh",
        "PT Bumbu Nusantara",
        "PT Minuman Sejuk",
        "PT Kemasan Jaya",
    ];
    let contacts: [&str; 5] = ["021-5551234", "021-5555678", "021-7771111", "021-8882222", "021-9993333"];
    let mut i: usize = 0;
    while i < 5
        invariant
            i <= 5,
            db.wf(),
            db.suppliers@.rows.len() == old(db).suppliers@.rows.len() + i,
            db.suppliers@.next_id == old(db).suppliers@.next_id + i,
            old(db).suppliers@.has_room(5),
            *db == (Db { suppliers: db.suppliers, ..*old(db) }),
        decreases 5 - i,
    {
        let id = db.suppliers.next_id();
        db.suppliers.insert(
            Supplier {
                id,
                name: String::from_str(names[i]),
                contact: String::from_str(contacts[i]),
                rating: 4 + (i % 2) as i32,
            },
        );
        i = i + 1;
    }
}

/// Inserts the twenty ingredients round-robin over `outlet_ids`, each stocked above its minimum.
fn seed_ingredients(db: &mut Db, outlet_ids: &Vec<u64>)
    requires
        old(db).wf(),
        old(db).ingredients@.rows.len() == 0,
        old(db).ingredients@.has_room(20),
        outlet_ids@.len() > 0,
        forall|k: int| 0 <= k < outlet_ids@.len() ==> old(db).outlets@.contains_key(#[trigger] outlet_ids@[k]),
    ensures
        final(db).wf(),
        final(db).ingredients@.rows.len() == 20,
        final(db).ingredients@.next_id == old(db).ingredients@.next_id + 20,
        forall|k: int| 0 <= k < final(db).ingredients@.rows.len() ==> final(db).outlets@.contains_key(#[trigger] final(db).ingredients@.rows[k].outlet_id),
        forall|k: int| 0 <= k < final(db).ingredients@.rows.len() ==> #[trigger] final(db).ingredients@.rows[k].min_stock < final(db).ingredients@.rows[k].stock,
        *final(db) == (Db { ingredients: final(db).ingredients, ..*old(db) }),
{
    let names: [&str; 20] = [
        "Daging Sapi",
        "Daging Ayam",
        "Ikan",
        "Kentang",
        "Bawang",
        "Tomat",
        "Keju",
        "Susu",
        "Telur",
        "Tepung",
        "Minyak",
        "Garam",
        "Merica",
        "Saus",
        "Pasta",
        "Kopi",
        "Teh",
        "Jus Jeruk",
        "Es Batu",
        "Gula",
    ];
    let units: [&str; 20] = [
        "kg", "kg", "kg", "kg", "kg", "kg", "kg", "L", "pcs", "kg",
        "L", "kg", "kg", "L", "kg", "kg", "kg", "L", "kg", "kg",
    ];
    let mut i: usize = 0;
    while i < 20
        invariant
            i <= 20,
            db.wf(),
            db.ingredients@.rows.len() == i,
            db.ingredients@.next_id == old(db).ingredients@.next_id + i,
            old(db).ingredients@.has_room(20),
            outlet_ids@.len() > 0,
            forall|k: int| 0 <= k < outlet_ids@.len() ==> old(db).outlets@.contains_key(#[trigger] outlet_ids@[k]),
            forall|k: int| 0 <= k < db.ingredients@.rows.len() ==> db.outlets@.contains_key(#[trigger] db.ingredients@.rows[k].outlet_id),
            forall|k: int| 0 <= k < db.ingredients@.rows.len() ==> #[trigger] db.ingredients@.rows[k].min_stock < db.ingredients@.rows[k].stock,
            *db == (Db { ingredients: db.ingredients, ..*old(db) }),
        decreases 20 - i,
    {
        let outlet_id = outlet_ids[i % outlet_ids.len()];
        let min_stock: i64 = 10 + (i % 10) as i64 * 5;
        let stock: i64 = min_stock + 20 + (i % 5) as i64 * 10;
        let id = db.ingredients.next_id();
        db.ingredients.insert(
            Ingredient {
                id,
                name: String::from_str(names[i]),
                unit: String::from_str(units[i]),
                min_stock,
                stock,
                outlet_id,
                status: IngredientStatus::Active,
            },
        );
        i = i + 1;
    }
}

/// Inserts fifty active employees round-robin over `outlet_ids` and the four positions.
fn seed_employees(db: &mut Db, outlet_ids: &Vec<u64>)
    requires
        old(db).wf(),
        old(db).employees@.rows.len() == 0,
        old(db).employees@.has_room(50),
        outlet_ids@.len() > 0,
        forall|k: int| 0 <= k < outlet_ids@.len() ==> old(db).outlets@.contains_key(#[trigger] outlet_ids@[k]),
    ensures
        final(db).wf(),
        final(db).employees@.rows.len() == 50,
        final(db).employees@.next_id == old(db).employees@.next_id + 50,
        forall|k: int| 0 <= k < final(db).employees@.rows.len() ==> final(db).outlets@.contains_key(#[trigger] final(db).employees@.rows[k].outlet_id),
        *final(db) == (Db { employees: final(db).employees, ..*old(db) }),
{
    let positions: [&str; 4] = ["Manager", "Koki", "Kasir", "Waiter"];
    let mut i: usize = 0;
    while i < 50
        invariant
            i <= 50,
            db.wf(),
            db.employees@.rows.len() == i,
            db.employees@.next_id == old(db).employees@.next_id + i,
            old(db).employees@.has_room(50),
            outlet_ids@.len() > 0,
            forall|k: int| 0 <= k < outlet_ids@.len() ==> old(db).outlets@.contains_key(#[trigger] outlet_ids@[k]),
            forall|k: int| 0 <= k < db.employees@.rows.len() ==> db.outlets@.contains_key(#[trigger] db.employees@.rows[k].outlet_id),
            *db == (Db { employees: db.employees, ..*old(db) }),
        decreases 50 - i,
    {
        let outlet_id = outlet_ids[i % outlet_ids.len()];
        let salary: i64 = match i % 4 {
            0 => 600_000_000,
            1 => 400_000_000,
            2 => 350_000_000,
            _ => 300_000_000,
        };
        let id = db.employees.next_id();
        db.employees.insert(
            Employee {
                id,
                name: numbered("Karyawan ", i as u64 + 1),
                position: String::from_str(positions[i % 4]),
                outlet_id,
                salary,
                status: EmploymentStatus::Active,
            },
        );
        i = i + 1;
    }
}

/// Inserts the ten products, spread round-robin over `outlet_ids`.
fn seed_products(db: &mut Db, outlet_ids: &Vec<u64>)
    requires
        old(db).wf(),
        old(db).products@.rows.len() == 0,
        old(db).products@.has_room(10),
        outlet_ids@.len() > 0,
        forall|k: int| 0 <= k < outlet_ids@.len() ==> old(db).outlets@.contains_key(#[trigger] outlet_ids@[k]),
    ensures
        final(db).wf(),
        final(db).products@.rows.len() == 10,
        final(db).products@.next_id == old(db).products@.next_id + 10,
        forall|k: int| 0 <= k < final(db).products@.rows.len() ==> final(db).outlets@.contains_key(#[trigger] final(db).products@.rows[k].outlet_id),
        *final(db) == (Db { products: final(db).products, ..*old(db) }),
{
    let names: [&str; 10] = [
        "Steak Wagyu",
        "Steak Sirloin",
        "Steak Tenderloin",
        "Chicken Steak",
        "Fish & Chips",
        "Pasta Carbonara",
        "French Fries",
        "Orange Juice",
        "Iced Tea",
        "Coffee",
    ];
    let prices: [i64; 10] = [
        18_500_000,
        9_500_000,
        11_500_000,
        5_500_000,
        4_800_000,
        4_500_000,
        2_000_000,
        1_800_000,
        1_000_000,
        2_200_000,
    ];
    let mut i: usize = 0;
    while i < 10
        invariant
            i <= 10,
            db.wf(),
            db.products@.rows.len() == i,
            db.products@.next_id == old(db).products@.next_id + i,
            old(db).products@.has_room(10),
            outlet_ids@.len() > 0,
            forall|k: int| 0 <= k < outlet_ids@.len() ==> old(db).outlets@.contains_key(#[trigger] outlet_ids@[k]),
            forall|k: int| 0 <= k < db.products@.rows.len() ==> db.outlets@.contains_key(#[trigger] db.products@.rows[k].outlet_id),
            *db == (Db { products: db.products, ..*old(db) }),
        decreases 10 - i,
    {
        let category = if i < 7 {
            "Makanan"
        } else {
            "Minuman"
        };
        let outlet_id = outlet_ids[i % outlet_ids.len()];
        let id = db.products.next_id();
        db.products.insert(
            Product {
                id,
                name: String::from_str(names[i]),
                category: String::from_str(category),
                price: prices[i],
                outlet_id,
            },
        );
        i = i + 1;
    }
}

/// Inserts ten distributions, each from an outlet to the next one in `outlet_ids`.
fn seed_distributions(db: &mut Db, now: Timestamp, outlet_ids: &Vec<u64>, ingredient_ids: &Vec<u64>)
    requires
        old(db).wf(),
        old(db).distributions@.rows.len() == 0,
        old(db).distributions@.has_room(10),
        outlet_ids@.len() > 0,
        forall|k: int| 0 <= k < outlet_ids@.len() ==> old(db).outlets@.contains_key(#[trigger] outlet_ids@[k]),
        ingredient_ids@.len() > 0,
        forall|k: int| 0 <= k < ingredient_ids@.len() ==> old(db).ingredients@.contains_key(#[trigger] ingredient_ids@[k]),
        outlet_ids@.len() > 10,
        forall|a: int, b: int| 0 <= a < b < outlet_ids@.len() ==> #[trigger] outlet_ids@[a] < #[trigger] outlet_ids@[b],
    ensures
        final(db).wf(),
        final(db).distributions@.rows.len() == 10,
        final(db).distributions@.next_id == old(db).distributions@.next_id + 10,
        forall|k: int| 0 <= k < final(db).distributions@.rows.len() ==> final(db).outlets@.contains_key(#[trigger] final(db).distributions@.rows[k].from_outlet_id),
        forall|k: int| 0 <= k < final(db).distributions@.rows.len() ==> final(db).outlets@.contains_key(#[trigger] final(db).distributions@.rows[k].to_outlet_id),
        forall|k: int| 0 <= k < final(db).distributions@.rows.len() ==> final(db).ingredients@.contains_key(#[trigger] final(db).distributions@.rows[k].ingredient_id),
        forall|k: int| 0 <= k < final(db).distributions@.rows.len() ==> #[trigger] final(db).distributions@.rows[k].from_outlet_id != final(db).distributions@.rows[k].to_outlet_id,
        *final(db) == (Db { distributions: final(db).distributions, ..*old(db) }),
{
    let mut i: usize = 0;
    while i < 10
        invariant
            i <= 10,
            db.wf(),
            db.distributions@.rows.len() == i,
            db.distributions@.next_id == old(db).distributions@.next_id + i,
            old(db).distributions@.has_room(10),
            outlet_ids@.len() > 0,
            forall|k: int| 0 <= k < outlet_ids@.len() ==> old(db).outlets@.contains_key(#[trigger] outlet_ids@[k]),
            ingredient_ids@.len() > 0,
            forall|k: int| 0 <= k < ingredient_ids@.len() ==> old(db).ingredients@.contains_key(#[trigger] ingredient_ids@[k]),
            outlet_ids@.len() > 10,
            forall|a: int, b: int| 0 <= a < b < outlet_ids@.len() ==> #[trigger] outlet_ids@[a] < #[trigger] outlet_ids@[b],
            forall|k: int| 0 <= k < db.distributions@.rows.len() ==> db.outlets@.contains_key(#[trigger] db.distributions@.rows[k].from_outlet_id),
            forall|k: int| 0 <= k < db.distributions@.rows.len() ==> db.outlets@.contains_key(#[trigger] db.distributions@.rows[k].to_outlet_id),
            forall|k: int| 0 <= k < db.distributions@.rows.len() ==> db.ingredients@.contains_key(#[trigger] db.distributions@.rows[k].ingredient_id),
            forall|k: int| 0 <= k < db.distributions@.rows.len() ==> #[trigger] db.distributions@.rows[k].from_outlet_id != db.distributions@.rows[k].to_outlet_id,
            *db == (Db { distributions: db.distributions, ..*old(db) }),
        decreases 10 - i,
    {
        let n = outlet_ids.len();
        let from_outlet_id = outlet_ids[i % n];
        let to_outlet_id = outlet_ids[(i + 1) % n];
        assert((i as int) % (n as int) == i as int && (i as int + 1) % (n as int) == i as int + 1) by (nonlinear_arith)
            requires
                i < 10,
                n > 10,
        ;
        let ingredient_id = ingredient_ids[i % ingredient_ids.len()];
        let status = match i % 3 {
            0 => DistributionStatus::Pending,
            1 => DistributionStatus::InTransit,
            _ => DistributionStatus::Delivered,
        };
        let id = db.distributions.next_id();
        db.distributions.insert(
            Distribution {
                id,
                from_outlet_id,
                to_outlet_id,
                ingredient_id,
                quantity: 5 + (i % 10) as i64,
                status,
                date: days_before(now, 20 - (i % 15) as i64),
            },
        );
        i = i + 1;
    }
}

/// Inserts one daily checklist per outlet of `outlet_ids`.
fn seed_checklists(db: &mut Db, now: Timestamp, outlet_ids: &Vec<u64>)
    requires
        old(db).wf(),
        old(db).daily_checklists@.rows.len() == 0,
        old(db).daily_checklists@.has_room(18),
        outlet_ids@.len() > 0,
        forall|k: int| 0 <= k < outlet_ids@.len() ==> old(db).outlets@.contains_key(#[trigger] outlet_ids@[k]),
        outlet_ids@.len() == 18,
    ensures
        final(db).wf(),
        final(db).daily_checklists@.rows.len() == 18,
        final(db).daily_checklists@.next_id == old(db).daily_checklists@.next_id + 18,
        forall|k: int| 0 <= k < final(db).daily_checklists@.rows.len() ==> final(db).outlets@.contains_key(#[trigger] final(db).daily_checklists@.rows[k].outlet_id),
        *final(db) == (Db { daily_checklists: final(db).daily_checklists, ..*old(db) }),
{
    let mut i: usize = 0;
    while i < 18
        invariant
            i <= 18,
            db.wf(),
            db.daily_checklists@.rows.len() == i,
            db.daily_checklists@.next_id == old(db).daily_checklists@.next_id + i,
            old(db).daily_checklists@.has_room(18),
            outlet_ids@.len() > 0,
            forall|k: int| 0 <= k < outlet_ids@.len() ==> old(db).outlets@.contains_key(#[trigger] outlet_ids@[k]),
            outlet_ids@.len() == 18,
            forall|k: int| 0 <= k < db.daily_checklists@.rows.len() ==> db.outlets@.contains_key(#[trigger] db.daily_checklists@.rows[k].outlet_id),
            *db == (Db { daily_checklists: db.daily_checklists, ..*old(db) }),
        decreases 18 - i,
    {
        let id = db.daily_checklists.next_id();
        db.daily_checklists.insert(
            DailyChecklist {
                id,
                outlet_id: outlet_ids[i],
                checklist_name: String::from_str("Buka toko, cek kebersihan, stok bahan, mesin kasir"),
                is_completed: i % 2 == 0,
                date: days_before(now, (i % 10) as i64),
            },
        );
        i = i + 1;
    }
}

/// Inserts ten eight-hour shifts; every third one is still open.
fn seed_shift_reports(db: &mut Db, now: Timestamp, outlet_ids: &Vec<u64>, employee_ids: &Vec<u64>)
    requires
        old(db).wf(),
        old(db).shift_reports@.rows.len() == 0,
        old(db).shift_reports@.has_room(10),
        outlet_ids@.len() > 0,
        forall|k: int| 0 <= k < outlet_ids@.len() ==> old(db).outlets@.contains_key(#[trigger] outlet_ids@[k]),
        employee_ids@.len() > 0,
        forall|k: int| 0 <= k < employee_ids@.len() ==> old(db).employees@.contains_key(#[trigger] employee_ids@[k]),
    ensures
        final(db).wf(),
        final(db).shift_reports@.rows.len() == 10,
        final(db).shift_reports@.next_id == old(db).shift_reports@.next_id + 10,
        forall|k: int| 0 <= k < final(db).shift_reports@.rows.len() ==> final(db).outlets@.contains_key(#[trigger] final(db).shift_reports@.rows[k].outlet_id),
        forall|k: int| 0 <= k < final(db).shift_reports@.rows.len() ==> final(db).employees@.contains_key(#[trigger] final(db).shift_reports@.rows[k].employee_id),
        *final(db) == (Db { shift_reports: final(db).shift_reports, ..*old(db) }),
{
    let mut i: usize = 0;
    while i < 10
        invariant
            i <= 10,
            db.wf(),
            db.shift_reports@.rows.len() == i,
            db.shift_reports@.next_id == old(db).shift_reports@.next_id + i,
            old(db).shift_reports@.has_room(10),
            outlet_ids@.len() > 0,
            forall|k: int| 0 <= k < outlet_ids@.len() ==> old(db).outlets@.contains_key(#[trigger] outlet_ids@[k]),
            employee_ids@.len() > 0,
            forall|k: int| 0 <= k < employee_ids@.len() ==> old(db).employees@.contains_key(#[trigger] employee_ids@[k]),
            forall|k: int| 0 <= k < db.shift_reports@.rows.len() ==> db.outlets@.contains_key(#[trigger] db.shift_reports@.rows[k].outlet_id),
            forall|k: int| 0 <= k < db.shift_reports@.rows.len() ==> db.employees@.contains_key(#[trigger] db.shift_reports@.rows[k].employee_id),
            *db == (Db { shift_reports: db.shift_reports, ..*old(db) }),
        decreases 10 - i,
    {
        let outlet_id = outlet_ids[i % outlet_ids.len()];
        let employee_id = employee_ids[i % employee_ids.len()];
        let shift_start = days_before(now, (i % 20) as i64);
        let shift_end = hours_after(shift_start, 8);
        let initial_cash: i64 = (1_000_000 + i as i64 * 100_000) * 100;
        let open = i % 3 == 0;
        let id = db.shift_reports.next_id();
        db.shift_reports.insert(
            ShiftReport {
                id,
                outlet_id,
                employee_id,
                shift_start,
                shift_end,
                initial_cash,
                final_cash: if open {
                    0
                } else {
                    saturating_add(initial_cash, 50_000_000)
                },
                status: if open {
                    ShiftStatus::Open
                } else {
                    ShiftStatus::Closed
                },
            },
        );
        i = i + 1;
    }
}

/// Inserts fifteen candidates with numbered names, phones and emails.
fn seed_candidates(db: &mut Db)
    requires
        old(db).wf(),
        old(db).candidates@.rows.len() == 0,
        old(db).candidates@.has_room(15),
    ensures
        final(db).wf(),
        final(db).candidates@.rows.len() == 15,
        final(db).candidates@.next_id == old(db).candidates@.next_id + 15,
        *final(db) == (Db { candidates: final(db).candidates, ..*old(db) }),
{
    let positions: [&str; 4] = ["Manager", "Koki", "Kasir", "Waiter"];
    let mut i: usize = 0;
    while i < 15
        invariant
            i <= 15,
            db.wf(),
            db.candidates@.rows.len() == i,
            db.candidates@.next_id == old(db).candidates@.next_id + i,
            old(db).candidates@.has_room(15),
            *db == (Db { candidates: db.candidates, ..*old(db) }),
        decreases 15 - i,
    {
        let status = match i % 4 {
            0 => CandidateStatus::Applied,
            1 => CandidateStatus::Interview,
            2 => CandidateStatus::Hired,
            _ => CandidateStatus::Rejected,
        };
        let id = db.candidates.next_id();
        db.candidates.insert(
            Candidate {
                id,
                name: numbered("Pelamar ", i as u64 + 1),
                position: String::from_str(positions[i % 4]),
                phone: numbered("08", 111_111_111 + i as u64),
                email: numbered_between("pelamar", i as u64 + 1, "@mail.com"),
                status,
            },
        );
        i = i + 1;
    }
}

/// Inserts five promotions: one active around `now`, one later, three past.
fn seed_promotions(db: &mut Db, now: Timestamp)
    requires
        old(db).wf(),
        old(db).promotions@.rows.len() == 0,
        old(db).promotions@.has_room(5),
    ensures
        final(db).wf(),
        final(db).promotions@.rows.len() == 5,
        final(db).promotions@.next_id == old(db).promotions@.next_id + 5,
        *final(db) == (Db { promotions: final(db).promotions, ..*old(db) }),
{
    let mut i: usize = 0;
    while i < 5
        invariant
            i <= 5,
            db.wf(),
            db.promotions@.rows.len() == i,
            db.promotions@.next_id == old(db).promotions@.next_id + i,
            old(db).promotions@.has_room(5),
            *db == (Db { promotions: db.promotions, ..*old(db) }),
        decreases 5 - i,
    {
        let (start_date, end_date) = if i == 0 {
            (days_before(now, 5), days_after(now, 5))
        } else if i == 1 {
            (days_after(now, 5), days_after(now, 15))
        } else {
            (days_before(now, 20 + i as i64 * 3), days_before(now, 10 + i as i64 * 2))
        };
        let id = db.promotions.next_id();
        db.promotions.insert(
            Promotion {
                id,
                name: numbered("Promo Spesial ", i as u64 + 1),
                discount_type: if i % 2 == 0 {
                    DiscountType::Percentage
                } else {
                    DiscountType::FixedAmount
                },
                discount_value: if i % 2 == 0 {
                    1000
                } else {
                    1_000_000
                },
                start_date,
                end_date,
                status: if i == 0 {
                    PromotionStatus::Active
                } else {
                    PromotionStatus::Ended
                },
            },
        );
        i = i + 1;
    }
}

/// Inserts thirty assets round-robin over outlets, kinds and statuses.
fn seed_assets(db: &mut Db, now: Timestamp, outlet_ids: &Vec<u64>)
    requires
        old(db).wf(),
        old(db).assets@.rows.len() == 0,
        old(db).assets@.has_room(30),
        outlet_ids@.len() > 0,
        forall|k: int| 0 <= k < outlet_ids@.len() ==> old(db).outlets@.contains_key(#[trigger] outlet_ids@[k]),
    ensures
        final(db).wf(),
        final(db).assets@.rows.len() == 30,
        final(db).assets@.next_id == old(db).assets@.next_id + 30,
        forall|k: int| 0 <= k < final(db).assets@.rows.len() ==> final(db).outlets@.contains_key(#[trigger] final(db).assets@.rows[k].outlet_id),
        *final(db) == (Db { assets: final(db).assets, ..*old(db) }),
{
    let names: [&str; 6] = ["Kompor", "Kulkas", "AC", "Meja", "Kursi", "Wastafel"];
    let categories: [&str; 6] = ["Dapur", "Pendingin", "HVAC", "Furnitur", "Furnitur", "Sanitasi"];
    let mut i: usize = 0;
    while i < 30
        invariant
            i <= 30,
            db.wf(),
            db.assets@.rows.len() == i,
            db.assets@.next_id == old(db).assets@.next_id + i,
            old(db).assets@.has_room(30),
            outlet_ids@.len() > 0,
            forall|k: int| 0 <= k < outlet_ids@.len() ==> old(db).outlets@.contains_key(#[trigger] outlet_ids@[k]),
            forall|k: int| 0 <= k < db.assets@.rows.len() ==> db.outlets@.contains_key(#[trigger] db.assets@.rows[k].outlet_id),
            *db == (Db { assets: db.assets, ..*old(db) }),
        decreases 30 - i,
    {
        let outlet_id = outlet_ids[i % outlet_ids.len()];
        let status = match i % 5 {
            1 => AssetStatus::Maintenance,
            2 => AssetStatus::Broken,
            _ => AssetStatus::InUse,
        };
        let id = db.assets.next_id();
        db.assets.insert(
            Asset {
                id,
                outlet_id,
                name: String::from_str(names[i % 6]),
                category: String::from_str(categories[i % 6]),
                status,
                last_maintenance: days_before(now, 15 - (i % 10) as i64),
            },
        );
        i = i + 1;
    }
}

/// Inserts fifty cash movements, alternating inflow and outflow.
fn seed_cash_flow(db: &mut Db, now: Timestamp, outlet_ids: &Vec<u64>)
    requires
        old(db).wf(),
        old(db).cash_flow@.rows.len() == 0,
        old(db).cash_flow@.has_room(50),
        outlet_ids@.len() > 0,
        forall|k: int| 0 <= k < outlet_ids@.len() ==> old(db).outlets@.contains_key(#[trigger] outlet_ids@[k]),
    ensures
        final(db).wf(),
        final(db).cash_flow@.rows.len() == 50,
        final(db).cash_flow@.next_id == old(db).cash_flow@.next_id + 50,
        forall|k: int| 0 <= k < final(db).cash_flow@.rows.len() ==> final(db).outlets@.contains_key(#[trigger] final(db).cash_flow@.rows[k].outlet_id),
        *final(db) == (Db { cash_flow: final(db).cash_flow, ..*old(db) }),
{
    let categories: [&str; 5] = ["Sales", "Purchase", "Salary", "Rent", "Utilities"];
    let mut i: usize = 0;
    while i < 50
        invariant
            i <= 50,
            db.wf(),
            db.cash_flow@.rows.len() == i,
            db.cash_flow@.next_id == old(db).cash_flow@.next_id + i,
            old(db).cash_flow@.has_room(50),
            outlet_ids@.len() > 0,
            forall|k: int| 0 <= k < outlet_ids@.len() ==> old(db).outlets@.contains_key(#[trigger] outlet_ids@[k]),
            forall|k: int| 0 <= k < db.cash_flow@.rows.len() ==> db.outlets@.contains_key(#[trigger] db.cash_flow@.rows[k].outlet_id),
            *db == (Db { cash_flow: db.cash_flow, ..*old(db) }),
        decreases 50 - i,
    {
        let outlet_id = outlet_ids[i % outlet_ids.len()];
        let id = db.cash_flow.next_id();
        db.cash_flow.insert(
            CashFlow {
                id,
                outlet_id,
                ctype: if i % 2 == 0 {
                    CashFlowType::Inflow
                } else {
                    CashFlowType::Outflow
                },
                category: String::from_str(categories[i % 5]),
                amount: (200_000 + (i % 10) as i64 * 50_000) * 100,
                date: days_before(now, (i % 60) as i64),
                description: String::from_str("Catatan kas harian"),
            },
        );
        i = i + 1;
    }
}

} // verus!

verus! {

/// The lines of the `i`-th seeded sale: one to three products from `product_ids`, each at
/// its listed price.
fn seeded_sale_items(products: &Table<Product>, product_ids: &Vec<u64>, i: usize) -> (r: Vec<SaleItemInput>)
    requires
        products@.wf(),
        product_ids@.len() > 0,
        forall|k: int| 0 <= k < product_ids@.len() ==> products@.contains_key(#[trigger] product_ids@[k]),
    ensures
        1 <= r@.len() <= 3,
        forall|k: int| 0 <= k < r@.len() ==> products@.contains_key(#[trigger] r@[k].product_id),
{
    let count: usize = 1 + i % 3;
    let mut items: Vec<SaleItemInput> = Vec::new();
    let mut j: usize = 0;
    while j < count
        invariant
            j <= count <= 3,
            items@.len() == j,
            products@.wf(),
            product_ids@.len() > 0,
            forall|k: int| 0 <= k < product_ids@.len() ==> products@.contains_key(#[trigger] product_ids@[k]),
            forall|k: int| 0 <= k < items@.len() ==> products@.contains_key(#[trigger] items@[k].product_id),
        decreases count - j,
    {
        let product_id = product_ids[(i % 30 + j) % product_ids.len()];
        match products.get(product_id) {
            Some(product) => {
                items.push(SaleItemInput { product_id: product.id, quantity: 1 + j as i32, price: product.price });
            },
            None => {},
        }
        j = j + 1;
    }
    items
}

/// Records thirty sales through `record_sale`, so their totals come from their items.
fn seed_sales(db: &mut Db, now: Timestamp, outlet_ids: &Vec<u64>, product_ids: &Vec<u64>)
    requires
        old(db).wf(),
        old(db).sales@.rows.len() == 0,
        old(db).sale_items@.rows.len() == 0,
        old(db).sales@.has_room(30),
        old(db).sale_items@.has_room(90),
        outlet_ids@.len() > 0,
        forall|k: int| 0 <= k < outlet_ids@.len() ==> old(db).outlets@.contains_key(#[trigger] outlet_ids@[k]),
        product_ids@.len() > 0,
        forall|k: int| 0 <= k < product_ids@.len() ==> old(db).products@.contains_key(#[trigger] product_ids@[k]),
    ensures
        final(db).wf(),
        final(db).sales@.rows.len() == 30,
        final(db).sales@.next_id == old(db).sales@.next_id + 30,
        forall|k: int|
            0 <= k < final(db).sales@.rows.len() ==> final(db).outlets@.contains_key(
                #[trigger] final(db).sales@.rows[k].outlet_id,
            ),
        forall|k: int|
            0 <= k < final(db).sale_items@.rows.len() ==> final(db).sales@.contains_key(
                #[trigger] final(db).sale_items@.rows[k].sale_id,
            ),
        forall|k: int|
            0 <= k < final(db).sale_items@.rows.len() ==> final(db).products@.contains_key(
                final(db).sale_items@.rows[k].product_id,
            ),
        *final(db) == (Db { sales: final(db).sales, sale_items: final(db).sale_items, ..*old(db) }),
{
    let mut i: usize = 0;
    while i < 30
        invariant
            i <= 30,
            db.wf(),
            db.sales@.rows.len() == i,
            db.sales@.next_id == old(db).sales@.next_id + i,
            db.sale_items@.rows.len() <= 3 * i,
            db.sale_items@.next_id == old(db).sale_items@.next_id + db.sale_items@.rows.len(),
            old(db).sales@.has_room(30),
            old(db).sale_items@.has_room(90),
            outlet_ids@.len() > 0,
            forall|k: int| 0 <= k < outlet_ids@.len() ==> old(db).outlets@.contains_key(#[trigger] outlet_ids@[k]),
            product_ids@.len() > 0,
            forall|k: int| 0 <= k < product_ids@.len() ==> old(db).products@.contains_key(#[trigger] product_ids@[k]),
            forall|k: int|
                0 <= k < db.sales@.rows.len() ==> db.outlets@.contains_key(#[trigger] db.sales@.rows[k].outlet_id),
            forall|k: int|
                0 <= k < db.sale_items@.rows.len() ==> db.sales@.contains_key(#[trigger] db.sale_items@.rows[k].sale_id),
            forall|k: int|
                0 <= k < db.sale_items@.rows.len() ==> db.products@.contains_key(db.sale_items@.rows[k].product_id),
            *db == (Db { sales: db.sales, sale_items: db.sale_items, ..*old(db) }),
        decreases 30 - i,
    {
        let outlet_id = outlet_ids[i % outlet_ids.len()];
        let date = hours_after(days_before(now, (i % 30) as i64 + 1), (i % 8) as i64);
        let payment_method = match i % 4 {
            0 => PaymentMethod::Cash,
            1 => PaymentMethod::Card,
            2 => PaymentMethod::EWallet,
            _ => PaymentMethod::Transfer,
        };
        let items = seeded_sale_items(&db.products, product_ids, i);
        let ghost before = *db;
        let ghost lines = sale_lines(items@, before.sales@.next_id, before.sale_items@.next_id);
        let r = record_sale(db, outlet_id, items, payment_method, date);
        proof {
            let n = before.sales@.rows.len() as int;
            assert(db.sales@.rows[n].key() == before.sales@.next_id);
            assert(db.sales@.contains_key(before.sales@.next_id));
            assert forall|k: int| 0 <= k < db.sales@.rows.len() implies db.outlets@.contains_key(
                #[trigger] db.sales@.rows[k].outlet_id,
            ) by {
                if k < n {
                    assert(db.sales@.rows[k] == before.sales@.rows[k]);
                }
            }
            assert forall|k: int| 0 <= k < db.sale_items@.rows.len() implies db.sales@.contains_key(
                #[trigger] db.sale_items@.rows[k].sale_id,
            ) by {
                let m = before.sale_items@.rows.len() as int;
                if k < m {
                    let sid = before.sale_items@.rows[k].sale_id;
                    assert(db.sale_items@.rows[k] == before.sale_items@.rows[k]);
                    let w = choose|w: int| 0 <= w < before.sales@.rows.len() && #[trigger] before.sales@.rows[w].key() == sid;
                    assert(db.sales@.rows[w] == before.sales@.rows[w]);
                } else {
                    assert(db.sale_items@.rows[k] == lines[k - m]);
                }
            }
            assert forall|k: int| 0 <= k < db.sale_items@.rows.len() implies db.products@.contains_key(
                db.sale_items@.rows[k].product_id,
            ) by {
                let m = before.sale_items@.rows.len() as int;
                if k >= m {
                    assert(db.sale_items@.rows[k] == lines[k - m]);
                    assert(lines[k - m].product_id == items@[k - m].product_id);
                }
            }
        }
        i = i + 1;
    }
}

/// Places fifteen purchase orders in all four states, each with one to three items.
fn seed_purchase_orders(
    db: &mut Db,
    now: Timestamp,
    outlet_ids: &Vec<u64>,
    supplier_ids: &Vec<u64>,
    ingredient_ids: &Vec<u64>,
)
    requires
        old(db).wf(),
        old(db).purchase_orders@.rows.len() == 0,
        old(db).purchase_order_items@.rows.len() == 0,
        old(db).purchase_orders@.has_room(15),
        old(db).purchase_order_items@.has_room(45),
        outlet_ids@.len() > 0,
        forall|k: int| 0 <= k < outlet_ids@.len() ==> old(db).outlets@.contains_key(#[trigger] outlet_ids@[k]),
        supplier_ids@.len() > 0,
        forall|k: int| 0 <= k < supplier_ids@.len() ==> old(db).suppliers@.contains_key(#[trigger] supplier_ids@[k]),
        ingredient_ids@.len() > 0,
        forall|k: int|
            0 <= k < ingredient_ids@.len() ==> old(db).ingredients@.contains_key(#[trigger] ingredient_ids@[k]),
    ensures
        final(db).wf(),
        final(db).purchase_orders@.rows.len() == 15,
        forall|k: int|
            0 <= k < final(db).purchase_orders@.rows.len() ==> final(db).outlets@.contains_key(
                #[trigger] final(db).purchase_orders@.rows[k].outlet_id,
            ),
        forall|k: int|
            0 <= k < final(db).purchase_orders@.rows.len() ==> final(db).suppliers@.contains_key(
                final(db).purchase_orders@.rows[k].supplier_id,
            ),
        forall|k: int|
            0 <= k < final(db).purchase_order_items@.rows.len() ==> final(db).purchase_orders@.contains_key(
                #[trigger] final(db).purchase_order_items@.rows[k].purchase_order_id,
            ),
        forall|k: int|
            0 <= k < final(db).purchase_order_items@.rows.len() ==> final(db).ingredients@.contains_key(
                final(db).purchase_order_items@.rows[k].ingredient_id,
            ),
        *final(db) == (Db {
            purchase_orders: final(db).purchase_orders,
            purchase_order_items: final(db).purchase_order_items,
            ..*old(db)
        }),
{
    let mut i: usize = 0;
    while i < 15
        invariant
            i <= 15,
            db.wf(),
            db.purchase_orders@.rows.len() == i,
            db.purchase_orders@.next_id == old(db).purchase_orders@.next_id + i,
            db.purchase_order_items@.rows.len() <= 3 * i,
            db.purchase_order_items@.next_id == old(db).purchase_order_items@.next_id
                + db.purchase_order_items@.rows.len(),
            old(db).purchase_orders@.has_room(15),
            old(db).purchase_order_items@.has_room(45),
            outlet_ids@.len() > 0,
            forall|k: int| 0 <= k < outlet_ids@.len() ==> old(db).outlets@.contains_key(#[trigger] outlet_ids@[k]),
            supplier_ids@.len() > 0,
            forall|k: int|
                0 <= k < supplier_ids@.len() ==> old(db).suppliers@.contains_key(#[trigger] supplier_ids@[k]),
            ingredient_ids@.len() > 0,
            forall|k: int|
                0 <= k < ingredient_ids@.len() ==> old(db).ingredients@.contains_key(#[trigger] ingredient_ids@[k]),
            forall|k: int|
                0 <= k < db.purchase_orders@.rows.len() ==> db.outlets@.contains_key(
                    #[trigger] db.purchase_orders@.rows[k].outlet_id,
                ),
            forall|k: int|
                0 <= k < db.purchase_orders@.rows.len() ==> db.suppliers@.contains_key(
                    db.purchase_orders@.rows[k].supplier_id,
                ),
            forall|k: int|
                0 <= k < db.purchase_order_items@.rows.len() ==> db.purchase_orders@.contains_key(
                    #[trigger] db.purchase_order_items@.rows[k].purchase_order_id,
                ),
            forall|k: int|
                0 <= k < db.purchase_order_items@.rows.len() ==> db.ingredients@.contains_key(
                    db.purchase_order_items@.rows[k].ingredient_id,
                ),
            *db == (Db {
                purchase_orders: db.purchase_orders,
                purchase_order_items: db.purchase_order_items,
                ..*old(db)
            }),
        decreases 15 - i,
    {
        let outlet_id = outlet_ids[i % outlet_ids.len()];
        let supplier_id = supplier_ids[i % supplier_ids.len()];
        let status = match i % 4 {
            0 => POStatus::Created,
            1 => POStatus::Ordered,
            2 => POStatus::Received,
            _ => POStatus::Cancelled,
        };
        let total: i64 = (500_000 + (i % 10) as i64 * 75_000) * 100;
        let date = days_before(now, 40 - (i % 30) as i64);
        let ghost before = *db;
        let po_id = db.purchase_orders.next_id();
        db.purchase_orders.insert(PurchaseOrder { id: po_id, outlet_id, supplier_id, total, status, date });
        let ghost mid = *db;
        let count: usize = 1 + i % 3;
        let mut items: Vec<PurchaseOrderItemInput> = Vec::new();
        let mut j: usize = 0;
        while j < count
            invariant
                j <= count <= 3,
                i < 15,
                items@.len() == j,
                ingredient_ids@.len() > 0,
                forall|k: int|
                    0 <= k < ingredient_ids@.len() ==> old(db).ingredients@.contains_key(#[trigger] ingredient_ids@[k]),
                forall|k: int|
                    0 <= k < items@.len() ==> old(db).ingredients@.contains_key(#[trigger] items@[k].ingredient_id),
            decreases count - j,
        {
            let ingredient_id = ingredient_ids[(i + j) % ingredient_ids.len()];
            items.push(
                PurchaseOrderItemInput {
                    ingredient_id,
                    quantity: 5 + j as i64 * 3,
                    price: 2_500_000 + j as i64 * 500_000,
                },
            );
            j = j + 1;
        }
        insert_order_items(db, po_id, &items);
        proof {
            let n = before.purchase_orders@.rows.len() as int;
            let lines = order_lines(items@, po_id, mid.purchase_order_items@.next_id);
            assert(db.purchase_orders@.rows[n].key() == po_id);
            assert(db.purchase_orders@.contains_key(po_id));
            assert forall|k: int| 0 <= k < db.purchase_orders@.rows.len() implies db.outlets@.contains_key(
                #[trigger] db.purchase_orders@.rows[k].outlet_id,
            ) && db.suppliers@.contains_key(db.purchase_orders@.rows[k].supplier_id) by {
                if k < n {
                    assert(db.purchase_orders@.rows[k] == before.purchase_orders@.rows[k]);
                }
            }
            assert forall|k: int|
                0 <= k < db.purchase_order_items@.rows.len() implies db.purchase_orders@.contains_key(
                #[trigger] db.purchase_order_items@.rows[k].purchase_order_id,
            ) && db.ingredients@.contains_key(db.purchase_order_items@.rows[k].ingredient_id) by {
                let m = before.purchase_order_items@.rows.len() as int;
                if k < m {
                    let oid = before.purchase_order_items@.rows[k].purchase_order_id;
                    assert(db.purchase_order_items@.rows[k] == before.purchase_order_items@.rows[k]);
                    let w = choose|w: int|
                        0 <= w < before.purchase_orders@.rows.len() && #[trigger] before.purchase_orders@.rows[w].key()
                            == oid;
                    assert(db.purchase_orders@.rows[w] == before.purchase_orders@.rows[w]);
                } else {
                    assert(db.purchase_order_items@.rows[k] == lines[k - m]);
                    assert(lines[k - m].ingredient_id == items@[k - m].ingredient_id);
                }
            }
        }
        i = i + 1;
    }
}

} // verus!

verus! {

/// Populates a fresh store with the representative dataset, in dependency order, and
/// registers `owner` as the central administrator. Timestamps are offsets from `now`,
/// saturating at the ends of the timestamp range.
pub fn init(db: &mut Db, now: Timestamp, owner: Identity) -> (r: Result<(), ReducerError>)
    requires
        old(db).wf(),
        old(db).is_fresh(),
    ensures
        r is Ok,
        final(db).wf(),
        final(db).has_seed_counts(),
        final(db).references_resolve(),
        forall|k: int|
            0 <= k < final(db).distributions@.rows.len() ==> #[trigger] final(db).distributions@.rows[k].from_outlet_id
                != final(db).distributions@.rows[k].to_outlet_id,
        forall|k: int|
            0 <= k < final(db).ingredients@.rows.len() ==> #[trigger] final(db).ingredients@.rows[k].min_stock
                < final(db).ingredients@.rows[k].stock,
        final(db).users@[0].id == owner,
        final(db).users@[0].role == UserRole::AdminPusat,
        final(db).users@[0].outlet_id is None,
{
    seed_outlets(db);
    let outlet_ids = keys(&db.outlets);
    seed_suppliers(db);
    let supplier_ids = keys(&db.suppliers);
    seed_products(db, &outlet_ids);
    let product_ids = keys(&db.products);
    seed_ingredients(db, &outlet_ids);
    let ingredient_ids = keys(&db.ingredients);
    seed_employees(db, &outlet_ids);
    let employee_ids = keys(&db.employees);
    seed_sales(db, now, &outlet_ids, &product_ids);
    seed_purchase_orders(db, now, &outlet_ids, &supplier_ids, &ingredient_ids);
    seed_distributions(db, now, &outlet_ids, &ingredient_ids);
    seed_checklists(db, now, &outlet_ids);
    seed_shift_reports(db, now, &outlet_ids, &employee_ids);
    seed_candidates(db);
    seed_promotions(db, now);
    seed_assets(db, now, &outlet_ids);
    seed_cash_flow(db, now, &outlet_ids);
    create_user(db, owner, String::from_str("admin_pusat"), UserRole::AdminPusat, None)
}

} // verus!
