use crate::db::{has_user, Db};
use crate::schema::{
    Asset, AssetStatus, Candidate, CandidateStatus, DailyChecklist, DiscountType, Distribution,
    DistributionStatus, Employee, EmploymentStatus, Ingredient, IngredientStatus, Outlet, OutletStatus,
    Identity, POStatus, PaymentMethod, Product, Promotion, PromotionStatus, PurchaseOrder,
    PurchaseOrderItem, PurchaseOrderItemInput, Sale, SaleItem, SaleItemInput, ShiftReport, ShiftStatus,
    Supplier, Timestamp, User, UserRole,
};
use crate::orders::{lemma_rows_of_new_order, order_lines, rows_of_order};
use crate::table::Keyed;
use crate::totals::{
    compute_sale_total, items_total, lemma_items_total_new, lemma_items_total_other, sale_lines,
    sale_total,
};
use vstd::prelude::*;

verus! {

/// The class of a failed operation.
#[derive(Clone, Copy, Debug, PartialEq, Eq, Structural)]
pub enum ErrorKind {
    /// The targeted primary key is absent.
    NotFound,
    /// The input breaks a stated invariant.
    Validation,
    /// A uniquely keyed row already exists.
    Conflict,
}

/// Why an operation was rejected; a rejected operation changes nothing.
#[derive(Clone, Copy, Debug, PartialEq, Eq, Structural)]
pub enum ReducerError {
    OutletNotFound,
    EmployeeNotFound,
    IngredientNotFound,
    PurchaseOrderNotFound,
    DistributionNotFound,
    ChecklistNotFound,
    CandidateNotFound,
    AssetNotFound,
    SameOutlets,
    EmptySale,
    UserExists,
}

impl ReducerError {
    pub open spec fn spec_kind(self) -> ErrorKind {
        match self {
            ReducerError::SameOutlets | ReducerError::EmptySale => ErrorKind::Validation,
            ReducerError::UserExists => ErrorKind::Conflict,
            _ => ErrorKind::NotFound,
        }
    }

    pub open spec fn text(self) -> Seq<char> {
        match self {
            ReducerError::OutletNotFound => "Outlet not found"@,
            ReducerError::EmployeeNotFound => "Employee not found"@,
            ReducerError::IngredientNotFound => "Ingredient not found"@,
            ReducerError::PurchaseOrderNotFound => "Purchase order not found"@,
            ReducerError::DistributionNotFound => "Distribution not found"@,
            ReducerError::ChecklistNotFound => "Checklist not found"@,
            ReducerError::CandidateNotFound => "Candidate not found"@,
            ReducerError::AssetNotFound => "Asset not found"@,
            ReducerError::SameOutlets => "from_outlet_id and to_outlet_id must differ"@,
            ReducerError::EmptySale => "Sale must have at least one item"@,
            ReducerError::UserExists => "User with this identity already exists"@,
        }
    }

    pub fn kind(&self) -> (r: ErrorKind)
        ensures
            r == self.spec_kind(),
    {
        match self {
            ReducerError::SameOutlets | ReducerError::EmptySale => ErrorKind::Validation,
            ReducerError::UserExists => ErrorKind::Conflict,
            _ => ErrorKind::NotFound,
        }
    }

    /// The human-readable message of this error.
    pub fn message(&self) -> (r: String)
        ensures
            r@ == self.text(),
    {
        let s = match self {
            ReducerError::OutletNotFound => "Outlet not found",
            ReducerError::EmployeeNotFound => "Employee not found",
            ReducerError::IngredientNotFound => "Ingredient not found",
            ReducerError::PurchaseOrderNotFound => "Purchase order not found",
            ReducerError::DistributionNotFound => "Distribution not found",
            ReducerError::ChecklistNotFound => "Checklist not found",
            ReducerError::CandidateNotFound => "Candidate not found",
            ReducerError::AssetNotFound => "Asset not found",
            ReducerError::SameOutlets => "from_outlet_id and to_outlet_id must differ",
            ReducerError::EmptySale => "Sale must have at least one item",
            ReducerError::UserExists => "User with this identity already exists",
        };
        String::from_str(s)
    }
}

/// Inserts an outlet with status `Open`.
pub fn create_outlet(db: &mut Db, name: String, area: String, address: String) -> (r: Result<(), ReducerError>)
    requires
        old(db).wf(),
        old(db).outlets@.has_room(1),
    ensures
        final(db).wf(),
        r is Ok,
        final(db).outlets@ == old(db).outlets@.inserted(
            (Outlet { id: old(db).outlets@.next_id, name, area, address, status: OutletStatus::Open }),
        ),
        *final(db) == (Db { outlets: final(db).outlets, ..*old(db) }),
{
    let id = db.outlets.next_id();
    db.outlets.insert(Outlet { id, name, area, address, status: OutletStatus::Open });
    Ok(())
}

/// Replaces every field of the outlet `id` but its key.
pub fn update_outlet(
    db: &mut Db,
    id: u64,
    name: String,
    area: String,
    address: String,
    status: OutletStatus,
) -> (r: Result<(), ReducerError>)
    requires
        old(db).wf(),
    ensures
        final(db).wf(),
        r is Ok <==> old(db).outlets@.contains_key(id),
        r is Err ==> r == Err::<(), ReducerError>(ReducerError::OutletNotFound) && *final(db) == *old(db),
        r is Ok ==> final(db).outlets@ == old(db).outlets@.replaced(
            old(db).outlets@.index_of(id),
            (Outlet { id, name, area, address, status }),
        ),
        *final(db) == (Db { outlets: final(db).outlets, ..*old(db) }),
{
    match db.outlets.find(id) {
        Some(i) => {
            proof {
                old(db).outlets@.lemma_index_of(i as int);
            }
            db.outlets.replace(i, Outlet { id, name, area, address, status });
            Ok(())
        },
        None => Err(ReducerError::OutletNotFound),
    }
}

/// Inserts an employee as given.
pub fn create_employee(
    db: &mut Db,
    name: String,
    position: String,
    outlet_id: u64,
    salary: i64,
    status: EmploymentStatus,
) -> (r: Result<(), ReducerError>)
    requires
        old(db).wf(),
        old(db).employees@.has_room(1),
    ensures
        final(db).wf(),
        r is Ok,
        final(db).employees@ == old(db).employees@.inserted(
            (Employee { id: old(db).employees@.next_id, name, position, outlet_id, salary, status }),
        ),
        *final(db) == (Db { employees: final(db).employees, ..*old(db) }),
{
    let id = db.employees.next_id();
    db.employees.insert(Employee { id, name, position, outlet_id, salary, status });
    Ok(())
}

/// Inserts a product as given.
pub fn add_product(
    db: &mut Db,
    name: String,
    category: String,
    price: i64,
    outlet_id: u64,
) -> (r: Result<(), ReducerError>)
    requires
        old(db).wf(),
        old(db).products@.has_room(1),
    ensures
        final(db).wf(),
        r is Ok,
        final(db).products@ == old(db).products@.inserted(
            (Product { id: old(db).products@.next_id, name, category, price, outlet_id }),
        ),
        *final(db) == (Db { products: final(db).products, ..*old(db) }),
{
    let id = db.products.next_id();
    db.products.insert(Product { id, name, category, price, outlet_id });
    Ok(())
}

/// Inserts an ingredient as given.
pub fn add_ingredient(
    db: &mut Db,
    name: String,
    unit: String,
    min_stock: i64,
    stock: i64,
    outlet_id: u64,
    status: IngredientStatus,
) -> (r: Result<(), ReducerError>)
    requires
        old(db).wf(),
        old(db).ingredients@.has_room(1),
    ensures
        final(db).wf(),
        r is Ok,
        final(db).ingredients@ == old(db).ingredients@.inserted(
            (Ingredient { id: old(db).ingredients@.next_id, name, unit, min_stock, stock, outlet_id, status }),
        ),
        *final(db) == (Db { ingredients: final(db).ingredients, ..*old(db) }),
{
    let id = db.ingredients.next_id();
    db.ingredients.insert(Ingredient { id, name, unit, min_stock, stock, outlet_id, status });
    Ok(())
}

/// Inserts a supplier as given.
pub fn add_supplier(
    db: &mut Db,
    name: String,
    contact: String,
    rating: i32,
) -> (r: Result<(), ReducerError>)
    requires
        old(db).wf(),
        old(db).suppliers@.has_room(1),
    ensures
        final(db).wf(),
        r is Ok,
        final(db).suppliers@ == old(db).suppliers@.inserted(
            (Supplier { id: old(db).suppliers@.next_id, name, contact, rating }),
        ),
        *final(db) == (Db { suppliers: final(db).suppliers, ..*old(db) }),
{
    let id = db.suppliers.next_id();
    db.suppliers.insert(Supplier { id, name, contact, rating });
    Ok(())
}

/// Inserts a checklist that is not yet completed.
pub fn create_daily_checklist(
    db: &mut Db,
    outlet_id: u64,
    checklist_name: String,
    date: Timestamp,
) -> (r: Result<(), ReducerError>)
    requires
        old(db).wf(),
        old(db).daily_checklists@.has_room(1),
    ensures
        final(db).wf(),
        r is Ok,
        final(db).daily_checklists@ == old(db).daily_checklists@.inserted(
            (DailyChecklist { id: old(db).daily_checklists@.next_id, outlet_id, checklist_name, is_completed: false, date }),
        ),
        *final(db) == (Db { daily_checklists: final(db).daily_checklists, ..*old(db) }),
{
    let id = db.daily_checklists.next_id();
    db.daily_checklists.insert(DailyChecklist { id, outlet_id, checklist_name, is_completed: false, date });
    Ok(())
}

/// Opens a shift: it ends where it starts, with no final cash yet.
pub fn open_shift(
    db: &mut Db,
    outlet_id: u64,
    employee_id: u64,
    shift_start: Timestamp,
    initial_cash: i64,
) -> (r: Result<(), ReducerError>)
    requires
        old(db).wf(),
        old(db).shift_reports@.has_room(1),
    ensures
        final(db).wf(),
        r is Ok,
        final(db).shift_reports@ == old(db).shift_reports@.inserted(
            (ShiftReport { id: old(db).shift_reports@.next_id, outlet_id, employee_id, shift_start, shift_end: shift_start, initial_cash, final_cash: 0, status: ShiftStatus::Open }),
        ),
        *final(db) == (Db { shift_reports: final(db).shift_reports, ..*old(db) }),
{
    let id = db.shift_reports.next_id();
    db.shift_reports.insert(ShiftReport { id, outlet_id, employee_id, shift_start, shift_end: shift_start, initial_cash, final_cash: 0, status: ShiftStatus::Open });
    Ok(())
}

/// Inserts a candidate with status `Applied`.
pub fn add_candidate(
    db: &mut Db,
    name: String,
    position: String,
    phone: String,
    email: String,
) -> (r: Result<(), ReducerError>)
    requires
        old(db).wf(),
        old(db).candidates@.has_room(1),
    ensures
        final(db).wf(),
        r is Ok,
        final(db).candidates@ == old(db).candidates@.inserted(
            (Candidate { id: old(db).candidates@.next_id, name, position, phone, email, status: CandidateStatus::Applied }),
        ),
        *final(db) == (Db { candidates: final(db).candidates, ..*old(db) }),
{
    let id = db.candidates.next_id();
    db.candidates.insert(Candidate { id, name, position, phone, email, status: CandidateStatus::Applied });
    Ok(())
}

/// Inserts a promotion; its status is taken as given, not derived from its dates.
pub fn create_promotion(
    db: &mut Db,
    name: String,
    discount_type: DiscountType,
    discount_value: i64,
    start_date: Timestamp,
    end_date: Timestamp,
    status: PromotionStatus,
) -> (r: Result<(), ReducerError>)
    requires
        old(db).wf(),
        old(db).promotions@.has_room(1),
    ensures
        final(db).wf(),
        r is Ok,
        final(db).promotions@ == old(db).promotions@.inserted(
            (Promotion { id: old(db).promotions@.next_id, name, discount_type, discount_value, start_date, end_date, status }),
        ),
        *final(db) == (Db { promotions: final(db).promotions, ..*old(db) }),
{
    let id = db.promotions.next_id();
    db.promotions.insert(Promotion { id, name, discount_type, discount_value, start_date, end_date, status });
    Ok(())
}

/// Inserts an asset with status `InUse`.
pub fn add_asset(
    db: &mut Db,
    outlet_id: u64,
    name: String,
    category: String,
    last_maintenance: Timestamp,
) -> (r: Result<(), ReducerError>)
    requires
        old(db).wf(),
        old(db).assets@.has_room(1),
    ensures
        final(db).wf(),
        r is Ok,
        final(db).assets@ == old(db).assets@.inserted(
            (Asset { id: old(db).assets@.next_id, outlet_id, name, category, status: AssetStatus::InUse, last_maintenance }),
        ),
        *final(db) == (Db { assets: final(db).assets, ..*old(db) }),
{
    let id = db.assets.next_id();
    db.assets.insert(Asset { id, outlet_id, name, category, status: AssetStatus::InUse, last_maintenance });
    Ok(())
}

/// Sets the status of an employee.
pub fn update_employee_status(
    db: &mut Db,
    employee_id: u64,
    status: EmploymentStatus,
) -> (r: Result<(), ReducerError>)
    requires
        old(db).wf(),
    ensures
        final(db).wf(),
        r is Ok <==> old(db).employees@.contains_key(employee_id),
        r is Err ==> r == Err::<(), ReducerError>(ReducerError::EmployeeNotFound) && *final(db) == *old(db),
        r is Ok ==> final(db).employees@ == old(db).employees@.replaced(
            old(db).employees@.index_of(employee_id),
            (Employee { status: status, ..old(db).employees@.row(employee_id) }),
        ),
        *final(db) == (Db { employees: final(db).employees, ..*old(db) }),
{
    match db.employees.find(employee_id) {
        Some(i) => {
            proof {
                old(db).employees@.lemma_index_of(i as int);
            }
            let row = &db.employees.rows()[i];
            let updated = Employee { id: row.id, name: row.name.clone(), position: row.position.clone(), outlet_id: row.outlet_id, salary: row.salary, status: status };
            db.employees.replace(i, updated);
            Ok(())
        },
        None => Err(ReducerError::EmployeeNotFound),
    }
}

/// Overwrites the stock of an ingredient.
pub fn update_inventory(
    db: &mut Db,
    ingredient_id: u64,
    new_stock: i64,
) -> (r: Result<(), ReducerError>)
    requires
        old(db).wf(),
    ensures
        final(db).wf(),
        r is Ok <==> old(db).ingredients@.contains_key(ingredient_id),
        r is Err ==> r == Err::<(), ReducerError>(ReducerError::IngredientNotFound) && *final(db) == *old(db),
        r is Ok ==> final(db).ingredients@ == old(db).ingredients@.replaced(
            old(db).ingredients@.index_of(ingredient_id),
            (Ingredient { stock: new_stock, ..old(db).ingredients@.row(ingredient_id) }),
        ),
        *final(db) == (Db { ingredients: final(db).ingredients, ..*old(db) }),
{
    match db.ingredients.find(ingredient_id) {
        Some(i) => {
            proof {
                old(db).ingredients@.lemma_index_of(i as int);
            }
            let row = &db.ingredients.rows()[i];
            let updated = Ingredient { id: row.id, name: row.name.clone(), unit: row.unit.clone(), min_stock: row.min_stock, stock: new_stock, outlet_id: row.outlet_id, status: row.status };
            db.ingredients.replace(i, updated);
            Ok(())
        },
        None => Err(ReducerError::IngredientNotFound),
    }
}

/// Marks a purchase order `Ordered`, whatever its status was.
pub fn approve_purchase_order(
    db: &mut Db,
    po_id: u64,
) -> (r: Result<(), ReducerError>)
    requires
        old(db).wf(),
    ensures
        final(db).wf(),
        r is Ok <==> old(db).purchase_orders@.contains_key(po_id),
        r is Err ==> r == Err::<(), ReducerError>(ReducerError::PurchaseOrderNotFound) && *final(db) == *old(db),
        r is Ok ==> final(db).purchase_orders@ == old(db).purchase_orders@.replaced(
            old(db).purchase_orders@.index_of(po_id),
            (PurchaseOrder { status: POStatus::Ordered, ..old(db).purchase_orders@.row(po_id) }),
        ),
        *final(db) == (Db { purchase_orders: final(db).purchase_orders, ..*old(db) }),
{
    match db.purchase_orders.find(po_id) {
        Some(i) => {
            proof {
                old(db).purchase_orders@.lemma_index_of(i as int);
            }
            let row = &db.purchase_orders.rows()[i];
            let updated = PurchaseOrder { id: row.id, outlet_id: row.outlet_id, supplier_id: row.supplier_id, total: row.total, status: POStatus::Ordered, date: row.date };
            db.purchase_orders.replace(i, updated);
            Ok(())
        },
        None => Err(ReducerError::PurchaseOrderNotFound),
    }
}

/// Marks a purchase order `Cancelled`, whatever its status was.
pub fn reject_purchase_order(
    db: &mut Db,
    po_id: u64,
) -> (r: Result<(), ReducerError>)
    requires
        old(db).wf(),
    ensures
        final(db).wf(),
        r is Ok <==> old(db).purchase_orders@.contains_key(po_id),
        r is Err ==> r == Err::<(), ReducerError>(ReducerError::PurchaseOrderNotFound) && *final(db) == *old(db),
        r is Ok ==> final(db).purchase_orders@ == old(db).purchase_orders@.replaced(
            old(db).purchase_orders@.index_of(po_id),
            (PurchaseOrder { status: POStatus::Cancelled, ..old(db).purchase_orders@.row(po_id) }),
        ),
        *final(db) == (Db { purchase_orders: final(db).purchase_orders, ..*old(db) }),
{
    match db.purchase_orders.find(po_id) {
        Some(i) => {
            proof {
                old(db).purchase_orders@.lemma_index_of(i as int);
            }
            let row = &db.purchase_orders.rows()[i];
            let updated = PurchaseOrder { id: row.id, outlet_id: row.outlet_id, supplier_id: row.supplier_id, total: row.total, status: POStatus::Cancelled, date: row.date };
            db.purchase_orders.replace(i, updated);
            Ok(())
        },
        None => Err(ReducerError::PurchaseOrderNotFound),
    }
}

/// Marks a distribution `Delivered`.
pub fn mark_distribution_delivered(
    db: &mut Db,
    distribution_id: u64,
) -> (r: Result<(), ReducerError>)
    requires
        old(db).wf(),
    ensures
        final(db).wf(),
        r is Ok <==> old(db).distributions@.contains_key(distribution_id),
        r is Err ==> r == Err::<(), ReducerError>(ReducerError::DistributionNotFound) && *final(db) == *old(db),
        r is Ok ==> final(db).distributions@ == old(db).distributions@.replaced(
            old(db).distributions@.index_of(distribution_id),
            (Distribution { status: DistributionStatus::Delivered, ..old(db).distributions@.row(distribution_id) }),
        ),
        *final(db) == (Db { distributions: final(db).distributions, ..*old(db) }),
{
    match db.distributions.find(distribution_id) {
        Some(i) => {
            proof {
                old(db).distributions@.lemma_index_of(i as int);
            }
            let row = &db.distributions.rows()[i];
            let updated = Distribution { id: row.id, from_outlet_id: row.from_outlet_id, to_outlet_id: row.to_outlet_id, ingredient_id: row.ingredient_id, quantity: row.quantity, status: DistributionStatus::Delivered, date: row.date };
            db.distributions.replace(i, updated);
            Ok(())
        },
        None => Err(ReducerError::DistributionNotFound),
    }
}

/// Sets whether a checklist is completed.
pub fn update_checklist_status(
    db: &mut Db,
    checklist_id: u64,
    is_completed: bool,
) -> (r: Result<(), ReducerError>)
    requires
        old(db).wf(),
    ensures
        final(db).wf(),
        r is Ok <==> old(db).daily_checklists@.contains_key(checklist_id),
        r is Err ==> r == Err::<(), ReducerError>(ReducerError::ChecklistNotFound) && *final(db) == *old(db),
        r is Ok ==> final(db).daily_checklists@ == old(db).daily_checklists@.replaced(
            old(db).daily_checklists@.index_of(checklist_id),
            (DailyChecklist { is_completed: is_completed, ..old(db).daily_checklists@.row(checklist_id) }),
        ),
        *final(db) == (Db { daily_checklists: final(db).daily_checklists, ..*old(db) }),
{
    match db.daily_checklists.find(checklist_id) {
        Some(i) => {
            proof {
                old(db).daily_checklists@.lemma_index_of(i as int);
            }
            let row = &db.daily_checklists.rows()[i];
            let updated = DailyChecklist { id: row.id, outlet_id: row.outlet_id, checklist_name: row.checklist_name.clone(), is_completed: is_completed, date: row.date };
            db.daily_checklists.replace(i, updated);
            Ok(())
        },
        None => Err(ReducerError::ChecklistNotFound),
    }
}

/// Sets the status of a candidate, with no transition rule.
pub fn update_candidate_status(
    db: &mut Db,
    candidate_id: u64,
    status: CandidateStatus,
) -> (r: Result<(), ReducerError>)
    requires
        old(db).wf(),
    ensures
        final(db).wf(),
        r is Ok <==> old(db).candidates@.contains_key(candidate_id),
        r is Err ==> r == Err::<(), ReducerError>(ReducerError::CandidateNotFound) && *final(db) == *old(db),
        r is Ok ==> final(db).candidates@ == old(db).candidates@.replaced(
            old(db).candidates@.index_of(candidate_id),
            (Candidate { status: status, ..old(db).candidates@.row(candidate_id) }),
        ),
        *final(db) == (Db { candidates: final(db).candidates, ..*old(db) }),
{
    match db.candidates.find(candidate_id) {
        Some(i) => {
            proof {
                old(db).candidates@.lemma_index_of(i as int);
            }
            let row = &db.candidates.rows()[i];
            let updated = Candidate { id: row.id, name: row.name.clone(), position: row.position.clone(), phone: row.phone.clone(), email: row.email.clone(), status: status };
            db.candidates.replace(i, updated);
            Ok(())
        },
        None => Err(ReducerError::CandidateNotFound),
    }
}

/// Sets the status and last maintenance time of an asset.
pub fn update_asset_status(
    db: &mut Db,
    asset_id: u64,
    status: AssetStatus,
    last_maintenance: Timestamp,
) -> (r: Result<(), ReducerError>)
    requires
        old(db).wf(),
    ensures
        final(db).wf(),
        r is Ok <==> old(db).assets@.contains_key(asset_id),
        r is Err ==> r == Err::<(), ReducerError>(ReducerError::AssetNotFound) && *final(db) == *old(db),
        r is Ok ==> final(db).assets@ == old(db).assets@.replaced(
            old(db).assets@.index_of(asset_id),
            (Asset { status: status, last_maintenance: last_maintenance, ..old(db).assets@.row(asset_id) }),
        ),
        *final(db) == (Db { assets: final(db).assets, ..*old(db) }),
{
    match db.assets.find(asset_id) {
        Some(i) => {
            proof {
                old(db).assets@.lemma_index_of(i as int);
            }
            let row = &db.assets.rows()[i];
            let updated = Asset { id: row.id, outlet_id: row.outlet_id, name: row.name.clone(), category: row.category.clone(), status: status, last_maintenance: last_maintenance };
            db.assets.replace(i, updated);
            Ok(())
        },
        None => Err(ReducerError::AssetNotFound),
    }
}

} // verus!
verus! {

/// Removes the outlet `id` if present; rows that refer to it are left as they are.
pub fn delete_outlet(db: &mut Db, id: u64) -> (r: Result<(), ReducerError>)
    requires
        old(db).wf(),
    ensures
        final(db).wf(),
        r is Ok,
        !final(db).outlets@.contains_key(id),
        final(db).outlets@.next_id == old(db).outlets@.next_id,
        old(db).outlets@.contains_key(id) ==> final(db).outlets@.rows == old(
            db,
        ).outlets@.rows.remove(old(db).outlets@.index_of(id)),
        !old(db).outlets@.contains_key(id) ==> final(db).outlets@ == old(db).outlets@,
        *final(db) == (Db { outlets: final(db).outlets, ..*old(db) }),
{
    db.outlets.delete(id);
    Ok(())
}

/// Inserts a `Created` purchase order with the caller's total, and one item row per input
/// item stamped with the new order's key.
pub fn create_purchase_order(
    db: &mut Db,
    outlet_id: u64,
    supplier_id: u64,
    total: i64,
    date: Timestamp,
    items: Vec<PurchaseOrderItemInput>,
) -> (r: Result<(), ReducerError>)
    requires
        old(db).wf(),
        old(db).purchase_orders@.has_room(1),
        old(db).purchase_order_items@.has_room(items@.len() as int),
    ensures
        final(db).wf(),
        r is Ok,
        final(db).purchase_orders@ == old(db).purchase_orders@.inserted(
            (PurchaseOrder {
                id: old(db).purchase_orders@.next_id,
                outlet_id,
                supplier_id,
                total,
                status: POStatus::Created,
                date,
            }),
        ),
        final(db).purchase_order_items@ == old(db).purchase_order_items@.appended(
            order_lines(items@, old(db).purchase_orders@.next_id, old(db).purchase_order_items@.next_id),
        ),
        rows_of_order(final(db).purchase_order_items@.rows, old(db).purchase_orders@.next_id) == order_lines(
            items@,
            old(db).purchase_orders@.next_id,
            old(db).purchase_order_items@.next_id,
        ),
        *final(db) == (Db {
            purchase_orders: final(db).purchase_orders,
            purchase_order_items: final(db).purchase_order_items,
            ..*old(db)
        }),
{
    let po_id = db.purchase_orders.next_id();
    db.purchase_orders.insert(
        PurchaseOrder { id: po_id, outlet_id, supplier_id, total, status: POStatus::Created, date },
    );
    let ghost first = old(db).purchase_order_items@.next_id;
    insert_order_items(db, po_id, &items);
    proof {
        let old_rows = old(db).purchase_order_items@.rows;
        assert forall|j: int| 0 <= j < old_rows.len() implies #[trigger] old_rows[j].purchase_order_id
            != po_id by {
            assert(old_rows[j].purchase_order_id < po_id);
        }
        lemma_rows_of_new_order(old_rows, items@, po_id, first);
    }
    Ok(())
}

/// Appends one item row per input item, stamped with the order key `po_id`.
pub(crate) fn insert_order_items(db: &mut Db, po_id: u64, items: &Vec<PurchaseOrderItemInput>)
    requires
        old(db).wf(),
        po_id < old(db).purchase_orders@.next_id,
        old(db).purchase_order_items@.has_room(items@.len() as int),
    ensures
        final(db).wf(),
        final(db).purchase_order_items@ == old(db).purchase_order_items@.appended(
            order_lines(items@, po_id, old(db).purchase_order_items@.next_id),
        ),
        *final(db) == (Db { purchase_order_items: final(db).purchase_order_items, ..*old(db) }),
{
    let ghost first = old(db).purchase_order_items@.next_id;
    let mut k: usize = 0;
    while k < items.len()
        invariant
            k <= items@.len(),
            po_id < old(db).purchase_orders@.next_id,
            first == old(db).purchase_order_items@.next_id,
            first + items@.len() <= u64::MAX,
            db.purchase_order_items@ == old(db).purchase_order_items@.appended(
                order_lines(items@.take(k as int), po_id, first),
            ),
            db.wf(),
            *db == (Db { purchase_order_items: db.purchase_order_items, ..*old(db) }),
        decreases items@.len() - k,
    {
        let it = items[k];
        let id = db.purchase_order_items.next_id();
        db.purchase_order_items.insert(
            PurchaseOrderItem {
                id,
                purchase_order_id: po_id,
                ingredient_id: it.ingredient_id,
                quantity: it.quantity,
                price: it.price,
            },
        );
        assert(order_lines(items@.take(k + 1), po_id, first) =~= order_lines(
            items@.take(k as int),
            po_id,
            first,
        ).push(db.purchase_order_items@.rows.last()));
        k = k + 1;
    }
    assert(items@.take(k as int) == items@);
}

/// Requests moving an ingredient between two outlets; both must differ.
pub fn request_distribution(
    db: &mut Db,
    from_outlet_id: u64,
    to_outlet_id: u64,
    ingredient_id: u64,
    quantity: i64,
    date: Timestamp,
) -> (r: Result<(), ReducerError>)
    requires
        old(db).wf(),
        old(db).distributions@.has_room(1),
    ensures
        final(db).wf(),
        r is Err <==> from_outlet_id == to_outlet_id,
        r is Err ==> r == Err::<(), ReducerError>(ReducerError::SameOutlets) && *final(db) == *old(db),
        r is Ok ==> final(db).distributions@ == old(db).distributions@.inserted(
            (Distribution {
                id: old(db).distributions@.next_id,
                from_outlet_id,
                to_outlet_id,
                ingredient_id,
                quantity,
                status: DistributionStatus::Pending,
                date,
            }),
        ),
        *final(db) == (Db { distributions: final(db).distributions, ..*old(db) }),
{
    if from_outlet_id == to_outlet_id {
        return Err(ReducerError::SameOutlets);
    }
    let id = db.distributions.next_id();
    db.distributions.insert(
        Distribution {
            id,
            from_outlet_id,
            to_outlet_id,
            ingredient_id,
            quantity,
            status: DistributionStatus::Pending,
            date,
        },
    );
    Ok(())
}

/// What `create_user` does: it fails with `UserExists`, changing nothing, exactly when
/// `sender` already has a user row; otherwise it appends the new row.
pub open spec fn user_created(
    before: Db,
    after: Db,
    sender: Identity,
    username: String,
    role: UserRole,
    outlet_id: Option<u64>,
    r: Result<(), ReducerError>,
) -> bool {
    &&& r is Err <==> has_user(before.users@, sender)
    &&& r is Err ==> r == Err::<(), ReducerError>(ReducerError::UserExists) && after == before
    &&& r is Ok ==> after.users@ == before.users@.push(User { id: sender, username, role, outlet_id })
    &&& after == (Db { users: after.users, ..before })
}

/// Registers the calling principal `sender` as a user, at most once.
pub fn create_user(
    db: &mut Db,
    sender: Identity,
    username: String,
    role: UserRole,
    outlet_id: Option<u64>,
) -> (r: Result<(), ReducerError>)
    requires
        old(db).wf(),
    ensures
        final(db).wf(),
        user_created(*old(db), *final(db), sender, username, role, outlet_id, r),
{
    if db.find_user(sender).is_some() {
        return Err(ReducerError::UserExists);
    }
    db.users.push(User { id: sender, username, role, outlet_id });
    Ok(())
}

/// Records a sale of at least one item. The total is computed here, as the saturating
/// sum of `price * quantity` over the items, never taken from the caller; one item row
/// per input item is stamped with the new sale's key.
pub fn record_sale(
    db: &mut Db,
    outlet_id: u64,
    items: Vec<SaleItemInput>,
    payment_method: PaymentMethod,
    date: Timestamp,
) -> (r: Result<(), ReducerError>)
    requires
        old(db).wf(),
        old(db).sales@.has_room(1),
        old(db).sale_items@.has_room(items@.len() as int),
    ensures
        final(db).wf(),
        r is Err <==> items@.len() == 0,
        r is Err ==> r == Err::<(), ReducerError>(ReducerError::EmptySale) && *final(db) == *old(db),
        r is Ok ==> final(db).sales@ == old(db).sales@.inserted(
            (Sale {
                id: old(db).sales@.next_id,
                outlet_id,
                total: sale_total(items@),
                payment_method,
                date,
            }),
        ),
        r is Ok ==> final(db).sale_items@ == old(db).sale_items@.appended(
            sale_lines(items@, old(db).sales@.next_id, old(db).sale_items@.next_id),
        ),
        *final(db) == (Db { sales: final(db).sales, sale_items: final(db).sale_items, ..*old(db) }),
{
    if items.len() == 0 {
        return Err(ReducerError::EmptySale);
    }
    let total = compute_sale_total(&items);
    let sale_id = db.sales.next_id();
    db.sales.insert(Sale { id: sale_id, outlet_id, total, payment_method, date });
    let ghost mid = *db;
    let ghost first = old(db).sale_items@.next_id;
    let mut k: usize = 0;
    while k < items.len()
        invariant
            k <= items@.len(),
            sale_id == old(db).sales@.next_id,
            first == old(db).sale_items@.next_id,
            first + items@.len() <= u64::MAX,
            db.sale_items@ == mid.sale_items@.appended(sale_lines(items@.take(k as int), sale_id, first)),
            db.sale_items@.wf(),
            *db == (Db { sale_items: db.sale_items, ..mid }),
            mid == (Db { sales: mid.sales, ..*old(db) }),
            mid.sales@ == old(db).sales@.inserted(
                (Sale { id: sale_id, outlet_id, total, payment_method, date }),
            ),
        decreases items@.len() - k,
    {
        let it = items[k];
        let id = db.sale_items.next_id();
        db.sale_items.insert(
            SaleItem { id, sale_id, product_id: it.product_id, quantity: it.quantity, price: it.price },
        );
        assert(sale_lines(items@.take(k + 1), sale_id, first) =~= sale_lines(
            items@.take(k as int),
            sale_id,
            first,
        ).push(db.sale_items@.rows.last()));
        k = k + 1;
    }
    assert(items@.take(k as int) == items@);
    proof {
        let old_rows = old(db).sale_items@.rows;
        let lines = sale_lines(items@, sale_id, first);
        assert(forall|j: int| 0 <= j < old_rows.len() ==> #[trigger] old_rows[j].sale_id < sale_id);
        lemma_items_total_new(old_rows, items@, sale_id, first);
        assert forall|i: int| 0 <= i < db.sales@.rows.len() implies #[trigger] db.sales@.rows[i].total
            == items_total(db.sale_items@.rows, db.sales@.rows[i].id) by {
            if i < old(db).sales@.rows.len() {
                let sid = db.sales@.rows[i].id;
                assert(db.sales@.rows[i] == old(db).sales@.rows[i]);
                assert(old(db).sales@.rows[i].key() < old(db).sales@.next_id);
                assert(sid < sale_id);
                lemma_items_total_other(old_rows, lines, sid);
            }
        }
    }
    Ok(())
}

} // verus!
