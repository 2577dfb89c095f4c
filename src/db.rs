use crate::schema::{
    Asset, Candidate, CashFlow, DailyChecklist, Distribution, Employee, Identity, Ingredient, Outlet,
    Product, PurchaseOrder, PurchaseOrderItem, Sale, SaleItem, ShiftReport, Supplier, Promotion, User,
};
use crate::table::Table;
use crate::totals::items_total;
use vstd::prelude::*;

verus! {

/// The entity store: one keyed table per entity kind, and the users keyed by principal.
#[derive(Clone, Debug, PartialEq, Eq)]
pub struct Db {
    pub outlets: Table<Outlet>,
    pub employees: Table<Employee>,
    pub products: Table<Product>,
    pub ingredients: Table<Ingredient>,
    pub suppliers: Table<Supplier>,
    pub sales: Table<Sale>,
    pub sale_items: Table<SaleItem>,
    pub purchase_orders: Table<PurchaseOrder>,
    pub purchase_order_items: Table<PurchaseOrderItem>,
    pub distributions: Table<Distribution>,
    pub daily_checklists: Table<DailyChecklist>,
    pub shift_reports: Table<ShiftReport>,
    pub candidates: Table<Candidate>,
    pub promotions: Table<Promotion>,
    pub assets: Table<Asset>,
    pub cash_flow: Table<CashFlow>,
    pub users: Vec<User>,
}

/// No two users share a principal.
pub open spec fn users_unique(users: Seq<User>) -> bool {
    forall|i: int, j: int| 0 <= i < j < users.len() ==> #[trigger] users[i].id != #[trigger] users[j].id
}

/// Whether some user row is keyed by `id`.
pub open spec fn has_user(users: Seq<User>, id: Identity) -> bool {
    exists|i: int| 0 <= i < users.len() && #[trigger] users[i].id == id
}

/// Number of user rows keyed by `id`.
pub open spec fn user_count(users: Seq<User>, id: Identity) -> nat
    decreases users.len(),
{
    if users.len() == 0 {
        0
    } else if users.last().id == id {
        user_count(users.drop_last(), id) + 1
    } else {
        user_count(users.drop_last(), id)
    }
}

impl Db {
    /// Every table is well formed, users are unique per principal, sale totals agree with
    /// their items, and every purchase order item carries a key already handed out.
    pub open spec fn wf(&self) -> bool {
        &&& self.outlets@.wf()
        &&& self.employees@.wf()
        &&& self.products@.wf()
        &&& self.ingredients@.wf()
        &&& self.suppliers@.wf()
        &&& self.sales@.wf()
        &&& self.sale_items@.wf()
        &&& self.purchase_orders@.wf()
        &&& self.purchase_order_items@.wf()
        &&& self.distributions@.wf()
        &&& self.daily_checklists@.wf()
        &&& self.shift_reports@.wf()
        &&& self.candidates@.wf()
        &&& self.promotions@.wf()
        &&& self.assets@.wf()
        &&& self.cash_flow@.wf()
        &&& users_unique(self.users@)
        &&& self.sales_consistent()
        &&& forall|j: int|
            0 <= j < self.purchase_order_items@.rows.len()
                ==> #[trigger] self.purchase_order_items@.rows[j].purchase_order_id
                < self.purchase_orders@.next_id
    }

    /// Every sale's total is the saturating sum of its item rows, and every item row
    /// belongs to a sale key already handed out.
    pub open spec fn sales_consistent(&self) -> bool {
        &&& forall|i: int|
            0 <= i < self.sales@.rows.len() ==> #[trigger] self.sales@.rows[i].total == items_total(
                self.sale_items@.rows,
                self.sales@.rows[i].id,
            )
        &&& forall|j: int|
            0 <= j < self.sale_items@.rows.len() ==> #[trigger] self.sale_items@.rows[j].sale_id
                < self.sales@.next_id
    }

    /// Every table is empty with its key counter at 1, and there are no users.
    pub open spec fn is_fresh(&self) -> bool {
        &&& self.outlets@.is_fresh()
        &&& self.employees@.is_fresh()
        &&& self.products@.is_fresh()
        &&& self.ingredients@.is_fresh()
        &&& self.suppliers@.is_fresh()
        &&& self.sales@.is_fresh()
        &&& self.sale_items@.is_fresh()
        &&& self.purchase_orders@.is_fresh()
        &&& self.purchase_order_items@.is_fresh()
        &&& self.distributions@.is_fresh()
        &&& self.daily_checklists@.is_fresh()
        &&& self.shift_reports@.is_fresh()
        &&& self.candidates@.is_fresh()
        &&& self.promotions@.is_fresh()
        &&& self.assets@.is_fresh()
        &&& self.cash_flow@.is_fresh()
        &&& self.users@.len() == 0
    }

    /// Every foreign-key-shaped field names an existing row of the kind it refers to.
    pub open spec fn references_resolve(&self) -> bool {
        &&& forall|k: int|
            0 <= k < self.employees@.rows.len() ==> self.outlets@.contains_key(#[trigger] self.employees@.rows[k].outlet_id)
        &&& forall|k: int|
            0 <= k < self.products@.rows.len() ==> self.outlets@.contains_key(#[trigger] self.products@.rows[k].outlet_id)
        &&& forall|k: int|
            0 <= k < self.ingredients@.rows.len() ==> self.outlets@.contains_key(#[trigger] self.ingredients@.rows[k].outlet_id)
        &&& forall|k: int|
            0 <= k < self.sales@.rows.len() ==> self.outlets@.contains_key(#[trigger] self.sales@.rows[k].outlet_id)
        &&& forall|k: int|
            0 <= k < self.sale_items@.rows.len() ==> self.sales@.contains_key(#[trigger] self.sale_items@.rows[k].sale_id)
        &&& forall|k: int|
            0 <= k < self.sale_items@.rows.len() ==> self.products@.contains_key(self.sale_items@.rows[k].product_id)
        &&& forall|k: int|
            0 <= k < self.purchase_orders@.rows.len() ==> self.outlets@.contains_key(#[trigger] self.purchase_orders@.rows[k].outlet_id)
        &&& forall|k: int|
            0 <= k < self.purchase_orders@.rows.len() ==> self.suppliers@.contains_key(self.purchase_orders@.rows[k].supplier_id)
        &&& forall|k: int|
            0 <= k < self.purchase_order_items@.rows.len() ==> self.purchase_orders@.contains_key(#[trigger] self.purchase_order_items@.rows[k].purchase_order_id)
        &&& forall|k: int|
            0 <= k < self.purchase_order_items@.rows.len() ==> self.ingredients@.contains_key(self.purchase_order_items@.rows[k].ingredient_id)
        &&& forall|k: int|
            0 <= k < self.distributions@.rows.len() ==> self.outlets@.contains_key(#[trigger] self.distributions@.rows[k].from_outlet_id)
        &&& forall|k: int|
            0 <= k < self.distributions@.rows.len() ==> self.outlets@.contains_key(#[trigger] self.distributions@.rows[k].to_outlet_id)
        &&& forall|k: int|
            0 <= k < self.distributions@.rows.len() ==> self.ingredients@.contains_key(#[trigger] self.distributions@.rows[k].ingredient_id)
        &&& forall|k: int|
            0 <= k < self.daily_checklists@.rows.len() ==> self.outlets@.contains_key(#[trigger] self.daily_checklists@.rows[k].outlet_id)
        &&& forall|k: int|
            0 <= k < self.shift_reports@.rows.len() ==> self.outlets@.contains_key(#[trigger] self.shift_reports@.rows[k].outlet_id)
        &&& forall|k: int|
            0 <= k < self.shift_reports@.rows.len() ==> self.employees@.contains_key(#[trigger] self.shift_reports@.rows[k].employee_id)
        &&& forall|k: int|
            0 <= k < self.assets@.rows.len() ==> self.outlets@.contains_key(#[trigger] self.assets@.rows[k].outlet_id)
        &&& forall|k: int|
            0 <= k < self.cash_flow@.rows.len() ==> self.outlets@.contains_key(#[trigger] self.cash_flow@.rows[k].outlet_id)
        &&& forall|k: int|
            0 <= k < self.users@.len() && (#[trigger] self.users@[k]).outlet_id is Some
                ==> self.outlets@.contains_key(self.users@[k].outlet_id->0)
    }

    /// The row counts the bootstrap produces.
    pub open spec fn has_seed_counts(&self) -> bool {
        &&& self.outlets@.rows.len() == 18
        &&& self.suppliers@.rows.len() == 5
        &&& self.products@.rows.len() == 10
        &&& self.ingredients@.rows.len() == 20
        &&& self.employees@.rows.len() == 50
        &&& self.sales@.rows.len() == 30
        &&& self.purchase_orders@.rows.len() == 15
        &&& self.distributions@.rows.len() == 10
        &&& self.daily_checklists@.rows.len() == 18
        &&& self.shift_reports@.rows.len() == 10
        &&& self.candidates@.rows.len() == 15
        &&& self.promotions@.rows.len() == 5
        &&& self.assets@.rows.len() == 30
        &&& self.cash_flow@.rows.len() == 50
        &&& self.users@.len() == 1
    }

    /// An empty store.
    pub fn new() -> (r: Db)
        ensures
            r.wf(),
            r.is_fresh(),
    {
        Db {
            outlets: Table::new(),
            employees: Table::new(),
            products: Table::new(),
            ingredients: Table::new(),
            suppliers: Table::new(),
            sales: Table::new(),
            sale_items: Table::new(),
            purchase_orders: Table::new(),
            purchase_order_items: Table::new(),
            distributions: Table::new(),
            daily_checklists: Table::new(),
            shift_reports: Table::new(),
            candidates: Table::new(),
            promotions: Table::new(),
            assets: Table::new(),
            cash_flow: Table::new(),
            users: Vec::new(),
        }
    }

    pub fn users(&self) -> (r: &Vec<User>)
        ensures
            r@ == self.users@,
    {
        &self.users
    }

    /// The user keyed by `id`, if any.
    pub fn find_user(&self, id: Identity) -> (r: Option<&User>)
        ensures
            match r {
                Some(u) => has_user(self.users@, id) && u.id == id,
                None => !has_user(self.users@, id),
            },
    {
        let mut i: usize = 0;
        while i < self.users.len()
            invariant
                i <= self.users@.len(),
                forall|j: int| 0 <= j < i ==> #[trigger] self.users@[j].id != id,
            decreases self.users@.len() - i,
        {
            if self.users[i].id == id {
                return Some(&self.users[i]);
            }
            i = i + 1;
        }
        None
    }
}

} // verus!
