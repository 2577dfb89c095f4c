use crate::table::Keyed;
use vstd::prelude::*;

verus! {

/// A point in time, in microseconds before (negative) or after the Unix epoch.
#[derive(Clone, Copy, Debug, PartialEq, Eq, Structural)]
pub struct Timestamp {
    pub micros: i64,
}

/// A caller principal: a 256-bit value, held as its high and low halves.
#[derive(Clone, Copy, Debug, PartialEq, Eq, Structural)]
pub struct Identity {
    pub high: u128,
    pub low: u128,
}

#[derive(Clone, Copy, Debug, PartialEq, Eq, Structural)]
pub enum OutletStatus {
    Open,
    Closed,
    Renovation,
    Planned,
}

#[derive(Clone, Copy, Debug, PartialEq, Eq, Structural)]
pub enum UserRole {
    AdminPusat,
    AreaManager,
    OutletManager,
    Kasir,
    HR,
    Gudang,
    Finance,
}

#[derive(Clone, Copy, Debug, PartialEq, Eq, Structural)]
pub enum EmploymentStatus {
    Active,
    Inactive,
}

#[derive(Clone, Copy, Debug, PartialEq, Eq, Structural)]
pub enum PaymentMethod {
    Cash,
    Card,
    EWallet,
    Transfer,
}

#[derive(Clone, Copy, Debug, PartialEq, Eq, Structural)]
pub enum POStatus {
    Created,
    Ordered,
    Received,
    Cancelled,
}

#[derive(Clone, Copy, Debug, PartialEq, Eq, Structural)]
pub enum DistributionStatus {
    Pending,
    InTransit,
    Delivered,
}

#[derive(Clone, Copy, Debug, PartialEq, Eq, Structural)]
pub enum DiscountType {
    Percentage,
    FixedAmount,
}

#[derive(Clone, Copy, Debug, PartialEq, Eq, Structural)]
pub enum AssetStatus {
    InUse,
    Maintenance,
    Broken,
}

#[derive(Clone, Copy, Debug, PartialEq, Eq, Structural)]
pub enum CashFlowType {
    Inflow,
    Outflow,
}

#[derive(Clone, Copy, Debug, PartialEq, Eq, Structural)]
pub enum CandidateStatus {
    Applied,
    Interview,
    Hired,
    Rejected,
}

#[derive(Clone, Copy, Debug, PartialEq, Eq, Structural)]
pub enum IngredientStatus {
    Active,
    Inactive,
}

#[derive(Clone, Copy, Debug, PartialEq, Eq, Structural)]
pub enum ShiftStatus {
    Open,
    Closed,
}

#[derive(Clone, Copy, Debug, PartialEq, Eq, Structural)]
pub enum PromotionStatus {
    Draft,
    Active,
    Ended,
}

/// One line of a sale as submitted by a caller.
#[derive(Clone, Copy, Debug, PartialEq, Eq, Structural)]
pub struct SaleItemInput {
    pub product_id: u64,
    pub quantity: i32,
    pub price: i64,
}

/// One line of a purchase order as submitted by a caller.
#[derive(Clone, Copy, Debug, PartialEq, Eq, Structural)]
pub struct PurchaseOrderItemInput {
    pub ingredient_id: u64,
    pub quantity: i64,
    pub price: i64,
}

/// A registered user, keyed by the principal that created it.
#[derive(Clone, Debug, PartialEq, Eq)]
pub struct User {
    pub id: Identity,
    pub username: String,
    pub role: UserRole,
    pub outlet_id: Option<u64>,
}

/// A retail or restaurant outlet; the root of most hierarchies.
#[derive(Clone, Debug, PartialEq, Eq)]
pub struct Outlet {
    pub id: u64,
    pub name: String,
    pub area: String,
    pub address: String,
    pub status: OutletStatus,
}

/// A staff member of an outlet; `salary` is in minor currency units.
#[derive(Clone, Debug, PartialEq, Eq)]
pub struct Employee {
    pub id: u64,
    pub name: String,
    pub position: String,
    pub outlet_id: u64,
    pub salary: i64,
    pub status: EmploymentStatus,
}

/// A product on sale at an outlet; `price` is in minor currency units.
#[derive(Clone, Debug, PartialEq, Eq)]
pub struct Product {
    pub id: u64,
    pub name: String,
    pub category: String,
    pub price: i64,
    pub outlet_id: u64,
}

/// A stocked ingredient of an outlet.
#[derive(Clone, Debug, PartialEq, Eq)]
pub struct Ingredient {
    pub id: u64,
    pub name: String,
    pub unit: String,
    pub min_stock: i64,
    pub stock: i64,
    pub outlet_id: u64,
    pub status: IngredientStatus,
}

/// A supplier that purchase orders are placed with.
#[derive(Clone, Debug, PartialEq, Eq)]
pub struct Supplier {
    pub id: u64,
    pub name: String,
    pub contact: String,
    pub rating: i32,
}

/// A recorded sale; `total` is computed from its items, in minor units.
#[derive(Clone, Debug, PartialEq, Eq)]
pub struct Sale {
    pub id: u64,
    pub outlet_id: u64,
    pub total: i64,
    pub payment_method: PaymentMethod,
    pub date: Timestamp,
}

/// One line of a sale; `price` is the unit price in minor units.
#[derive(Clone, Debug, PartialEq, Eq)]
pub struct SaleItem {
    pub id: u64,
    pub sale_id: u64,
    pub product_id: u64,
    pub quantity: i32,
    pub price: i64,
}

/// An order of ingredients from a supplier; `total` is as given by the caller.
#[derive(Clone, Debug, PartialEq, Eq)]
pub struct PurchaseOrder {
    pub id: u64,
    pub outlet_id: u64,
    pub supplier_id: u64,
    pub total: i64,
    pub status: POStatus,
    pub date: Timestamp,
}

/// One line of a purchase order; `price` is the unit price in minor units.
#[derive(Clone, Debug, PartialEq, Eq)]
pub struct PurchaseOrderItem {
    pub id: u64,
    pub purchase_order_id: u64,
    pub ingredient_id: u64,
    pub quantity: i64,
    pub price: i64,
}

/// A transfer of an ingredient between two distinct outlets.
#[derive(Clone, Debug, PartialEq, Eq)]
pub struct Distribution {
    pub id: u64,
    pub from_outlet_id: u64,
    pub to_outlet_id: u64,
    pub ingredient_id: u64,
    pub quantity: i64,
    pub status: DistributionStatus,
    pub date: Timestamp,
}

/// A daily checklist of an outlet.
#[derive(Clone, Debug, PartialEq, Eq)]
pub struct DailyChecklist {
    pub id: u64,
    pub outlet_id: u64,
    pub checklist_name: String,
    pub is_completed: bool,
    pub date: Timestamp,
}

/// A cashier shift of an employee; cash amounts in minor units.
#[derive(Clone, Debug, PartialEq, Eq)]
pub struct ShiftReport {
    pub id: u64,
    pub outlet_id: u64,
    pub employee_id: u64,
    pub shift_start: Timestamp,
    pub shift_end: Timestamp,
    pub initial_cash: i64,
    pub final_cash: i64,
    pub status: ShiftStatus,
}

/// A job applicant.
#[derive(Clone, Debug, PartialEq, Eq)]
pub struct Candidate {
    pub id: u64,
    pub name: String,
    pub position: String,
    pub phone: String,
    pub email: String,
    pub status: CandidateStatus,
}

/// A promotion; `discount_value` is in basis points for a percentage, else in minor units.
#[derive(Clone, Debug, PartialEq, Eq)]
pub struct Promotion {
    pub id: u64,
    pub name: String,
    pub discount_type: DiscountType,
    pub discount_value: i64,
    pub start_date: Timestamp,
    pub end_date: Timestamp,
    pub status: PromotionStatus,
}

/// A piece of equipment of an outlet.
#[derive(Clone, Debug, PartialEq, Eq)]
pub struct Asset {
    pub id: u64,
    pub outlet_id: u64,
    pub name: String,
    pub category: String,
    pub status: AssetStatus,
    pub last_maintenance: Timestamp,
}

/// A cash movement of an outlet; `amount` is in minor units.
#[derive(Clone, Debug, PartialEq, Eq)]
pub struct CashFlow {
    pub id: u64,
    pub outlet_id: u64,
    pub ctype: CashFlowType,
    pub category: String,
    pub amount: i64,
    pub date: Timestamp,
    pub description: String,
}

impl Keyed for Outlet {
    open spec fn key(&self) -> u64 {
        self.id
    }

    fn id(&self) -> (r: u64) {
        self.id
    }
}

impl Keyed for Employee {
    open spec fn key(&self) -> u64 {
        self.id
    }

    fn id(&self) -> (r: u64) {
        self.id
    }
}

impl Keyed for Product {
    open spec fn key(&self) -> u64 {
        self.id
    }

    fn id(&self) -> (r: u64) {
        self.id
    }
}

impl Keyed for Ingredient {
    open spec fn key(&self) -> u64 {
        self.id
    }

    fn id(&self) -> (r: u64) {
        self.id
    }
}

impl Keyed for Supplier {
    open spec fn key(&self) -> u64 {
        self.id
    }

    fn id(&self) -> (r: u64) {
        self.id
    }
}

impl Keyed for Sale {
    open spec fn key(&self) -> u64 {
        self.id
    }

    fn id(&self) -> (r: u64) {
        self.id
    }
}

impl Keyed for SaleItem {
    open spec fn key(&self) -> u64 {
        self.id
    }

    fn id(&self) -> (r: u64) {
        self.id
    }
}

impl Keyed for PurchaseOrder {
    open spec fn key(&self) -> u64 {
        self.id
    }

    fn id(&self) -> (r: u64) {
        self.id
    }
}

impl Keyed for PurchaseOrderItem {
    open spec fn key(&self) -> u64 {
        self.id
    }

    fn id(&self) -> (r: u64) {
        self.id
    }
}

impl Keyed for Distribution {
    open spec fn key(&self) -> u64 {
        self.id
    }

    fn id(&self) -> (r: u64) {
        self.id
    }
}

impl Keyed for DailyChecklist {
    open spec fn key(&self) -> u64 {
        self.id
    }

    fn id(&self) -> (r: u64) {
        self.id
    }
}

impl Keyed for ShiftReport {
    open spec fn key(&self) -> u64 {
        self.id
    }

    fn id(&self) -> (r: u64) {
        self.id
    }
}

impl Keyed for Candidate {
    open spec fn key(&self) -> u64 {
        self.id
    }

    fn id(&self) -> (r: u64) {
        self.id
    }
}

impl Keyed for Promotion {
    open spec fn key(&self) -> u64 {
        self.id
    }

    fn id(&self) -> (r: u64) {
        self.id
    }
}

impl Keyed for Asset {
    open spec fn key(&self) -> u64 {
        self.id
    }

    fn id(&self) -> (r: u64) {
        self.id
    }
}

impl Keyed for CashFlow {
    open spec fn key(&self) -> u64 {
        self.id
    }

    fn id(&self) -> (r: u64) {
        self.id
    }
}

} // verus!
