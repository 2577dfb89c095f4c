use crate::schema::{SaleItem, SaleItemInput};
use vstd::prelude::*;

verus! {

/// `x` clamped to the `i64` range.
pub open spec fn clamp(x: int) -> i64 {
    if x < i64::MIN {
        i64::MIN
    } else if x > i64::MAX {
        i64::MAX
    } else {
        x as i64
    }
}

/// Saturating `price * quantity`.
pub open spec fn line_amount(price: i64, quantity: i32) -> i64 {
    clamp(price * quantity)
}

/// Saturating running sum of the line amounts, in order.
pub open spec fn sale_total(items: Seq<SaleItemInput>) -> i64
    decreases items.len(),
{
    if items.len() == 0 {
        0
    } else {
        clamp(sale_total(items.drop_last()) + line_amount(items.last().price, items.last().quantity))
    }
}

/// Saturating running sum, in row order, of the amounts of the rows of sale `sale_id`.
pub open spec fn items_total(rows: Seq<SaleItem>, sale_id: u64) -> i64
    decreases rows.len(),
{
    if rows.len() == 0 {
        0
    } else if rows.last().sale_id == sale_id {
        clamp(items_total(rows.drop_last(), sale_id) + line_amount(rows.last().price, rows.last().quantity))
    } else {
        items_total(rows.drop_last(), sale_id)
    }
}

/// The rows that recording `items` under sale `sale_id` adds, keyed from `first_id` on.
pub open spec fn sale_lines(items: Seq<SaleItemInput>, sale_id: u64, first_id: u64) -> Seq<SaleItem> {
    Seq::new(
        items.len(),
        |k: int|
            SaleItem {
                id: (first_id + k) as u64,
                sale_id,
                product_id: items[k].product_id,
                quantity: items[k].quantity,
                price: items[k].price,
            },
    )
}

/// Saturating `a + b`.
pub fn saturating_add(a: i64, b: i64) -> (r: i64)
    ensures
        r == clamp(a + b),
{
    match a.checked_add(b) {
        Some(v) => v,
        None => if b > 0 {
            i64::MAX
        } else {
            i64::MIN
        },
    }
}

/// Saturating `price * quantity`.
pub fn line_total(price: i64, quantity: i32) -> (r: i64)
    ensures
        r == line_amount(price, quantity),
{
    let q = quantity as i64;
    match price.checked_mul(q) {
        Some(v) => v,
        None => {
            if (price < 0) == (q < 0) {
                assert(price * q >= 0) by (nonlinear_arith)
                    requires
                        (price < 0) == (q < 0),
                ;
                i64::MAX
            } else {
                assert(price * q <= 0) by (nonlinear_arith)
                    requires
                        (price < 0) != (q < 0),
                ;
                i64::MIN
            }
        },
    }
}

/// The total of a sale: the saturating sum of `price * quantity` over its items.
pub fn compute_sale_total(items: &Vec<SaleItemInput>) -> (r: i64)
    ensures
        r == sale_total(items@),
{
    let mut total: i64 = 0;
    let mut k: usize = 0;
    while k < items.len()
        invariant
            k <= items@.len(),
            total == sale_total(items@.take(k as int)),
        decreases items@.len() - k,
    {
        let it = items[k];
        assert(items@.take(k + 1).drop_last() == items@.take(k as int));
        total = saturating_add(total, line_total(it.price, it.quantity));
        k = k + 1;
    }
    assert(items@.take(k as int) == items@);
    total
}

/// Rows of other sales do not change the total of `sale_id`.
pub proof fn lemma_items_total_other(rows: Seq<SaleItem>, extra: Seq<SaleItem>, sale_id: u64)
    requires
        forall|k: int| 0 <= k < extra.len() ==> #[trigger] extra[k].sale_id != sale_id,
    ensures
        items_total(rows + extra, sale_id) == items_total(rows, sale_id),
    decreases extra.len(),
{
    if extra.len() > 0 {
        assert((rows + extra).drop_last() == rows + extra.drop_last());
        lemma_items_total_other(rows, extra.drop_last(), sale_id);
    } else {
        assert(rows + extra == rows);
    }
}

/// Appending the lines of a new sale to rows of other sales gives that sale's total.
pub proof fn lemma_items_total_new(rows: Seq<SaleItem>, items: Seq<SaleItemInput>, sale_id: u64, first_id: u64)
    requires
        forall|k: int| 0 <= k < rows.len() ==> #[trigger] rows[k].sale_id != sale_id,
    ensures
        items_total(rows + sale_lines(items, sale_id, first_id), sale_id) == sale_total(items),
    decreases items.len(),
{
    let lines = sale_lines(items, sale_id, first_id);
    if items.len() == 0 {
        assert(rows + lines == rows);
        lemma_items_total_other(rows, Seq::empty(), sale_id);
        assert(rows + Seq::<SaleItem>::empty() == rows);
        lemma_items_total_none(rows, sale_id);
    } else {
        assert(sale_lines(items.drop_last(), sale_id, first_id) == lines.drop_last());
        assert((rows + lines).drop_last() == rows + lines.drop_last());
        lemma_items_total_new(rows, items.drop_last(), sale_id, first_id);
    }
}

/// Rows none of which belong to `sale_id` total zero for it.
pub proof fn lemma_items_total_none(rows: Seq<SaleItem>, sale_id: u64)
    requires
        forall|k: int| 0 <= k < rows.len() ==> #[trigger] rows[k].sale_id != sale_id,
    ensures
        items_total(rows, sale_id) == 0,
    decreases rows.len(),
{
    if rows.len() > 0 {
        lemma_items_total_none(rows.drop_last(), sale_id);
    }
}

} // verus!
