use crate::schema::{PurchaseOrderItem, PurchaseOrderItemInput};
use vstd::prelude::*;

verus! {

/// The rows that recording `items` under order `order_id` adds, keyed from `first_id` on.
pub open spec fn order_lines(items: Seq<PurchaseOrderItemInput>, order_id: u64, first_id: u64) -> Seq<
    PurchaseOrderItem,
> {
    Seq::new(
        items.len(),
        |k: int|
            PurchaseOrderItem {
                id: (first_id + k) as u64,
                purchase_order_id: order_id,
                ingredient_id: items[k].ingredient_id,
                quantity: items[k].quantity,
                price: items[k].price,
            },
    )
}

/// The rows, in order, that belong to the purchase order `order_id`.
pub open spec fn rows_of_order(rows: Seq<PurchaseOrderItem>, order_id: u64) -> Seq<PurchaseOrderItem>
    decreases rows.len(),
{
    if rows.len() == 0 {
        Seq::empty()
    } else if rows.last().purchase_order_id == order_id {
        rows_of_order(rows.drop_last(), order_id).push(rows.last())
    } else {
        rows_of_order(rows.drop_last(), order_id)
    }
}

/// Rows of other orders followed by the lines of a new order: the new order owns
/// exactly its lines.
pub proof fn lemma_rows_of_new_order(
    rows: Seq<PurchaseOrderItem>,
    items: Seq<PurchaseOrderItemInput>,
    order_id: u64,
    first_id: u64,
)
    requires
        forall|k: int| 0 <= k < rows.len() ==> #[trigger] rows[k].purchase_order_id != order_id,
    ensures
        rows_of_order(rows + order_lines(items, order_id, first_id), order_id) == order_lines(
            items,
            order_id,
            first_id,
        ),
    decreases items.len(),
{
    let lines = order_lines(items, order_id, first_id);
    if items.len() == 0 {
        assert(rows + lines == rows);
        lemma_rows_of_other_orders(rows, order_id);
        assert(lines =~= Seq::empty());
    } else {
        assert(order_lines(items.drop_last(), order_id, first_id) =~= lines.drop_last());
        assert((rows + lines).drop_last() == rows + lines.drop_last());
        lemma_rows_of_new_order(rows, items.drop_last(), order_id, first_id);
        assert(lines.drop_last().push(lines.last()) =~= lines);
    }
}

/// Rows none of which belong to `order_id` leave it with no rows.
pub proof fn lemma_rows_of_other_orders(rows: Seq<PurchaseOrderItem>, order_id: u64)
    requires
        forall|k: int| 0 <= k < rows.len() ==> #[trigger] rows[k].purchase_order_id != order_id,
    ensures
        rows_of_order(rows, order_id) == Seq::<PurchaseOrderItem>::empty(),
    decreases rows.len(),
{
    if rows.len() > 0 {
        lemma_rows_of_other_orders(rows.drop_last(), order_id);
    }
}

} // verus!
