use vstd::prelude::*;
use crate::history::HistoryStore;
use crate::order::{items_after_add, Order, OrderStatus};
use crate::payment::{Payment, PaymentMethod};
use crate::product::Product;

verus! {

/// An archived order: paid, with a payment whose amount is the order's total.
pub open spec fn is_settled(o: Order) -> bool {
    &&& o.wf()
    &&& o.status == OrderStatus::Paid
    &&& o.payment.is_some()
    &&& o.payment.unwrap().amount == o.total
}

/// Every order in `orders` is settled.
pub open spec fn all_settled(orders: Seq<Order>) -> bool {
    forall|i: int| 0 <= i < orders.len() ==> is_settled(#[trigger] orders[i])
}

/// Keeps the products whose identity is not `id`.
pub open spec fn other_than(id: Seq<char>) -> spec_fn(Product) -> bool {
    |p: Product| p.id@ != id
}

/// The state of one terminal: the catalog, the active order and the history
/// of finalized orders.
pub struct Register {
    pub products: Vec<Product>,
    pub current_order: Order,
    pub history: HistoryStore,
}

impl Register {
    /// The active order is well formed and every archived order is settled.
    pub open spec fn wf(&self) -> bool {
        &&& self.current_order.wf()
        &&& all_settled(self.history@)
    }

    /// A terminal selling `products`, with a fresh empty order and no history.
    pub fn new(products: Vec<Product>) -> (r: Self)
        ensures
            r.wf(),
            r.products@ == products@,
            r.current_order.items@.len() == 0,
            r.current_order.total == 0,
            r.current_order.status == OrderStatus::Pending,
            r.history@.len() == 0,
    {
        Register { products, current_order: Order::new(), history: HistoryStore::new() }
    }

    /// Puts one unit of `product` in the active order, at the product's
    /// current name and price if it opens a new line.
    pub fn select_product(&mut self, product: &Product)
        requires
            old(self).wf(),
            old(self).current_order.can_add(product.id@, product.price),
        ensures
            final(self).wf(),
            final(self).current_order.items@ == items_after_add(
                old(self).current_order.items@,
                product.id,
                product.name,
                product.price,
            ),
            final(self).current_order.same_header(&old(self).current_order),
            final(self).products == old(self).products,
            final(self).history@ == old(self).history@,
    {
        self.current_order.add_item(product.id.clone(), product.name.clone(), product.price);
    }

    /// Checks out the active order: records a payment by `method` for the
    /// order's current total, marks the order paid, archives it, and starts
    /// a fresh empty order. Returns the payment.
    pub fn confirm_payment(&mut self, method: PaymentMethod) -> (r: Payment)
        requires
            old(self).wf(),
        ensures
            final(self).wf(),
            r.method == method,
            r.amount == old(self).current_order.total,
            r.processed_at.wf(),
            final(self).history@ == old(self).history@.push(old(self).current_order.settled(r)),
            final(self).current_order.items@.len() == 0,
            final(self).current_order.subtotal == 0,
            final(self).current_order.tax == 0,
            final(self).current_order.total == 0,
            final(self).current_order.payment.is_none(),
            final(self).current_order.status == OrderStatus::Pending,
            final(self).products == old(self).products,
    {
        let payment = Payment::new(method, self.current_order.total);
        let mut finished = Order::new();
        std::mem::swap(&mut finished, &mut self.current_order);
        finished.complete_payment(payment);
        self.history.append(finished);
        proof {
            let h = self.history@;
            assert forall|i: int| 0 <= i < h.len() implies is_settled(#[trigger] h[i]) by {
                if i < h.len() - 1 {
                    assert(h[i] == old(self).history@[i]);
                }
            }
        }
        payment
    }

    /// Adds `product` at the end of the catalog.
    pub fn add_product(&mut self, product: Product)
        ensures
            final(self).products@ == old(self).products@.push(product),
            final(self).current_order == old(self).current_order,
            final(self).history@ == old(self).history@,
    {
        self.products.push(product);
    }

    /// Removes every product whose identity is `product_id` from the catalog,
    /// keeping the others in order.
    pub fn delete_product(&mut self, product_id: &str)
        ensures
            final(self).products@ == old(self).products@.filter(other_than(product_id@)),
            final(self).current_order == old(self).current_order,
            final(self).history@ == old(self).history@,
    {
        let key = product_id.to_owned();
        let ghost all = self.products@;
        let mut rest: Vec<Product> = Vec::new();
        std::mem::swap(&mut rest, &mut self.products);
        let mut kept: Vec<Product> = Vec::new();
        let ghost mut j: int = 0;
        while rest.len() > 0
            invariant
                0 <= j <= all.len(),
                rest@ == all.subrange(j, all.len() as int),
                kept@ == all.subrange(0, j).filter(other_than(key@)),
                key@ == product_id@,
            decreases rest@.len(),
        {
            let p = rest.remove(0);
            proof {
                assert(p == all[j]);
                assert(all.subrange(0, j + 1).drop_last() =~= all.subrange(0, j));
                reveal(Seq::filter);
            }
            if p.id != key {
                kept.push(p);
            }
            proof {
                j = j + 1;
                assert(rest@ =~= all.subrange(j, all.len() as int));
            }
        }
        proof {
            assert(all.subrange(0, j) =~= all);
        }
        self.products = kept;
    }
}

} // verus!
