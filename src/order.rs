use vstd::prelude::*;
use crate::ids::fresh_id;
use crate::money::{tax_for, tax_of, MAX_SUBTOTAL};
use crate::payment::Payment;
use crate::time::{now, Timestamp};

verus! {

/// An order: the active cart while `Pending`, and the archived record once
/// `Paid`. Subtotal, tax and total are derived from the items and never set
/// on their own.
#[derive(Clone, Debug, PartialEq)]
pub struct Order {
    pub id: String,
    pub items: Vec<OrderItem>,
    pub subtotal: u64,
    pub tax: u64,
    pub total: u64,
    pub payment: Option<Payment>,
    pub status: OrderStatus,
    pub created_at: Timestamp,
}

/// One product's line in an order, with the product's name and unit price as
/// they were when the line was opened.
#[derive(Clone, Debug, PartialEq)]
pub struct OrderItem {
    pub product_id: String,
    pub product_name: String,
    pub price: u64,
    pub quantity: u32,
}

#[derive(Clone, Copy, Debug, PartialEq, Eq, Structural)]
pub enum OrderStatus {
    Pending,
    Paid,
    Refunded,
    Cancelled,
}

/// Price times quantity of one line.
pub open spec fn line_total(item: OrderItem) -> int {
    item.price as int * item.quantity as int
}

/// Sum of the line totals.
pub open spec fn items_subtotal(items: Seq<OrderItem>) -> int
    decreases items.len(),
{
    if items.len() == 0 {
        0
    } else {
        items_subtotal(items.drop_last()) + line_total(items.last())
    }
}

/// No two lines share a product identity.
pub open spec fn ids_unique(items: Seq<OrderItem>) -> bool {
    forall|i: int, j: int|
        #![trigger items[i], items[j]]
        0 <= i < j < items.len() ==> items[i].product_id@ != items[j].product_id@
}

/// Every line holds at least one unit.
pub open spec fn quantities_positive(items: Seq<OrderItem>) -> bool {
    forall|i: int| 0 <= i < items.len() ==> items[i].quantity >= 1
}

/// Some line is for product `id`.
pub open spec fn has_item(items: Seq<OrderItem>, id: Seq<char>) -> bool {
    exists|k: int| 0 <= k < items.len() && items[k].product_id@ == id
}

/// The position of the line for product `id` (meaningful when `has_item`).
pub open spec fn item_index(items: Seq<OrderItem>, id: Seq<char>) -> int {
    choose|k: int| 0 <= k < items.len() && items[k].product_id@ == id
}

/// The same line with one more unit.
pub open spec fn bumped(item: OrderItem) -> OrderItem {
    OrderItem { quantity: (item.quantity + 1) as u32, ..item }
}

/// The same line with one unit fewer.
pub open spec fn reduced(item: OrderItem) -> OrderItem {
    OrderItem { quantity: (item.quantity - 1) as u32, ..item }
}

/// The lines after adding one unit of product `id`: the existing line grows,
/// or a new line of one unit with the given name and price is appended.
pub open spec fn items_after_add(items: Seq<OrderItem>, id: String, name: String, price: u64) -> Seq<
    OrderItem,
> {
    if has_item(items, id@) {
        let k = item_index(items, id@);
        items.update(k, bumped(items[k]))
    } else {
        items.push(OrderItem { product_id: id, product_name: name, price, quantity: 1 })
    }
}

/// The lines after taking one unit of product `id` away: a line of several
/// units shrinks, a line of one unit disappears, an absent product changes
/// nothing.
pub open spec fn items_after_remove(items: Seq<OrderItem>, id: Seq<char>) -> Seq<OrderItem> {
    if has_item(items, id) {
        let k = item_index(items, id);
        if items[k].quantity > 1 {
            items.update(k, reduced(items[k]))
        } else {
            items.remove(k)
        }
    } else {
        items
    }
}

proof fn lemma_line_nonneg(item: OrderItem)
    ensures
        line_total(item) >= 0,
{
    assert(item.price as int * item.quantity as int >= 0) by (nonlinear_arith);
}

proof fn lemma_line_bumped(item: OrderItem)
    requires
        item.quantity < u32::MAX,
    ensures
        line_total(bumped(item)) == line_total(item) + item.price,
{
    assert(item.price as int * (item.quantity as int + 1) == item.price as int * item.quantity as int
        + item.price as int) by (nonlinear_arith);
}

proof fn lemma_line_reduced(item: OrderItem)
    requires
        item.quantity >= 1,
    ensures
        line_total(reduced(item)) == line_total(item) - item.price,
{
    assert(item.price as int * (item.quantity as int - 1) == item.price as int * item.quantity as int
        - item.price as int) by (nonlinear_arith);
}

proof fn lemma_subtotal_nonneg(s: Seq<OrderItem>)
    ensures
        items_subtotal(s) >= 0,
    decreases s.len(),
{
    if s.len() > 0 {
        lemma_subtotal_nonneg(s.drop_last());
        lemma_line_nonneg(s.last());
    }
}

proof fn lemma_subtotal_prefix(s: Seq<OrderItem>, i: int)
    requires
        0 <= i < s.len(),
    ensures
        items_subtotal(s.subrange(0, i + 1)) == items_subtotal(s.subrange(0, i)) + line_total(
            s[i],
        ),
{
    assert(s.subrange(0, i + 1).drop_last() =~= s.subrange(0, i));
}

proof fn lemma_subtotal_prefix_le(s: Seq<OrderItem>, i: int)
    requires
        0 <= i <= s.len(),
    ensures
        0 <= items_subtotal(s.subrange(0, i)) <= items_subtotal(s),
    decreases s.len() - i,
{
    lemma_subtotal_nonneg(s.subrange(0, i));
    if i < s.len() {
        lemma_subtotal_prefix_le(s, i + 1);
        lemma_subtotal_prefix(s, i);
        lemma_line_nonneg(s[i]);
    } else {
        assert(s.subrange(0, i) =~= s);
    }
}

proof fn lemma_subtotal_push(s: Seq<OrderItem>, x: OrderItem)
    ensures
        items_subtotal(s.push(x)) == items_subtotal(s) + line_total(x),
{
    assert(s.push(x).drop_last() =~= s);
}

proof fn lemma_subtotal_update(s: Seq<OrderItem>, k: int, x: OrderItem)
    requires
        0 <= k < s.len(),
    ensures
        items_subtotal(s.update(k, x)) == items_subtotal(s) - line_total(s[k]) + line_total(x),
    decreases s.len(),
{
    if k == s.len() - 1 {
        assert(s.update(k, x).drop_last() =~= s.drop_last());
    } else {
        lemma_subtotal_update(s.drop_last(), k, x);
        assert(s.update(k, x).drop_last() =~= s.drop_last().update(k, x));
    }
}

proof fn lemma_subtotal_remove(s: Seq<OrderItem>, k: int)
    requires
        0 <= k < s.len(),
    ensures
        items_subtotal(s.remove(k)) == items_subtotal(s) - line_total(s[k]),
    decreases s.len(),
{
    if k == s.len() - 1 {
        assert(s.remove(k) =~= s.drop_last());
    } else {
        lemma_subtotal_remove(s.drop_last(), k);
        assert(s.remove(k).drop_last() =~= s.drop_last().remove(k));
    }
}

/// Sum of the line totals of `items`.
fn items_sum(items: &Vec<OrderItem>) -> (r: u64)
    requires
        items_subtotal(items@) <= MAX_SUBTOTAL,
    ensures
        r as int == items_subtotal(items@),
{
    let mut sum: u64 = 0;
    let mut i: usize = 0;
    while i < items.len()
        invariant
            i <= items@.len(),
            items_subtotal(items@) <= MAX_SUBTOTAL,
            sum as int == items_subtotal(items@.subrange(0, i as int)),
        decreases items@.len() - i,
    {
        proof {
            lemma_subtotal_prefix(items@, i as int);
            lemma_subtotal_prefix_le(items@, i as int + 1);
            lemma_subtotal_nonneg(items@.subrange(0, i as int));
        }
        let line = items[i].price * (items[i].quantity as u64);
        sum = sum + line;
        i = i + 1;
    }
    proof {
        assert(items@.subrange(0, i as int) =~= items@);
    }
    sum
}

/// Position of the line for product `id`, if there is one.
fn find_line(items: &Vec<OrderItem>, id: &String) -> (r: Option<usize>)
    requires
        ids_unique(items@),
    ensures
        r.is_some() == has_item(items@, id@),
        r.is_some() ==> r.unwrap() as int == item_index(items@, id@) && r.unwrap() < items@.len(),
{
    let mut i: usize = 0;
    while i < items.len()
        invariant
            i <= items@.len(),
            ids_unique(items@),
            forall|j: int| 0 <= j < i ==> items@[j].product_id@ != id@,
        decreases items@.len() - i,
    {
        if items[i].product_id == *id {
            proof {
                assert(items@[i as int].product_id@ == id@);
                assert(has_item(items@, id@));
                let k = item_index(items@, id@);
                assert(k == i) by {
                    if k < i {
                        assert(items@[k].product_id@ != items@[i as int].product_id@);
                    } else if k > i {
                        assert(items@[i as int].product_id@ != items@[k].product_id@);
                    }
                }
            }
            return Some(i);
        }
        i = i + 1;
    }
    None
}

impl OrderItem {
    /// Price times quantity of this line.
    pub fn line_amount(&self) -> (r: u128)
        ensures
            r as int == line_total(*self),
    {
        assert(self.price as int * self.quantity as int <= u64::MAX as int * u32::MAX as int)
            by (nonlinear_arith);
        self.price as u128 * self.quantity as u128
    }
}

impl Order {
    /// Subtotal, tax and total agree with the items.
    pub open spec fn totals_match(&self) -> bool {
        &&& self.subtotal as int == items_subtotal(self.items@)
        &&& self.tax as int == tax_of(self.subtotal as int)
        &&& self.total as int == self.subtotal as int + self.tax as int
    }

    /// A well-formed order: one line per product, no empty line, totals
    /// derived from the lines, and a payment whenever it is paid.
    pub open spec fn wf(&self) -> bool {
        &&& ids_unique(self.items@)
        &&& quantities_positive(self.items@)
        &&& self.subtotal <= MAX_SUBTOTAL
        &&& self.totals_match()
        &&& (self.status == OrderStatus::Paid ==> self.payment.is_some())
    }

    /// This order with subtotal, tax and total derived from its items.
    pub open spec fn recomputed(self) -> Order {
        let s = items_subtotal(self.items@);
        Order { subtotal: s as u64, tax: tax_of(s) as u64, total: (s + tax_of(s)) as u64, ..self }
    }

    /// The unit price that one more unit of product `id` adds: that of the
    /// existing line, or `price` for a new line.
    pub open spec fn unit_price_for(&self, id: Seq<char>, price: u64) -> u64 {
        if has_item(self.items@, id) {
            self.items@[item_index(self.items@, id)].price
        } else {
            price
        }
    }

    /// One more unit of product `id` keeps the subtotal within
    /// `MAX_SUBTOTAL` and the line's quantity within `u32`.
    pub open spec fn can_add(&self, id: Seq<char>, price: u64) -> bool {
        &&& self.subtotal + self.unit_price_for(id, price) <= MAX_SUBTOTAL
        &&& (has_item(self.items@, id) ==> self.items@[item_index(self.items@, id)].quantity
            < u32::MAX)
    }

    /// This order with `payment` attached and its status set to paid.
    pub open spec fn settled(self, payment: Payment) -> Order {
        Order { payment: Some(payment), status: OrderStatus::Paid, ..self }
    }

    /// Every field but the items and the totals is as in `o`.
    pub open spec fn same_header(&self, o: &Order) -> bool {
        &&& self.id == o.id
        &&& self.payment == o.payment
        &&& self.status == o.status
        &&& self.created_at == o.created_at
    }

    /// A new empty pending order with a fresh 36-character identity, zero
    /// totals and the current time as its creation time.
    pub fn new() -> (r: Self)
        ensures
            r.wf(),
            r.id@.len() == 36,
            r.items@.len() == 0,
            r.subtotal == 0,
            r.tax == 0,
            r.total == 0,
            r.payment.is_none(),
            r.status == OrderStatus::Pending,
            r.created_at.wf(),
    {
        Order {
            id: fresh_id(),
            items: Vec::new(),
            subtotal: 0,
            tax: 0,
            total: 0,
            payment: None,
            status: OrderStatus::Pending,
            created_at: now(),
        }
    }

    /// Whether one more unit of product `product_id` (at `price` if it opens
    /// a new line) can be added.
    pub fn can_add_item(&self, product_id: &String, price: u64) -> (r: bool)
        requires
            self.wf(),
        ensures
            r == self.can_add(product_id@, price),
    {
        match find_line(&self.items, product_id) {
            Some(k) => {
                let unit = self.items[k].price;
                self.items[k].quantity < u32::MAX && unit <= MAX_SUBTOTAL && self.subtotal
                    <= MAX_SUBTOTAL - unit
            },
            None => price <= MAX_SUBTOTAL && self.subtotal <= MAX_SUBTOTAL - price,
        }
    }

    /// Adds one unit of product `product_id`. An existing line grows by one
    /// and keeps its own name and price; otherwise a line of one unit with
    /// `product_name` and `price` is appended. Totals are recomputed.
    pub fn add_item(&mut self, product_id: String, product_name: String, price: u64)
        requires
            old(self).wf(),
            old(self).can_add(product_id@, price),
        ensures
            final(self).wf(),
            final(self).items@ == items_after_add(old(self).items@, product_id, product_name, price),
            final(self).subtotal == old(self).subtotal + old(self).unit_price_for(product_id@, price),
            final(self).same_header(old(self)),
    {
        let ghost items0 = self.items@;
        let ghost new_line = OrderItem {
            product_id: product_id,
            product_name: product_name,
            price,
            quantity: 1,
        };
        match find_line(&self.items, &product_id) {
            Some(k) => {
                let q = self.items[k].quantity;
                self.items[k].quantity = q + 1;
                proof {
                    assert(self.items@ =~= items0.update(k as int, bumped(items0[k as int])));
                    lemma_subtotal_update(items0, k as int, bumped(items0[k as int]));
                    lemma_line_bumped(items0[k as int]);
                }
            },
            None => {
                self.items.push(
                    OrderItem { product_id, product_name, price, quantity: 1 },
                );
                proof {
                    lemma_subtotal_push(items0, new_line);
                }
            },
        }
        self.calculate_totals();
    }

    /// Takes one unit of product `product_id` away: a line of several units
    /// shrinks by one, a line of one unit is removed, and an absent product
    /// changes nothing. Totals are recomputed.
    pub fn remove_item(&mut self, product_id: &str)
        requires
            old(self).wf(),
        ensures
            final(self).wf(),
            final(self).items@ == items_after_remove(old(self).items@, product_id@),
            final(self).same_header(old(self)),
    {
        let ghost items0 = self.items@;
        let key = product_id.to_owned();
        match find_line(&self.items, &key) {
            Some(k) => {
                let q = self.items[k].quantity;
                if q > 1 {
                    self.items[k].quantity = q - 1;
                    proof {
                        assert(self.items@ =~= items0.update(k as int, reduced(items0[k as int])));
                        lemma_subtotal_update(items0, k as int, reduced(items0[k as int]));
                        lemma_line_reduced(items0[k as int]);
                    }
                } else {
                    let _gone = self.items.remove(k);
                    proof {
                        lemma_subtotal_remove(items0, k as int);
                        lemma_line_nonneg(items0[k as int]);
                        assert forall|i: int, j: int|
                            0 <= i < j < self.items@.len() implies self.items@[i].product_id@
                            != self.items@[j].product_id@ by {
                            let oi = if i < k { i } else { i + 1 };
                            let oj = if j < k { j } else { j + 1 };
                            assert(self.items@[i] == items0[oi]);
                            assert(self.items@[j] == items0[oj]);
                        }
                    }
                }
            },
            None => {},
        }
        proof {
            lemma_subtotal_nonneg(self.items@);
        }
        self.calculate_totals();
    }

    /// Empties the order; all totals become zero.
    pub fn clear(&mut self)
        requires
            old(self).wf(),
        ensures
            final(self).wf(),
            final(self).items@.len() == 0,
            final(self).subtotal == 0,
            final(self).tax == 0,
            final(self).total == 0,
            final(self).same_header(old(self)),
    {
        self.items.clear();
        self.calculate_totals();
    }

    /// Sets subtotal, tax and total from the items.
    pub fn calculate_totals(&mut self)
        requires
            items_subtotal(old(self).items@) <= MAX_SUBTOTAL,
        ensures
            *final(self) == old(self).recomputed(),
    {
        let s = items_sum(&self.items);
        let t = tax_for(s);
        self.subtotal = s;
        self.tax = t;
        self.total = s + t;
    }

    /// Attaches `payment` and marks the order paid. Items and totals are
    /// left as they are; that the payment's amount equals the total is up
    /// to the caller.
    pub fn complete_payment(&mut self, payment: Payment)
        ensures
            *final(self) == old(self).settled(payment),
            old(self).wf() ==> final(self).wf(),
    {
        self.payment = Some(payment);
        self.status = OrderStatus::Paid;
    }

    /// Adds one more unit to the line of product `product_id`, keeping that
    /// line's name and price; an absent product changes nothing. Totals are
    /// recomputed.
    pub fn increment_item(&mut self, product_id: &str)
        requires
            old(self).wf(),
            old(self).can_add(product_id@, 0),
        ensures
            final(self).wf(),
            final(self).items@ == (if has_item(old(self).items@, product_id@) {
                let k = item_index(old(self).items@, product_id@);
                old(self).items@.update(k, bumped(old(self).items@[k]))
            } else {
                old(self).items@
            }),
            final(self).same_header(old(self)),
    {
        let key = product_id.to_owned();
        match find_line(&self.items, &key) {
            Some(k) => {
                let id = self.items[k].product_id.clone();
                let name = self.items[k].product_name.clone();
                let price = self.items[k].price;
                self.add_item(id, name, price);
            },
            None => {},
        }
    }
}

/// Recomputing the totals a second time changes nothing.
pub proof fn lemma_recompute_idempotent(order: Order)
    requires
        items_subtotal(order.items@) <= MAX_SUBTOTAL,
    ensures
        order.recomputed().recomputed() == order.recomputed(),
{
}

/// Taking away the last unit of a product leaves no line for it at all.
pub proof fn lemma_last_unit_leaves(items: Seq<OrderItem>, id: Seq<char>)
    requires
        ids_unique(items),
        has_item(items, id),
        items[item_index(items, id)].quantity == 1,
    ensures
        !has_item(items_after_remove(items, id), id),
        items_after_remove(items, id).len() == items.len() - 1,
{
    let k = item_index(items, id);
    let r = items.remove(k);
    assert forall|j: int| 0 <= j < r.len() implies r[j].product_id@ != id by {
        let oj = if j < k { j } else { j + 1 };
        assert(r[j] == items[oj]);
        if oj < k {
            assert(items[oj].product_id@ != items[k].product_id@);
        } else {
            assert(items[k].product_id@ != items[oj].product_id@);
        }
    }
}

impl OrderStatus {
    /// Display label of the status.
    pub open spec fn label(self) -> Seq<char> {
        match self {
            OrderStatus::Pending => "Pending"@,
            OrderStatus::Paid => "Paid"@,
            OrderStatus::Refunded => "Refunded"@,
            OrderStatus::Cancelled => "Cancelled"@,
        }
    }

    pub fn as_str(&self) -> (r: &str)
        ensures
            r@ == self.label(),
    {
        match self {
            OrderStatus::Pending => "Pending",
            OrderStatus::Paid => "Paid",
            OrderStatus::Refunded => "Refunded",
            OrderStatus::Cancelled => "Cancelled",
        }
    }
}

} // verus!
