use vstd::prelude::*;
use crate::order::Order;

verus! {

/// Sum of the totals of `orders`.
pub open spec fn revenue_of(orders: Seq<Order>) -> int
    decreases orders.len(),
{
    if orders.len() == 0 {
        0
    } else {
        revenue_of(orders.drop_last()) + orders.last().total as int
    }
}

/// Finalized orders, oldest first. Orders are only ever appended.
pub struct HistoryStore {
    orders: Vec<Order>,
}

/// Number of archived orders and the sum of their totals.
#[derive(Clone, Copy, Debug, PartialEq, Eq, Structural)]
pub struct HistorySummary {
    pub count: usize,
    pub total_revenue: u128,
}

impl View for HistoryStore {
    type V = Seq<Order>;

    closed spec fn view(&self) -> Seq<Order> {
        self.orders@
    }
}

proof fn lemma_revenue_prefix(s: Seq<Order>, i: int)
    requires
        0 <= i < s.len(),
    ensures
        revenue_of(s.subrange(0, i + 1)) == revenue_of(s.subrange(0, i)) + s[i].total as int,
{
    assert(s.subrange(0, i + 1).drop_last() =~= s.subrange(0, i));
}

proof fn lemma_revenue_bound(s: Seq<Order>)
    ensures
        0 <= revenue_of(s) <= s.len() * (u64::MAX as int),
    decreases s.len(),
{
    if s.len() > 0 {
        lemma_revenue_bound(s.drop_last());
        assert((s.len() - 1) * (u64::MAX as int) + u64::MAX as int == s.len() * (u64::MAX as int))
            by (nonlinear_arith);
    }
}

/// Appending an order raises the count by exactly one and the revenue by
/// exactly that order's total.
pub proof fn lemma_append_summary(history: Seq<Order>, order: Order)
    ensures
        history.push(order).len() == history.len() + 1,
        revenue_of(history.push(order)) == revenue_of(history) + order.total as int,
{
    assert(history.push(order).drop_last() =~= history);
}

impl HistoryStore {
    /// An empty history.
    pub fn new() -> (r: Self)
        ensures
            r@ == Seq::<Order>::empty(),
    {
        HistoryStore { orders: Vec::new() }
    }

    /// Adds `order` after every order already archived.
    pub fn append(&mut self, order: Order)
        ensures
            final(self)@ == old(self)@.push(order),
    {
        self.orders.push(order);
    }

    /// The archived orders, oldest first.
    pub fn orders(&self) -> (r: &Vec<Order>)
        ensures
            r@ == self@,
    {
        &self.orders
    }

    /// Number of archived orders.
    pub fn len(&self) -> (r: usize)
        ensures
            r == self@.len(),
    {
        self.orders.len()
    }

    /// Count of archived orders and the sum of their totals.
    pub fn summary(&self) -> (r: HistorySummary)
        ensures
            r.count == self@.len(),
            r.total_revenue as int == revenue_of(self@),
    {
        let mut sum: u128 = 0;
        let mut i: usize = 0;
        while i < self.orders.len()
            invariant
                i <= self@.len(),
                sum as int == revenue_of(self@.subrange(0, i as int)),
            decreases self@.len() - i,
        {
            proof {
                lemma_revenue_prefix(self@, i as int);
                lemma_revenue_bound(self@.subrange(0, i as int + 1));
                assert((i as int + 1) * (u64::MAX as int) <= (usize::MAX as int + 1) * (
                u64::MAX as int)) by (nonlinear_arith)
                    requires
                        i < usize::MAX,
                ;
            }
            sum = sum + self.orders[i].total as u128;
            i = i + 1;
        }
        proof {
            assert(self@.subrange(0, i as int) =~= self@);
        }
        HistorySummary { count: self.orders.len(), total_revenue: sum }
    }
}

} // verus!
