//! The receipt: the root container of components.

use crate::components::Component;
use crate::ir::{extend_ops, op_if, ops_view, push_if, Op, OpV};
use vstd::prelude::*;

verus! {

/// The value of a [`Receipt`].
pub struct ReceiptModel {
    /// The ops of the children, in order.
    pub body: Seq<OpV>,
    pub auto_cut: bool,
    pub partial_cut: bool,
}

/// The root container: children in order, then optionally a cut.
///
/// A child's ops are fixed when it is added, so the receipt keeps them
/// rather than the child itself.
pub struct Receipt {
    body: Vec<Op>,
    auto_cut: bool,
    partial_cut: bool,
}

impl View for Receipt {
    type V = ReceiptModel;

    closed spec fn view(&self) -> ReceiptModel {
        ReceiptModel { body: ops_view(self.body@), auto_cut: self.auto_cut, partial_cut: self.partial_cut }
    }
}

impl Default for Receipt {
    fn default() -> (r: Receipt)
        ensures
            r@ == (ReceiptModel { body: Seq::empty(), auto_cut: false, partial_cut: false }),
    {
        Self::new()
    }
}

impl Receipt {
    /// An empty receipt without a cut.
    pub fn new() -> (r: Receipt)
        ensures
            r@ == (ReceiptModel { body: Seq::empty(), auto_cut: false, partial_cut: false }),
    {
        let r = Receipt { body: Vec::new(), auto_cut: false, partial_cut: false };
        assert(ops_view(r.body@) =~= Seq::empty());
        r
    }

    /// Add a child component.
    pub fn child<C: Component>(self, component: C) -> (r: Receipt)
        requires
            component.ready(),
        ensures
            r@ == (ReceiptModel { body: self@.body + component.emitted(), ..self@ }),
    {
        let mut r = self;
        component.emit(&mut r.body);
        r
    }

    /// Add several child components, in order.
    pub fn children<C: Component>(self, components: Vec<C>) -> (r: Receipt)
        requires
            forall|i: int| 0 <= i < components@.len() ==> #[trigger] components@[i].ready(),
        ensures
            r@.auto_cut == self@.auto_cut,
            r@.partial_cut == self@.partial_cut,
            r@.body == self@.body + emitted_all(components@),
    {
        let mut r = self;
        let mut i: usize = 0;
        while i < components.len()
            invariant
                i <= components.len(),
                forall|j: int| 0 <= j < components@.len() ==> #[trigger] components@[j].ready(),
                r@.auto_cut == self@.auto_cut,
                r@.partial_cut == self@.partial_cut,
                r@.body == self@.body + emitted_all(components@.subrange(0, i as int)),
            decreases components.len() - i,
        {
            components[i].emit(&mut r.body);
            proof {
                let s = components@.subrange(0, i + 1);
                assert(s.drop_last() =~= components@.subrange(0, i as int));
            }
            i = i + 1;
        }
        assert(components@.subrange(0, components.len() as int) =~= components@);
        r
    }

    /// Cut fully at the end.
    pub fn cut(self) -> (r: Receipt)
        ensures
            r@ == (ReceiptModel { auto_cut: true, partial_cut: false, ..self@ }),
    {
        let mut r = self;
        r.auto_cut = true;
        r.partial_cut = false;
        r
    }

    /// Cut partially at the end (leaves a hinge).
    pub fn partial_cut(self) -> (r: Receipt)
        ensures
            r@ == (ReceiptModel { auto_cut: true, partial_cut: true, ..self@ }),
    {
        let mut r = self;
        r.auto_cut = true;
        r.partial_cut = true;
        r
    }
}

/// The ops of components in order.
pub open spec fn emitted_all<C: Component>(cs: Seq<C>) -> Seq<OpV>
    decreases cs.len(),
{
    if cs.len() == 0 {
        Seq::empty()
    } else {
        emitted_all(cs.drop_last()) + cs.last().emitted()
    }
}

impl Component for Receipt {
    open spec fn ready(&self) -> bool {
        true
    }

    open spec fn emitted(&self) -> Seq<OpV> {
        self@.body + op_if(self@.auto_cut, OpV::Cut { partial: self@.partial_cut })
    }

    fn emit(&self, ops: &mut Vec<Op>) {
        extend_ops(ops, &self.body);
        push_if(ops, self.auto_cut, Op::Cut { partial: self.partial_cut });
        assert(ops_view(ops@) =~= ops_view(old(ops)@) + self.emitted());
    }
}

} // verus!
