use vstd::prelude::*;

use crate::channel::CommitError;
use crate::control::{
    committed, emitted, pending_event, with_pending, AnalogAxis, Button, ControlModel,
};
use crate::wire::TypedEvent;

verus! {

/// The events that committing each of `cs` in turn sends, in order.
pub open spec fn all_emitted<T: crate::wire::ControllerValue>(cs: Seq<ControlModel<T>>) -> Seq<TypedEvent>
    decreases cs.len(),
{
    if cs.len() == 0 {
        Seq::empty()
    } else {
        all_emitted(cs.drop_last()) + emitted(cs.last())
    }
}

/// `cs` with the controls before index `k` committed and the others as they were.
pub open spec fn committed_upto<T: crate::wire::ControllerValue>(cs: Seq<ControlModel<T>>, k: int) -> Seq<ControlModel<T>> {
    Seq::new(cs.len(), |j: int| if j < k { committed(cs[j]) } else { cs[j] })
}

/// The control registry: every axis and button of the device. All of them
/// share one channel; the registry records, as ghost state, the events its
/// controls handed to that channel, in the one order in which they were queued.
pub struct UI {
    axes: Vec<AnalogAxis>,
    button: Vec<Button>,
    log: Ghost<Seq<TypedEvent>>,
}

/// `u1` is `u0` after the axis at `i` was committed successfully.
pub open spec fn axis_committed(u0: UI, i: int, u1: UI) -> bool {
    &&& 0 <= i < u0.axes_model().len()
    &&& u1.axes_model() == u0.axes_model().update(i, committed(u0.axes_model()[i]))
    &&& u1.buttons_model() == u0.buttons_model()
    &&& u1.log() == u0.log() + emitted(u0.axes_model()[i])
}

/// `u1` is `u0` after the button at `i` was committed successfully.
pub open spec fn button_committed(u0: UI, i: int, u1: UI) -> bool {
    &&& 0 <= i < u0.buttons_model().len()
    &&& u1.buttons_model() == u0.buttons_model().update(i, committed(u0.buttons_model()[i]))
    &&& u1.axes_model() == u0.axes_model()
    &&& u1.log() == u0.log() + emitted(u0.buttons_model()[i])
}

/// `u1` is `u0` after the pending value of the axis at `i` was set to `v`.
pub open spec fn axis_set(u0: UI, i: int, v: i8, u1: UI) -> bool {
    &&& 0 <= i < u0.axes_model().len()
    &&& u1.axes_model() == u0.axes_model().update(i, with_pending(u0.axes_model()[i], v))
    &&& u1.buttons_model() == u0.buttons_model()
    &&& u1.log() == u0.log()
}

/// `u1` is `u0` after the pending value of the button at `i` was set to `v`.
pub open spec fn button_set(u0: UI, i: int, v: bool, u1: UI) -> bool {
    &&& 0 <= i < u0.buttons_model().len()
    &&& u1.buttons_model() == u0.buttons_model().update(i, with_pending(u0.buttons_model()[i], v))
    &&& u1.axes_model() == u0.axes_model()
    &&& u1.log() == u0.log()
}

impl UI {
    pub closed spec fn axes_model(self) -> Seq<ControlModel<i8>> {
        self.axes@.map_values(|c: AnalogAxis| c.model())
    }

    pub closed spec fn buttons_model(self) -> Seq<ControlModel<bool>> {
        self.button@.map_values(|c: Button| c.model())
    }

    pub closed spec fn axis_labels(self) -> Seq<Seq<char>> {
        self.axes@.map_values(|c: AnalogAxis| c.label())
    }

    pub closed spec fn button_labels(self) -> Seq<Seq<char>> {
        self.button@.map_values(|c: Button| c.label())
    }

    /// The events the registry's controls handed to the channel, in queue order.
    pub closed spec fn log(self) -> Seq<TypedEvent> {
        self.log@
    }

    pub fn new(axes: Vec<AnalogAxis>, button: Vec<Button>) -> (r: Self)
        ensures
            r.axes_model() == axes@.map_values(|c: AnalogAxis| c.model()),
            r.buttons_model() == button@.map_values(|c: Button| c.model()),
            r.axis_labels() == axes@.map_values(|c: AnalogAxis| c.label()),
            r.button_labels() == button@.map_values(|c: Button| c.label()),
            r.log() == Seq::<TypedEvent>::empty(),
    {
        UI { axes, button, log: Ghost(Seq::empty()) }
    }

    /// Sets the wanted value of the axis at `i`, clamped to its domain.
    pub fn set_axis(&mut self, i: usize, v: i8)
        requires
            i < old(self).axes_model().len(),
        ensures
            axis_set(*old(self), i as int, v, *final(self)),
            final(self).axis_labels() == old(self).axis_labels(),
            final(self).button_labels() == old(self).button_labels(),
    {
        self.axes[i].set_pending(v);
        proof {
            assert(self.axes_model() =~= old(self).axes_model().update(
                i as int,
                with_pending(old(self).axes_model()[i as int], v),
            ));
            assert(self.axis_labels() =~= old(self).axis_labels());
        }
    }

    /// Sets the wanted state of the button at `i`.
    pub fn set_button(&mut self, i: usize, v: bool)
        requires
            i < old(self).buttons_model().len(),
        ensures
            button_set(*old(self), i as int, v, *final(self)),
            final(self).axis_labels() == old(self).axis_labels(),
            final(self).button_labels() == old(self).button_labels(),
    {
        self.button[i].set_pending(v);
        proof {
            assert(self.buttons_model() =~= old(self).buttons_model().update(
                i as int,
                with_pending(old(self).buttons_model()[i as int], v),
            ));
            assert(self.button_labels() =~= old(self).button_labels());
        }
    }

    /// Commits every axis, then every button, in order; stops at the first
    /// control whose event could not be queued.
    pub fn commit_all(&mut self) -> (r: Result<(), CommitError>)
        ensures
            (forall|j: int| 0 <= j < old(self).axes_model().len() ==> #[trigger] old(self).axes_model()[j].pending
                == old(self).axes_model()[j].last) && (forall|j: int|
                0 <= j < old(self).buttons_model().len() ==> #[trigger] old(self).buttons_model()[j].pending
                    == old(self).buttons_model()[j].last) ==> r is Ok,
            r is Ok ==> final(self).axes_model() == old(self).axes_model().map_values(
                |c: ControlModel<i8>| committed(c),
            ) && final(self).buttons_model() == old(self).buttons_model().map_values(
                |c: ControlModel<bool>| committed(c),
            ) && final(self).log() == old(self).log() + all_emitted(old(self).axes_model())
                + all_emitted(old(self).buttons_model()),
            r is Err ==> (exists|k: int|
                0 <= k < old(self).axes_model().len() && old(self).axes_model()[k].pending
                    != old(self).axes_model()[k].last && final(self).axes_model() == #[trigger] committed_upto(
                    old(self).axes_model(),
                    k,
                ) && final(self).buttons_model() == old(self).buttons_model() && final(self).log()
                    == old(self).log() + all_emitted(old(self).axes_model().take(k))) || (exists|k: int|
                0 <= k < old(self).buttons_model().len() && old(self).buttons_model()[k].pending
                    != old(self).buttons_model()[k].last && final(self).axes_model()
                    == old(self).axes_model().map_values(|c: ControlModel<i8>| committed(c))
                    && final(self).buttons_model() == #[trigger] committed_upto(old(self).buttons_model(), k)
                    && final(self).log() == old(self).log() + all_emitted(old(self).axes_model())
                    + all_emitted(old(self).buttons_model().take(k))),
            final(self).axis_labels() == old(self).axis_labels(),
            final(self).button_labels() == old(self).button_labels(),
    {
        let ghost a0 = self.axes_model();
        let ghost b0 = self.buttons_model();
        let ghost l0 = self.log();
        let ghost at_rest = (forall|j: int| 0 <= j < a0.len() ==> #[trigger] a0[j].pending == a0[j].last)
            && (forall|j: int| 0 <= j < b0.len() ==> #[trigger] b0[j].pending == b0[j].last);
        let n = self.axes.len();
        let mut k: usize = 0;
        while k < n
            invariant
                n == a0.len(),
                a0 == old(self).axes_model(),
                b0 == old(self).buttons_model(),
                l0 == old(self).log(),
                k <= n,
                self.axes_model().len() == a0.len(),
                forall|j: int| 0 <= j < k ==> #[trigger] self.axes_model()[j] == committed(a0[j]),
                forall|j: int| k <= j < n ==> #[trigger] self.axes_model()[j] == a0[j],
                self.buttons_model() == b0,
                self.log() == l0 + all_emitted(a0.take(k as int)),
                self.axis_labels() == old(self).axis_labels(),
                self.button_labels() == old(self).button_labels(),
                at_rest == ((forall|j: int| 0 <= j < a0.len() ==> #[trigger] a0[j].pending == a0[j].last)
                    && (forall|j: int| 0 <= j < b0.len() ==> #[trigger] b0[j].pending == b0[j].last)),
            decreases n - k,
        {
            assert(self.axes_model()[k as int] == a0[k as int]);
            let r = self.commit_axis(k);
            if r.is_err() {
                proof {
                    if at_rest {
                        assert(a0[k as int].pending == a0[k as int].last);
                    }
                    assert(self.axes_model() =~= committed_upto(a0, k as int));
                    assert(a0[k as int].pending != a0[k as int].last);
                }
                return r;
            }
            proof {
                assert(a0.take(k + 1).drop_last() =~= a0.take(k as int));
            }
            k = k + 1;
        }
        assert(a0.take(n as int) =~= a0);
        let m = self.button.len();
        let mut k: usize = 0;
        while k < m
            invariant
                m == b0.len(),
                a0 == old(self).axes_model(),
                b0 == old(self).buttons_model(),
                l0 == old(self).log(),
                k <= m,
                self.axes_model() == a0.map_values(|c: ControlModel<i8>| committed(c)),
                self.buttons_model().len() == b0.len(),
                forall|j: int| 0 <= j < k ==> #[trigger] self.buttons_model()[j] == committed(b0[j]),
                forall|j: int| k <= j < m ==> #[trigger] self.buttons_model()[j] == b0[j],
                self.log() == l0 + all_emitted(a0) + all_emitted(b0.take(k as int)),
                self.axis_labels() == old(self).axis_labels(),
                self.button_labels() == old(self).button_labels(),
                at_rest == ((forall|j: int| 0 <= j < a0.len() ==> #[trigger] a0[j].pending == a0[j].last)
                    && (forall|j: int| 0 <= j < b0.len() ==> #[trigger] b0[j].pending == b0[j].last)),
            decreases m - k,
        {
            assert(self.buttons_model()[k as int] == b0[k as int]);
            let r = self.commit_button(k);
            if r.is_err() {
                proof {
                    if at_rest {
                        assert(b0[k as int].pending == b0[k as int].last);
                    }
                    assert(self.buttons_model() =~= committed_upto(b0, k as int));
                    assert(b0[k as int].pending != b0[k as int].last);
                }
                return r;
            }
            proof {
                assert(b0.take(k + 1).drop_last() =~= b0.take(k as int));
            }
            k = k + 1;
        }
        assert(b0.take(m as int) =~= b0);
        assert(self.buttons_model() =~= b0.map_values(|c: ControlModel<bool>| committed(c)));
        Ok(())
    }

    pub fn axis_count(&self) -> (r: usize)
        ensures
            r == self.axes_model().len(),
    {
        self.axes.len()
    }

    pub fn button_count(&self) -> (r: usize)
        ensures
            r == self.buttons_model().len(),
    {
        self.button.len()
    }

    pub fn axis_name(&self, i: usize) -> (r: &'static str)
        requires
            i < self.axes_model().len(),
        ensures
            r@ == self.axis_labels()[i as int],
    {
        self.axes[i].name()
    }

    pub fn button_name(&self, i: usize) -> (r: &'static str)
        requires
            i < self.buttons_model().len(),
        ensures
            r@ == self.button_labels()[i as int],
    {
        self.button[i].name()
    }

    pub fn axis_pending(&self, i: usize) -> (r: i8)
        requires
            i < self.axes_model().len(),
        ensures
            r == self.axes_model()[i as int].pending,
    {
        self.axes[i].pending()
    }

    pub fn button_pending(&self, i: usize) -> (r: bool)
        requires
            i < self.buttons_model().len(),
        ensures
            r == self.buttons_model()[i as int].pending,
    {
        self.button[i].pending()
    }

    /// Commits the axis at `i`.
    pub fn commit_axis(&mut self, i: usize) -> (r: Result<(), CommitError>)
        requires
            i < old(self).axes_model().len(),
        ensures
            old(self).axes_model()[i as int].pending == old(self).axes_model()[i as int].last ==> r is Ok,
            r is Ok ==> axis_committed(*old(self), i as int, *final(self)),
            r is Err ==> final(self).axes_model() == old(self).axes_model() && final(self).buttons_model()
                == old(self).buttons_model() && final(self).log() == old(self).log(),
            final(self).axis_labels() == old(self).axis_labels(),
            final(self).button_labels() == old(self).button_labels(),
    {
        let ghost c0 = self.axes@[i as int].model();
        let r = self.axes[i].new_value();
        if r.is_ok() {
            self.log = Ghost(self.log@ + emitted(c0));
        }
        proof {
            assert(self.axes_model() =~= old(self).axes_model().update(
                i as int,
                self.axes@[i as int].model(),
            ));
            assert(self.axis_labels() =~= old(self).axis_labels());
            if r is Err {
                assert(self.axes_model() =~= old(self).axes_model());
            }
        }
        r
    }

    /// Commits the button at `i`.
    pub fn commit_button(&mut self, i: usize) -> (r: Result<(), CommitError>)
        requires
            i < old(self).buttons_model().len(),
        ensures
            old(self).buttons_model()[i as int].pending == old(self).buttons_model()[i as int].last ==> r is Ok,
            r is Ok ==> button_committed(*old(self), i as int, *final(self)),
            r is Err ==> final(self).axes_model() == old(self).axes_model() && final(self).buttons_model()
                == old(self).buttons_model() && final(self).log() == old(self).log(),
            final(self).axis_labels() == old(self).axis_labels(),
            final(self).button_labels() == old(self).button_labels(),
    {
        let ghost c0 = self.button@[i as int].model();
        let r = self.button[i].new_value();
        if r.is_ok() {
            self.log = Ghost(self.log@ + emitted(c0));
        }
        proof {
            assert(self.buttons_model() =~= old(self).buttons_model().update(
                i as int,
                self.button@[i as int].model(),
            ));
            assert(self.button_labels() =~= old(self).button_labels());
            if r is Err {
                assert(self.buttons_model() =~= old(self).buttons_model());
            }
        }
        r
    }
}

/// Interleaved commits keep their order: when an axis, then a button, then the
/// same axis again (after a new value was set for it) are committed and each
/// has a change, the shared queue gets exactly their three events, in that order.
pub proof fn interleaved_commits_keep_order(u0: UI, u1: UI, u2: UI, u3: UI, u4: UI, a: int, b: int, v: i8)
    requires
        axis_committed(u0, a, u1),
        button_committed(u1, b, u2),
        axis_set(u2, a, v, u3),
        axis_committed(u3, a, u4),
        u0.axes_model()[a].pending != u0.axes_model()[a].last,
        u1.buttons_model()[b].pending != u1.buttons_model()[b].last,
        u3.axes_model()[a].pending != u3.axes_model()[a].last,
    ensures
        u4.log() == u0.log() + seq![
            pending_event(u0.axes_model()[a]),
            pending_event(u1.buttons_model()[b]),
            pending_event(u3.axes_model()[a]),
        ],
{
    assert(u4.log() =~= u0.log() + seq![
        pending_event(u0.axes_model()[a]),
        pending_event(u1.buttons_model()[b]),
        pending_event(u3.axes_model()[a]),
    ]);
}

} // verus!
