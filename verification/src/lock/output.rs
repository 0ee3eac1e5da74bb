//! The outputs that the compositor advertises, and who is told of them.

use vstd::prelude::*;

verus! {

/// The outputs and their listeners.
pub struct OutputsView {
    /// The server-assigned ids of the outputs, in the order they came.
    pub outputs: Seq<u32>,
    /// Somebody is told of outputs that come.
    pub created_listener: bool,
    /// Somebody is told of outputs that go.
    pub removed_listener: bool,
}

/// The ids without `id`, in the order they had.
pub open spec fn spec_without(ids: Seq<u32>, id: u32) -> Seq<u32>
    decreases ids.len(),
{
    if ids.len() == 0 {
        Seq::empty()
    } else if ids.last() == id {
        spec_without(ids.drop_last(), id)
    } else {
        spec_without(ids.drop_last(), id).push(ids.last())
    }
}

impl OutputsView {
    /// No outputs and no listeners.
    pub open spec fn empty() -> OutputsView {
        OutputsView { outputs: Seq::empty(), created_listener: false, removed_listener: false }
    }

    /// The outputs that a listener for new outputs is told of at once, when
    /// it is set: all that are there.
    pub open spec fn replayed(self, listener: bool) -> Seq<u32> {
        if listener {
            self.outputs
        } else {
            Seq::empty()
        }
    }

    /// Whom to tell that the output `id` came.
    pub open spec fn told_of_created(self, id: u32) -> Option<u32> {
        if self.created_listener {
            Some(id)
        } else {
            None
        }
    }

    /// Whom to tell that the output `id` went.
    pub open spec fn told_of_removed(self, id: u32) -> Option<u32> {
        if self.removed_listener {
            Some(id)
        } else {
            None
        }
    }

    /// The outputs after `id` came.
    pub open spec fn created(self, id: u32) -> OutputsView {
        OutputsView { outputs: self.outputs.push(id), ..self }
    }

    /// The outputs after `id` went.
    pub open spec fn removed(self, id: u32) -> OutputsView {
        OutputsView { outputs: spec_without(self.outputs, id), ..self }
    }
}

/// What is left after an id was taken out does not hold the id, and holds
/// every other id that was there.
pub proof fn without_drops_only_the_id(ids: Seq<u32>, id: u32)
    ensures
        !spec_without(ids, id).contains(id),
        forall|other: u32| other != id ==> (#[trigger] spec_without(ids, id).contains(other)
            <==> ids.contains(other)),
        spec_without(ids, id).len() <= ids.len(),
    decreases ids.len(),
{
    if ids.len() > 0 {
        let init = ids.drop_last();
        let rest = spec_without(init, id);
        without_drops_only_the_id(init, id);
        assert forall|other: u32| other != id implies (#[trigger] spec_without(ids, id).contains(
            other,
        ) <==> ids.contains(other)) by {
            if ids.contains(other) {
                let i = choose|i: int| 0 <= i < ids.len() && ids[i] == other;
                if i < init.len() {
                    assert(init[i] == other);
                    assert(rest.contains(other));
                    let j = choose|j: int| 0 <= j < rest.len() && rest[j] == other;
                    assert(spec_without(ids, id)[j] == other);
                } else {
                    assert(spec_without(ids, id).last() == other);
                }
            }
            if spec_without(ids, id).contains(other) {
                let j = choose|j: int|
                    0 <= j < spec_without(ids, id).len() && spec_without(ids, id)[j] == other;
                if j < rest.len() {
                    assert(rest[j] == other);
                    assert(rest.contains(other));
                    let i = choose|i: int| 0 <= i < init.len() && init[i] == other;
                    assert(ids[i] == other);
                } else {
                    assert(ids.last() == other);
                    assert(ids[ids.len() - 1] == other);
                }
            }
        }
        if ids.last() != id {
            assert forall|j: int| 0 <= j < spec_without(ids, id).len() implies spec_without(
                ids,
                id,
            )[j] != id by {
                if j < rest.len() {
                    assert(rest[j] == spec_without(ids, id)[j]);
                    assert(rest.contains(rest[j]));
                }
            }
        }
    }
}

/// A listener for new outputs that is set late misses nothing: it is told
/// at once of every output that came before and has not gone, and of none
/// that has gone.
pub proof fn late_listener_sees_every_output(outputs: OutputsView, came: u32, went: u32)
    ensures
        outputs.created(came).replayed(true).contains(came),
        !outputs.removed(went).replayed(true).contains(went),
        came != went ==> outputs.created(came).removed(went).replayed(true).contains(came),
        outputs.replayed(true) == outputs.outputs,
{
    let after = outputs.created(came);
    assert(after.outputs[after.outputs.len() - 1] == came);
    without_drops_only_the_id(outputs.outputs, went);
    without_drops_only_the_id(after.outputs, went);
}

/// Keeps the outputs that the compositor advertises. A listener that is
/// set is told of every output that is there, and from then on of every
/// change; telling is left to the caller, who gets the ids to tell of.
pub struct LockOutputHandler {
    outputs: Vec<u32>,
    created_listener: bool,
    removed_listener: bool,
}

impl View for LockOutputHandler {
    type V = OutputsView;

    closed spec fn view(&self) -> OutputsView {
        OutputsView {
            outputs: self.outputs@,
            created_listener: self.created_listener,
            removed_listener: self.removed_listener,
        }
    }
}

/// Takes `id` out of the ids, wherever it stands.
pub fn remove_id(ids: &mut Vec<u32>, id: u32)
    ensures
        final(ids)@ == spec_without(old(ids)@, id),
{
    let ghost before = ids@;
    let ghost mut done: int = 0;
    let mut i: usize = 0;
    while i != ids.len()
        invariant
            before == old(ids)@,
            0 <= done <= before.len(),
            i <= ids.len(),
            ids.len() - i == before.len() - done,
            i == spec_without(before.take(done), id).len(),
            ids@ == spec_without(before.take(done), id) + before.skip(done),
        decreases ids.len() - i,
    {
        let ghost kept = spec_without(before.take(done), id);
        let ghost current = ids@;
        assert(current[i as int] == before[done]);
        assert(before.take(done + 1).drop_last() =~= before.take(done));
        assert(before.take(done + 1).last() == before[done]);
        if ids[i] == id {
            let _ = ids.remove(i);
            assert(ids@ =~= kept + before.skip(done + 1));
        } else {
            i += 1;
            assert(ids@ =~= kept.push(before[done]) + before.skip(done + 1));
        }
        proof {
            done = done + 1;
        }
    }
    assert(before.take(done) =~= before);
    assert(ids@ =~= spec_without(before, id));
}

/// A copy of the ids.
pub fn copy_ids(ids: &Vec<u32>) -> (copy: Vec<u32>)
    ensures
        copy@ == ids@,
{
    let mut copy: Vec<u32> = Vec::new();
    let mut i: usize = 0;
    while i < ids.len()
        invariant
            i <= ids.len(),
            copy@ == ids@.take(i as int),
        decreases ids.len() - i,
    {
        copy.push(ids[i]);
        assert(copy@ =~= ids@.take(i + 1));
        i += 1;
    }
    assert(ids@.take(ids.len() as int) =~= ids@);
    copy
}

impl LockOutputHandler {
    /// No outputs and no listeners.
    pub fn new() -> (handler: LockOutputHandler)
        ensures
            handler@ == OutputsView::empty(),
    {
        LockOutputHandler { outputs: Vec::new(), created_listener: false, removed_listener: false }
    }

    /// Sets or removes the listener for outputs that come. A listener that
    /// is set has to be told at once of every output that is there: their
    /// ids are returned, in the order the outputs came.
    pub fn set_created_listener(&mut self, listener: bool) -> (replay: Vec<u32>)
        ensures
            final(self)@ == (OutputsView { created_listener: listener, ..old(self)@ }),
            replay@ == old(self)@.replayed(listener),
    {
        self.created_listener = listener;
        if listener {
            copy_ids(&self.outputs)
        } else {
            Vec::new()
        }
    }

    /// Sets or removes the listener for outputs that go.
    pub fn set_removed_listener(&mut self, listener: bool)
        ensures
            final(self)@ == (OutputsView { removed_listener: listener, ..old(self)@ }),
    {
        self.removed_listener = listener;
    }

    /// Takes note that the output `id` came. Returns the id if there is a
    /// listener to tell.
    pub fn created(&mut self, id: u32) -> (told: Option<u32>)
        ensures
            final(self)@ == old(self)@.created(id),
            told == old(self)@.told_of_created(id),
    {
        self.outputs.push(id);
        if self.created_listener {
            Some(id)
        } else {
            None
        }
    }

    /// Takes note that the output `id` went. Returns the id if there is a
    /// listener to tell.
    pub fn removed(&mut self, id: u32) -> (told: Option<u32>)
        ensures
            final(self)@ == old(self)@.removed(id),
            told == old(self)@.told_of_removed(id),
    {
        remove_id(&mut self.outputs, id);
        if self.removed_listener {
            Some(id)
        } else {
            None
        }
    }

    /// The ids of all outputs, in the order they came.
    pub fn get_all(&self) -> (all: Vec<u32>)
        ensures
            all@ == self@.outputs,
    {
        copy_ids(&self.outputs)
    }
}

/// Who can be asked to tell of outputs that come and go.
pub trait OutputHandling {
    /// The outputs and their listeners.
    spec fn outputs(&self) -> OutputsView;

    /// Sets or removes the listener for outputs that come; returns the
    /// outputs to tell a new listener of at once.
    fn set_output_created_listener(&mut self, listener: bool) -> (replay: Vec<u32>)
        ensures
            final(self).outputs() == (OutputsView {
                created_listener: listener,
                ..old(self).outputs()
            }),
            replay@ == old(self).outputs().replayed(listener),
    ;

    /// Sets or removes the listener for outputs that go.
    fn set_output_removed_listener(&mut self, listener: bool)
        ensures
            final(self).outputs() == (OutputsView {
                removed_listener: listener,
                ..old(self).outputs()
            }),
    ;
}

impl OutputHandling for LockOutputHandler {
    open spec fn outputs(&self) -> OutputsView {
        self@
    }

    fn set_output_created_listener(&mut self, listener: bool) -> (replay: Vec<u32>) {
        self.set_created_listener(listener)
    }

    fn set_output_removed_listener(&mut self, listener: bool) {
        self.set_removed_listener(listener)
    }
}

} // verus!
