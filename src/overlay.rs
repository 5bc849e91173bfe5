//! The registry of live overlay windows. Native creation and destruction
//! happen outside it; it records what was created and hands everything over,
//! at once, for teardown.
use vstd::prelude::*;
use crate::error::ControlError;

verus! {

/// The registry after a creation was recorded.
pub open spec fn after_create(held: Seq<OverlayHandle>, created: OverlayHandle) -> Seq<OverlayHandle> {
    held.push(created)
}

/// The registry after a teardown: nothing is left.
pub open spec fn after_teardown(held: Seq<OverlayHandle>) -> Seq<OverlayHandle> {
    Seq::empty()
}

/// What a teardown hands over for destruction: everything that was held.
pub open spec fn handed_over(held: Seq<OverlayHandle>) -> Seq<OverlayHandle> {
    held
}

/// An opaque reference to one live native overlay window.
#[derive(Clone, Copy, Debug, PartialEq, Eq, Structural)]
pub struct OverlayHandle {
    pub raw: usize,
}

/// The overlays created and not yet torn down, in order of creation.
pub struct OverlayRegistry {
    handles: Vec<OverlayHandle>,
}

impl View for OverlayRegistry {
    type V = Seq<OverlayHandle>;

    closed spec fn view(&self) -> Seq<OverlayHandle> {
        self.handles@
    }
}

impl OverlayRegistry {
    /// An empty registry.
    pub fn new() -> (r: OverlayRegistry)
        ensures
            r@ == Seq::<OverlayHandle>::empty(),
    {
        OverlayRegistry { handles: Vec::new() }
    }

    /// Records a newly created overlay after those already held.
    pub fn add_overlay(&mut self, handle: OverlayHandle)
        ensures
            final(self)@ == after_create(old(self)@, handle),
    {
        self.handles.push(handle);
    }

    /// Records the outcome of a native creation: a created overlay is added;
    /// a failure leaves the registry as it was and is reported with the
    /// platform's diagnostic.
    pub fn record_creation(&mut self, outcome: Result<OverlayHandle, String>) -> (r: Result<
        (),
        ControlError,
    >)
        ensures
            match outcome {
                Ok(h) => r is Ok && final(self)@ == after_create(old(self)@, h),
                Err(d) => r == Err::<(), ControlError>(ControlError::OverlayCreationFailed(d))
                    && final(self)@ == old(self)@,
            },
    {
        match outcome {
            Ok(h) => {
                self.add_overlay(h);
                Ok(())
            },
            Err(d) => Err(ControlError::OverlayCreationFailed(d)),
        }
    }

    /// Empties the registry and returns every overlay it held, in order, each
    /// to be destroyed by the caller.
    pub fn take_all(&mut self) -> (r: Vec<OverlayHandle>)
        ensures
            r@ == handed_over(old(self)@),
            final(self)@ == after_teardown(old(self)@),
    {
        let mut taken: Vec<OverlayHandle> = Vec::new();
        std::mem::swap(&mut taken, &mut self.handles);
        taken
    }

    /// How many overlays are live.
    pub fn len(&self) -> (r: usize)
        ensures
            r == self@.len(),
    {
        self.handles.len()
    }

    pub fn is_empty(&self) -> (r: bool)
        ensures
            r == (self@.len() == 0),
    {
        self.handles.len() == 0
    }

    /// The live overlays, in order of creation.
    pub fn handles(&self) -> (r: Vec<OverlayHandle>)
        ensures
            r@ == self@,
    {
        self.handles.clone()
    }
}

/// An overlay created and then torn down is handed over for destruction, with
/// every other overlay that was live, and the registry is left empty.
pub proof fn create_then_destroy_releases(held: Seq<OverlayHandle>, created: OverlayHandle)
    ensures
        handed_over(after_create(held, created)).contains(created),
        forall|h: OverlayHandle| held.contains(h) ==> handed_over(after_create(held, created)).contains(h),
        after_teardown(after_create(held, created)).len() == 0,
{
    let s = after_create(held, created);
    assert(s[held.len() as int] == created);
    assert forall|h: OverlayHandle| held.contains(h) implies s.contains(h) by {
        let i = choose|i: int| 0 <= i < held.len() && held[i] == h;
        assert(s[i] == h);
    }
}

/// Tearing down an empty registry hands nothing over and leaves it as it was.
pub proof fn destroy_without_create_is_noop(held: Seq<OverlayHandle>)
    requires
        held.len() == 0,
    ensures
        handed_over(held).len() == 0,
        after_teardown(held) == held,
{
    assert(after_teardown(held) =~= held);
}

/// Two creations, whichever takes the lock first, leave an empty registry
/// holding exactly both overlays, neither in place of the other.
pub proof fn two_creations_keep_both(first: OverlayHandle, second: OverlayHandle)
    ensures
        after_create(after_create(Seq::empty(), first), second) == seq![first, second],
        after_create(after_create(Seq::empty(), second), first) == seq![second, first],
{
    assert(after_create(after_create(Seq::empty(), first), second) =~= seq![first, second]);
    assert(after_create(after_create(Seq::empty(), second), first) =~= seq![second, first]);
}

} // verus!
