use vstd::prelude::*;
use std::rc::Rc;
use crate::ISetNullWeak;

verus! {

/// A nullable, reseatable wrapper around a non-atomic reference-counted
/// handle. The container is either Empty (no payload, no allocation) or
/// Occupied (it owns one strong reference to an allocation holding a `T`).
/// Its view is the payload it can currently reach, if any.
pub struct SharedPtr<T> {
    rc: Option<Rc<T>>,
}

impl<T> View for SharedPtr<T> {
    type V = Option<T>;

    closed spec fn view(&self) -> Option<T> {
        match self.rc {
            Some(rc) => Some(*rc),
            None => None,
        }
    }
}

impl<T> SharedPtr<T> {
    /// An Occupied container holding `v`, with a strong count of one.
    pub fn new(v: T) -> (r: SharedPtr<T>)
        ensures
            r@ == Some(v),
    {
        SharedPtr { rc: Some(Rc::new(v)) }
    }

    /// An Empty container. Nothing is allocated.
    pub fn zeroed() -> (r: SharedPtr<T>)
        ensures
            r@ is None,
    {
        SharedPtr { rc: None }
    }

    /// True exactly when the container is Empty.
    pub fn is_null(&self) -> (r: bool)
        ensures
            r == (self@ is None),
    {
        self.rc.is_none()
    }

    /// Installs a fresh allocation holding `v`. Whatever the container
    /// held before, it holds exactly `v` afterwards; a previously shared
    /// allocation merely loses this container's strong reference.
    pub fn write(&mut self, v: T)
        ensures
            final(self)@ == Some(v),
    {
        self.rc = Some(Rc::new(v));
    }

    /// Releases the strong reference, if any, and becomes Empty.
    pub fn set_null(&mut self)
        ensures
            final(self)@ is None,
    {
        self.rc = None;
    }

    /// Consumes the container, handing out the underlying handle when
    /// Occupied.
    pub fn assume_init(self) -> (r: Option<Rc<T>>)
        ensures
            r matches Some(rc) ==> self@ == Some(*rc),
            r is None <==> self@ is None,
    {
        self.rc
    }

    /// A borrow of the underlying handle. Dereferencing an Empty container
    /// is a contract violation, so Empty is ruled out up front.
    pub fn deref(&self) -> (r: &Rc<T>)
        requires
            self@ is Some,
        ensures
            self@ == Some(**r),
    {
        match &self.rc {
            Some(rc) => rc,
            None => unreached(),
        }
    }

    /// A mutable borrow of the underlying handle; Empty is ruled out up
    /// front. Reseating the handle through the borrow reseats the container.
    pub fn deref_mut(&mut self) -> (r: &mut Rc<T>)
        requires
            old(self)@ is Some,
        ensures
            old(self)@ == Some(**r),
            final(self)@ == Some(**final(r)),
    {
        match &mut self.rc {
            Some(rc) => rc,
            None => unreached(),
        }
    }

    /// Extracts the payload by value. It succeeds exactly when this
    /// container holds the only strong reference; on failure the container
    /// comes back unchanged inside the error, so no state is lost.
    pub fn into_inner(self) -> (r: Result<T, SharedPtr<T>>)
        ensures
            r matches Ok(t) ==> self@ == Some(t),
            r matches Err(p) ==> p@ == self@,
            self@ is None ==> r is Err,
    {
        match self.rc {
            Some(rc) => match Rc::try_unwrap(rc) {
                Ok(t) => Ok(t),
                Err(rc) => Err(SharedPtr { rc: Some(rc) }),
            },
            None => Err(SharedPtr { rc: None }),
        }
    }

    /// A mutable borrow of the payload, only when this container is
    /// Occupied and holds the allocation uniquely; `None` otherwise, and
    /// then the container is untouched. This is the safe mutation path.
    pub fn get_mut(&mut self) -> (r: Option<&mut T>)
        ensures
            r matches Some(m) ==> old(self)@ == Some(*m) && final(self)@ == Some(*final(m)),
            r is None ==> *final(self) == *old(self),
    {
        match &mut self.rc {
            Some(rc) => rc_get_mut(rc),
            None => None,
        }
    }

    /// A weak observer of the current allocation; `None` when Empty. The
    /// observer does not own the payload and never keeps it alive.
    pub fn weak(&self) -> (r: Option<WeakPtr<T>>)
        ensures
            r is Some <==> self@ is Some,
            r matches Some(w) ==> !w.is_reset(),
    {
        match &self.rc {
            Some(rc) => Some(WeakPtr { raw: Some(rc_downgrade(rc)) }),
            None => None,
        }
    }
}

/// Holds a std::rc::Weak, which Verus cannot see into. (The std type
/// itself cannot be declared to Verus: its allocator parameter is bound by
/// an unstable trait.)
#[verifier::external_body]
#[verifier::reject_recursive_types(T)]
struct RawWeak<T> {
    w: std::rc::Weak<T>,
}

/// Relies on std::rc::Rc::downgrade: the result observes the handle's
/// allocation without owning it and without keeping the payload alive.
#[verifier::external_body]
fn rc_downgrade<T>(rc: &Rc<T>) -> (w: RawWeak<T>) {
    RawWeak { w: Rc::downgrade(rc) }
}

/// Relies on std::rc::Weak::upgrade: a strong handle comes back only while
/// the allocation's strong count is still positive, and `None` once the
/// last strong reference is gone.
#[verifier::external_body]
fn rc_weak_upgrade<T>(w: &RawWeak<T>) -> (r: Option<Rc<T>>) {
    w.w.upgrade()
}

/// A non-owning observer of some container's allocation, or of nothing at
/// all once it has been reset.
#[verifier::reject_recursive_types(T)]
pub struct WeakPtr<T> {
    raw: Option<RawWeak<T>>,
}

impl<T> WeakPtr<T> {
    /// Attempts to reconstruct a strong container. A container that comes
    /// back is always Occupied; after a reset the attempt always fails.
    /// While other strong handles live, either outcome can occur, and the
    /// caller must treat `None` as routine.
    pub fn upgrade(&self) -> (r: Option<SharedPtr<T>>)
        ensures
            r matches Some(p) ==> p@ is Some,
            self.is_reset() ==> r is None,
    {
        match &self.raw {
            Some(raw) => match rc_weak_upgrade(raw) {
                Some(rc) => Some(SharedPtr { rc: Some(rc) }),
                None => None,
            },
            None => None,
        }
    }
}

impl<T> ISetNullWeak for WeakPtr<T> {
    closed spec fn is_reset(&self) -> bool {
        self.raw is None
    }

    fn set_null(&mut self) {
        self.raw = None;
    }
}

impl<T: Clone> SharedPtr<T> {
    /// Extracts the payload by value when this container holds the only
    /// strong reference, and otherwise clones it out of the shared
    /// allocation, leaving the other owners untouched. `None` only when
    /// Empty.
    pub fn into_or_clone_inner(self) -> (r: Option<T>)
        ensures
            r is None <==> self@ is None,
            r matches Some(t) ==> self@ matches Some(v) && (t == v || cloned::<T>(v, t)),
    {
        match self.rc {
            Some(rc) => match Rc::try_unwrap(rc) {
                Ok(t) => Some(t),
                Err(rc) => Some((*rc).clone()),
            },
            None => None,
        }
    }
}

/// Relies on std::rc::Rc::get_mut: a mutable borrow of the payload comes
/// back only when this handle holds the sole strong reference and no weak
/// reference exists; writing through the borrow reseats the payload this
/// handle reaches, and on failure the handle is untouched.
#[verifier::external_body]
fn rc_get_mut<'a, T>(rc: &'a mut Rc<T>) -> (r: Option<&'a mut T>)
    ensures
        r matches Some(m) ==> *m == **old(rc) && **final(rc) == *final(m),
        r is None ==> *final(rc) == *old(rc),
{
    Rc::get_mut(rc)
}

/// Relies on std::rc::Rc::clone: the clone is a second handle to the very
/// same allocation, so it reaches the same value; the strong count goes up
/// by one.
#[verifier::external_body]
fn rc_clone<T>(rc: &Rc<T>) -> (r: Rc<T>)
    ensures
        *r == **rc,
{
    Rc::clone(rc)
}

impl<T> Clone for SharedPtr<T> {
    /// A second container in the same state: Occupied clones share the
    /// allocation (the strong count goes up by one), Empty clones are Empty.
    fn clone(&self) -> (r: Self)
        ensures
            r@ == self@,
    {
        match &self.rc {
            Some(rc) => SharedPtr { rc: Some(rc_clone(rc)) },
            None => SharedPtr { rc: None },
        }
    }
}

impl<T> From<Rc<T>> for SharedPtr<T> {
    /// Wrapping an existing handle is zero-copy: the handle moves in
    /// untouched and the container is Occupied with its payload.
    fn from(rc: Rc<T>) -> (r: SharedPtr<T>)
        ensures
            r@ == Some(*rc),
    {
        SharedPtr { rc: Some(rc) }
    }
}

impl<T> vstd::std_specs::convert::FromSpecImpl<Rc<T>> for SharedPtr<T> {
    open spec fn obeys_from_spec() -> bool {
        true
    }

    closed spec fn from_spec(rc: Rc<T>) -> SharedPtr<T> {
        SharedPtr { rc: Some(rc) }
    }
}

impl<T> Default for SharedPtr<T> {
    /// A default-constructed container is always Empty.
    fn default() -> (r: Self)
        ensures
            r@ is None,
    {
        SharedPtr::<T>::zeroed()
    }
}

} // verus!
