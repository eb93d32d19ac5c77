//! A publish-subscribe demonstration built on the borrow-tracked cell: an
//! editor publishes events, a subject keeps the registered listeners and
//! dispatches to them, and an e-mail alert listener counts what it
//! receives.
//!
//! Listeners here are owned by the subject outright: registration hands the
//! cell in and returns a handle carrying the registration's id, and
//! removal hands the cell back out.  Sharing a listener between the
//! registrant and the subject takes reference counting, which stays
//! outside the verified library; with single ownership no listener can
//! disappear behind the subject's back, so dispatching never meets a dead
//! registration.

use vstd::prelude::*;
use crate::pointer::refcell::RefCell;
use crate::pointer::refcell::UNSHARED;
use crate::pointer::cell::Cell;

verus! {

/// The events an editor can publish.
pub enum EditorEvent {
    Mention { person: String },
    Comment { person: String, comment: String },
}

/// What a listener does with an event; implemented by each listener type.
pub trait ListenerUpdate {
    fn update(&mut self, event: &EditorEvent);
}

/// Wraps a listener in a borrow-tracked cell and hands out access to it.
pub struct ListenerCell<T> {
    cell: RefCell<T>,
}

impl<T> View for ListenerCell<T> {
    type V = T;

    /// The wrapped listener.
    closed spec fn view(&self) -> T {
        self.cell@
    }
}

impl<T: ListenerUpdate> ListenerCell<T> {
    /// No claim on the wrapped listener is outstanding.
    pub closed spec fn wf(&self) -> bool {
        &&& self.cell.wf()
        &&& self.cell.flag() == UNSHARED
    }

    /// Wraps `listener`.
    pub fn from(listener: T) -> (r: Self)
        ensures
            r.wf(),
            r@ == listener,
    {
        ListenerCell { cell: RefCell::new(listener) }
    }

    /// Read-only access to the wrapped listener.
    pub fn as_ref(&self) -> (r: &T)
        requires
            self.wf(),
        ensures
            *r == self@,
    {
        self.cell.peek()
    }

    /// Exclusive access to the wrapped listener.
    pub fn as_mut(&mut self) -> (r: &mut T)
        requires
            old(self).wf(),
        ensures
            *r == old(self)@,
            final(self)@ == *final(r),
            final(self).wf(),
    {
        self.cell.get_mut()
    }

    /// Dispatches one event to the wrapped listener, taking the exclusive
    /// claim for the duration and releasing it on the way out.
    pub fn deliver(&mut self, event: &EditorEvent)
        requires
            old(self).wf(),
        ensures
            final(self).wf(),
    {
        let guard = self.cell.borrow_mut();
        self.cell.get_mut().update(event);
        self.cell.release_mut(guard);
    }
}

/// A handle to one registration with a subject.
pub struct ListenerRef {
    id: usize,
}

impl ListenerRef {
    /// The registration id the handle carries.
    pub closed spec fn id_spec(&self) -> int {
        self.id as int
    }
}

/// Why an operation through a listener handle failed.
pub enum ListenerError {
    Invalid,
}

/// Keeps the registered listeners, each under the id its registration
/// handle carries, and dispatches events to all of them.
pub struct Subject<L> {
    listeners: std::vec::Vec<(usize, ListenerCell<L>)>,
    next_id: usize,
}

/// Whether some registration in `s` carries `id`.
pub open spec fn has_id<L>(s: Seq<(usize, ListenerCell<L>)>, id: int) -> bool {
    exists|i: int| 0 <= i < s.len() && (#[trigger] s[i]).0 == id
}

impl<L: ListenerUpdate> Subject<L> {
    /// The registrations, in order of arrival.
    pub closed spec fn entries(&self) -> Seq<(usize, ListenerCell<L>)> {
        self.listeners@
    }

    /// Every kept listener cell is unclaimed, and ids stay under the next
    /// one to be handed out.
    pub closed spec fn wf(&self) -> bool {
        &&& forall|i: int|
            0 <= i < self.listeners@.len() ==> (#[trigger] self.listeners@[i]).1.wf()
        &&& forall|i: int|
            0 <= i < self.listeners@.len() ==> (#[trigger] self.listeners@[i]).0 < self.next_id
    }

    /// A subject with no registrations.
    pub fn new() -> (r: Self)
        ensures
            r.wf(),
            r.entries() == Seq::<(usize, ListenerCell<L>)>::empty(),
    {
        Subject { listeners: std::vec::Vec::new(), next_id: 0 }
    }

    /// The id the next registration would be filed under; ids are handed
    /// out in order, so a subject can register this many more listeners
    /// before its ids are exhausted.
    pub closed spec fn fresh_id(&self) -> int {
        self.next_id as int
    }

    /// Registers `listener`, taking ownership, and returns the handle under
    /// which it can be reached or removed.  Each handle id is used once;
    /// the caller rules out id exhaustion.
    pub fn add_listener(&mut self, listener: ListenerCell<L>) -> (r: ListenerRef)
        requires
            old(self).wf(),
            listener.wf(),
            old(self).fresh_id() < usize::MAX,
        ensures
            final(self).fresh_id() == old(self).fresh_id() + 1,
            final(self).wf(),
            final(self).entries().len() == old(self).entries().len() + 1,
            final(self).entries().last().1 == listener,
            final(self).entries().last().0 == r.id_spec(),
            final(self).entries().drop_last() == old(self).entries(),
            !has_id(old(self).entries(), r.id_spec()),
    {
        let id = self.next_id;
        self.next_id = self.next_id + 1;
        self.listeners.push((id, listener));
        r_from(id)
    }

    /// Removes the registration `handle` points at and hands its listener
    /// cell back, or reports that no registration carries the id.
    pub fn remove_listener(&mut self, handle: &ListenerRef) -> (r: Option<ListenerCell<L>>)
        requires
            old(self).wf(),
        ensures
            final(self).wf(),
            r is Some <==> has_id(old(self).entries(), handle.id_spec()),
            r is Some ==> exists|i: int|
                0 <= i < old(self).entries().len() && (#[trigger] old(self).entries()[i]).0
                    == handle.id_spec() && final(self).entries() == old(self).entries().remove(i)
                    && r == Some(old(self).entries()[i].1),
            r is None ==> final(self).entries() == old(self).entries(),
    {
        let mut i: usize = 0;
        while i < self.listeners.len()
            invariant
                0 <= i <= self.listeners@.len(),
                self == old(self),
                self.wf(),
                forall|j: int| 0 <= j < i ==> (#[trigger] self.listeners@[j]).0 != handle.id_spec(),
            decreases self.listeners@.len() - i,
        {
            if self.listeners[i].0 == handle.id {
                let ghost idx = i as int;
                let (_, cell) = self.listeners.remove(i);
                proof {
                    assert((old(self).entries()[idx]).0 == handle.id_spec());
                    assert forall|j: int|
                        0 <= j < self.listeners@.len() implies (#[trigger] self.listeners@[j]).1.wf()
                            && self.listeners@[j].0 < self.next_id by {
                        if j < idx {
                            assert(self.listeners@[j] == old(self).listeners@[j]);
                        } else {
                            assert(self.listeners@[j] == old(self).listeners@[j + 1]);
                        }
                    }
                }
                return Some(cell);
            }
            i = i + 1;
        }
        None
    }

    /// How many registrations are live; with single ownership every one of
    /// them is.
    pub fn listener_count(&self) -> (r: usize)
        ensures
            r as int == self.entries().len(),
    {
        self.listeners.len()
    }

    /// Read-only access to the listener registered under `handle`.
    pub fn listener(&self, handle: &ListenerRef) -> (r: Option<&ListenerCell<L>>)
        requires
            self.wf(),
        ensures
            r is Some <==> has_id(self.entries(), handle.id_spec()),
            r matches Some(c) ==> exists|i: int|
                0 <= i < self.entries().len() && (#[trigger] self.entries()[i]).0
                    == handle.id_spec() && *c == self.entries()[i].1,
    {
        let mut i: usize = 0;
        while i < self.listeners.len()
            invariant
                0 <= i <= self.listeners@.len(),
                forall|j: int| 0 <= j < i ==> (#[trigger] self.listeners@[j]).0 != handle.id_spec(),
            decreases self.listeners@.len() - i,
        {
            if self.listeners[i].0 == handle.id {
                proof {
                    assert((self.entries()[i as int]).0 == handle.id_spec());
                }
                return Some(&self.listeners[i].1);
            }
            i = i + 1;
        }
        None
    }

    /// Dispatches `event` to every registered listener in order, tolerating
    /// nothing going wrong, since with single ownership nothing can: the
    /// recoverable twin of `notify`.
    pub fn try_notify(&mut self, event: &EditorEvent)
        requires
            old(self).wf(),
        ensures
            final(self).wf(),
            final(self).entries().len() == old(self).entries().len(),
            forall|i: int|
                0 <= i < final(self).entries().len() ==> (#[trigger] final(self).entries()[i]).0
                    == old(self).entries()[i].0,
    {
        let ghost entries0 = self.listeners@;
        let mut i: usize = 0;
        while i < self.listeners.len()
            invariant
                0 <= i <= self.listeners@.len(),
                self.wf(),
                self.listeners@.len() == entries0.len(),
                forall|j: int|
                    0 <= j < self.listeners@.len() ==> (#[trigger] self.listeners@[j]).0
                        == entries0[j].0,
            decreases self.listeners@.len() - i,
        {
            let ghost id_here = self.listeners@[i as int].0;
            let entry = vstd::std_specs::vec::vec_index_mut(&mut self.listeners, i);
            let (_, cell) = entry;
            cell.deliver(event);
            proof {
                assert(self.listeners@[i as int].0 == id_here);
            }
            i = i + 1;
        }
    }

    /// Dispatches `event` to every registered listener in order.  Under
    /// shared ownership this form would treat a dead registration as
    /// fatal; with single ownership no registration can die, so the two
    /// forms coincide.
    pub fn notify(&mut self, event: &EditorEvent)
        requires
            old(self).wf(),
        ensures
            final(self).wf(),
            final(self).entries().len() == old(self).entries().len(),
            forall|i: int|
                0 <= i < final(self).entries().len() ==> (#[trigger] final(self).entries()[i]).0
                    == old(self).entries()[i].0,
    {
        self.try_notify(event);
    }
}

impl ListenerRef {
    /// Whether the registration this handle points at is still with the
    /// subject.
    pub fn is_valid<L: ListenerUpdate>(&self, subject: &Subject<L>) -> (r: bool)
        requires
            subject.wf(),
        ensures
            r == has_id(subject.entries(), self.id_spec()),
    {
        match subject.listener(self) {
            Some(_) => true,
            None => false,
        }
    }

    /// Dispatches `event` to the listener this handle points at, or reports
    /// that the registration is gone.
    pub fn try_update<L: ListenerUpdate>(
        &self,
        subject: &mut Subject<L>,
        event: &EditorEvent,
    ) -> (r: Result<(), ListenerError>)
        requires
            old(subject).wf(),
        ensures
            final(subject).wf(),
            r is Ok <==> has_id(old(subject).entries(), self.id_spec()),
            final(subject).entries().len() == old(subject).entries().len(),
    {
        let mut i: usize = 0;
        while i < subject.listeners.len()
            invariant
                0 <= i <= subject.listeners@.len(),
                subject == old(subject),
                subject.wf(),
                forall|j: int|
                    0 <= j < i ==> (#[trigger] subject.listeners@[j]).0 != self.id_spec(),
            decreases subject.listeners@.len() - i,
        {
            if subject.listeners[i].0 == self.id {
                let ghost prev = subject.listeners@;
                let ghost id_here = subject.listeners@[i as int].0;
                let entry = vstd::std_specs::vec::vec_index_mut(&mut subject.listeners, i);
                let (_, cell) = entry;
                cell.deliver(event);
                proof {
                    assert((prev[i as int]).0 == self.id_spec());
                    assert forall|j: int|
                        0 <= j < subject.listeners@.len() implies (#[trigger] subject.listeners@[j]).1.wf()
                            && subject.listeners@[j].0 < subject.next_id by {
                        if j != i as int {
                            assert(subject.listeners@[j] == prev[j]);
                        }
                    }
                }
                return Ok(());
            }
            i = i + 1;
        }
        Err(ListenerError::Invalid)
    }

    /// Dispatches `event` to the listener this handle points at; a gone
    /// registration is fatal, so the caller rules it out.
    pub fn update<L: ListenerUpdate>(&self, subject: &mut Subject<L>, event: &EditorEvent)
        requires
            old(subject).wf(),
            has_id(old(subject).entries(), self.id_spec()),
        ensures
            final(subject).wf(),
            final(subject).entries().len() == old(subject).entries().len(),
    {
        match self.try_update(subject, event) {
            Ok(()) => (),
            Err(_) => vstd::pervasive::unreached(),
        }
    }
}

/// Builds a handle; private so ids only come from registration.
fn r_from(id: usize) -> (r: ListenerRef)
    ensures
        r.id_spec() == id,
{
    ListenerRef { id }
}

/// Counts events for the owner to read back later; sending the actual
/// alert is I/O and stays outside the library.
pub struct EmailAlerts {
    count: Cell<i32>,
}

impl EmailAlerts {
    /// How many events have arrived, wrapping on overflow as the counter
    /// update does.
    pub closed spec fn count_spec(&self) -> int {
        self.count@ as int
    }

    /// A listener that has seen nothing yet.
    pub fn new() -> (r: EmailAlerts)
        ensures
            r.count_spec() == 0,
    {
        EmailAlerts { count: Cell::new(0) }
    }

    /// The number of events seen so far.
    pub fn count(&self) -> (r: i32)
        ensures
            r as int == self.count_spec(),
    {
        self.count.get()
    }

    /// Forgets every event seen so far.
    pub fn reset(&mut self)
        ensures
            final(self).count_spec() == 0,
    {
        self.count.set(0);
    }
}

impl ListenerUpdate for EmailAlerts {
    /// Counts the event; writing the alert text out is I/O and stays
    /// outside the library.
    fn update(&mut self, _event: &EditorEvent) {
        let c = self.count.get();
        self.count.set(c.wrapping_add(1));
    }
}

/// Publishes editor events to registered listeners and keeps its own
/// tallies of what it published.
pub struct Editor<L> {
    listeners: Subject<L>,
    mentions: i32,
    comments: i32,
}

impl<L: ListenerUpdate> Editor<L> {
    /// The subject holding the registered listeners.
    pub closed spec fn subject(&self) -> Subject<L> {
        self.listeners
    }

    /// How many mentions have been published.
    pub closed spec fn mentions_spec(&self) -> int {
        self.mentions as int
    }

    /// How many comments have been published.
    pub closed spec fn comments_spec(&self) -> int {
        self.comments as int
    }

    /// The editor's subject is consistent.
    pub open spec fn wf(&self) -> bool {
        self.subject().wf()
    }

    /// An editor with no listeners and nothing published.
    pub fn new() -> (r: Self)
        ensures
            r.wf(),
            r.mentions_spec() == 0,
            r.comments_spec() == 0,
            r.subject().entries().len() == 0,
    {
        Editor { listeners: Subject::new(), mentions: 0, comments: 0 }
    }

    /// Exclusive access to the subject, for registering and removing
    /// listeners.
    pub fn listeners(&mut self) -> (r: &mut Subject<L>)
        ensures
            *r == old(self).subject(),
            final(self).subject() == *final(r),
            final(self).mentions_spec() == old(self).mentions_spec(),
            final(self).comments_spec() == old(self).comments_spec(),
    {
        &mut self.listeners
    }

    /// Registers a listener with the editor's subject; the caller rules
    /// out id exhaustion.
    pub fn add_listener(&mut self, listener: ListenerCell<L>) -> (r: ListenerRef)
        requires
            old(self).wf(),
            listener.wf(),
            old(self).subject().fresh_id() < usize::MAX,
        ensures
            final(self).wf(),
            final(self).subject().entries().len() == old(self).subject().entries().len() + 1,
            final(self).mentions_spec() == old(self).mentions_spec(),
            final(self).comments_spec() == old(self).comments_spec(),
    {
        self.listeners.add_listener(listener)
    }

    /// Removes a listener from the editor's subject and hands it back.
    pub fn remove_listener(&mut self, handle: &ListenerRef) -> (r: Option<ListenerCell<L>>)
        requires
            old(self).wf(),
        ensures
            final(self).wf(),
            r is Some <==> has_id(old(self).subject().entries(), handle.id_spec()),
            final(self).mentions_spec() == old(self).mentions_spec(),
            final(self).comments_spec() == old(self).comments_spec(),
    {
        self.listeners.remove_listener(handle)
    }

    /// How many comments have been published.
    pub fn comments(&self) -> (r: i32)
        ensures
            r as int == self.comments_spec(),
    {
        self.comments
    }

    /// How many mentions have been published.
    pub fn mentions(&self) -> (r: i32)
        ensures
            r as int == self.mentions_spec(),
    {
        self.mentions
    }

    /// Publishes a mention of `person`: counts it, then dispatches the
    /// event to every listener.
    pub fn mention(&mut self, person: String)
        requires
            old(self).wf(),
            old(self).mentions_spec() < i32::MAX,
        ensures
            final(self).wf(),
            final(self).mentions_spec() == old(self).mentions_spec() + 1,
            final(self).comments_spec() == old(self).comments_spec(),
            final(self).subject().entries().len() == old(self).subject().entries().len(),
    {
        self.mentions = self.mentions + 1;
        let event = EditorEvent::Mention { person };
        self.listeners.notify(&event);
    }

    /// Publishes a comment by `person`: counts it, then dispatches the
    /// event to every listener.
    pub fn comment(&mut self, person: String, comment: String)
        requires
            old(self).wf(),
            old(self).comments_spec() < i32::MAX,
        ensures
            final(self).wf(),
            final(self).comments_spec() == old(self).comments_spec() + 1,
            final(self).mentions_spec() == old(self).mentions_spec(),
            final(self).subject().entries().len() == old(self).subject().entries().len(),
    {
        self.comments = self.comments + 1;
        let event = EditorEvent::Comment { person, comment };
        self.listeners.notify(&event);
    }
}

} // verus!
