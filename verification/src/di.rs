//! The service registry: a store of shared singleton services, one per type.
//!
//! A service is handed in as an `Arc<T>`. The registry forgets `T`, keeps the
//! handle under the identity of `T`, and gives a handle of type `Arc<T>` back
//! to whoever asks for `T`. Forgetting and recovering the type is the work of
//! `std::any`; this module states what it relies on there and proves the rest.

use std::any::Any;
use std::any::TypeId;
use std::sync::Arc;
use vstd::prelude::*;

verus! {

/// Marks a type whose values can be kept in a [`Container`].
pub trait Injectable: Send + Sync + 'static {}

/// `std::any::TypeId`: the identity of a type. The verifier takes it as an
/// opaque value that can be copied and compared.
#[verifier::external_type_specification]
#[verifier::external_body]
pub struct ExTypeId(TypeId);

/// A shared handle to a service whose type has been forgotten.
///
/// The field is an `Arc<dyn Any + Send + Sync>`, which the verifier cannot
/// read: to it a box is an opaque value.
#[verifier::external_body]
pub struct ServiceBox {
    inner: Arc<dyn Any + Send + Sync>,
}

/// The identity of the type of the service inside a box: what `Any::type_id`
/// returns for the boxed value.
pub uninterp spec fn box_type(boxed: ServiceBox) -> TypeId;

/// Forgets the type of a handle. The unsizing coercion from `Arc<T>` to
/// `Arc<dyn Any + Send + Sync>`; nothing is claimed of the result here. What
/// the other operations say of a box they say through [`erases_to`].
#[verifier::external_body]
fn erase<T: Injectable>(service: Arc<T>) -> (boxed: ServiceBox) {
    ServiceBox { inner: service }
}

/// `boxed` is a box that forgetting the type of `service` may give.
pub closed spec fn erases_to<T: Injectable>(service: Arc<T>, boxed: ServiceBox) -> bool {
    call_ensures(erase::<T>, (service,), boxed)
}

/// `key` is the identity carried by every box made from a `T`.
spec fn is_key_of<T: Injectable>(key: TypeId) -> bool {
    forall|service: Arc<T>, boxed: ServiceBox| #[trigger]
        erases_to(service, boxed) ==> box_type(boxed) == key
}

/// The identity of the type `T`: the one that every box made from a `T`
/// carries, and the one under which the registry keeps services of type `T`.
pub closed spec fn type_key<T: Injectable>() -> TypeId {
    choose|key: TypeId| is_key_of::<T>(key)
}

/// `TypeId::of::<T>()`. The contract claims that the result is the same for
/// every call with the same `T`, and that it is the identity that
/// `Any::type_id` reports for every boxed `T`.
#[verifier::external_body]
fn type_id_of<T: Injectable>() -> (id: TypeId)
    ensures
        id == type_key::<T>(),
        forall|service: Arc<T>, boxed: ServiceBox| #[trigger]
            erases_to(service, boxed) ==> box_type(boxed) == id,
{
    TypeId::of::<T>()
}

/// `Arc::downcast` on a clone of the boxed handle. The contract claims that
/// the downcast succeeds exactly when the box holds a `T`, and that the
/// handle it gives is the one the box was made from.
#[verifier::external_body]
fn downcast<T: Injectable>(boxed: &ServiceBox) -> (service: Option<Arc<T>>)
    ensures
        service is Some <==> box_type(*boxed) == type_key::<T>(),
        service matches Some(handle) ==> erases_to(handle, *boxed),
        forall|handle: Arc<T>| #[trigger] erases_to(handle, *boxed) ==> service == Some(handle),
{
    boxed.inner.clone().downcast::<T>().ok()
}

/// `Arc::clone` on the boxed handle. The contract claims that the clone is
/// a handle to the same service.
#[verifier::external_body]
fn share(boxed: &ServiceBox) -> (shared: ServiceBox)
    ensures
        shared == *boxed,
{
    ServiceBox { inner: boxed.inner.clone() }
}

/// `==` on two `TypeId`s. The contract claims that it tells whether the two
/// are the same identity.
#[verifier::external_body]
fn same_type(left: &TypeId, right: &TypeId) -> (same: bool)
    ensures
        same == (*left == *right),
{
    left == right
}

/// One registered service: the identity of its type, and the handle.
struct Entry {
    key: TypeId,
    boxed: ServiceBox,
}

/// The identities under which the entries are kept, in order.
spec fn keys(entries: Seq<Entry>) -> Seq<TypeId> {
    entries.map_values(|entry: Entry| entry.key)
}

/// No identity occurs twice, and every box is kept under its own identity.
spec fn well_formed(entries: Seq<Entry>) -> bool {
    &&& keys(entries).no_duplicates()
    &&& forall|i: int| 0 <= i < entries.len() ==> box_type(#[trigger] entries[i].boxed) == entries[i].key
}

/// Where the entry for `key` stands.
spec fn index_of(entries: Seq<Entry>, key: TypeId) -> int {
    choose|i: int| 0 <= i < entries.len() && entries[i].key == key
}

/// The entries as a map from identities to boxes.
spec fn model(entries: Seq<Entry>) -> Map<TypeId, ServiceBox> {
    Map::new(
        |key: TypeId| keys(entries).contains(key),
        |key: TypeId| entries[index_of(entries, key)].boxed,
    )
}

proof fn lemma_model_at(entries: Seq<Entry>, i: int)
    requires
        well_formed(entries),
        0 <= i < entries.len(),
    ensures
        model(entries).contains_key(entries[i].key),
        model(entries)[entries[i].key] == entries[i].boxed,
{
    let key = entries[i].key;
    assert(keys(entries)[i] == key);
    let j = index_of(entries, key);
    assert(keys(entries)[j] == key);
}

proof fn lemma_model_absent(entries: Seq<Entry>, key: TypeId)
    requires
        forall|i: int| 0 <= i < entries.len() ==> entries[i].key != key,
    ensures
        !model(entries).contains_key(key),
{
    if keys(entries).contains(key) {
        let i = choose|i: int| 0 <= i < keys(entries).len() && keys(entries)[i] == key;
        assert(entries[i].key == key);
    }
}

proof fn lemma_model_len(entries: Seq<Entry>)
    requires
        well_formed(entries),
    ensures
        model(entries).dom().finite(),
        model(entries).dom().len() == entries.len(),
{
    keys(entries).unique_seq_to_set();
    vstd::seq_lib::seq_to_set_is_finite(keys(entries));
    assert(model(entries).dom() =~= keys(entries).to_set());
}

proof fn lemma_model_push(entries: Seq<Entry>, entry: Entry)
    requires
        well_formed(entries),
        box_type(entry.boxed) == entry.key,
        forall|i: int| 0 <= i < entries.len() ==> entries[i].key != entry.key,
    ensures
        well_formed(entries.push(entry)),
        model(entries.push(entry)) == model(entries).insert(entry.key, entry.boxed),
{
    let after = entries.push(entry);
    assert(keys(after) =~= keys(entries).push(entry.key));
    assert(well_formed(after));
    assert forall|key: TypeId| model(after).contains_key(key) <==> model(entries).insert(
        entry.key,
        entry.boxed,
    ).contains_key(key) by {
        if keys(after).contains(key) {
            let i = choose|i: int| 0 <= i < keys(after).len() && keys(after)[i] == key;
            if i < entries.len() {
                assert(keys(entries)[i] == key);
            }
        }
        if keys(entries).contains(key) {
            let i = choose|i: int| 0 <= i < keys(entries).len() && keys(entries)[i] == key;
            assert(keys(after)[i] == key);
        }
        assert(keys(after)[entries.len() as int] == entry.key);
    }
    assert forall|key: TypeId| model(after).contains_key(key) implies model(after)[key]
        == model(entries).insert(entry.key, entry.boxed)[key] by {
        let i = choose|i: int| 0 <= i < keys(after).len() && keys(after)[i] == key;
        assert(after[i].key == key);
        lemma_model_at(after, i);
        if i < entries.len() {
            lemma_model_at(entries, i);
        }
    }
    assert(model(after) =~= model(entries).insert(entry.key, entry.boxed));
}

proof fn lemma_model_update(entries: Seq<Entry>, at: int, entry: Entry)
    requires
        well_formed(entries),
        0 <= at < entries.len(),
        entries[at].key == entry.key,
        box_type(entry.boxed) == entry.key,
    ensures
        well_formed(entries.update(at, entry)),
        model(entries.update(at, entry)) == model(entries).insert(entry.key, entry.boxed),
{
    let after = entries.update(at, entry);
    assert(keys(after) =~= keys(entries));
    assert(well_formed(after));
    assert forall|key: TypeId| model(after).contains_key(key) <==> model(entries).insert(
        entry.key,
        entry.boxed,
    ).contains_key(key) by {
        assert(keys(entries)[at] == entry.key);
    }
    assert forall|key: TypeId| model(after).contains_key(key) implies model(after)[key]
        == model(entries).insert(entry.key, entry.boxed)[key] by {
        let i = choose|i: int| 0 <= i < keys(after).len() && keys(after)[i] == key;
        assert(after[i].key == key);
        lemma_model_at(after, i);
        if i != at {
            assert(keys(entries)[i] == key);
            assert(keys(entries)[at] == entry.key);
            lemma_model_at(entries, i);
        }
    }
    assert(model(after) =~= model(entries).insert(entry.key, entry.boxed));
}

/// Where the entry kept under `type_id` stands, if there is one.
fn position(entries: &Vec<Entry>, type_id: &TypeId) -> (found: Option<usize>)
    ensures
        match found {
            Some(i) => i < entries@.len() && entries@[i as int].key == *type_id,
            None => forall|i: int| 0 <= i < entries@.len() ==> entries@[i].key != *type_id,
        },
{
    let mut i: usize = 0;
    while i < entries.len()
        invariant
            i <= entries@.len(),
            forall|j: int| 0 <= j < i ==> entries@[j].key != *type_id,
        decreases entries@.len() - i,
    {
        if same_type(&entries[i].key, type_id) {
            return Some(i);
        }
        i += 1;
    }
    None
}

/// The registry of services.
///
/// Its view is the map from type identities to the boxed handles kept under
/// them. At most one handle is kept per type.
pub struct Container {
    entries: Vec<Entry>,
}

impl View for Container {
    type V = Map<TypeId, ServiceBox>;

    closed spec fn view(&self) -> Map<TypeId, ServiceBox> {
        model(self.entries@)
    }
}

impl Container {
    #[verifier::type_invariant]
    spec fn inv(&self) -> bool {
        well_formed(self.entries@)
    }

    /// Whether a service of type `T` is registered.
    pub open spec fn has<T: Injectable>(&self) -> bool {
        self@.contains_key(type_key::<T>())
    }

    /// Whether `service` is the handle registered for type `T`.
    pub open spec fn holds<T: Injectable>(&self, service: Arc<T>) -> bool {
        self.has::<T>() && erases_to(service, self@[type_key::<T>()])
    }

    /// Whether this registry is `before` with `service` registered as the
    /// one instance of `T`: the entry of `T` holds `service`, and every other
    /// entry is as it was.
    pub open spec fn registered<T: Injectable>(&self, before: Container, service: Arc<T>) -> bool {
        &&& self.holds(service)
        &&& self@ == before@.insert(type_key::<T>(), self@[type_key::<T>()])
    }

    /// What a lookup for `T` gives: the registered handle, or nothing where
    /// no `T` is registered.
    pub open spec fn resolves_to<T: Injectable>(&self, found: Option<Arc<T>>) -> bool {
        &&& found is Some <==> self.has::<T>()
        &&& found matches Some(service) ==> self.holds(service)
        &&& forall|service: Arc<T>| #[trigger] self.holds(service) ==> found == Some(service)
    }

    /// Creates an empty registry.
    pub fn new() -> (container: Self)
        ensures
            container@ == Map::<TypeId, ServiceBox>::empty(),
    {
        let container = Container { entries: Vec::new() };
        proof {
            assert(keys(container.entries@) =~= Seq::<TypeId>::empty());
            assert(container@ =~= Map::<TypeId, ServiceBox>::empty());
        }
        container
    }

    /// Keeps `service` under `type_id`, in place of what was kept there.
    fn insert_service(&mut self, type_id: TypeId, service: ServiceBox)
        requires
            box_type(service) == type_id,
        ensures
            final(self)@ == old(self)@.insert(type_id, service),
    {
        proof {
            use_type_invariant(&*self);
        }
        let entry = Entry { key: type_id, boxed: service };
        let mut entries: Vec<Entry> = Vec::new();
        std::mem::swap(&mut entries, &mut self.entries);
        match position(&entries, &type_id) {
            Some(i) => {
                proof {
                    lemma_model_update(entries@, i as int, entry);
                }
                entries[i] = entry;
            },
            None => {
                proof {
                    lemma_model_push(entries@, entry);
                }
                entries.push(entry);
            },
        }
        self.entries = entries;
    }

    /// Registers `service` as the one instance of `T`. An instance of `T`
    /// registered before is replaced; services of other types stay.
    pub fn register<T: Injectable>(&mut self, service: Arc<T>)
        ensures
            final(self).registered(*old(self), service),
    {
        let type_id = type_id_of::<T>();
        let boxed = erase(service);
        proof {
            // Names the fact that `boxed` was made from `service`, for the
            // contracts that speak of it.
            assert(erases_to(service, boxed));
        }
        self.insert_service(type_id, boxed);
    }

    /// Runs `factory` once and registers what it makes as the one instance
    /// of `T`.
    pub fn register_factory<T: Injectable, F>(&mut self, factory: F) where F: FnOnce() -> T
        requires
            call_requires(factory, ()),
        ensures
            exists|service: Arc<T>|
                call_ensures(factory, (), *service) && #[trigger] final(self).registered(
                    *old(self),
                    service,
                ),
    {
        let service = self.create_service(factory);
        self.register(service);
    }

    /// Runs `factory` and puts what it makes behind a shared handle.
    fn create_service<T: Injectable, F>(&self, factory: F) -> (service: Arc<T>) where
        F: FnOnce() -> T,

        requires
            call_requires(factory, ()),
        ensures
            call_ensures(factory, (), *service),
    {
        Arc::new(factory())
    }

    /// Looks up the service of type `T`.
    pub fn resolve<T: Injectable>(&self) -> (found: Option<Arc<T>>)
        ensures
            self.resolves_to(found),
    {
        let type_id = type_id_of::<T>();
        self.lookup_service(type_id)
    }

    /// Looks up the entry kept under `type_id` and recovers a handle of type
    /// `T` from it.
    fn lookup_service<T: Injectable>(&self, type_id: TypeId) -> (found: Option<Arc<T>>)
        requires
            type_id == type_key::<T>(),
        ensures
            self.resolves_to(found),
    {
        proof {
            use_type_invariant(self);
        }
        match position(&self.entries, &type_id) {
            Some(i) => {
                proof {
                    lemma_model_at(self.entries@, i as int);
                }
                downcast::<T>(&self.entries[i].boxed)
            },
            None => {
                proof {
                    lemma_model_absent(self.entries@, type_id);
                }
                None
            },
        }
    }

    /// Looks up the service of type `T`, which the caller knows to be
    /// registered. A service that is missing here is a mistake in the wiring
    /// of the application, not a condition to recover from.
    pub fn resolve_or_panic<T: Injectable>(&self) -> (service: Arc<T>)
        requires
            self.has::<T>(),
        ensures
            self.resolves_to(Some(service)),
    {
        self.resolve::<T>().expect("Service not registered")
    }

    /// Whether a service of type `T` is registered.
    pub fn contains<T: Injectable>(&self) -> (found: bool)
        ensures
            found == self.has::<T>(),
    {
        proof {
            use_type_invariant(self);
        }
        let type_id = type_id_of::<T>();
        match position(&self.entries, &type_id) {
            Some(i) => {
                proof {
                    lemma_model_at(self.entries@, i as int);
                }
                true
            },
            None => {
                proof {
                    lemma_model_absent(self.entries@, type_id);
                }
                false
            },
        }
    }

    /// The number of registered services.
    pub fn len(&self) -> (count: usize)
        ensures
            count == self@.len(),
            self@.dom().finite(),
    {
        proof {
            use_type_invariant(self);
            lemma_model_len(self.entries@);
        }
        self.entries.len()
    }

    /// Whether no service is registered.
    pub fn is_empty(&self) -> (empty: bool)
        ensures
            empty == (self@.len() == 0),
            empty == (self@ == Map::<TypeId, ServiceBox>::empty()),
    {
        proof {
            use_type_invariant(self);
            lemma_model_len(self.entries@);
            if self.entries@.len() == 0 {
                assert(keys(self.entries@) =~= Seq::<TypeId>::empty());
                assert(self@ =~= Map::<TypeId, ServiceBox>::empty());
            }
        }
        self.entries.len() == 0
    }

    /// Removes every service.
    pub fn clear(&mut self)
        ensures
            final(self)@ == Map::<TypeId, ServiceBox>::empty(),
    {
        self.entries = Vec::new();
        proof {
            assert(keys(self.entries@) =~= Seq::<TypeId>::empty());
            assert(self@ =~= Map::<TypeId, ServiceBox>::empty());
        }
    }
}

/// A lookup for `T` after `instance` was registered as `T` finds `instance`.
pub proof fn lemma_resolve_after_register<T: Injectable>(
    before: Container,
    after: Container,
    instance: Arc<T>,
    found: Option<Arc<T>>,
)
    requires
        after.registered(before, instance),
        after.resolves_to(found),
    ensures
        found == Some(instance),
{
}

/// Two instances of `T` registered one after the other leave one entry for
/// `T`, and a lookup for `T` finds the second.
pub proof fn lemma_register_twice<T: Injectable>(
    before: Container,
    between: Container,
    after: Container,
    first: Arc<T>,
    second: Arc<T>,
    found: Option<Arc<T>>,
)
    requires
        between.registered(before, first),
        after.registered(between, second),
        after.resolves_to(found),
    ensures
        after@.dom() == between@.dom(),
        after@.dom() == before@.dom().insert(type_key::<T>()),
        after@.len() == between@.len(),
        found == Some(second),
{
    assert(after@.dom() =~= between@.dom());
    assert(after@.dom() =~= before@.dom().insert(type_key::<T>()));
}

/// A lookup for a type that is not registered finds nothing.
pub proof fn lemma_resolve_unregistered<T: Injectable>(container: Container, found: Option<Arc<T>>)
    requires
        !container.has::<T>(),
        container.resolves_to(found),
    ensures
        found is None,
{
}

/// A type is registered exactly when a lookup for it finds a service.
pub proof fn lemma_contains_iff_resolves<T: Injectable>(
    container: Container,
    found: Option<Arc<T>>,
)
    requires
        container.resolves_to(found),
    ensures
        container.has::<T>() <==> found is Some,
{
}

/// An emptied registry has no entry, and no type is registered in it.
pub proof fn lemma_cleared_holds_nothing<T: Injectable>(container: Container, found: Option<Arc<T>>)
    requires
        container@ == Map::<TypeId, ServiceBox>::empty(),
        container.resolves_to(found),
    ensures
        container@.len() == 0,
        !container.has::<T>(),
        found is None,
{
}

impl Default for Container {
    fn default() -> (container: Self)
        ensures
            container@ == Map::<TypeId, ServiceBox>::empty(),
    {
        Container::new()
    }
}

impl Clone for Container {
    /// A second registry that shares every service with this one.
    fn clone(&self) -> (copy: Self)
        ensures
            copy@ == self@,
    {
        proof {
            use_type_invariant(self);
        }
        let mut entries: Vec<Entry> = Vec::new();
        let mut i: usize = 0;
        while i < self.entries.len()
            invariant
                i <= self.entries@.len(),
                entries@ == self.entries@.subrange(0, i as int),
            decreases self.entries@.len() - i,
        {
            let entry = Entry { key: self.entries[i].key, boxed: share(&self.entries[i].boxed) };
            entries.push(entry);
            proof {
                assert(entries@ =~= self.entries@.subrange(0, i + 1));
            }
            i += 1;
        }
        proof {
            assert(entries@ =~= self.entries@);
        }
        Container { entries }
    }
}

} // verus!
