//! The endpoint servers that a context listens for, by the service id of
//! each endpoint.

use vstd::prelude::*;
use vstd::string::*;
use crate::service_id::GoslingV3OnionServiceId;

verus! {

/// What a context knows of an endpoint that it listens for.
pub struct EndpointListenerView {
    /// The name of the endpoint.
    pub endpoint_name: Seq<char>,
    /// The service id of the one client that the endpoint was granted to.
    pub allowed_client: Seq<char>,
}

struct EndpointListener {
    service_id: GoslingV3OnionServiceId,
    endpoint_name: String,
    allowed_client: GoslingV3OnionServiceId,
}

spec fn key_at(entries: Seq<EndpointListener>, i: int) -> Seq<char> {
    entries[i].service_id@
}

spec fn distinct(entries: Seq<EndpointListener>) -> bool {
    forall|i: int, j: int| 0 <= i < j < entries.len() ==> key_at(entries, i) != key_at(entries, j)
}

spec fn holds(entries: Seq<EndpointListener>, key: Seq<char>) -> bool {
    exists|i: int| 0 <= i < entries.len() && #[trigger] key_at(entries, i) == key
}

spec fn place(entries: Seq<EndpointListener>, key: Seq<char>) -> int {
    choose|i: int| 0 <= i < entries.len() && #[trigger] key_at(entries, i) == key
}

spec fn listener_view(listener: EndpointListener) -> EndpointListenerView {
    EndpointListenerView { endpoint_name: listener.endpoint_name@, allowed_client: listener.allowed_client@ }
}

spec fn as_map(entries: Seq<EndpointListener>) -> Map<Seq<char>, EndpointListenerView> {
    Map::new(|key: Seq<char>| holds(entries, key), |key: Seq<char>| listener_view(entries[place(entries, key)]))
}

proof fn lemma_place(entries: Seq<EndpointListener>, i: int)
    requires
        distinct(entries),
        0 <= i < entries.len(),
    ensures
        holds(entries, key_at(entries, i)),
        place(entries, key_at(entries, i)) == i,
        as_map(entries)[key_at(entries, i)] == listener_view(entries[i]),
{
    let key = key_at(entries, i);
    assert(holds(entries, key));
    let found = place(entries, key);
    assert(0 <= found < entries.len() && key_at(entries, found) == key);
    if found < i {
        assert(key_at(entries, found) != key_at(entries, i));
    }
    if i < found {
        assert(key_at(entries, i) != key_at(entries, found));
    }
}

proof fn lemma_push(before: Seq<EndpointListener>, listener: EndpointListener)
    requires
        distinct(before),
        !holds(before, listener.service_id@),
    ensures
        distinct(before.push(listener)),
        as_map(before.push(listener)) == as_map(before).insert(listener.service_id@, listener_view(listener)),
{
    let after = before.push(listener);
    let key = listener.service_id@;
    assert forall|i: int, j: int| 0 <= i < j < after.len() implies key_at(after, i) != key_at(after, j) by {
        if j == before.len() {
            assert(key_at(before, i) == key_at(after, i));
        } else {
            assert(key_at(before, i) == key_at(after, i));
            assert(key_at(before, j) == key_at(after, j));
        }
    }
    assert forall|k: Seq<char>| #[trigger]
        as_map(after).contains_key(k) == as_map(before).insert(key, listener_view(listener)).contains_key(k) by {
        if holds(after, k) {
            let p = place(after, k);
            assert(key_at(after, p) == k);
            if p < before.len() {
                assert(key_at(before, p) == k);
            }
        }
        if k == key {
            assert(key_at(after, before.len() as int) == k);
        } else if holds(before, k) {
            let p = place(before, k);
            assert(key_at(after, p) == k);
        }
    }
    assert forall|k: Seq<char>| as_map(after).contains_key(k) implies #[trigger] as_map(after)[k] == as_map(
        before,
    ).insert(key, listener_view(listener))[k] by {
        let p = place(after, k);
        assert(key_at(after, p) == k);
        lemma_place(after, p);
        if p < before.len() {
            assert(key_at(before, p) == k);
            lemma_place(before, p);
        }
    }
    assert(as_map(after) =~= as_map(before).insert(key, listener_view(listener)));
}

proof fn lemma_remove(before: Seq<EndpointListener>, index: int)
    requires
        distinct(before),
        0 <= index < before.len(),
    ensures
        distinct(before.remove(index)),
        as_map(before.remove(index)) == as_map(before).remove(key_at(before, index)),
        !holds(before.remove(index), key_at(before, index)),
{
    let after = before.remove(index);
    let key = key_at(before, index);
    assert forall|i: int| 0 <= i < after.len() implies key_at(after, i) == key_at(
        before,
        if i < index {
            i
        } else {
            i + 1
        },
    ) by {}
    assert forall|i: int, j: int| 0 <= i < j < after.len() implies key_at(after, i) != key_at(after, j) by {
        let bi = if i < index { i } else { i + 1 };
        let bj = if j < index { j } else { j + 1 };
        assert(key_at(after, i) == key_at(before, bi));
        assert(key_at(after, j) == key_at(before, bj));
    }
    if holds(after, key) {
        let p = place(after, key);
        let bp = if p < index { p } else { p + 1 };
        assert(key_at(after, p) == key_at(before, bp));
        if bp < index {
            assert(key_at(before, bp) != key_at(before, index));
        } else {
            assert(key_at(before, index) != key_at(before, bp));
        }
    }
    assert forall|k: Seq<char>| #[trigger]
        as_map(after).contains_key(k) == as_map(before).remove(key).contains_key(k) by {
        if holds(after, k) {
            let p = place(after, k);
            let bp = if p < index { p } else { p + 1 };
            assert(key_at(after, p) == key_at(before, bp));
            assert(key_at(before, bp) == k);
        }
        if k != key && holds(before, k) {
            let p = place(before, k);
            assert(key_at(before, p) == k);
            let ap = if p < index { p } else { p - 1 };
            assert(key_at(after, ap) == key_at(before, p));
        }
    }
    assert forall|k: Seq<char>| as_map(after).contains_key(k) implies #[trigger] as_map(after)[k] == as_map(
        before,
    ).remove(key)[k] by {
        let p = place(after, k);
        assert(key_at(after, p) == k);
        lemma_place(after, p);
        let bp = if p < index { p } else { p + 1 };
        assert(after[p] == before[bp]);
        assert(key_at(before, bp) == k);
        lemma_place(before, bp);
    }
    assert(as_map(after) =~= as_map(before).remove(key));
}

/// The endpoints that a context listens for. Its view is the map from
/// the service id of each endpoint to what is known of it.
pub struct EndpointListeners {
    entries: Vec<EndpointListener>,
}

impl View for EndpointListeners {
    type V = Map<Seq<char>, EndpointListenerView>;

    closed spec fn view(&self) -> Map<Seq<char>, EndpointListenerView> {
        as_map(self.entries@)
    }
}

impl EndpointListeners {
    #[verifier::type_invariant]
    spec fn well_formed(self) -> bool {
        distinct(self.entries@)
    }

    /// No endpoints.
    pub fn new() -> (listeners: EndpointListeners)
        ensures
            listeners@ == Map::<Seq<char>, EndpointListenerView>::empty(),
    {
        let listeners = EndpointListeners { entries: Vec::new() };
        assert(listeners@ =~= Map::<Seq<char>, EndpointListenerView>::empty());
        listeners
    }

    fn take_entries(&mut self) -> (entries: Vec<EndpointListener>)
        ensures
            entries == old(self).entries,
            distinct(entries@),
            final(self)@ == Map::<Seq<char>, EndpointListenerView>::empty(),
    {
        proof {
            use_type_invariant(&*self);
        }
        let mut taken = EndpointListeners::new();
        core::mem::swap(self, &mut taken);
        taken.entries
    }

    fn find(entries: &Vec<EndpointListener>, service_id: &GoslingV3OnionServiceId) -> (index: Option<usize>)
        requires
            distinct(entries@),
        ensures
            index is Some <==> holds(entries@, service_id@),
            index matches Some(i) ==> i < entries@.len() && key_at(entries@, i as int) == service_id@,
    {
        let mut index: usize = 0;
        while index < entries.len()
            invariant
                index <= entries@.len(),
                forall|i: int| 0 <= i < index ==> key_at(entries@, i) != service_id@,
            decreases entries@.len() - index,
        {
            if entries[index].service_id.same(service_id) {
                assert(key_at(entries@, index as int) == service_id@);
                return Some(index);
            }
            index += 1;
        }
        proof {
            if holds(entries@, service_id@) {
                let p = place(entries@, service_id@);
                assert(key_at(entries@, p) == service_id@);
            }
        }
        None
    }

    /// Whether there is an endpoint with this service id.
    pub fn contains(&self, service_id: &GoslingV3OnionServiceId) -> (found: bool)
        ensures
            found == self@.contains_key(service_id@),
    {
        proof {
            use_type_invariant(self);
        }
        Self::find(&self.entries, service_id).is_some()
    }

    /// The name of the endpoint with this service id.
    pub fn endpoint_name(&self, service_id: &GoslingV3OnionServiceId) -> (name: Option<String>)
        ensures
            name is Some <==> self@.contains_key(service_id@),
            name matches Some(found) ==> found@ == self@[service_id@].endpoint_name,
    {
        proof {
            use_type_invariant(self);
        }
        match Self::find(&self.entries, service_id) {
            Some(index) => {
                proof {
                    lemma_place(self.entries@, index as int);
                }
                Some(self.entries[index].endpoint_name.clone())
            },
            None => None,
        }
    }

    /// The client that the endpoint with this service id was granted to.
    pub fn allowed_client(
        &self,
        service_id: &GoslingV3OnionServiceId,
    ) -> (client: Option<GoslingV3OnionServiceId>)
        ensures
            client is Some <==> self@.contains_key(service_id@),
            client matches Some(found) ==> found@ == self@[service_id@].allowed_client,
    {
        proof {
            use_type_invariant(self);
        }
        match Self::find(&self.entries, service_id) {
            Some(index) => {
                proof {
                    lemma_place(self.entries@, index as int);
                }
                Some(self.entries[index].allowed_client.clone())
            },
            None => None,
        }
    }

    /// Takes out the endpoint with this service id. Says whether there
    /// was one.
    pub fn remove(&mut self, service_id: &GoslingV3OnionServiceId) -> (found: bool)
        ensures
            found == old(self)@.contains_key(service_id@),
            final(self)@ == old(self)@.remove(service_id@),
    {
        let mut entries = self.take_entries();
        let ghost before = entries@;
        let found = match Self::find(&entries, service_id) {
            Some(index) => {
                proof {
                    lemma_remove(before, index as int);
                }
                let _ = entries.remove(index);
                true
            },
            None => {
                assert(as_map(before) =~= as_map(before).remove(service_id@));
                false
            },
        };
        *self = EndpointListeners { entries };
        found
    }

    /// Puts an endpoint under its service id, in place of the endpoint
    /// that was there.
    pub fn insert(
        &mut self,
        service_id: GoslingV3OnionServiceId,
        endpoint_name: String,
        allowed_client: GoslingV3OnionServiceId,
    )
        ensures
            final(self)@ == old(self)@.insert(
                service_id@,
                (EndpointListenerView { endpoint_name: endpoint_name@, allowed_client: allowed_client@ }),
            ),
    {
        let mut entries = self.take_entries();
        let ghost before = entries@;
        match Self::find(&entries, &service_id) {
            Some(index) => {
                proof {
                    lemma_remove(before, index as int);
                }
                let _ = entries.remove(index);
            },
            None => {
                assert(as_map(before) =~= as_map(before).remove(service_id@));
            },
        }
        let ghost middle = entries@;
        let listener = EndpointListener { service_id, endpoint_name, allowed_client };
        proof {
            lemma_push(middle, listener);
            assert(as_map(before).remove(service_id@).insert(service_id@, listener_view(listener)) =~= as_map(
                before,
            ).insert(service_id@, listener_view(listener)));
        }
        entries.push(listener);
        *self = EndpointListeners { entries };
    }
}

} // verus!
