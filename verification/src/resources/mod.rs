//! Resources a server offers, the errors reading them can raise, and the
//! record of which clients subscribe to which resource.
use vstd::prelude::*;
use crate::client_id::ClientId;
use crate::registry::Registry;
use crate::text::{append_str, from_chars};

pub mod filesystem;
pub mod readme;

verus! {

/// Errors that can occur during resource operations.
#[derive(Debug, Clone, PartialEq, Eq)]
pub enum ResourceError {
    /// The arguments did not parse.
    ArgumentParse(String),
    /// Reading failed.
    Reading(String),
    /// The result did not serialize.
    ResultSerialize(String),
    /// Another failure.
    Custom(String),
    /// The resource does not exist.
    NotFound(String),
    /// The resource does not support subscription.
    SubscriptionNotSupported(String),
}

impl ResourceError {
    /// The error's message.
    pub fn to_string(&self) -> (s: String)
        ensures
            match self {
                ResourceError::ArgumentParse(m) => s@ == "Failed to parse resource arguments: "@ + m@,
                ResourceError::Reading(m) => s@ == "Resource reading failed: "@ + m@,
                ResourceError::ResultSerialize(m) => s@ == "Failed to serialize resource result: "@ + m@,
                ResourceError::Custom(m) => s@ == "Custom error: "@ + m@,
                ResourceError::NotFound(m) => s@ == "Resource not found: "@ + m@,
                ResourceError::SubscriptionNotSupported(m) => s@ == "Resource does not support subscription: "@ + m@,
            },
    {
        let mut out: Vec<char> = Vec::new();
        match self {
            ResourceError::ArgumentParse(m) => {
                append_str(&mut out, "Failed to parse resource arguments: ");
                append_str(&mut out, m.as_str());
            },
            ResourceError::Reading(m) => {
                append_str(&mut out, "Resource reading failed: ");
                append_str(&mut out, m.as_str());
            },
            ResourceError::ResultSerialize(m) => {
                append_str(&mut out, "Failed to serialize resource result: ");
                append_str(&mut out, m.as_str());
            },
            ResourceError::Custom(m) => {
                append_str(&mut out, "Custom error: ");
                append_str(&mut out, m.as_str());
            },
            ResourceError::NotFound(m) => {
                append_str(&mut out, "Resource not found: ");
                append_str(&mut out, m.as_str());
            },
            ResourceError::SubscriptionNotSupported(m) => {
                append_str(&mut out, "Resource does not support subscription: ");
                append_str(&mut out, m.as_str());
            },
        }
        from_chars(&out)
    }
}

/// The error of a resource that does not support subscription.
pub fn subscription_not_supported() -> (e: ResourceError)
    ensures
        e matches ResourceError::SubscriptionNotSupported(m)
            && m@ == "This resource does not support subscription"@,
{
    ResourceError::SubscriptionNotSupported("This resource does not support subscription".to_owned())
}

/// Whether `id` occurs in `ids`.
pub open spec fn holds_client(ids: Seq<ClientId>, id: ClientId) -> bool {
    exists|i: int| 0 <= i < ids.len() && ids[i] == id
}

/// No client occurs twice in `ids`.
pub open spec fn distinct_clients(ids: Seq<ClientId>) -> bool {
    forall|i: int, j: int| 0 <= i < ids.len() && 0 <= j < ids.len() && i != j ==> ids[i] != ids[j]
}

/// The subscribers after `c` subscribes to `u`: appended to its list
/// unless already there.
pub open spec fn subscribers_after_add(subs: Map<Seq<char>, Seq<ClientId>>, u: Seq<char>, c: ClientId)
    -> Map<Seq<char>, Seq<ClientId>> {
    subs.insert(u,
        if subs.contains_key(u) {
            if holds_client(subs[u], c) { subs[u] } else { subs[u].push(c) }
        } else {
            seq![c]
        })
}

/// `ids` without `c`.
pub open spec fn without_client(ids: Seq<ClientId>, c: ClientId) -> Seq<ClientId> {
    ids.filter(|x: ClientId| x != c)
}

/// The subscribers after `c` unsubscribes from `u`: taken out of its list,
/// and `u` forgotten when no subscriber is left.
pub open spec fn subscribers_after_remove(subs: Map<Seq<char>, Seq<ClientId>>, u: Seq<char>, c: ClientId)
    -> Map<Seq<char>, Seq<ClientId>> {
    if subs.contains_key(u) {
        let rest = without_client(subs[u], c);
        if rest.len() == 0 { subs.remove(u) } else { subs.insert(u, rest) }
    } else {
        subs
    }
}

/// Subscribing twice is subscribing once.
pub proof fn lemma_add_subscriber_idempotent(subs: Map<Seq<char>, Seq<ClientId>>, u: Seq<char>, c: ClientId)
    ensures
        subscribers_after_add(subscribers_after_add(subs, u, c), u, c) == subscribers_after_add(subs, u, c),
{
    let s1 = subscribers_after_add(subs, u, c);
    let l = s1[u];
    assert(holds_client(l, c)) by {
        if subs.contains_key(u) && !holds_client(subs[u], c) {
            assert(l[l.len() - 1] == c);
        } else if !subs.contains_key(u) {
            assert(l[0] == c);
        }
    }
    assert(s1.insert(u, l) =~= s1);
}

/// After a client unsubscribes from a resource it no longer receives its
/// notifications, whatever it subscribed before.
pub proof fn lemma_unsubscribed_not_notified(subs: Map<Seq<char>, Seq<ClientId>>, u: Seq<char>, c: ClientId)
    ensures
        ({
            let s2 = subscribers_after_remove(subscribers_after_add(subs, u, c), u, c);
            s2.contains_key(u) ==> !holds_client(s2[u], c)
        }),
{
    reveal(Seq::filter);
    let s1 = subscribers_after_add(subs, u, c);
    let rest = without_client(s1[u], c);
    if holds_client(rest, c) {
        let i = choose|i: int| 0 <= i < rest.len() && rest[i] == c;
        lemma_without_client(s1[u], c, i);
    }
}

/// Every listed resource has at least one subscriber, and none twice.
pub open spec fn subscribers_valid(subs: Map<Seq<char>, Seq<ClientId>>) -> bool {
    forall|u: Seq<char>| #[trigger] subs.contains_key(u) ==> subs[u].len() > 0 && distinct_clients(subs[u])
}

/// A list without a client it does not hold is the list itself.
proof fn lemma_without_absent(ids: Seq<ClientId>, c: ClientId)
    requires
        !holds_client(ids, c),
    ensures
        without_client(ids, c) == ids,
    decreases ids.len(),
{
    reveal(Seq::filter);
    if ids.len() > 0 {
        lemma_without_client_step(ids, c);
        let init = ids.drop_last();
        assert(!holds_client(init, c)) by {
            if holds_client(init, c) {
                let i = choose|i: int| 0 <= i < init.len() && init[i] == c;
                assert(ids[i] == c);
            }
        }
        lemma_without_absent(init, c);
        assert(ids[ids.len() - 1] != c);
        assert(init.push(ids.last()) =~= ids);
    } else {
        assert(without_client(ids, c) =~= ids);
    }
}

/// Subscribing keeps every list non-empty and free of repeats.
pub proof fn lemma_add_keeps_valid(subs: Map<Seq<char>, Seq<ClientId>>, u: Seq<char>, c: ClientId)
    requires
        subscribers_valid(subs),
    ensures
        subscribers_valid(subscribers_after_add(subs, u, c)),
{
    let s1 = subscribers_after_add(subs, u, c);
    assert forall|v: Seq<char>| #[trigger] s1.contains_key(v) implies s1[v].len() > 0 && distinct_clients(s1[v]) by {
        if v == u && subs.contains_key(u) && !holds_client(subs[u], c) {
            let ov = subs[u];
            let lv = s1[u];
            assert forall|i: int, j: int| 0 <= i < lv.len() && 0 <= j < lv.len() && i != j
                implies lv[i] != lv[j] by {
                if i == ov.len() {
                    assert(lv[j] == ov[j]);
                } else if j == ov.len() {
                    assert(lv[i] == ov[i]);
                } else {
                    assert(lv[i] == ov[i] && lv[j] == ov[j]);
                }
            }
        }
    }
}

/// Unsubscribing keeps every list non-empty and free of repeats.
pub proof fn lemma_remove_keeps_valid(subs: Map<Seq<char>, Seq<ClientId>>, u: Seq<char>, c: ClientId)
    requires
        subscribers_valid(subs),
    ensures
        subscribers_valid(subscribers_after_remove(subs, u, c)),
{
    let s1 = subscribers_after_remove(subs, u, c);
    assert forall|v: Seq<char>| #[trigger] s1.contains_key(v) implies s1[v].len() > 0 && distinct_clients(s1[v]) by {
        if v == u && subs.contains_key(u) {
            let rest = without_client(subs[u], c);
            assert forall|a: int, b: int| 0 <= a < rest.len() && 0 <= b < rest.len() && a != b
                implies rest[a] != rest[b] by {
                lemma_filter_distinct(subs[u], c, a, b);
            }
        }
    }
}

/// A client that was not subscribed to a resource, subscribing and then
/// unsubscribing, leaves every subscription as it was.
pub proof fn lemma_add_then_remove(subs: Map<Seq<char>, Seq<ClientId>>, u: Seq<char>, c: ClientId)
    requires
        subscribers_valid(subs),
        !(subs.contains_key(u) && holds_client(subs[u], c)),
    ensures
        subscribers_after_remove(subscribers_after_add(subs, u, c), u, c) == subs,
{
    reveal(Seq::filter);
    let s1 = subscribers_after_add(subs, u, c);
    if subs.contains_key(u) {
        let ov = subs[u];
        lemma_without_client_step(ov.push(c), c);
        assert(ov.push(c).drop_last() =~= ov);
        lemma_without_absent(ov, c);
        assert(without_client(s1[u], c) == ov);
        assert(subs.insert(u, ov) =~= subs);
    } else {
        lemma_without_client_step(seq![c], c);
        assert(seq![c].drop_last() =~= Seq::<ClientId>::empty());
        assert(without_client(Seq::<ClientId>::empty(), c) =~= Seq::<ClientId>::empty());
        assert(s1.remove(u) =~= subs);
    }
}

/// The subscribers of each resource and the callback that notifies them.
/// Every listed resource has at least one subscriber, none twice.
pub struct ResourceManager<C> {
    subscribers: Registry<String, Vec<ClientId>>,
    notification_callback: Option<C>,
}

/// What notifying the subscribers of a changed resource amounts to: the
/// clients to call the callback for, in order of subscription.
#[derive(Debug, Clone)]
pub struct NotificationPlan {
    pub uri: String,
    pub clients: Vec<ClientId>,
}

/// What notifying the subscribers comes to, from what each callback gave,
/// in the order of the plan: the first error, or success.
pub open spec fn notification_outcome(results: Seq<Result<(), ResourceError>>) -> Result<(), ResourceError>
    decreases results.len(),
{
    if results.len() == 0 {
        Ok(())
    } else {
        match results[0] {
            Err(e) => Err(e),
            Ok(_) => notification_outcome(results.drop_first()),
        }
    }
}

impl NotificationPlan {
    /// The result of a notification once the callback was called for each
    /// client of the plan, in order, and what each call gave was awaited in
    /// that order: the first error stops it.
    pub fn outcome(results: Vec<Result<(), ResourceError>>) -> (r: Result<(), ResourceError>)
        ensures
            r == notification_outcome(results@),
    {
        let ghost all = results@;
        let mut rest = results;
        while rest.len() > 0
            invariant
                all == results@,
                notification_outcome(all) == notification_outcome(rest@),
            decreases rest.len(),
        {
            let ghost before = rest@;
            let x = rest.remove(0);
            assert(before.drop_first() =~= rest@);
            assert(before[0] == x);
            match x {
                Err(e) => {
                    return Err(e);
                },
                Ok(_) => {},
            }
        }
        Ok(())
    }
}

impl<C> ResourceManager<C> {
    /// The subscribers of each resource, in order of subscription.
    pub closed spec fn subscribers(&self) -> Map<Seq<char>, Seq<ClientId>> {
        self.subscribers.map().map_values(|v: Vec<ClientId>| v@)
    }

    /// The registered notification callback, if any.
    pub closed spec fn callback(&self) -> Option<C> {
        self.notification_callback
    }

    /// Whether a notification callback is registered.
    pub open spec fn has_callback(&self) -> bool {
        self.callback() is Some
    }

    pub closed spec fn wf(&self) -> bool {
        &&& self.subscribers.wf()
        &&& forall|u: Seq<char>| #[trigger] self.subscribers.map().contains_key(u)
            ==> self.subscribers.map()[u]@.len() > 0 && distinct_clients(self.subscribers.map()[u]@)
    }

    /// The subscriptions a well-formed manager holds are valid: every
    /// listed resource has a subscriber, and none twice.
    pub proof fn lemma_valid(&self)
        requires
            self.wf(),
        ensures
            subscribers_valid(self.subscribers()),
    {
        assert forall|u: Seq<char>| #[trigger] self.subscribers().contains_key(u)
            implies self.subscribers()[u].len() > 0 && distinct_clients(self.subscribers()[u]) by {
            assert(self.subscribers.map().contains_key(u));
        }
    }

    /// No subscribers and no callback.
    pub fn new() -> (m: Self)
        ensures
            m.wf(),
            m.subscribers() == Map::<Seq<char>, Seq<ClientId>>::empty(),
            !m.has_callback(),
    {
        let m = ResourceManager { subscribers: Registry::new(), notification_callback: None };
        assert(m.subscribers() =~= Map::<Seq<char>, Seq<ClientId>>::empty());
        m
    }

    /// Registers the callback that notifies a subscriber.
    pub fn set_notification_callback(&mut self, callback: C)
        requires
            old(self).wf(),
        ensures
            final(self).wf(),
            final(self).has_callback(),
            final(self).callback() == Some(callback),
            final(self).subscribers() == old(self).subscribers(),
    {
        self.notification_callback = Some(callback);
    }

    /// The registered callback.
    pub fn notification_callback(&self) -> (c: Option<&C>)
        ensures
            c is Some <==> self.has_callback(),
    {
        match &self.notification_callback {
            Some(c) => Some(c),
            None => None,
        }
    }

    /// Adds a subscriber to a resource; adding one already there changes
    /// nothing.
    pub fn add_subscriber(&mut self, resource_uri: &str, subscriber_id: ClientId)
        requires
            old(self).wf(),
        ensures
            final(self).wf(),
            final(self).has_callback() == old(self).has_callback(),
            final(self).subscribers() == subscribers_after_add(old(self).subscribers(), resource_uri@, subscriber_id),
    {
        let key = resource_uri.to_owned();
        let ghost old_subs = self.subscribers();
        let list: Vec<ClientId> = match self.subscribers.get(&key) {
            Some(current) => {
                let mut subs = copy_clients(current);
                let ghost ov0 = subs@;
                assert(ov0 == old_subs[resource_uri@]);
                let mut found = false;
                let mut i: usize = 0;
                while i < subs.len()
                    invariant
                        i <= subs.len(),
                        found <==> exists|j: int| 0 <= j < i && subs@[j] == subscriber_id,
                    decreases subs.len() - i,
                {
                    if subs[i].0 == subscriber_id.0 {
                        found = true;
                    }
                    i = i + 1;
                }
                assert(found == holds_client(ov0, subscriber_id));
                if !found {
                    subs.push(subscriber_id);
                }
                subs
            },
            None => {
                let v = vec![subscriber_id];
                assert(v@ =~= seq![subscriber_id]);
                v
            },
        };
        let ghost lv = list@;
        proof {
            if old_subs.contains_key(resource_uri@) {
                let ov = old_subs[resource_uri@];
                assert(old(self).subscribers.map()[resource_uri@]@ == ov);
                if !holds_client(ov, subscriber_id) {
                    assert forall|i: int, j: int| 0 <= i < lv.len() && 0 <= j < lv.len() && i != j
                        implies lv[i] != lv[j] by {
                        if i < ov.len() && j < ov.len() {
                        } else if i == ov.len() {
                            assert(lv[i] == subscriber_id);
                            assert(lv[j] == ov[j]);
                        } else {
                            assert(lv[j] == subscriber_id);
                            assert(lv[i] == ov[i]);
                        }
                    }
                }
            }
        }
        let _ = self.subscribers.insert(key, list);
        assert(self.subscribers() =~= old_subs.insert(resource_uri@, lv));
    }

    /// Forgets a resource with all its subscribers.
    pub fn remove_all_subscribers(&mut self, resource_uri: &str)
        requires
            old(self).wf(),
        ensures
            final(self).wf(),
            final(self).has_callback() == old(self).has_callback(),
            final(self).callback() == old(self).callback(),
            final(self).subscribers() == old(self).subscribers().remove(resource_uri@),
    {
        let ghost old_subs = self.subscribers();
        let key = resource_uri.to_owned();
        let _ = self.subscribers.remove(&key);
        assert(self.subscribers() =~= old_subs.remove(resource_uri@));
    }

    /// Removes a subscriber from a resource; a resource left without
    /// subscribers is forgotten.
    pub fn remove_subscriber(&mut self, resource_uri: &str, subscriber_id: ClientId)
        requires
            old(self).wf(),
        ensures
            final(self).wf(),
            final(self).has_callback() == old(self).has_callback(),
            final(self).subscribers() == subscribers_after_remove(old(self).subscribers(), resource_uri@, subscriber_id),
    {
        let key = resource_uri.to_owned();
        let ghost old_subs = self.subscribers();
        let kept: Vec<ClientId> = match self.subscribers.get(&key) {
            Some(subs) => {
                let ghost ov = subs@;
                let mut kept: Vec<ClientId> = Vec::new();
                let mut i: usize = 0;
                while i < subs.len()
                    invariant
                        i <= subs.len(),
                        ov == subs@,
                        kept@ == without_client(ov.subrange(0, i as int), subscriber_id),
                    decreases subs.len() - i,
                {
                    proof {
                        reveal(Seq::filter);
                        assert(ov.subrange(0, i + 1).drop_last() =~= ov.subrange(0, i as int));
                        assert(ov.subrange(0, i + 1).last() == ov[i as int]);
                    }
                    if subs[i].0 != subscriber_id.0 {
                        kept.push(subs[i]);
                    }
                    i = i + 1;
                }
                assert(ov.subrange(0, subs.len() as int) =~= ov);
                proof {
                    let rest = without_client(ov, subscriber_id);
                    assert forall|a: int, b: int| 0 <= a < rest.len() && 0 <= b < rest.len() && a != b
                        implies rest[a] != rest[b] by {
                        lemma_filter_distinct(ov, subscriber_id, a, b);
                    }
                }
                kept
            },
            None => {
                assert(self.subscribers() =~= old_subs);
                return;
            },
        };
        if kept.len() > 0 {
            let ghost kv = kept@;
            let _ = self.subscribers.insert(key, kept);
            assert(self.subscribers() =~= old_subs.insert(resource_uri@, kv));
        } else {
            let _ = self.subscribers.remove(&key);
            assert(self.subscribers() =~= old_subs.remove(resource_uri@));
        }
    }

    /// The subscribers of a resource, in order of subscription; none when it
    /// has none.
    pub fn get_subscribers(&self, resource_uri: &str) -> (r: Vec<ClientId>)
        requires
            self.wf(),
        ensures
            self.subscribers().contains_key(resource_uri@) ==> r@ == self.subscribers()[resource_uri@],
            !self.subscribers().contains_key(resource_uri@) ==> r.len() == 0,
            self.subscribers().contains_key(resource_uri@) <==> r.len() > 0,
            distinct_clients(r@),
    {
        proof {
            self.lemma_valid();
        }
        let key = resource_uri.to_owned();
        match self.subscribers.get(&key) {
            Some(subs) => copy_clients(subs),
            None => Vec::new(),
        }
    }

    /// Whether a resource has subscribers.
    pub fn has_subscribers(&self, resource_uri: &str) -> (b: bool)
        requires
            self.wf(),
        ensures
            b == self.subscribers().contains_key(resource_uri@),
    {
        let key = resource_uri.to_owned();
        match self.subscribers.get(&key) {
            Some(subs) => subs.len() > 0,
            None => false,
        }
    }

    /// The resources that have subscribers.
    pub fn subscribed_uris(&self) -> (r: Vec<String>)
        requires
            self.wf(),
        ensures
            forall|u: Seq<char>| self.subscribers().contains_key(u)
                <==> exists|i: int| 0 <= i < r.len() && (#[trigger] r@[i])@ == u,
    {
        let n = self.subscribers.len();
        let mut out: Vec<String> = Vec::new();
        let mut i: usize = 0;
        while i < n
            invariant
                i <= n,
                n == self.subscribers.keys().len(),
                out.len() == i,
                forall|j: int| 0 <= j < i ==> (#[trigger] out@[j])@ == self.subscribers.keys()[j],
            decreases n - i,
        {
            let (k, _) = self.subscribers.entry_at(i);
            out.push(k.clone());
            i = i + 1;
        }
        proof {
            assert forall|u: Seq<char>| self.subscribers().contains_key(u)
                <==> exists|i: int| 0 <= i < out.len() && (#[trigger] out@[i])@ == u by {
                if self.subscribers().contains_key(u) {
                    assert(self.subscribers.keys().contains(u));
                    let j = choose|j: int| 0 <= j < self.subscribers.keys().len() && self.subscribers.keys()[j] == u;
                    assert(out@[j]@ == u);
                }
                if exists|i: int| 0 <= i < out.len() && (#[trigger] out@[i])@ == u {
                    let j = choose|j: int| 0 <= j < out.len() && (#[trigger] out@[j])@ == u;
                    assert(self.subscribers.keys()[j] == u);
                    assert(self.subscribers.keys().contains(u));
                }
            }
        }
        out
    }

    /// What notifying a changed resource's subscribers takes: nothing when
    /// it has none, the clients to notify when a callback is registered, and
    /// an error when none is.
    pub fn notify_resource_updated(&self, resource_uri: &str) -> (r: Result<NotificationPlan, ResourceError>)
        requires
            self.wf(),
        ensures
            !self.subscribers().contains_key(resource_uri@) ==> (r matches Ok(p) && p.uri@ == resource_uri@
                && p.clients.len() == 0),
            self.subscribers().contains_key(resource_uri@) && self.has_callback() ==> (r matches Ok(p)
                && p.uri@ == resource_uri@ && p.clients@ == self.subscribers()[resource_uri@]),
            self.subscribers().contains_key(resource_uri@) && !self.has_callback() ==> (r matches Err(
                ResourceError::Custom(m)) && m@ == "No notification callback registered"@),
    {
        if !self.has_subscribers(resource_uri) {
            return Ok(NotificationPlan { uri: resource_uri.to_owned(), clients: Vec::new() });
        }
        let clients = self.get_subscribers(resource_uri);
        match &self.notification_callback {
            Some(_) => Ok(NotificationPlan { uri: resource_uri.to_owned(), clients }),
            None => Err(ResourceError::Custom("No notification callback registered".to_owned())),
        }
    }
}

/// Filtering out one client keeps the others distinct.
proof fn lemma_filter_distinct(ids: Seq<ClientId>, id: ClientId, a: int, b: int)
    requires
        distinct_clients(ids),
        0 <= a < without_client(ids, id).len(),
        0 <= b < without_client(ids, id).len(),
        a != b,
    ensures
        without_client(ids, id)[a] != without_client(ids, id)[b],
    decreases ids.len(),
{
    reveal(Seq::filter);
    if ids.len() > 0 {
        let init = ids.drop_last();
        lemma_without_client_step(ids, id);
        assert(distinct_clients(init)) by {
            assert forall|i: int, j: int| 0 <= i < init.len() && 0 <= j < init.len() && i != j
                implies init[i] != init[j] by {
                assert(init[i] == ids[i] && init[j] == ids[j]);
            }
        }
        let ifl = without_client(init, id);
        if a < ifl.len() && b < ifl.len() {
            lemma_filter_distinct(init, id, a, b);
        } else {
            let k = if a < ifl.len() { a } else { b };
            assert(k < ifl.len());
            assert(ifl.contains(ifl[k]));
            lemma_without_client_member(init, id, k);
            assert(init.contains(ifl[k]));
            let j = choose|j: int| 0 <= j < init.len() && init[j] == ifl[k];
            assert(ids[j] == ifl[k]);
            assert(ids[ids.len() - 1] == ids.last());
        }
    }
}

/// `ids` without `c` is `ids` without its last element, without `c`, and
/// then that element unless it is `c`.
proof fn lemma_without_client_step(ids: Seq<ClientId>, c: ClientId)
    requires
        ids.len() > 0,
    ensures
        without_client(ids, c) == (if ids.last() != c {
            without_client(ids.drop_last(), c).push(ids.last())
        } else {
            without_client(ids.drop_last(), c)
        }),
{
    reveal(Seq::filter);
}

/// An element of `ids` without `c` is not `c`.
proof fn lemma_without_client(ids: Seq<ClientId>, c: ClientId, i: int)
    requires
        0 <= i < without_client(ids, c).len(),
    ensures
        without_client(ids, c)[i] != c,
    decreases ids.len(),
{
    reveal(Seq::filter);
    if ids.len() > 0 {
        lemma_without_client_step(ids, c);
        let init = ids.drop_last();
        if i < without_client(init, c).len() {
            lemma_without_client(init, c, i);
        }
    }
}

/// An element of `ids` without `c` is an element of `ids`.
proof fn lemma_without_client_member(ids: Seq<ClientId>, c: ClientId, k: int)
    requires
        0 <= k < without_client(ids, c).len(),
    ensures
        ids.contains(without_client(ids, c)[k]),
    decreases ids.len(),
{
    reveal(Seq::filter);
    if ids.len() > 0 {
        lemma_without_client_step(ids, c);
        let init = ids.drop_last();
        if k < without_client(init, c).len() {
            lemma_without_client_member(init, c, k);
            let j = choose|j: int| 0 <= j < init.len() && init[j] == without_client(init, c)[k];
            assert(ids[j] == init[j]);
        } else {
            assert(ids[ids.len() - 1] == ids.last());
        }
    }
}

/// A copy of a list of clients.
fn copy_clients(v: &Vec<ClientId>) -> (r: Vec<ClientId>)
    ensures
        r@ == v@,
{
    let mut out: Vec<ClientId> = Vec::new();
    let mut i: usize = 0;
    while i < v.len()
        invariant
            i <= v.len(),
            out@ == v@.subrange(0, i as int),
        decreases v.len() - i,
    {
        out.push(v[i]);
        assert(out@ =~= v@.subrange(0, i + 1));
        i = i + 1;
    }
    assert(v@.subrange(0, v.len() as int) =~= v@);
    out
}

} // verus!
