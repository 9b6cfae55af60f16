//! The notification side channel: stored push subscriptions, keyed by
//! (appointment, endpoint), and the planning of deliveries after a
//! committed change. Planning is pure bookkeeping — the actual transport
//! is an external collaborator that consumes the planned messages — so a
//! transport failure can never reach back into a transition.

use vstd::prelude::*;
use vstd::pervasive::VecAdditionalExecFns;

use crate::model::{is_blank, str_eq};
use crate::wire::{notification_payload, spec_notification_json};

verus! {

/// Key material for delivery, chosen so that only the possessing client
/// can read a pushed message.
#[derive(Clone, Debug)]
pub struct PushKeys {
    pub p256dh: String,
    pub auth: String,
}

/// What a client submits when opting in to notifications.
#[derive(Clone, Debug)]
pub struct PushSubscriptionInput {
    pub endpoint: String,
    pub keys: PushKeys,
}

/// One stored subscription: an appointment, a delivery endpoint, and the
/// latest keys submitted for that pair.
#[derive(Clone, Debug)]
pub struct PushSubscription {
    pub appointment_id: u64,
    pub endpoint: String,
    pub p256dh: String,
    pub auth: String,
}

/// The signing configuration of the push transport. Delivery is attempted
/// only when both keys hold something.
#[derive(Clone, Debug)]
pub struct PushConfig {
    pub public_key: String,
    pub private_key: String,
    pub subject: String,
}

/// Whether push delivery is configured.
pub open spec fn spec_enabled(c: PushConfig) -> bool {
    !(crate::model::spec_blank(c.public_key@) || crate::model::spec_blank(c.private_key@))
}

impl PushConfig {
    /// Returns whether push delivery is configured: both signing keys
    /// hold something beyond whitespace.
    pub fn enabled(&self) -> (r: bool)
        ensures
            r == spec_enabled(*self),
    {
        !(is_blank(self.public_key.as_str()) || is_blank(self.private_key.as_str()))
    }
}

/// Whether a stored row carries the given (appointment, endpoint) key.
pub open spec fn spec_key_match(s: PushSubscription, id: u64, endpoint: Seq<char>) -> bool {
    s.appointment_id == id && s.endpoint@ == endpoint
}

/// Whether some stored row carries the key.
pub open spec fn spec_has_key(subs: Seq<PushSubscription>, id: u64, endpoint: Seq<char>) -> bool {
    exists|i: int| 0 <= i < subs.len() && spec_key_match(subs[i], id, endpoint)
}

/// The index of the row carrying the key (unique in a well-formed store).
pub open spec fn spec_key_index(subs: Seq<PushSubscription>, id: u64, endpoint: Seq<char>) -> int {
    choose|i: int| 0 <= i < subs.len() && spec_key_match(subs[i], id, endpoint)
}

/// What an upsert does: replaces the row with the same key, or appends a
/// new one.
pub open spec fn spec_upsert(subs: Seq<PushSubscription>, row: PushSubscription) -> Seq<
    PushSubscription,
> {
    if spec_has_key(subs, row.appointment_id, row.endpoint@) {
        subs.update(spec_key_index(subs, row.appointment_id, row.endpoint@), row)
    } else {
        subs.push(row)
    }
}

/// The stored row an opt-in submission produces.
pub open spec fn spec_subscription_row(id: u64, input: PushSubscriptionInput) -> PushSubscription {
    PushSubscription {
        appointment_id: id,
        endpoint: input.endpoint,
        p256dh: input.keys.p256dh,
        auth: input.keys.auth,
    }
}

/// The rows of a store that belong to one appointment, in stored order.
pub open spec fn spec_for_appointment(subs: Seq<PushSubscription>, id: u64) -> Seq<
    PushSubscription,
>
    decreases subs.len(),
{
    if subs.len() == 0 {
        Seq::empty()
    } else if subs.last().appointment_id == id {
        spec_for_appointment(subs.drop_last(), id).push(subs.last())
    } else {
        spec_for_appointment(subs.drop_last(), id)
    }
}

/// No two rows of a subscription set share an (appointment, endpoint)
/// key.
pub open spec fn spec_rows_wf(rows: Seq<PushSubscription>) -> bool {
    forall|i: int, j: int|
        0 <= i < j < rows.len() ==> !spec_key_match(
            #[trigger] rows[i],
            (#[trigger] rows[j]).appointment_id,
            rows[j].endpoint@,
        )
}

/// The durable set of push subscriptions. At most one row exists per
/// (appointment, endpoint) pair.
pub struct SubscriptionStore {
    rows: Vec<PushSubscription>,
}

impl SubscriptionStore {
    /// The stored rows, oldest first.
    pub closed spec fn rows(&self) -> Seq<PushSubscription> {
        self.rows@
    }

    /// No two rows share an (appointment, endpoint) key.
    pub open spec fn wf(&self) -> bool {
        spec_rows_wf(self.rows())
    }

    /// An empty store.
    pub fn new() -> (r: SubscriptionStore)
        ensures
            r.rows() == Seq::<PushSubscription>::empty(),
            r.wf(),
    {
        SubscriptionStore { rows: Vec::new() }
    }

    /// Stores or refreshes the subscription of one (appointment,
    /// endpoint) pair: afterwards exactly one row carries the pair, and it
    /// holds the keys given here, whatever was stored before.
    pub fn upsert(&mut self, id: u64, input: PushSubscriptionInput)
        requires
            old(self).wf(),
        ensures
            final(self).wf(),
            final(self).rows() == spec_upsert(
                old(self).rows(),
                spec_subscription_row(id, input),
            ),
    {
        let n = self.rows.len();
        let mut i: usize = 0;
        while i < n
            invariant
                n == self.rows().len(),
                i <= n,
                self.rows() == old(self).rows(),
                old(self).wf(),
                forall|k: int|
                    0 <= k < i ==> !spec_key_match(#[trigger] self.rows()[k], id, input.endpoint@),
            decreases n - i,
        {
            let hit = self.rows[i].appointment_id == id && str_eq(
                self.rows[i].endpoint.as_str(),
                input.endpoint.as_str(),
            );
            if hit {
                let row = PushSubscription {
                    appointment_id: id,
                    endpoint: input.endpoint,
                    p256dh: input.keys.p256dh,
                    auth: input.keys.auth,
                };
                proof {
                    let ep = row.endpoint@;
                    assert(spec_key_match(self.rows()[i as int], id, ep));
                    assert(spec_has_key(self.rows(), id, ep));
                    let k = spec_key_index(self.rows(), id, ep);
                    assert(0 <= k < self.rows().len() && spec_key_match(self.rows()[k], id, ep));
                    if k < i {
                        assert(!spec_key_match(
                            old(self).rows()[k],
                            old(self).rows()[i as int].appointment_id,
                            old(self).rows()[i as int].endpoint@,
                        ));
                        assert(spec_key_match(old(self).rows()[k], id, ep));
                        assert(old(self).rows()[i as int].appointment_id == id);
                        assert(old(self).rows()[i as int].endpoint@ == ep);
                        assert(false);
                    }
                    if i < k {
                        assert(!spec_key_match(
                            old(self).rows()[i as int],
                            old(self).rows()[k].appointment_id,
                            old(self).rows()[k].endpoint@,
                        ));
                        assert(spec_key_match(old(self).rows()[i as int], id, ep));
                        assert(old(self).rows()[k].appointment_id == id);
                        assert(old(self).rows()[k].endpoint@ == ep);
                        assert(false);
                    }
                    assert(k == i);
                }
                let ghost pre = self.rows();
                self.rows.set(i, row);
                proof {
                    assert(self.rows() == spec_upsert(pre, spec_subscription_row(id, input)));
                    assert forall|a: int, b: int|
                        0 <= a < b < self.rows().len() implies !spec_key_match(
                        #[trigger] self.rows()[a],
                        (#[trigger] self.rows()[b]).appointment_id,
                        self.rows()[b].endpoint@,
                    ) by {
                        assert(a == i || self.rows()[a] == old(self).rows()[a]);
                        assert(b == i || self.rows()[b] == old(self).rows()[b]);
                        assert(!spec_key_match(
                            old(self).rows()[a],
                            old(self).rows()[b].appointment_id,
                            old(self).rows()[b].endpoint@,
                        ));
                        if a == i {
                            assert(self.rows()[a].appointment_id == pre[a].appointment_id);
                            assert(self.rows()[a].endpoint@ == pre[a].endpoint@);
                        }
                        if b == i {
                            assert(self.rows()[b].appointment_id == pre[b].appointment_id);
                            assert(self.rows()[b].endpoint@ == pre[b].endpoint@);
                        }
                    }
                }
                return ;
            }
            i = i + 1;
        }
        let row = PushSubscription {
            appointment_id: id,
            endpoint: input.endpoint,
            p256dh: input.keys.p256dh,
            auth: input.keys.auth,
        };
        proof {
            assert(!spec_has_key(self.rows(), id, row.endpoint@));
        }
        let ghost pre = self.rows();
        self.rows.push(row);
        proof {
            assert(self.rows() == spec_upsert(pre, spec_subscription_row(id, input)));
            assert forall|a: int, b: int|
                0 <= a < b < self.rows().len() implies !spec_key_match(
                #[trigger] self.rows()[a],
                (#[trigger] self.rows()[b]).appointment_id,
                self.rows()[b].endpoint@,
            ) by {
                if b < pre.len() {
                    assert(!spec_key_match(
                        old(self).rows()[a],
                        old(self).rows()[b].appointment_id,
                        old(self).rows()[b].endpoint@,
                    ));
                } else {
                    assert(self.rows()[b] == row);
                    assert(!spec_key_match(old(self).rows()[a], id, row.endpoint@));
                }
            }
        }
    }

    /// The subscriptions registered for one appointment, in stored order.
    pub fn list_for(&self, id: u64) -> (r: Vec<PushSubscription>)
        ensures
            r@ == spec_for_appointment(self.rows(), id),
    {
        let n = self.rows.len();
        let mut out: Vec<PushSubscription> = Vec::new();
        let mut i: usize = 0;
        while i < n
            invariant
                n == self.rows().len(),
                i <= n,
                out@ == spec_for_appointment(self.rows().take(i as int), id),
            decreases n - i,
        {
            proof {
                assert(self.rows().take(i + 1).drop_last() =~= self.rows().take(i as int));
                assert(self.rows().take(i + 1).last() == self.rows()[i as int]);
            }
            if self.rows[i].appointment_id == id {
                out.push(clone_subscription(&self.rows[i]));
            }
            i = i + 1;
        }
        proof {
            assert(self.rows().take(n as int) =~= self.rows());
        }
        out
    }
}

/// An exact copy of a stored subscription row.
fn clone_subscription(s: &PushSubscription) -> (r: PushSubscription)
    ensures
        r == *s,
{
    PushSubscription {
        appointment_id: s.appointment_id,
        endpoint: s.endpoint.clone(),
        p256dh: s.p256dh.clone(),
        auth: s.auth.clone(),
    }
}

/// One planned delivery: where to send, with which keys, and the exact
/// payload bytes.
#[derive(Clone, Debug)]
pub struct PushMessage {
    pub endpoint: String,
    pub p256dh: String,
    pub auth: String,
    pub payload: Vec<u8>,
}

/// An exact copy of a byte buffer.
fn clone_bytes(p: &Vec<u8>) -> (r: Vec<u8>)
    ensures
        r@ == p@,
{
    let n = p.len();
    let mut out: Vec<u8> = Vec::new();
    let mut j: usize = 0;
    while j < n
        invariant
            n == p@.len(),
            j <= n,
            out@ == p@.take(j as int),
        decreases n - j,
    {
        out.push(p[j]);
        proof {
            assert(out@ =~= p@.take(j + 1));
        }
        j = j + 1;
    }
    proof {
        assert(out@ =~= p@);
    }
    out
}

/// Plans the deliveries for one committed change: nothing at all when the
/// transport is unconfigured, otherwise one message per subscription of
/// the appointment, each carrying the same notification payload. A
/// failure of any one delivery is the transport's affair; the plan never
/// depends on it.
pub fn plan_notifications(
    config: &PushConfig,
    store: &SubscriptionStore,
    appointment_id: u64,
    title: &str,
    body: &str,
    url: &str,
) -> (r: Vec<PushMessage>)
    ensures
        !spec_enabled(*config) ==> r@ == Seq::<PushMessage>::empty(),
        spec_enabled(*config) ==> {
            let m = spec_for_appointment(store.rows(), appointment_id);
            r@.len() == m.len() && forall|i: int|
                0 <= i < m.len() ==> (#[trigger] r@[i]).endpoint == m[i].endpoint && r@[i].p256dh
                    == m[i].p256dh && r@[i].auth == m[i].auth && r@[i].payload@
                    == spec_notification_json(title@, body@, url@)
        },
{
    if !config.enabled() {
        return Vec::new();
    }
    let matching = store.list_for(appointment_id);
    let payload = notification_payload(title, body, url);
    let mut out: Vec<PushMessage> = Vec::new();
    let n = matching.len();
    let mut i: usize = 0;
    while i < n
        invariant
            n == matching@.len(),
            i <= n,
            out@.len() == i,
            payload@ == spec_notification_json(title@, body@, url@),
            forall|k: int|
                0 <= k < i ==> (#[trigger] out@[k]).endpoint == matching@[k].endpoint
                    && out@[k].p256dh == matching@[k].p256dh && out@[k].auth == matching@[k].auth
                    && out@[k].payload@ == spec_notification_json(title@, body@, url@),
        decreases n - i,
    {
        let s = &matching[i];
        out.push(
            PushMessage {
                endpoint: s.endpoint.clone(),
                p256dh: s.p256dh.clone(),
                auth: s.auth.clone(),
                payload: clone_bytes(&payload),
            },
        );
        i = i + 1;
    }
    out
}

} // verus!
