use vstd::prelude::*;
use crate::message::{ChatMessage, MessageView};

verus! {

/// A registered push endpoint, as the subscription store holds it.
#[derive(Clone, Debug, PartialEq, Eq)]
pub struct Subscription {
    pub endpoint: String,
    /// The client's public key, base64.
    pub p256dh: String,
    /// The client's auth secret, base64.
    pub auth: String,
}

pub struct SubscriptionView {
    pub endpoint: Seq<char>,
    pub p256dh: Seq<char>,
    pub auth: Seq<char>,
}

impl View for Subscription {
    type V = SubscriptionView;

    open spec fn view(&self) -> SubscriptionView {
        SubscriptionView { endpoint: self.endpoint@, p256dh: self.p256dh@, auth: self.auth@ }
    }
}

/// The payload of one push notification.
#[derive(Clone, Debug, PartialEq, Eq)]
pub struct Notification {
    pub title: String,
    pub body: String,
    /// Show the notification even while the page has focus.
    pub always_show: bool,
}

pub struct NotificationView {
    pub title: Seq<char>,
    pub body: Seq<char>,
    pub always_show: bool,
}

impl View for Notification {
    type V = NotificationView;

    open spec fn view(&self) -> NotificationView {
        NotificationView { title: self.title@, body: self.body@, always_show: self.always_show }
    }
}

/// One push delivery attempt to be made.
#[derive(Clone, Debug, PartialEq, Eq)]
pub struct Delivery {
    pub subscription: Subscription,
    pub payload: Notification,
}

/// The subscription store could not be read.
#[derive(Clone, Debug, PartialEq, Eq)]
pub struct StoreError {
    pub reason: String,
}

/// The notification that a broadcast envelope calls for: one for chat text,
/// none for anything else.
pub open spec fn notification_spec(m: MessageView) -> Option<NotificationView> {
    match m {
        MessageView::Text { username, content, .. } => Some(
            NotificationView { title: username, body: content, always_show: false },
        ),
        _ => None,
    }
}

/// What a subscription snapshot holds, as a sequence of descriptors.
pub open spec fn snapshot_view(subs: Seq<Subscription>) -> Seq<SubscriptionView> {
    subs.map_values(|s: Subscription| s@)
}

/// The deliveries' targets, as a sequence of descriptors.
pub open spec fn targets(ds: Seq<Delivery>) -> Seq<SubscriptionView> {
    ds.map_values(|d: Delivery| d.subscription@)
}

/// A fan-out for `note` to the snapshot `subs`: every delivery carries
/// `note`, and each distinct descriptor of the snapshot is targeted exactly once.
pub open spec fn is_fan_out(ds: Seq<Delivery>, subs: Seq<SubscriptionView>, note: NotificationView) -> bool {
    &&& forall|i: int| 0 <= i < ds.len() ==> #[trigger] ds[i].payload@ == note
    &&& targets(ds).no_duplicates()
    &&& targets(ds).to_set() == subs.to_set()
}

/// The notification for a broadcast envelope, if it calls for one.
pub fn notification_for(m: &ChatMessage) -> (r: Option<Notification>)
    ensures
        match r {
            Some(n) => notification_spec(m@) == Some(n@),
            None => notification_spec(m@) is None,
        },
{
    match m {
        ChatMessage::TextMessage { username, content, .. } => Some(
            Notification { title: username.clone(), body: content.clone(), always_show: false },
        ),
        _ => None,
    }
}

/// The notification sent right after a subscription is registered.
pub fn test_notification_payload() -> (r: Notification)
    ensures
        r@ == (NotificationView {
            title: "Test Push notification"@,
            body: "This is what incoming chat messages will look like"@,
            always_show: true,
        }),
{
    Notification {
        title: String::from_str("Test Push notification"),
        body: String::from_str("This is what incoming chat messages will look like"),
        always_show: true,
    }
}

fn same_descriptor(a: &Subscription, b: &Subscription) -> (r: bool)
    ensures
        r == (a@ == b@),
{
    a.endpoint == b.endpoint && a.p256dh == b.p256dh && a.auth == b.auth
}

fn copy_subscription(s: &Subscription) -> (r: Subscription)
    ensures
        r@ == s@,
{
    Subscription { endpoint: s.endpoint.clone(), p256dh: s.p256dh.clone(), auth: s.auth.clone() }
}

fn copy_notification(n: &Notification) -> (r: Notification)
    ensures
        r@ == n@,
{
    Notification { title: n.title.clone(), body: n.body.clone(), always_show: n.always_show }
}

/// The deliveries for one notification: none when the snapshot could not be
/// fetched, else one per distinct descriptor of the snapshot.
pub fn plan_deliveries(fetched: Result<Vec<Subscription>, StoreError>, note: &Notification) -> (r: Vec<Delivery>)
    ensures
        match fetched {
            Ok(subs) => is_fan_out(r@, snapshot_view(subs@), note@),
            Err(_) => r@.len() == 0,
        },
{
    let subs = match fetched {
        Ok(subs) => subs,
        Err(_) => return Vec::new(),
    };
    let ghost sv = snapshot_view(subs@);
    let mut out: Vec<Delivery> = Vec::new();
    let mut i: usize = 0;
    while i < subs.len()
        invariant
            i <= subs@.len(),
            sv == snapshot_view(subs@),
            forall|k: int| 0 <= k < out@.len() ==> #[trigger] out@[k].payload@ == note@,
            targets(out@).no_duplicates(),
            targets(out@).to_set() == sv.subrange(0, i as int).to_set(),
        decreases subs@.len() - i,
    {
        let s = &subs[i];
        let mut seen = false;
        let mut j: usize = 0;
        while j < out.len()
            invariant
                j <= out@.len(),
                seen == exists|k: int| 0 <= k < j && targets(out@)[k] == s@,
            decreases out@.len() - j,
        {
            assert(targets(out@)[j as int] == out@[j as int].subscription@);
            if same_descriptor(&out[j].subscription, s) {
                seen = true;
            }
            j = j + 1;
        }
        let ghost before = out@;
        assert(sv.subrange(0, i + 1) == sv.subrange(0, i as int).push(s@));
        proof {
            sv.subrange(0, i as int).lemma_push_to_set_commute(s@);
        }
        if !seen {
            out.push(Delivery { subscription: copy_subscription(s), payload: copy_notification(note) });
            assert(targets(out@) == targets(before).push(s@));
            proof {
                targets(before).lemma_push_to_set_commute(s@);
                if targets(before).contains(s@) {
                    let k = choose|k: int| 0 <= k < before.len() && targets(before)[k] == s@;
                    assert(false);
                }
            }
        } else {
            proof {
                let k = choose|k: int| 0 <= k < before.len() && targets(before)[k] == s@;
                assert(targets(before).contains(s@));
            }
        }
        i = i + 1;
    }
    assert(sv.subrange(0, subs@.len() as int) == sv);
    out
}


/// In a fan-out for a snapshot, a descriptor that
/// the snapshot holds (once, or more often when it was stored again) is
/// targeted by exactly one delivery, and any other descriptor by none.
pub proof fn lemma_one_attempt_per_descriptor(
    ds: Seq<Delivery>,
    subs: Seq<Subscription>,
    note: NotificationView,
    d: SubscriptionView,
)
    requires
        is_fan_out(ds, snapshot_view(subs), note),
    ensures
        snapshot_view(subs).contains(d) ==> exists|i: int|
            0 <= i < ds.len() && ds[i].subscription@ == d && forall|j: int|
                0 <= j < ds.len() && #[trigger] ds[j].subscription@ == d ==> j == i,
        !snapshot_view(subs).contains(d) ==> forall|j: int|
            0 <= j < ds.len() ==> #[trigger] ds[j].subscription@ != d,
{
    let t = targets(ds);
    if snapshot_view(subs).contains(d) {
        assert(snapshot_view(subs).to_set().contains(d));
        assert(t.to_set().contains(d));
        let i = choose|i: int| 0 <= i < t.len() && t[i] == d;
        assert forall|j: int| 0 <= j < ds.len() && #[trigger] ds[j].subscription@ == d implies j == i by {
            assert(t[j] == d);
        }
    } else {
        assert forall|j: int| 0 <= j < ds.len() implies #[trigger] ds[j].subscription@ != d by {
            if ds[j].subscription@ == d {
                assert(t[j] == d);
                assert(t.to_set().contains(d));
                assert(snapshot_view(subs).to_set().contains(d));
            }
        }
    }
}

/// What a fan-out hands to one subscriber depends on that
/// subscriber and the notification alone. Two fan-outs of the same notification
/// over any snapshots that both hold `s` (one with a failing neighbour, one
/// without) each make one attempt to `s`, with the same payload; no delivery's
/// outcome is an input to the plan, nor to the handling of the next event.
pub proof fn lemma_fan_out_isolation(
    ds1: Seq<Delivery>,
    subs1: Seq<Subscription>,
    ds2: Seq<Delivery>,
    subs2: Seq<Subscription>,
    note: NotificationView,
    s: SubscriptionView,
)
    requires
        is_fan_out(ds1, snapshot_view(subs1), note),
        is_fan_out(ds2, snapshot_view(subs2), note),
        snapshot_view(subs1).contains(s),
        snapshot_view(subs2).contains(s),
    ensures
        exists|i: int|
            0 <= i < ds1.len() && ds1[i].subscription@ == s && #[trigger] ds1[i].payload@ == note,
        exists|i: int|
            0 <= i < ds2.len() && ds2[i].subscription@ == s && #[trigger] ds2[i].payload@ == note,
{
    lemma_one_attempt_per_descriptor(ds1, subs1, note, s);
    lemma_one_attempt_per_descriptor(ds2, subs2, note, s);
    let i1 = choose|i: int| 0 <= i < ds1.len() && ds1[i].subscription@ == s && forall|j: int|
        0 <= j < ds1.len() && #[trigger] ds1[j].subscription@ == s ==> j == i;
    assert(ds1[i1].payload@ == note);
    let i2 = choose|i: int| 0 <= i < ds2.len() && ds2[i].subscription@ == s && forall|j: int|
        0 <= j < ds2.len() && #[trigger] ds2[j].subscription@ == s ==> j == i;
    assert(ds2[i2].payload@ == note);
}

} // verus!
