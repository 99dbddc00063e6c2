//! The dispatcher: the single authority over the registry of online
//! identities. Each operation takes the registry and one message, and returns
//! what is to be delivered to which session handle, in order.

use crate::message::{texts, InnerMessage, InnerMessageView, RepeatLoginWarning};
use vstd::prelude::*;

verus! {

/// One identity that the registry knows, with its session handle while it is
/// connected.
#[derive(Debug, Clone, PartialEq, Eq)]
pub struct Entry {
    pub name: String,
    pub handle: Option<u64>,
}

/// What an `Entry` holds.
pub struct EntryView {
    pub name: Seq<char>,
    pub handle: Option<u64>,
}

impl View for Entry {
    type V = EntryView;

    open spec fn view(&self) -> EntryView {
        EntryView { name: self.name@, handle: self.handle }
    }
}

/// A message on its way to the session behind the handle `to`.
#[derive(Debug, Clone, PartialEq, Eq)]
pub struct Delivery {
    pub to: u64,
    pub message: InnerMessage,
}

/// What a `Delivery` holds.
pub struct DeliveryView {
    pub to: u64,
    pub message: InnerMessageView,
}

impl View for Delivery {
    type V = DeliveryView;

    open spec fn view(&self) -> DeliveryView {
        DeliveryView { to: self.to, message: self.message@ }
    }
}

/// The views of the deliveries in `v`, in order.
pub open spec fn deliveries(v: Seq<Delivery>) -> Seq<DeliveryView> {
    v.map_values(|d: Delivery| d@)
}

/// No identity occurs twice.
pub open spec fn distinct_names(s: Seq<EntryView>) -> bool {
    forall|i: int, j: int| 0 <= i < j < s.len() ==> (#[trigger] s[i]).name != (#[trigger] s[j]).name
}

/// Entry `i` of `s` is the one of `name`.
pub open spec fn names_at(s: Seq<EntryView>, name: Seq<char>, i: int) -> bool {
    0 <= i < s.len() && s[i].name == name
}

/// The registry has an entry for `name`.
pub open spec fn known(s: Seq<EntryView>, name: Seq<char>) -> bool {
    exists|i: int| names_at(s, name, i)
}

/// Where the entry of a known `name` stands.
pub open spec fn slot_of(s: Seq<EntryView>, name: Seq<char>) -> int {
    choose|i: int| names_at(s, name, i)
}

/// The handle of the session that is connected as `name`, if one is.
pub open spec fn live_handle(s: Seq<EntryView>, name: Seq<char>) -> Option<u64> {
    if known(s, name) {
        s[slot_of(s, name)].handle
    } else {
        None
    }
}

/// The registry as a mapping from each known identity to its handle.
pub open spec fn registry(s: Seq<EntryView>) -> Map<Seq<char>, Option<u64>> {
    Map::new(|name: Seq<char>| known(s, name), |name: Seq<char>| s[slot_of(s, name)].handle)
}

/// The known identities, in the order in which they became known.
pub open spec fn names(s: Seq<EntryView>) -> Seq<Seq<char>> {
    s.map_values(|e: EntryView| e.name)
}

/// The registry once `name` is known: a new identity is offline.
pub open spec fn learned(s: Seq<EntryView>, name: Seq<char>) -> Seq<EntryView> {
    if known(s, name) {
        s
    } else {
        s.push(EntryView { name, handle: None })
    }
}

/// The registry once the session `addr` has registered as `name`: the last
/// login wins, and the identity keeps its place.
pub open spec fn registered(s: Seq<EntryView>, name: Seq<char>, addr: u64) -> Seq<EntryView> {
    let entry = EntryView { name, handle: Some(addr) };
    if known(s, name) {
        s.update(slot_of(s, name), entry)
    } else {
        s.push(entry)
    }
}

/// What a registration delivers: a warning to another session that holds the
/// identity, then the identities known before to the session that registers.
pub open spec fn register_deliveries(s: Seq<EntryView>, name: Seq<char>, addr: u64) -> Seq<
    DeliveryView,
> {
    let users = DeliveryView { to: addr, message: InnerMessageView::Users(names(s)) };
    match live_handle(s, name) {
        Some(prior) => if prior != addr {
            seq![DeliveryView { to: prior, message: InnerMessageView::RepeatLogin }, users]
        } else {
            seq![users]
        },
        None => seq![users],
    }
}

/// The registry once `name` has left it.
pub open spec fn deregistered(s: Seq<EntryView>, name: Seq<char>) -> Seq<EntryView> {
    if known(s, name) {
        s.remove(slot_of(s, name))
    } else {
        s
    }
}

/// The routed form of a message from `from`, as it reaches the handle `to`.
pub open spec fn out_to(to: u64, from: Seq<char>, content: Seq<char>) -> DeliveryView {
    DeliveryView { to, message: InnerMessageView::Out { from, content } }
}

/// What a direct message delivers: one message to the target if it is
/// connected, nothing otherwise.
pub open spec fn send_deliveries(s: Seq<EntryView>, from: Seq<char>, to: Seq<char>, content: Seq<
    char,
>) -> Seq<DeliveryView> {
    match live_handle(s, to) {
        Some(handle) => seq![out_to(handle, from, content)],
        None => Seq::empty(),
    }
}

/// The delivery that a broadcast makes to one entry, if it is connected.
pub open spec fn out_for(from: Seq<char>, content: Seq<char>) -> spec_fn(EntryView) -> Option<
    DeliveryView,
> {
    |e: EntryView|
        match e.handle {
            Some(handle) => Some(out_to(handle, from, content)),
            None => None,
        }
}

/// What a broadcast delivers: one message to every connected session, the
/// sender's own included, in the order of the registry.
pub open spec fn broadcast_deliveries(s: Seq<EntryView>, from: Seq<char>, content: Seq<char>) -> Seq<
    DeliveryView,
> {
    s.filter_map(out_for(from, content))
}

/// The registry after the dispatcher has handled `msg`.
pub open spec fn step(s: Seq<EntryView>, msg: InnerMessageView) -> Seq<EntryView> {
    match msg {
        InnerMessageView::Register { name, addr } => registered(s, name, addr),
        InnerMessageView::Deregister { name } => deregistered(s, name),
        _ => s,
    }
}

/// What the dispatcher delivers when it handles `msg`.
pub open spec fn step_deliveries(s: Seq<EntryView>, msg: InnerMessageView) -> Seq<DeliveryView> {
    match msg {
        InnerMessageView::Register { name, addr } => register_deliveries(s, name, addr),
        InnerMessageView::Send { from, to, content } => send_deliveries(s, from, to, content),
        InnerMessageView::Broadcast { from, content } => broadcast_deliveries(s, from, content),
        _ => Seq::empty(),
    }
}

/// The registry after the dispatcher has handled `msgs` one after the other.
pub open spec fn run(s: Seq<EntryView>, msgs: Seq<InnerMessageView>) -> Seq<EntryView>
    decreases msgs.len(),
{
    if msgs.len() == 0 {
        s
    } else {
        step(run(s, msgs.drop_last()), msgs.last())
    }
}

/// In a registry without repeated identities, the entry of a known identity
/// is the only one that names it.
pub proof fn slot_is_unique(s: Seq<EntryView>, name: Seq<char>, i: int)
    requires
        distinct_names(s),
        names_at(s, name, i),
    ensures
        known(s, name),
        slot_of(s, name) == i,
{
    let k = slot_of(s, name);
    assert(names_at(s, name, k));
    if k < i {
        assert(s[k].name != s[i].name);
    } else if i < k {
        assert(s[i].name != s[k].name);
    }
}

/// The registry of online identities.
#[derive(Debug)]
pub struct Dispatcher {
    addrs: Vec<Entry>,
}

impl View for Dispatcher {
    type V = Seq<EntryView>;

    closed spec fn view(&self) -> Seq<EntryView> {
        self.addrs@.map_values(|e: Entry| e@)
    }
}

impl Dispatcher {
    /// The registry is valid: no identity has two entries.
    pub open spec fn wf(&self) -> bool {
        distinct_names(self@)
    }

    /// A registry that knows nobody.
    pub fn new() -> (dispatcher: Self)
        ensures
            dispatcher.wf(),
            dispatcher@ == Seq::<EntryView>::empty(),
    {
        let dispatcher = Self { addrs: Vec::new() };
        assert(dispatcher@ =~= Seq::<EntryView>::empty());
        dispatcher
    }

    /// Where the entry of `name` stands, if the registry knows it.
    fn find(&self, name: &String) -> (found: Option<usize>)
        requires
            self.wf(),
        ensures
            found matches Some(i) ==> names_at(self@, name@, i as int) && slot_of(self@, name@)
                == i,
            found is Some <==> known(self@, name@),
    {
        let mut i: usize = 0;
        while i < self.addrs.len()
            invariant
                self.wf(),
                i <= self.addrs.len(),
                self@.len() == self.addrs.len(),
                forall|k: int| 0 <= k < i ==> !names_at(self@, name@, k),
            decreases self.addrs.len() - i,
        {
            if self.addrs[i].name == *name {
                proof {
                    slot_is_unique(self@, name@, i as int);
                }
                return Some(i);
            }
            i += 1;
        }
        None
    }

    /// The entries of the registry, in order.
    pub fn entries(&self) -> (entries: Vec<Entry>)
        ensures
            entries@.map_values(|e: Entry| e@) == self@,
    {
        let mut entries: Vec<Entry> = Vec::new();
        let mut i: usize = 0;
        while i < self.addrs.len()
            invariant
                i <= self.addrs.len(),
                entries.len() == i,
                forall|k: int| 0 <= k < i ==> (#[trigger] entries@[k])@ == self.addrs@[k]@,
            decreases self.addrs.len() - i,
        {
            let entry = Entry { name: self.addrs[i].name.clone(), handle: self.addrs[i].handle };
            entries.push(entry);
            i += 1;
        }
        assert(entries@.map_values(|e: Entry| e@) =~= self@);
        entries
    }

    /// The handle of the session that is connected as `name`, if one is.
    pub fn handle_of(&self, name: &String) -> (handle: Option<u64>)
        requires
            self.wf(),
        ensures
            handle == live_handle(self@, name@),
    {
        match self.find(name) {
            Some(i) => self.addrs[i].handle,
            None => None,
        }
    }

    /// The known identities, in the order in which they became known.
    pub fn users(&self) -> (users: Vec<String>)
        ensures
            texts(users@) == names(self@),
    {
        let mut users: Vec<String> = Vec::new();
        let mut i: usize = 0;
        while i < self.addrs.len()
            invariant
                i <= self.addrs.len(),
                users.len() == i,
                forall|k: int| 0 <= k < i ==> (#[trigger] users@[k])@ == self.addrs@[k].name@,
            decreases self.addrs.len() - i,
        {
            users.push(self.addrs[i].name.clone());
            i += 1;
        }
        assert(texts(users@) =~= names(self@));
        users
    }

    /// Makes `name` known without connecting it. A known identity keeps its
    /// entry as it is.
    pub fn know(&mut self, name: String)
        requires
            old(self).wf(),
        ensures
            final(self).wf(),
            final(self)@ == learned(old(self)@, name@),
    {
        if self.find(&name).is_none() {
            let ghost before = self@;
            self.addrs.push(Entry { name, handle: None });
            proof {
                assert(self@ =~= before.push(EntryView { name: name@, handle: None }));
                assert forall|i: int, j: int| 0 <= i < j < self@.len() implies (#[trigger] self@[i]).name
                    != (#[trigger] self@[j]).name by {
                    if j == before.len() {
                        assert(!names_at(before, name@, i));
                    } else {
                        assert(before[i].name != before[j].name);
                    }
                }
            }
        }
    }

    /// Registers the session `addr` as `name`. Another session that holds the
    /// identity is warned first; then the session that registers is sent the
    /// identities that were known before.
    pub fn register(&mut self, name: String, addr: u64) -> (out: Vec<Delivery>)
        requires
            old(self).wf(),
        ensures
            final(self).wf(),
            final(self)@ == registered(old(self)@, name@, addr),
            deliveries(out@) == register_deliveries(old(self)@, name@, addr),
    {
        let ghost before = self@;
        let users = self.users();
        let mut out: Vec<Delivery> = Vec::new();
        match self.find(&name) {
            Some(i) => {
                match self.addrs[i].handle {
                    Some(prior) => {
                        if prior != addr {
                            out.push(
                                Delivery {
                                    to: prior,
                                    message: InnerMessage::RepeatLogin(RepeatLoginWarning),
                                },
                            );
                        }
                    },
                    None => {},
                }
                self.addrs.set(i, Entry { name, handle: Some(addr) });
                assert(self@ =~= before.update(i as int, EntryView { name: name@, handle: Some(addr) }));
            },
            None => {
                self.addrs.push(Entry { name, handle: Some(addr) });
                assert(self@ =~= before.push(EntryView { name: name@, handle: Some(addr) }));
            },
        }
        out.push(Delivery { to: addr, message: InnerMessage::Users(users) });
        proof {
            registered_keeps_names_distinct(before, name@, addr);
            assert(deliveries(out@) =~= register_deliveries(before, name@, addr));
        }
        out
    }

    /// Removes `name` from the registry; nothing changes where it is not known.
    pub fn deregister(&mut self, name: &String)
        requires
            old(self).wf(),
        ensures
            final(self).wf(),
            final(self)@ == deregistered(old(self)@, name@),
    {
        let ghost before = self@;
        match self.find(name) {
            Some(i) => {
                self.addrs.remove(i);
                assert(self@ =~= before.remove(i as int));
            },
            None => {},
        }
        proof {
            deregistered_keeps_names_distinct(before, name@);
        }
    }

    /// Routes a direct message: to the target's session if it is connected;
    /// otherwise the message is dropped.
    pub fn send(&self, from: String, to: &String, content: String) -> (out: Vec<Delivery>)
        requires
            self.wf(),
        ensures
            deliveries(out@) == send_deliveries(self@, from@, to@, content@),
    {
        let mut out: Vec<Delivery> = Vec::new();
        match self.handle_of(to) {
            Some(handle) => {
                out.push(Delivery { to: handle, message: InnerMessage::Out { from, content } });
            },
            None => {},
        }
        assert(deliveries(out@) =~= send_deliveries(self@, from@, to@, content@));
        out
    }

    /// Routes a broadcast: to every connected session, the sender's own
    /// included, in the order of the registry.
    pub fn broadcast(&self, from: &String, content: &String) -> (out: Vec<Delivery>)
        ensures
            deliveries(out@) == broadcast_deliveries(self@, from@, content@),
    {
        let mut out: Vec<Delivery> = Vec::new();
        let mut i: usize = 0;
        assert(self@.take(0).filter_map(out_for(from@, content@)) =~= Seq::<DeliveryView>::empty());
        while i < self.addrs.len()
            invariant
                i <= self.addrs.len(),
                self@.len() == self.addrs.len(),
                deliveries(out@) =~= self@.take(i as int).filter_map(out_for(from@, content@)),
            decreases self.addrs.len() - i,
        {
            let ghost sent = deliveries(out@);
            proof {
                self@.lemma_filter_map_take_succ(out_for(from@, content@), i as int);
            }
            match self.addrs[i].handle {
                Some(handle) => {
                    out.push(
                        Delivery {
                            to: handle,
                            message: InnerMessage::Out {
                                from: from.clone(),
                                content: content.clone(),
                            },
                        },
                    );
                    assert(deliveries(out@) =~= sent.push(out_to(handle, from@, content@)));
                },
                None => {},
            }
            i += 1;
        }
        assert(self@.take(i as int) =~= self@);
        out
    }

    /// Handles one message: a registration, a deregistration, a direct message
    /// or a broadcast. Any other message changes nothing and delivers nothing.
    pub fn handle(&mut self, msg: InnerMessage) -> (out: Vec<Delivery>)
        requires
            old(self).wf(),
        ensures
            final(self).wf(),
            final(self)@ == step(old(self)@, msg@),
            deliveries(out@) == step_deliveries(old(self)@, msg@),
    {
        match msg {
            InnerMessage::Register { name, addr } => self.register(name, addr),
            InnerMessage::Deregister { name } => {
                self.deregister(&name);
                let out: Vec<Delivery> = Vec::new();
                assert(deliveries(out@) =~= Seq::<DeliveryView>::empty());
                out
            },
            InnerMessage::Send { from, to, content } => self.send(from, &to, content),
            InnerMessage::Broadcast { from, content } => self.broadcast(&from, &content),
            _ => {
                let out: Vec<Delivery> = Vec::new();
                assert(deliveries(out@) =~= Seq::<DeliveryView>::empty());
                out
            },
        }
    }
}

/// A registration leaves every identity with one entry.
pub proof fn registered_keeps_names_distinct(s: Seq<EntryView>, name: Seq<char>, addr: u64)
    requires
        distinct_names(s),
    ensures
        distinct_names(registered(s, name, addr)),
{
    let r = registered(s, name, addr);
    if known(s, name) {
        let k = slot_of(s, name);
        assert(names_at(s, name, k));
        assert forall|i: int, j: int| 0 <= i < j < r.len() implies (#[trigger] r[i]).name != (
        #[trigger] r[j]).name by {
            assert(s[i].name != s[j].name);
        }
    } else {
        assert forall|i: int, j: int| 0 <= i < j < r.len() implies (#[trigger] r[i]).name != (
        #[trigger] r[j]).name by {
            if j == s.len() {
                assert(!names_at(s, name, i));
            } else {
                assert(s[i].name != s[j].name);
            }
        }
    }
}

/// A deregistration leaves every identity with one entry.
pub proof fn deregistered_keeps_names_distinct(s: Seq<EntryView>, name: Seq<char>)
    requires
        distinct_names(s),
    ensures
        distinct_names(deregistered(s, name)),
{
    let r = deregistered(s, name);
    if known(s, name) {
        let k = slot_of(s, name);
        assert(names_at(s, name, k));
        assert forall|i: int, j: int| 0 <= i < j < r.len() implies (#[trigger] r[i]).name != (
        #[trigger] r[j]).name by {
            let si = if i < k { i } else { i + 1 };
            let sj = if j < k { j } else { j + 1 };
            assert(r[i] == s[si]);
            assert(r[j] == s[sj]);
            assert(s[si].name != s[sj].name);
        }
    }
}

/// Whatever messages the dispatcher handles, one after the other, every
/// identity keeps at most one entry, and so at most one live handle.
pub proof fn run_keeps_names_distinct(s: Seq<EntryView>, msgs: Seq<InnerMessageView>)
    requires
        distinct_names(s),
    ensures
        distinct_names(run(s, msgs)),
    decreases msgs.len(),
{
    if msgs.len() > 0 {
        let before = run(s, msgs.drop_last());
        run_keeps_names_distinct(s, msgs.drop_last());
        match msgs.last() {
            InnerMessageView::Register { name, addr } => {
                registered_keeps_names_distinct(before, name, addr);
            },
            InnerMessageView::Deregister { name } => {
                deregistered_keeps_names_distinct(before, name);
            },
            _ => {},
        }
    }
}

/// Starting from the empty registry, no sequence of messages leads to a
/// registry in which two entries name the same identity.
pub proof fn run_holds_one_entry_per_identity(
    msgs: Seq<InnerMessageView>,
    name: Seq<char>,
    i: int,
    j: int,
)
    requires
        names_at(run(Seq::empty(), msgs), name, i),
        names_at(run(Seq::empty(), msgs), name, j),
    ensures
        i == j,
{
    let s = run(Seq::<EntryView>::empty(), msgs);
    run_keeps_names_distinct(Seq::empty(), msgs);
    slot_is_unique(s, name, i);
    slot_is_unique(s, name, j);
}

/// As a mapping, a registration sets the identity's handle and leaves every
/// other identity as it was.
pub proof fn registered_sets_one_handle(s: Seq<EntryView>, name: Seq<char>, addr: u64)
    requires
        distinct_names(s),
    ensures
        registry(registered(s, name, addr)) == registry(s).insert(name, Some(addr)),
        live_handle(registered(s, name, addr), name) == Some(addr),
{
    let r = registered(s, name, addr);
    registered_keeps_names_distinct(s, name, addr);
    let at = if known(s, name) {
        slot_of(s, name)
    } else {
        s.len() as int
    };
    if known(s, name) {
        assert(names_at(s, name, at));
    }
    assert(names_at(r, name, at));
    slot_is_unique(r, name, at);
    assert forall|other: Seq<char>| other != name implies (known(r, other) == known(s, other) && (
    known(s, other) ==> r[slot_of(r, other)].handle == s[slot_of(s, other)].handle)) by {
        if known(s, other) {
            let k = slot_of(s, other);
            assert(names_at(s, other, k));
            assert(names_at(r, other, k));
            slot_is_unique(r, other, k);
        }
        if known(r, other) {
            let k = slot_of(r, other);
            assert(names_at(r, other, k));
            assert(names_at(s, other, k));
        }
    }
    assert(registry(r) =~= registry(s).insert(name, Some(addr)));
}

/// As a mapping, a deregistration removes the identity and leaves every
/// other identity as it was.
pub proof fn deregistered_removes_one_identity(s: Seq<EntryView>, name: Seq<char>)
    requires
        distinct_names(s),
    ensures
        registry(deregistered(s, name)) == registry(s).remove(name),
        !known(deregistered(s, name), name),
{
    let r = deregistered(s, name);
    deregistered_keeps_names_distinct(s, name);
    if known(s, name) {
        let at = slot_of(s, name);
        assert(names_at(s, name, at));
        if known(r, name) {
            let k = slot_of(r, name);
            assert(names_at(r, name, k));
            let sk = if k < at { k } else { k + 1 };
            assert(r[k] == s[sk]);
            slot_is_unique(s, name, sk);
        }
        assert forall|other: Seq<char>| other != name implies (known(r, other) == known(s, other)
            && (known(s, other) ==> r[slot_of(r, other)].handle == s[slot_of(s, other)].handle)) by {
            if known(s, other) {
                let k = slot_of(s, other);
                assert(names_at(s, other, k));
                let rk = if k < at { k } else { k - 1 };
                assert(r[rk] == s[k]);
                assert(names_at(r, other, rk));
                slot_is_unique(r, other, rk);
            }
            if known(r, other) {
                let k = slot_of(r, other);
                assert(names_at(r, other, k));
                let sk = if k < at { k } else { k + 1 };
                assert(r[k] == s[sk]);
                assert(names_at(s, other, sk));
            }
        }
    }
    assert(registry(r) =~= registry(s).remove(name));
}

/// Deregistering an identity a second time changes nothing.
pub proof fn deregister_twice_is_deregister_once(s: Seq<EntryView>, name: Seq<char>)
    requires
        distinct_names(s),
    ensures
        deregistered(deregistered(s, name), name) == deregistered(s, name),
{
    deregistered_removes_one_identity(s, name);
}

/// When the session `second` registers an identity that another session,
/// `first`, holds, exactly one warning is delivered, it goes to `first`, and
/// it comes before anything else; from then on the identity leads to `second`,
/// so that nothing more is routed to `first` under it.
pub proof fn repeat_login_warns_prior_holder(
    s: Seq<EntryView>,
    name: Seq<char>,
    first: u64,
    second: u64,
)
    requires
        distinct_names(s),
        live_handle(s, name) == Some(first),
        first != second,
    ensures
        register_deliveries(s, name, second).len() == 2,
        register_deliveries(s, name, second)[0] == (DeliveryView {
            to: first,
            message: InnerMessageView::RepeatLogin,
        }),
        register_deliveries(s, name, second)[1].to == second,
        register_deliveries(s, name, second)[1].message != InnerMessageView::RepeatLogin,
        live_handle(registered(s, name, second), name) == Some(second),
        forall|from: Seq<char>, content: Seq<char>|
            send_deliveries(registered(s, name, second), from, name, content) == seq![
                out_to(second, from, content),
            ],
{
    registered_sets_one_handle(s, name, second);
}

/// A direct message to a connected identity is delivered once, to that
/// identity's handle and to no other; to any other target nothing is delivered.
pub proof fn send_reaches_only_the_target(
    s: Seq<EntryView>,
    from: Seq<char>,
    to: Seq<char>,
    content: Seq<char>,
    i: int,
)
    requires
        distinct_names(s),
    ensures
        names_at(s, to, i) && s[i].handle is Some ==> send_deliveries(s, from, to, content)
            == seq![out_to(s[i].handle->0, from, content)],
        names_at(s, to, i) && s[i].handle is None ==> send_deliveries(s, from, to, content)
            == Seq::<DeliveryView>::empty(),
        !known(s, to) ==> send_deliveries(s, from, to, content) == Seq::<DeliveryView>::empty(),
{
    if names_at(s, to, i) {
        slot_is_unique(s, to, i);
    }
}

/// A broadcast delivers the message to the handle of every connected entry,
/// the sender's own included, and delivers nothing else.
pub proof fn broadcast_reaches_every_live_handle(
    s: Seq<EntryView>,
    from: Seq<char>,
    content: Seq<char>,
    d: DeliveryView,
)
    ensures
        broadcast_deliveries(s, from, content).contains(d) <==> exists|i: int|
            0 <= i < s.len() && (#[trigger] s[i]).handle == Some(d.to) && d == out_to(
                d.to,
                from,
                content,
            ),
    decreases s.len(),
{
    let f = out_for(from, content);
    let all = broadcast_deliveries(s, from, content);
    if s.len() > 0 {
        let rest = s.drop_last();
        let sent = broadcast_deliveries(rest, from, content);
        broadcast_reaches_every_live_handle(rest, from, content, d);
        assert(all == match f(s.last()) {
            Some(x) => sent + seq![x],
            None => sent,
        });
        if all.contains(d) {
            let k = choose|k: int| 0 <= k < all.len() && all[k] == d;
            if k < sent.len() {
                assert(sent[k] == d);
                assert(sent.contains(d));
                let i = choose|i: int|
                    0 <= i < rest.len() && (#[trigger] rest[i]).handle == Some(d.to) && d == out_to(
                        d.to,
                        from,
                        content,
                    );
                assert(s[i] == rest[i]);
            } else {
                assert(f(s.last()) == Some(d));
                assert(s[s.len() - 1].handle == Some(d.to));
            }
        }
        if exists|i: int|
            0 <= i < s.len() && (#[trigger] s[i]).handle == Some(d.to) && d == out_to(
                d.to,
                from,
                content,
            ) {
            let i = choose|i: int|
                0 <= i < s.len() && (#[trigger] s[i]).handle == Some(d.to) && d == out_to(
                    d.to,
                    from,
                    content,
                );
            if i < rest.len() {
                assert(rest[i] == s[i]);
                assert(sent.contains(d));
                let k = choose|k: int| 0 <= k < sent.len() && sent[k] == d;
                assert(all[k] == d);
            } else {
                assert(f(s.last()) == Some(d));
                assert(all[all.len() - 1] == d);
            }
        }
    } else {
        assert(all =~= Seq::<DeliveryView>::empty());
    }
}

/// A broadcast makes as many deliveries as there are connected entries: the
/// message goes out once for each identity that is online.
pub proof fn broadcast_delivers_once_per_live_entry(
    s: Seq<EntryView>,
    from: Seq<char>,
    content: Seq<char>,
)
    ensures
        broadcast_deliveries(s, from, content).len() == s.filter(
            |e: EntryView| e.handle is Some,
        ).len(),
    decreases s.len(),
{
    reveal(Seq::filter);
    if s.len() > 0 {
        broadcast_delivers_once_per_live_entry(s.drop_last(), from, content);
    }
}

} // verus!
