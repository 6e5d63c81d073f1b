//! The in-memory ticket store. The backing sequence holds one slot per id;
//! a deleted ticket leaves an empty slot (a tombstone) behind, so ids are
//! never shifted or reused.

use vstd::prelude::*;

use crate::ctx::Ctx;
use crate::error::Error;

verus! {

/// The mathematical value of a ticket: its fields, with the title as a
/// character sequence.
pub ghost struct TicketView {
    pub id: u64,
    pub cid: u64,
    pub title: Seq<char>,
}

/// A ticket handed out by the store. `cid` is the creator's user id.
#[derive(Debug)]
pub struct Ticket {
    pub id: u64,
    pub cid: u64,
    pub title: String,
}

impl View for Ticket {
    type V = TicketView;

    open spec fn view(&self) -> TicketView {
        TicketView { id: self.id, cid: self.cid, title: self.title@ }
    }
}

impl Clone for Ticket {
    fn clone(&self) -> (r: Self)
        ensures
            r@ == self@,
    {
        Ticket { id: self.id, cid: self.cid, title: self.title.clone() }
    }
}

/// The payload a client sends to create a ticket.
#[derive(Debug)]
pub struct TicketForCreate {
    pub title: String,
}

/// The spec value of one slot of the backing sequence.
pub open spec fn slot_view(o: Option<Ticket>) -> Option<TicketView> {
    match o {
        Option::Some(t) => Option::Some(t@),
        Option::None => Option::None,
    }
}

/// The slot invariant: a filled slot at index `i` holds the ticket whose id
/// is `i`. Ids are therefore stable under deletion.
pub open spec fn wf_slots(s: Seq<Option<TicketView>>) -> bool {
    forall|i: int|
        0 <= i < s.len() ==> (#[trigger] s[i] matches Option::Some(t) ==> t.id == i)
}

/// The tickets a listing returns: the filled slots, in index order.
pub open spec fn visible(s: Seq<Option<TicketView>>) -> Seq<TicketView>
    decreases s.len(),
{
    if s.len() == 0 {
        Seq::empty()
    } else {
        match s.last() {
            Option::Some(t) => visible(s.drop_last()).push(t),
            Option::None => visible(s.drop_last()),
        }
    }
}

/// The spec value of a vector of tickets.
pub open spec fn tickets_view(v: Seq<Ticket>) -> Seq<TicketView> {
    v.map_values(|t: Ticket| t@)
}

/// The ticket store. All access is serialized by the caller holding the
/// store exclusively (`&mut self` for mutation); a shared handle with a
/// mutual-exclusion lock lives outside the verified core.
pub struct ModelController {
    tickets_store: Vec<Option<Ticket>>,
}

impl View for ModelController {
    type V = Seq<Option<TicketView>>;

    closed spec fn view(&self) -> Seq<Option<TicketView>> {
        self.tickets_store@.map_values(|o: Option<Ticket>| slot_view(o))
    }
}

impl ModelController {
    /// The store invariant: every filled slot holds the ticket of its index.
    pub open spec fn wf(&self) -> bool {
        wf_slots(self@)
    }

    /// A fresh, empty store.
    pub fn new() -> (r: Result<Self, Error>)
        ensures
            r matches Ok(mc) && mc@ == Seq::<Option<TicketView>>::empty() && mc.wf(),
    {
        let mc = ModelController { tickets_store: Vec::new() };
        proof {
            assert(mc@ =~= Seq::<Option<TicketView>>::empty());
        }
        Ok(mc)
    }

    /// Append a new ticket. Its id is the store's current length, so a run
    /// of creates issues consecutive ids; the call never fails.
    pub fn create_ticket(&mut self, ctx: Ctx, ticket_fc: TicketForCreate) -> (r: Result<
        Ticket,
        Error,
    >)
        requires
            old(self).wf(),
        ensures
            final(self).wf(),
            r matches Ok(t) && t@ == (TicketView {
                id: old(self)@.len() as u64,
                cid: ctx.user_id,
                title: ticket_fc.title@,
            }),
            final(self)@ == old(self)@.push(Option::Some(
                TicketView {
                    id: old(self)@.len() as u64,
                    cid: ctx.user_id,
                    title: ticket_fc.title@,
                },
            )),
    {
        let id = self.tickets_store.len() as u64;
        let ticket = Ticket { id, cid: ctx.user_id(), title: ticket_fc.title };
        let copy = ticket.clone();
        self.tickets_store.push(Some(ticket));
        proof {
            assert(self@ =~= old(self)@.push(Option::Some(copy@)));
        }
        Ok(copy)
    }

    /// List the live tickets: the filled slots in index order, as copies.
    /// The call never fails.
    pub fn list_tickets(&self, _ctx: Ctx) -> (r: Result<Vec<Ticket>, Error>)
        ensures
            r matches Ok(v) && tickets_view(v@) == visible(self@),
    {
        let mut out: Vec<Ticket> = Vec::new();
        let n = self.tickets_store.len();
        let mut i: usize = 0;
        while i < n
            invariant
                n == self.tickets_store.len(),
                i <= n,
                tickets_view(out@) =~= visible(self@.take(i as int)),
            decreases n - i,
        {
            match &self.tickets_store[i] {
                Some(t) => {
                    let copy = t.clone();
                    out.push(copy);
                }
                None => {}
            }
            proof {
                assert(self@.take(i + 1).drop_last() =~= self@.take(i as int));
                assert(self@.take(i + 1).last() == self@[i as int]);
                assert(self@[i as int] == slot_view(self.tickets_store@[i as int]));
                assert(tickets_view(out@) =~= visible(self@.take(i + 1)));
            }
            i += 1;
        }
        proof {
            assert(self@.take(n as int) =~= self@);
        }
        Ok(out)
    }

    /// Tombstone the slot of `id` and hand back the removed ticket. If `id`
    /// is out of range or already tombstoned, fail with the not-found error
    /// echoing `id`; the store is then unchanged.
    pub fn delete_ticket(&mut self, _ctx: Ctx, id: u64) -> (r: Result<Ticket, Error>)
        requires
            old(self).wf(),
        ensures
            final(self).wf(),
            (id < old(self)@.len() && old(self)@[id as int] is Some) ==> (r matches Ok(t)
                && Option::Some(t@) == old(self)@[id as int] && final(self)@ == old(
                self,
            )@.update(id as int, Option::None::<TicketView>)),
            !(id < old(self)@.len() && old(self)@[id as int] is Some) ==> (r == Err::<
                Ticket,
                Error,
            >(Error::TicketDeleteFailIdNotFound { id }) && final(self)@ == old(self)@),
    {
        if id < self.tickets_store.len() as u64 {
            let idx = id as usize;
            let taken: Option<Ticket> = match &self.tickets_store[idx] {
                Some(t) => Some(t.clone()),
                None => None,
            };
            match taken {
                Some(ticket) => {
                    self.tickets_store.set(idx, None);
                    proof {
                        assert(self@ =~= old(self)@.update(
                            id as int,
                            Option::None::<TicketView>,
                        ));
                    }
                    Ok(ticket)
                }
                None => Err(Error::TicketDeleteFailIdNotFound { id }),
            }
        } else {
            Err(Error::TicketDeleteFailIdNotFound { id })
        }
    }
}

/// One `create_ticket` call, seen on the store's model: the new ticket takes
/// the current length as its id and is appended.
pub open spec fn is_create_step(
    s0: Seq<Option<TicketView>>,
    s1: Seq<Option<TicketView>>,
    t: TicketView,
) -> bool {
    t.id == s0.len() && s1 == s0.push(Option::Some(t))
}

proof fn lemma_create_chain_len(
    states: Seq<Seq<Option<TicketView>>>,
    tickets: Seq<TicketView>,
    k: int,
)
    requires
        states.len() == tickets.len() + 1,
        states[0].len() == 0,
        forall|j: int|
            0 <= j < tickets.len() ==> is_create_step(states[j], states[j + 1], #[trigger] tickets[j]),
        0 <= k <= tickets.len(),
    ensures
        states[k].len() == k,
    decreases k,
{
    if k > 0 {
        lemma_create_chain_len(states, tickets, k - 1);
        assert(is_create_step(states[k - 1], states[k], tickets[k - 1]));
    }
}

/// Law: a run of `N` creates starting from an empty store returns the ids
/// `0 .. N-1`, in call order. The `k`-th step is one `create_ticket` call as
/// its contract describes it.
pub proof fn lemma_create_ids_sequential(
    states: Seq<Seq<Option<TicketView>>>,
    tickets: Seq<TicketView>,
)
    requires
        states.len() == tickets.len() + 1,
        states[0].len() == 0,
        forall|j: int|
            0 <= j < tickets.len() ==> is_create_step(states[j], states[j + 1], #[trigger] tickets[j]),
    ensures
        forall|k: int| 0 <= k < tickets.len() ==> #[trigger] tickets[k].id == k,
{
    assert forall|k: int| 0 <= k < tickets.len() implies #[trigger] tickets[k].id == k by {
        lemma_create_chain_len(states, tickets, k);
        assert(is_create_step(states[k], states[k + 1], tickets[k]));
    }
}

/// Law: under the slot invariant, a ticket is listed exactly when its slot
/// is filled with it; so a listing never shows a tombstoned or never-issued
/// id, and every filled slot is shown.
pub proof fn lemma_visible_members(s: Seq<Option<TicketView>>)
    requires
        wf_slots(s),
    ensures
        forall|t: TicketView|
            #[trigger] visible(s).contains(t) <==> (t.id < s.len() && s[t.id as int]
                == Option::Some(t)),
    decreases s.len(),
{
    if s.len() == 0 {
        assert forall|t: TicketView| !(#[trigger] visible(s).contains(t)) by {
            assert(visible(s).len() == 0);
        }
    } else {
        let s0 = s.drop_last();
        assert(wf_slots(s0));
        lemma_visible_members(s0);
        assert forall|t: TicketView|
            #[trigger] visible(s).contains(t) <==> (t.id < s.len() && s[t.id as int]
                == Option::Some(t)) by {
            match s.last() {
                Option::Some(last_t) => {
                    assert(last_t.id == s.len() - 1);
                    assert(visible(s) == visible(s0).push(last_t));
                    if visible(s).contains(t) {
                        let i = choose|i: int|
                            0 <= i < visible(s).len() && visible(s)[i] == t;
                        if i < visible(s0).len() {
                            assert(visible(s0).contains(t));
                        } else {
                            assert(t == last_t);
                        }
                    }
                    if t.id < s.len() && s[t.id as int] == Option::Some(t) {
                        if t.id == s.len() - 1 {
                            assert(t == last_t);
                            assert(visible(s)[visible(s).len() - 1] == t);
                        } else {
                            assert(s0[t.id as int] == s[t.id as int]);
                            assert(visible(s0).contains(t));
                            let i = choose|i: int|
                                0 <= i < visible(s0).len() && visible(s0)[i] == t;
                            assert(visible(s)[i] == t);
                        }
                    }
                }
                Option::None => {
                    assert(visible(s) == visible(s0));
                    if visible(s).contains(t) {
                        assert(visible(s0).contains(t));
                        assert(t.id < s0.len());
                        assert(s[t.id as int] == s0[t.id as int]);
                    }
                    if t.id < s.len() && s[t.id as int] == Option::Some(t) {
                        assert(t.id != s.len() - 1);
                        assert(s0[t.id as int] == s[t.id as int]);
                    }
                }
            }
        }
    }
}

/// Law: a listing presents ids in strictly increasing order — creation
/// order — whatever was tombstoned in between.
pub proof fn lemma_visible_ids_increasing(s: Seq<Option<TicketView>>)
    requires
        wf_slots(s),
    ensures
        forall|i: int, j: int|
            0 <= i < j < visible(s).len() ==> visible(s)[i].id < visible(s)[j].id,
    decreases s.len(),
{
    if s.len() > 0 {
        let s0 = s.drop_last();
        assert(wf_slots(s0));
        lemma_visible_ids_increasing(s0);
        lemma_visible_members(s0);
        match s.last() {
            Option::Some(t) => {
                assert(t.id == s.len() - 1);
                assert(visible(s) == visible(s0).push(t));
                assert forall|i: int, j: int|
                    0 <= i < j < visible(s).len() implies visible(s)[i].id < visible(s)[j].id by {
                    if j < visible(s0).len() {
                        assert(visible(s)[i] == visible(s0)[i]);
                        assert(visible(s)[j] == visible(s0)[j]);
                    } else {
                        assert(visible(s)[j] == t);
                        assert(visible(s)[i] == visible(s0)[i]);
                        assert(visible(s0).contains(visible(s0)[i]));
                        assert(visible(s0)[i].id < s0.len());
                    }
                }
            }
            Option::None => {
                assert(visible(s) == visible(s0));
            }
        }
    }
}

/// Law: tombstoning a present id removes exactly that ticket from listing
/// results; every other slot — and so every other ticket's id — is unchanged.
pub proof fn lemma_delete_removes_only_id(s: Seq<Option<TicketView>>, id: u64)
    requires
        wf_slots(s),
        id < s.len(),
        s[id as int] is Some,
    ensures
        ({
            let s1 = s.update(id as int, Option::None::<TicketView>);
            &&& wf_slots(s1)
            &&& forall|j: int| 0 <= j < s.len() && j != id ==> s1[j] == #[trigger] s[j]
            &&& forall|t: TicketView|
                #[trigger] visible(s1).contains(t) <==> (visible(s).contains(t) && t.id != id)
            &&& forall|t: TicketView| #[trigger] visible(s1).contains(t) ==> t.id != id
        }),
{
    let s1 = s.update(id as int, Option::None::<TicketView>);
    assert(wf_slots(s1));
    lemma_visible_members(s);
    lemma_visible_members(s1);
}

/// Law: a tombstoned or never-issued id appears in no listing result.
pub proof fn lemma_absent_id_not_listed(s: Seq<Option<TicketView>>, id: u64)
    requires
        wf_slots(s),
        id >= s.len() || s[id as int] is None,
    ensures
        forall|t: TicketView| #[trigger] visible(s).contains(t) ==> t.id != id,
{
    lemma_visible_members(s);
}

} // verus!
