use crate::text::{decimal, decimal_string_wide, opt_text, same_text};
use vstd::prelude::*;
use vstd::string::*;

verus! {

/// A registered endpoint: where a service is reached, and how its health is
/// asked for.
#[derive(Clone, Debug, PartialEq, Eq)]
pub struct Endpoint {
    pub id: String,
    pub name: String,
    pub base_url: String,
    pub health_path: String,
    pub method: Option<String>,
    pub timeout_ms: Option<u64>,
}

/// What the user gives to register an endpoint: all of it but the id.
#[derive(Clone, Debug, PartialEq, Eq)]
pub struct EndpointInput {
    pub name: String,
    pub base_url: String,
    pub health_path: String,
    pub method: Option<String>,
    pub timeout_ms: Option<u64>,
}

pub struct EndpointView {
    pub id: Seq<char>,
    pub name: Seq<char>,
    pub base_url: Seq<char>,
    pub health_path: Seq<char>,
    pub method: Option<Seq<char>>,
    pub timeout_ms: Option<u64>,
}

pub struct EndpointInputView {
    pub name: Seq<char>,
    pub base_url: Seq<char>,
    pub health_path: Seq<char>,
    pub method: Option<Seq<char>>,
    pub timeout_ms: Option<u64>,
}

impl View for Endpoint {
    type V = EndpointView;

    open spec fn view(&self) -> EndpointView {
        EndpointView {
            id: self.id@,
            name: self.name@,
            base_url: self.base_url@,
            health_path: self.health_path@,
            method: opt_text(self.method),
            timeout_ms: self.timeout_ms,
        }
    }
}

impl View for EndpointInput {
    type V = EndpointInputView;

    open spec fn view(&self) -> EndpointInputView {
        EndpointInputView {
            name: self.name@,
            base_url: self.base_url@,
            health_path: self.health_path@,
            method: opt_text(self.method),
            timeout_ms: self.timeout_ms,
        }
    }
}

/// The endpoints of a registry, in order.
pub open spec fn endpoint_views(endpoints: Seq<Endpoint>) -> Seq<EndpointView> {
    endpoints.map_values(|e: Endpoint| e@)
}

/// The id of an endpoint that is registered at a time, given in milliseconds
/// since the epoch.
pub open spec fn endpoint_id(now_millis: nat) -> Seq<char> {
    "ep-"@ + decimal(now_millis)
}

/// The endpoint that an input becomes when it is registered at a time.
pub open spec fn registered(input: EndpointInputView, now_millis: nat) -> EndpointView {
    EndpointView {
        id: endpoint_id(now_millis),
        name: input.name,
        base_url: input.base_url,
        health_path: input.health_path,
        method: input.method,
        timeout_ms: input.timeout_ms,
    }
}

/// Registers an endpoint: it gets its id from the time and goes behind the
/// endpoints that are there, which stay as they are.
pub fn register_endpoint(endpoints: &mut Vec<Endpoint>, payload: EndpointInput, now_millis: u128)
    ensures
        endpoint_views(final(endpoints)@) == endpoint_views(old(endpoints)@).push(
            registered(payload@, now_millis as nat),
        ),
{
    let endpoint = Endpoint {
        id: String::from_str("ep-").concat(decimal_string_wide(now_millis).as_str()),
        name: payload.name,
        base_url: payload.base_url,
        health_path: payload.health_path,
        method: payload.method,
        timeout_ms: payload.timeout_ms,
    };
    endpoints.push(endpoint);
    assert(endpoint_views(endpoints@) =~= endpoint_views(old(endpoints)@).push(
        registered(payload@, now_millis as nat),
    ));
}

/// The endpoints whose id is not `id`, in their order.
pub open spec fn without_id(endpoints: Seq<EndpointView>, id: Seq<char>) -> Seq<EndpointView>
    decreases endpoints.len(),
{
    if endpoints.len() == 0 {
        Seq::empty()
    } else if endpoints.last().id == id {
        without_id(endpoints.drop_last(), id)
    } else {
        without_id(endpoints.drop_last(), id).push(endpoints.last())
    }
}

/// Removes every endpoint with the given id; the others stay, in their
/// order.
pub fn remove_endpoint(endpoints: Vec<Endpoint>, id: &str) -> (res: Vec<Endpoint>)
    ensures
        endpoint_views(res@) == without_id(endpoint_views(endpoints@), id@),
{
    let mut kept: Vec<Endpoint> = Vec::new();
    let mut rest = endpoints;
    let ghost all = endpoint_views(endpoints@);
    let mut dropped: Vec<Endpoint> = Vec::new();
    // Taken from the back, the endpoints come out last first.
    while rest.len() > 0
        invariant
            endpoint_views(rest@) == all.take(rest@.len() as int),
            rest@.len() <= all.len(),
            without_id(all, id@) == without_id(endpoint_views(rest@), id@) + endpoint_views(
                dropped@,
            ).reverse(),
        decreases rest.len(),
    {
        let ghost before = endpoint_views(rest@);
        let ghost tail = endpoint_views(dropped@);
        let endpoint = rest.pop().unwrap();
        proof {
            assert(endpoint_views(rest@) =~= before.drop_last());
            assert(before.last() == endpoint@);
            assert(endpoint_views(rest@) =~= all.take(rest@.len() as int));
        }
        if !same_text(endpoint.id.as_str(), id) {
            dropped.push(endpoint);
            proof {
                assert(endpoint_views(dropped@) =~= tail.push(endpoint@));
                assert(tail.push(endpoint@).reverse() =~= seq![endpoint@] + tail.reverse());
                assert(without_id(all, id@) =~= without_id(endpoint_views(rest@), id@)
                    + endpoint_views(dropped@).reverse());
            }
        }
    }
    assert(without_id(endpoint_views(rest@), id@) =~= Seq::<EndpointView>::empty());
    while dropped.len() > 0
        invariant
            without_id(all, id@) == endpoint_views(kept@) + endpoint_views(dropped@).reverse(),
        decreases dropped.len(),
    {
        let ghost head = endpoint_views(kept@);
        let ghost tail = endpoint_views(dropped@);
        let endpoint = dropped.pop().unwrap();
        kept.push(endpoint);
        proof {
            assert(endpoint_views(dropped@) =~= tail.drop_last());
            assert(endpoint_views(kept@) =~= head.push(endpoint@));
            assert(tail.reverse() =~= seq![endpoint@] + tail.drop_last().reverse());
            assert(without_id(all, id@) =~= endpoint_views(kept@) + endpoint_views(
                dropped@,
            ).reverse());
        }
    }
    assert(endpoint_views(dropped@).reverse() =~= Seq::<EndpointView>::empty());
    assert(without_id(all, id@) =~= endpoint_views(kept@));
    kept
}

/// After a removal no endpoint has the id, and every endpoint that is left
/// was there before.
pub proof fn lemma_removed_id_is_gone(endpoints: Seq<EndpointView>, id: Seq<char>)
    ensures
        forall|i: int|
            0 <= i < without_id(endpoints, id).len() ==> {
                &&& (#[trigger] without_id(endpoints, id)[i]).id != id
                &&& endpoints.contains(without_id(endpoints, id)[i])
            },
        without_id(endpoints, id).len() <= endpoints.len(),
    decreases endpoints.len(),
{
    if endpoints.len() > 0 {
        let shorter = endpoints.drop_last();
        lemma_removed_id_is_gone(shorter, id);
        assert forall|i: int| 0 <= i < without_id(endpoints, id).len() implies {
            &&& (#[trigger] without_id(endpoints, id)[i]).id != id
            &&& endpoints.contains(without_id(endpoints, id)[i])
        } by {
            let e = without_id(endpoints, id)[i];
            if i < without_id(shorter, id).len() {
                assert(e == without_id(shorter, id)[i]);
                assert(shorter.contains(e));
                let j = choose|j: int| 0 <= j < shorter.len() && shorter[j] == e;
                assert(endpoints[j] == e);
            } else {
                assert(e == endpoints.last());
                assert(endpoints[endpoints.len() - 1] == e);
            }
        }
    }
}

} // verus!
