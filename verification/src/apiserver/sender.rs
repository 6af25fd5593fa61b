//! Where the API server sends node agent requests, and what a send to all
//! guest nodes amounts to.

use vstd::prelude::*;
use crate::text::concat3;

verus! {

/// The address of the node agent on the node at `node_ip`.
pub fn node_agent_address(node_ip: &str) -> (r: String)
    ensures
        r@ == "http://"@ + node_ip@ + ":47004"@,
{
    concat3("http://", node_ip, ":47004")
}

/// The successful results among `outcomes`, in order.
pub open spec fn successes<T, E>(outcomes: Seq<Result<T, E>>) -> Seq<T>
    decreases outcomes.len(),
{
    if outcomes.len() == 0 {
        Seq::empty()
    } else {
        let rest = successes(outcomes.drop_last());
        match outcomes.last() {
            Ok(v) => rest.push(v),
            Err(_) => rest,
        }
    }
}

/// The outcome of sending to every guest node, from the result of each
/// send, one per guest in order: an error when there were no guests or no
/// send succeeded, else the responses of the sends that succeeded, in
/// order.
pub fn guest_send_outcome<T, E>(outcomes: Vec<Result<T, E>>) -> (r: Result<Vec<T>, String>)
    ensures
        outcomes@.len() == 0 ==> (r matches Err(m) && m@ == "No guest nodes found in etcd"@),
        outcomes@.len() > 0 && successes(outcomes@).len() == 0 ==> (r matches Err(m) && m@
            == "Failed to send to any guest nodes"@),
        outcomes@.len() > 0 && successes(outcomes@).len() > 0 ==> (r matches Ok(v) && v@ == successes(outcomes@)),
{
    if outcomes.len() == 0 {
        return Err(String::from_str("No guest nodes found in etcd"));
    }
    let ghost all = outcomes@;
    let mut rest = outcomes;
    let mut done: Ghost<Seq<Result<T, E>>> = Ghost(Seq::empty());
    let mut responses: Vec<T> = Vec::new();
    while rest.len() > 0
        invariant
            done@ + rest@ == all,
            responses@ == successes(done@),
        decreases rest@.len(),
    {
        let ghost before = rest@;
        let x = rest.remove(0);
        proof {
            let d0 = done@;
            done@ = done@.push(before[0]);
            assert(done@.drop_last() =~= d0);
            assert(done@ + rest@ =~= all);
        }
        match x {
            Ok(v) => responses.push(v),
            Err(_) => {},
        }
    }
    assert(done@ =~= all);
    if responses.len() == 0 {
        Err(String::from_str("Failed to send to any guest nodes"))
    } else {
        Ok(responses)
    }
}

} // verus!
