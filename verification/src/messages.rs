//! The outbound event texts. Three shapes leave the service: the join
//! notification broadcast to all sessions, the private initial snapshot
//! sent to a new session alone, and the per-vote update broadcast to all.
//! Each is built here with its exact character sequence pinned down, so
//! building one can never fail.

use vstd::prelude::*;

use crate::color::{spec_token, token, Color};
use crate::numtext::{spec_dec, u64_to_string};
use crate::tally::Counters;
use vstd::string::StringExecFns;

verus! {

/// The join notification: the cumulative user count, broadcast to all.
pub open spec fn spec_join_message(users: nat) -> Seq<char> {
    "{\"total_users\":"@ + spec_dec(users) + "}"@
}

/// The per-vote update: the mutated category's new value plus the new
/// total, and nothing else.
pub open spec fn spec_update_message(c: Color, n: nat, total: nat) -> Seq<char> {
    "{\""@ + spec_token(c) + "\":"@ + spec_dec(n) + ",\"total\":"@ + spec_dec(total) + "}"@
}

/// The private initial snapshot: the user count, every category counter,
/// and the total.
pub open spec fn spec_initial_message(users: nat, c: Counters) -> Seq<char> {
    "{\"total_users\":"@ + spec_dec(users) + ",\"red\":"@ + spec_dec(c.red as nat) + ",\"green\":"@
        + spec_dec(c.green as nat) + ",\"blue\":"@ + spec_dec(c.blue as nat) + ",\"purple\":"@
        + spec_dec(c.purple as nat) + ",\"total\":"@ + spec_dec(c.total as nat) + "}"@
}

/// Build the join notification.
pub fn join_message(users: u64) -> (s: String)
    ensures
        s@ == spec_join_message(users as nat),
{
    let mut s = String::from_str("{\"total_users\":");
    let d = u64_to_string(users);
    s.append(d.as_str());
    s.append("}");
    proof {
        assert(s@ =~= spec_join_message(users as nat));
    }
    s
}

/// Build the per-vote update event.
pub fn update_message(c: Color, n: u64, total: u64) -> (s: String)
    ensures
        s@ == spec_update_message(c, n as nat, total as nat),
{
    let mut s = String::from_str("{\"");
    s.append(token(c));
    s.append("\":");
    let d = u64_to_string(n);
    s.append(d.as_str());
    s.append(",\"total\":");
    let t = u64_to_string(total);
    s.append(t.as_str());
    s.append("}");
    proof {
        assert(s@ =~= spec_update_message(c, n as nat, total as nat));
    }
    s
}

/// Build the private initial snapshot.
pub fn initial_message(users: u64, c: &Counters) -> (s: String)
    ensures
        s@ == spec_initial_message(users as nat, *c),
{
    let mut s = String::from_str("{\"total_users\":");
    let d = u64_to_string(users);
    s.append(d.as_str());
    s.append(",\"red\":");
    let d = u64_to_string(c.red);
    s.append(d.as_str());
    s.append(",\"green\":");
    let d = u64_to_string(c.green);
    s.append(d.as_str());
    s.append(",\"blue\":");
    let d = u64_to_string(c.blue);
    s.append(d.as_str());
    s.append(",\"purple\":");
    let d = u64_to_string(c.purple);
    s.append(d.as_str());
    s.append(",\"total\":");
    let d = u64_to_string(c.total);
    s.append(d.as_str());
    s.append("}");
    proof {
        assert(s@ =~= spec_initial_message(users as nat, *c));
    }
    s
}

} // verus!
