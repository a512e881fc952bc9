//! The invitation gate: which room invitations to accept, from the allow-list.

use vstd::prelude::*;
use vstd::string::*;
use crate::text::same_text;

verus! {

/// The identity used for a room whose creator is not known.
pub const NO_CREATOR: &'static str = "(none)";

/// What to do with one pending invitation.
#[derive(Debug, Clone, Copy, PartialEq, Eq, Structural)]
pub enum Decision {
    Accept,
    Reject,
}

/// Whether `user` is listed in one of the allow-lists (one per configuration
/// document that has the field).
pub open spec fn allowed(user: Seq<char>, lists: Seq<Vec<String>>) -> bool {
    exists|d: int, k: int|
        0 <= d < lists.len() && 0 <= k < lists[d]@.len() && (#[trigger] lists[d]@[k])@ == user
}

/// Whether `userid` equals some entry of the allow-lists, exactly.
pub fn is_valid_inviting_user(userid: &str, lists: &Vec<Vec<String>>) -> (r: bool)
    ensures
        r == allowed(userid@, lists@),
{
    let mut d: usize = 0;
    while d < lists.len()
        invariant
            d <= lists@.len(),
            forall|i: int, k: int|
                0 <= i < d && 0 <= k < lists@[i]@.len() ==> (#[trigger] lists@[i]@[k])@ != userid@,
        decreases lists@.len() - d,
    {
        let list = &lists[d];
        let mut k: usize = 0;
        while k < list.len()
            invariant
                d < lists@.len(),
                list == lists@[d as int],
                k <= list@.len(),
                forall|i: int, m: int|
                    0 <= i < d && 0 <= m < lists@[i]@.len() ==> (#[trigger] lists@[i]@[m])@ != userid@,
                forall|m: int| 0 <= m < k ==> (#[trigger] list@[m])@ != userid@,
            decreases list@.len() - k,
        {
            if same_text(list[k].as_str(), userid) {
                return true;
            }
            k = k + 1;
        }
        d = d + 1;
    }
    false
}

/// The identity an invitation is judged by: its room's creator, or
/// `NO_CREATOR` when that is not known.
pub fn inviter_identity(creator: Option<String>) -> (r: String)
    ensures
        creator is Some ==> r@ == creator->Some_0@,
        creator is None ==> r@ == NO_CREATOR@,
{
    match creator {
        Some(c) => c,
        None => String::from_str(NO_CREATOR),
    }
}

/// Decides the invitations seen in one poll, given their inviters'
/// identities: accept exactly those whose inviter is allowed.
pub fn check_rooms(inviters: &Vec<String>, lists: &Vec<Vec<String>>) -> (r: Vec<Decision>)
    ensures
        r@.len() == inviters@.len(),
        forall|i: int|
            0 <= i < r@.len() ==> ((#[trigger] r@[i] == Decision::Accept) <==> allowed(
                inviters@[i]@,
                lists@,
            )),
        forall|i: int| 0 <= i < r@.len() ==> (r@[i] == Decision::Accept || r@[i] == Decision::Reject),
{
    let mut out: Vec<Decision> = Vec::new();
    let mut i: usize = 0;
    while i < inviters.len()
        invariant
            i <= inviters@.len(),
            out@.len() == i,
            forall|j: int|
                0 <= j < i ==> ((#[trigger] out@[j] == Decision::Accept) <==> allowed(
                    inviters@[j]@,
                    lists@,
                )),
        decreases inviters@.len() - i,
    {
        let d = if is_valid_inviting_user(inviters[i].as_str(), lists) {
            Decision::Accept
        } else {
            Decision::Reject
        };
        out.push(d);
        i = i + 1;
    }
    out
}

} // verus!
