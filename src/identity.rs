//! Resolution of candidate identities to display names.
use vstd::prelude::*;
use crate::protocol::str_equals;

verus! {

/// The kind of a candidate identity.
#[derive(PartialEq, Eq, Structural, Clone, Copy, Debug)]
pub enum IdentityKind {
    UnixUser,
    UnixGroup,
    Other,
}

/// A candidate identity, as far as name resolution reads it: its kind and,
/// when its attributes hold a `uid` of type `u32`, that uid.
#[derive(PartialEq, Eq, Structural, Clone, Copy, Debug)]
pub struct Identity {
    pub kind: IdentityKind,
    pub uid: Option<u32>,
}

/// The kind named by the authority's kind string.
pub open spec fn kind_of(name: Seq<char>) -> IdentityKind {
    if name == "unix-user"@ {
        IdentityKind::UnixUser
    } else if name == "unix-group"@ {
        IdentityKind::UnixGroup
    } else {
        IdentityKind::Other
    }
}

/// The account whose name is looked up for an identity: only a unix user
/// with a uid has one.
pub open spec fn candidate_uid(id: Identity) -> Option<u32> {
    if id.kind == IdentityKind::UnixUser {
        id.uid
    } else {
        None
    }
}

/// The names that were found, in order; identities without one are skipped.
pub open spec fn present_names(found: Seq<Option<Seq<char>>>) -> Seq<Seq<char>>
    decreases found.len(),
{
    if found.len() == 0 {
        seq![]
    } else {
        let prev = present_names(found.drop_last());
        match found.last() {
            Some(n) => prev.push(n),
            None => prev,
        }
    }
}

pub open spec fn found_view(found: Seq<Option<String>>) -> Seq<Option<Seq<char>>> {
    found.map_values(
        |o: Option<String>|
            match o {
                Some(s) => Some(s@),
                None => None,
            },
    )
}

impl IdentityKind {
    /// Reads the authority's kind string.
    pub fn from_name(name: &str) -> (r: IdentityKind)
        ensures
            r == kind_of(name@),
    {
        if str_equals(name, "unix-user") {
            IdentityKind::UnixUser
        } else if str_equals(name, "unix-group") {
            IdentityKind::UnixGroup
        } else {
            IdentityKind::Other
        }
    }
}

impl Identity {
    pub fn new(kind: &str, uid: Option<u32>) -> (r: Identity)
        ensures
            r.kind == kind_of(kind@),
            r.uid == uid,
    {
        Identity { kind: IdentityKind::from_name(kind), uid }
    }

    /// The uid whose account name names this identity, if any.
    pub fn user_id(&self) -> (r: Option<u32>)
        ensures
            r == candidate_uid(*self),
    {
        if self.kind == IdentityKind::UnixUser {
            self.uid
        } else {
            None
        }
    }
}

/// Relies on `etc_passwd::Passwd::from_uid`, which looks the uid up in the
/// local account database, and on `CString::into_string` for its name. What
/// it finds depends on the machine: nothing is promised of it.
#[verifier::external_body]
fn lookup_account_name(uid: u32) -> (r: Option<String>) {
    match etc_passwd::Passwd::from_uid(uid) {
        Ok(Some(user)) => user.name.into_string().ok(),
        _ => None,
    }
}

/// The display name of one identity: the account name of a unix user, or
/// nothing when it has no uid, is of another kind, or the lookup fails.
pub fn resolve(identity: &Identity) -> (r: Option<String>)
    ensures
        candidate_uid(*identity) is None ==> r is None,
{
    match identity.user_id() {
        Some(uid) => lookup_account_name(uid),
        None => None,
    }
}

/// The names of the identities whose lookup found one, in order.
pub fn names_from_lookups(found: &Vec<Option<String>>) -> (r: Vec<String>)
    ensures
        r@.map_values(|s: String| s@) == present_names(found_view(found@)),
{
    let mut names: Vec<String> = Vec::new();
    let mut i: usize = 0;
    while i < found.len()
        invariant
            i <= found.len(),
            names@.map_values(|s: String| s@) == present_names(
                found_view(found@).subrange(0, i as int),
            ),
        decreases found.len() - i,
    {
        proof {
            assert(found_view(found@).subrange(0, i as int + 1).drop_last() =~= found_view(
                found@,
            ).subrange(0, i as int));
        }
        match &found[i] {
            Some(n) => {
                names.push(n.clone());
            },
            None => {},
        }
        assert(names@.map_values(|s: String| s@) =~= present_names(
            found_view(found@).subrange(0, i as int + 1),
        ));
        i = i + 1;
    }
    assert(found_view(found@).subrange(0, found@.len() as int) =~= found_view(found@));
    names
}

/// The display names of the candidates, in order. A failed lookup leaves its
/// identity out and never stops the others.
pub fn resolve_names(identities: &Vec<Identity>) -> (r: Vec<String>)
    ensures
        exists|found: Seq<Option<Seq<char>>>|
            {
                &&& found.len() == identities@.len()
                &&& forall|k: int|
                    0 <= k < found.len() && candidate_uid(#[trigger] identities@[k]) is None
                        ==> found[k] is None
                &&& r@.map_values(|s: String| s@) == present_names(found)
            },
{
    let mut found: Vec<Option<String>> = Vec::new();
    let mut i: usize = 0;
    while i < identities.len()
        invariant
            i <= identities.len(),
            found@.len() == i,
            forall|k: int|
                0 <= k < i && candidate_uid(#[trigger] identities@[k]) is None ==> found@[k] is None,
        decreases identities.len() - i,
    {
        found.push(resolve(&identities[i]));
        i = i + 1;
    }
    let r = names_from_lookups(&found);
    assert(found_view(found@).len() == identities@.len());
    assert forall|k: int|
        0 <= k < found_view(found@).len() && candidate_uid(#[trigger] identities@[k]) is None
            implies found_view(found@)[k] is None by {
        assert(found@[k] is None);
    }
    r
}

} // verus!
