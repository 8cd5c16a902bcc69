//! The top-level members of a JSON object, as plain values.
use vstd::prelude::*;

verus! {

/// One member of a JSON object: its key, the decimal text of its value when
/// that value is a number, and the value itself when it is an integer that
/// fits an `i64`.
#[derive(Clone, Debug, PartialEq)]
pub struct Member {
    pub key: String,
    pub number: Option<String>,
    pub integer: Option<i64>,
}

/// A member seen as plain values.
pub struct MemberView {
    pub key: Seq<char>,
    pub number: Option<Seq<char>>,
    pub integer: Option<i64>,
}

impl View for Member {
    type V = MemberView;

    open spec fn view(&self) -> MemberView {
        MemberView {
            key: self.key@,
            number: match self.number {
                Some(s) => Some(s@),
                None => None,
            },
            integer: self.integer,
        }
    }
}

/// The members of the JSON object that the bytes hold, in the order in which
/// serde_json's map yields them; `None` when the bytes are not one JSON object.
pub uninterp spec fn object_members(b: Seq<u8>) -> Option<Seq<MemberView>>;

/// The view of each member of a list.
pub open spec fn members_view(ms: Seq<Member>) -> Seq<MemberView> {
    ms.map_values(|m: Member| m@)
}

/// Relies on `serde_json::from_slice` into a `serde_json::Map`: `Some` exactly
/// for bytes that hold one JSON object; each member is handed out with
/// `Value::as_number` (as text) and `Value::as_i64`.
#[verifier::external_body]
pub(crate) fn parse_object(b: &[u8]) -> (r: Option<Vec<Member>>)
    ensures
        object_members(b@) == match r {
            Some(v) => Some(members_view(v@)),
            None => None::<Seq<MemberView>>,
        },
{
    let m = serde_json::from_slice::<serde_json::Map<String, serde_json::Value>>(b).ok()?;
    Some(m.into_iter().map(|(key, v)| Member {
        number: v.as_number().map(|n| n.to_string()),
        integer: v.as_i64(),
        key,
    }).collect())
}

/// The first member of `ms` whose key is `k`.
pub open spec fn member(ms: Seq<MemberView>, k: Seq<char>) -> Option<MemberView>
    decreases ms.len(),
{
    if ms.len() == 0 {
        None
    } else if ms[0].key == k {
        Some(ms[0])
    } else {
        member(ms.drop_first(), k)
    }
}

/// Looks up the first member of `ms` whose key is `k`.
pub fn find_member<'a>(ms: &'a [Member], k: &String) -> (r: Option<&'a Member>)
    ensures
        match r {
            Some(m) => member(members_view(ms@), k@) == Some(m@),
            None => member(members_view(ms@), k@) is None,
        },
{
    let mut i: usize = 0;
    assert(members_view(ms@).subrange(0, ms@.len() as int) =~= members_view(ms@));
    while i < ms.len()
        invariant
            i <= ms@.len(),
            member(members_view(ms@), k@) == member(members_view(ms@).subrange(i as int, ms@.len() as int), k@),
        decreases ms.len() - i,
    {
        let ghost rest = members_view(ms@).subrange(i as int, ms@.len() as int);
        assert(rest.drop_first() =~= members_view(ms@).subrange(i + 1, ms@.len() as int));
        if ms[i].key == *k {
            return Some(&ms[i]);
        }
        i = i + 1;
    }
    assert(members_view(ms@).subrange(i as int, ms@.len() as int).len() == 0);
    None
}

} // verus!
