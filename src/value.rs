use vstd::prelude::*;

verus! {

/// A value of the backend's remote-procedure-call protocol, as far as the
/// gateway reads it.
pub enum RpcValue {
    Int(i32),
    Bool(bool),
    Str(String),
    Array(Vec<RpcValue>),
    Struct(Vec<Member>),
    /// Any other kind of value (a 64-bit integer, a double, a date, binary data, nil).
    Other,
}

/// One named member of a structured record.
pub struct Member {
    pub name: String,
    pub value: RpcValue,
}

/// The value of the first member of `members` called `name`.
pub open spec fn member_value(members: Seq<Member>, name: Seq<char>) -> Option<RpcValue>
    decreases members.len(),
{
    if members.len() == 0 {
        None
    } else if members[0].name@ == name {
        Some(members[0].value)
    } else {
        member_value(members.drop_first(), name)
    }
}

/// Looks up the member called `name` in a structured record.
pub fn lookup_member<'a>(members: &'a Vec<Member>, name: &String) -> (r: Option<&'a RpcValue>)
    ensures
        match member_value(members@, name@) {
            Some(v) => r == Some(&v),
            None => r is None,
        },
{
    let mut i: usize = 0;
    assert(members@.subrange(0, members@.len() as int) =~= members@);
    while i < members.len()
        invariant
            i <= members@.len(),
            member_value(members@, name@) == member_value(members@.subrange(i as int, members@.len() as int), name@),
        decreases members.len() - i,
    {
        let ghost rest = members@.subrange(i as int, members@.len() as int);
        assert(rest.drop_first() =~= members@.subrange(i + 1, members@.len() as int));
        if members[i].name == *name {
            return Some(&members[i].value);
        }
        i = i + 1;
    }
    None
}

} // verus!
