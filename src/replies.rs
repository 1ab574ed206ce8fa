use vstd::prelude::*;

use crate::render::DetailField;
use crate::value::{lookup_member, member_value, RpcValue};

verus! {

/// Why a host name could not be resolved to a system identifier.
#[derive(Debug, Clone, Copy, PartialEq, Eq, Structural)]
pub enum ResolveError {
    /// The lookup reply is not an array.
    NoArray,
    /// No system carries the host name.
    Empty,
    /// The first match is not a record with an integer `id`.
    MissingId,
}

/// A backend reply that does not have the shape the gateway reads.
#[derive(Debug, Clone, Copy, PartialEq, Eq, Structural)]
pub enum ShapeError {
    ErrataNotArray,
    ErratumWithoutId,
    MissingDetail(DetailField),
    NoJobId,
}

impl ResolveError {
    pub open spec fn spec_message(self) -> Seq<char> {
        match self {
            ResolveError::NoArray => "invalid server id, no array."@,
            ResolveError::Empty => "invalid server id in array."@,
            ResolveError::MissingId => "invalid server id, no integer found."@,
        }
    }

    /// The text shown to the caller for this error.
    pub fn message(&self) -> (r: String)
        ensures
            r@ == self.spec_message(),
    {
        match self {
            ResolveError::NoArray => String::from_str("invalid server id, no array."),
            ResolveError::Empty => String::from_str("invalid server id in array."),
            ResolveError::MissingId => String::from_str("invalid server id, no integer found."),
        }
    }
}

impl ShapeError {
    pub open spec fn spec_message(self) -> Seq<char> {
        match self {
            ShapeError::ErrataNotArray => "unexpected reply: the errata list is not an array."@,
            ShapeError::ErratumWithoutId => "unexpected reply: an erratum has no integer id."@,
            ShapeError::MissingDetail(f) => "unexpected reply: no text for field "@ + f.spec_name(),
            ShapeError::NoJobId => "unexpected reply: no job id."@,
        }
    }

    /// The text shown to the caller for this error.
    pub fn message(&self) -> (r: String)
        ensures
            r@ == self.spec_message(),
    {
        match self {
            ShapeError::ErrataNotArray => String::from_str(
                "unexpected reply: the errata list is not an array.",
            ),
            ShapeError::ErratumWithoutId => String::from_str(
                "unexpected reply: an erratum has no integer id.",
            ),
            ShapeError::MissingDetail(f) => {
                let mut text = String::from_str("unexpected reply: no text for field ");
                text.append(f.name());
                text
            },
            ShapeError::NoJobId => String::from_str("unexpected reply: no job id."),
        }
    }
}

/// The integer `id` member of a structured record, if it has one.
pub open spec fn record_id(v: RpcValue) -> Option<i32> {
    match v {
        RpcValue::Struct(members) => match member_value(members@, "id"@) {
            Some(RpcValue::Int(n)) => Some(n),
            _ => None,
        },
        _ => None,
    }
}

/// The system identifier that a `system.getId` reply designates: the id of its
/// first record.
pub open spec fn resolution(v: RpcValue) -> Result<i32, ResolveError> {
    match v {
        RpcValue::Array(items) => if items@.len() == 0 {
            Err(ResolveError::Empty)
        } else {
            match record_id(items@[0]) {
                Some(id) => Ok(id),
                None => Err(ResolveError::MissingId),
            }
        },
        _ => Err(ResolveError::NoArray),
    }
}

/// The errata identifiers of a `system.getRelevantErrata` reply, in order.
pub open spec fn errata_of(v: RpcValue) -> Result<Seq<i32>, ShapeError> {
    match v {
        RpcValue::Array(items) => if forall|i: int|
            0 <= i < items@.len() ==> (#[trigger] record_id(items@[i])) is Some {
            Ok(items@.map_values(|x: RpcValue| record_id(x).unwrap()))
        } else {
            Err(ShapeError::ErratumWithoutId)
        },
        _ => Err(ShapeError::ErrataNotArray),
    }
}

/// The job identifier of a `system.scheduleApplyErrata` reply: its first element.
pub open spec fn job_of(v: RpcValue) -> Result<i32, ShapeError> {
    match v {
        RpcValue::Array(items) => if items@.len() > 0 && items@[0] is Int {
            Ok(items@[0]->Int_0)
        } else {
            Err(ShapeError::NoJobId)
        },
        _ => Err(ShapeError::NoJobId),
    }
}

/// The session token of an `auth.login` reply.
pub open spec fn token_of(v: RpcValue) -> Option<Seq<char>> {
    match v {
        RpcValue::Str(s) => Some(s@),
        _ => None,
    }
}

fn record_id_of(v: &RpcValue) -> (r: Option<i32>)
    ensures
        r == record_id(*v),
{
    match v {
        RpcValue::Struct(members) => {
            let key = String::from_str("id");
            match lookup_member(members, &key) {
                Some(RpcValue::Int(n)) => Some(*n),
                _ => None,
            }
        },
        _ => None,
    }
}

/// Reads the system identifier out of a `system.getId` reply.
pub fn resolve_system_id(reply: &RpcValue) -> (r: Result<i32, ResolveError>)
    ensures
        r == resolution(*reply),
{
    match reply {
        RpcValue::Array(items) => {
            if items.len() == 0 {
                Err(ResolveError::Empty)
            } else {
                match record_id_of(&items[0]) {
                    Some(id) => Ok(id),
                    None => Err(ResolveError::MissingId),
                }
            }
        },
        _ => Err(ResolveError::NoArray),
    }
}

/// Reads the errata identifiers out of a `system.getRelevantErrata` reply.
pub fn errata_ids(reply: &RpcValue) -> (r: Result<Vec<i32>, ShapeError>)
    ensures
        match errata_of(*reply) {
            Ok(ids) => r matches Ok(v) && v@ == ids,
            Err(e) => r == Err::<Vec<i32>, ShapeError>(e),
        },
{
    match reply {
        RpcValue::Array(items) => {
            let mut ids: Vec<i32> = Vec::new();
            let mut i: usize = 0;
            while i < items.len()
                invariant
                    *reply is Array,
                    reply->Array_0@ == items@,
                    i <= items@.len(),
                    forall|j: int| 0 <= j < i ==> (#[trigger] record_id(items@[j])) is Some,
                    ids@ == items@.subrange(0, i as int).map_values(
                        |x: RpcValue| record_id(x).unwrap(),
                    ),
                decreases items.len() - i,
            {
                match record_id_of(&items[i]) {
                    Some(id) => {
                        ids.push(id);
                    },
                    None => {
                        return Err(ShapeError::ErratumWithoutId);
                    },
                }
                assert(items@.subrange(0, i + 1).map_values(|x: RpcValue| record_id(x).unwrap())
                    =~= items@.subrange(0, i as int).map_values(|x: RpcValue| record_id(x).unwrap()).push(
                    id_at(items@, i as int)));
                i = i + 1;
            }
            assert(items@.subrange(0, items@.len() as int) =~= items@);
            Ok(ids)
        },
        _ => Err(ShapeError::ErrataNotArray),
    }
}

spec fn id_at(items: Seq<RpcValue>, i: int) -> i32 {
    record_id(items[i]).unwrap()
}

/// Reads the job identifier out of a `system.scheduleApplyErrata` reply.
pub fn job_id(reply: &RpcValue) -> (r: Result<i32, ShapeError>)
    ensures
        r == job_of(*reply),
{
    match reply {
        RpcValue::Array(items) => {
            if items.len() > 0 {
                match &items[0] {
                    RpcValue::Int(n) => Ok(*n),
                    _ => Err(ShapeError::NoJobId),
                }
            } else {
                Err(ShapeError::NoJobId)
            }
        },
        _ => Err(ShapeError::NoJobId),
    }
}

/// Reads the session token out of an `auth.login` reply.
pub fn login_token(reply: &RpcValue) -> (r: Option<String>)
    ensures
        match token_of(*reply) {
            Some(t) => r matches Some(s) && s@ == t,
            None => r is None,
        },
{
    match reply {
        RpcValue::Str(s) => Some(s.clone()),
        _ => None,
    }
}

/// Whether an `auth.logout` reply confirms the logout (an integer status).
pub fn logout_confirmed(reply: &RpcValue) -> (r: bool)
    ensures
        r == (*reply is Int),
{
    match reply {
        RpcValue::Int(_) => true,
        _ => false,
    }
}

} // verus!
