use vstd::prelude::*;

use crate::replies::ShapeError;
use crate::value::{lookup_member, member_value, RpcValue};

verus! {

/// The fields of a system's details that the gateway shows, in display order.
#[derive(Debug, Clone, Copy, PartialEq, Eq, Structural)]
pub enum DetailField {
    MinionId,
    MachineId,
    BaseEntitlement,
    Virtualization,
    ContactMethod,
}

impl DetailField {
    pub open spec fn spec_name(self) -> Seq<char> {
        match self {
            DetailField::MinionId => "minion_id"@,
            DetailField::MachineId => "machine_id"@,
            DetailField::BaseEntitlement => "base_entitlement"@,
            DetailField::Virtualization => "virtualization"@,
            DetailField::ContactMethod => "contact_method"@,
        }
    }

    /// The member name of this field in a details record.
    pub fn name(&self) -> (r: &'static str)
        ensures
            r@ == self.spec_name(),
    {
        match self {
            DetailField::MinionId => "minion_id",
            DetailField::MachineId => "machine_id",
            DetailField::BaseEntitlement => "base_entitlement",
            DetailField::Virtualization => "virtualization",
            DetailField::ContactMethod => "contact_method",
        }
    }
}

/// The fields that a details page shows, in order.
pub open spec fn detail_fields() -> Seq<DetailField> {
    seq![
        DetailField::MinionId,
        DetailField::MachineId,
        DetailField::BaseEntitlement,
        DetailField::Virtualization,
        DetailField::ContactMethod,
    ]
}

/// One HTML paragraph: `<p>name: text</p>`.
pub open spec fn paragraph(name: Seq<char>, text: Seq<char>) -> Seq<char> {
    "<p>"@ + name + ": "@ + text + "</p>"@
}

/// The text that a details record holds for `field`, if it holds one.
pub open spec fn field_text(members: Seq<crate::value::Member>, field: DetailField) -> Option<Seq<char>> {
    match member_value(members, field.spec_name()) {
        Some(RpcValue::Str(s)) => Some(s@),
        _ => None,
    }
}

/// The paragraphs of the first `k` detail fields, or the first of them that a
/// present record lacks. When the value is not a record at all, each field
/// reads "Not found".
pub open spec fn rendered_prefix(details: RpcValue, k: nat) -> Result<Seq<char>, DetailField>
    decreases k,
{
    if k == 0 {
        Ok(Seq::empty())
    } else {
        match rendered_prefix(details, (k - 1) as nat) {
            Err(f) => Err(f),
            Ok(prefix) => {
                let f = detail_fields()[k - 1];
                match details {
                    RpcValue::Struct(members) => match field_text(members@, f) {
                        Some(t) => Ok(prefix + paragraph(f.spec_name(), t)),
                        None => Err(f),
                    },
                    _ => Ok(prefix + paragraph(f.spec_name(), "Not found"@)),
                }
            },
        }
    }
}

/// The HTML of a details page, or the first field that the record lacks.
pub open spec fn rendered(details: RpcValue) -> Result<Seq<char>, DetailField> {
    rendered_prefix(details, 5)
}

pub(crate) proof fn lemma_missing_field_stays(details: RpcValue, k: nat, m: nat, f: DetailField)
    requires
        k <= m,
        rendered_prefix(details, k) == Err::<Seq<char>, DetailField>(f),
    ensures
        rendered_prefix(details, m) == Err::<Seq<char>, DetailField>(f),
    decreases m - k,
{
    if k < m {
        lemma_missing_field_stays(details, k, (m - 1) as nat, f);
    }
}

fn field_at(k: usize) -> (r: DetailField)
    requires
        k < 5,
    ensures
        r == detail_fields()[k as int],
{
    if k == 0 {
        DetailField::MinionId
    } else if k == 1 {
        DetailField::MachineId
    } else if k == 2 {
        DetailField::BaseEntitlement
    } else if k == 3 {
        DetailField::Virtualization
    } else {
        DetailField::ContactMethod
    }
}

/// Renders a `system.getDetails` reply as HTML: one paragraph per detail field
/// with its text, or "Not found" for every field when the reply is not a
/// record. A record that lacks one of the fields, or holds something other than
/// text there, is a shape error naming the first such field.
pub fn render_details(details: &RpcValue) -> (r: Result<String, ShapeError>)
    ensures
        match rendered(*details) {
            Ok(html) => r matches Ok(s) && s@ == html,
            Err(f) => r == Err::<String, ShapeError>(ShapeError::MissingDetail(f)),
        },
{
    let mut body = String::new();
    let mut k: usize = 0;
    while k < 5
        invariant
            k <= 5,
            rendered_prefix(*details, k as nat) == Ok::<Seq<char>, DetailField>(body@),
        decreases 5 - k,
    {
        let f = field_at(k);
        let ghost before = body@;
        let ghost mut text: Seq<char> = Seq::empty();
        body.append("<p>");
        body.append(f.name());
        body.append(": ");
        match details {
            RpcValue::Struct(members) => {
                let key = String::from_str(f.name());
                match lookup_member(members, &key) {
                    Some(RpcValue::Str(t)) => {
                        body.append(t.as_str());
                        proof {
                            text = t@;
                        }
                    },
                    _ => {
                        proof {
                            lemma_missing_field_stays(*details, (k + 1) as nat, 5, f);
                        }
                        return Err(ShapeError::MissingDetail(f));
                    },
                }
            },
            _ => {
                body.append("Not found");
                proof {
                    text = "Not found"@;
                }
            },
        }
        body.append("</p>");
        assert(body@ =~= before + paragraph(f.spec_name(), text));
        k = k + 1;
    }
    Ok(body)
}

} // verus!
