//! Projecting captured mutations onto sync-outbox write requests at commit
//! time.
use vstd::prelude::*;

verus! {

/// A request to append one event to the sync outbox.
pub struct OutboxWriteRequest<Entity, Op, Payload> {
    pub entity: Entity,
    pub subject_id: String,
    pub op: Op,
    pub payload: Payload,
}

/// A captured mutation that can be projected to a sync outbox request at
/// commit time.
pub struct ProjectedChange<Entity, Op, Payload> {
    pub entity: Entity,
    pub subject_id: String,
    pub op: Op,
    pub payload: Payload,
}

/// The outbox request a captured change projects to.
pub open spec fn spec_outbox_request<E, O, P>(c: ProjectedChange<E, O, P>) -> OutboxWriteRequest<E, O, P> {
    OutboxWriteRequest { entity: c.entity, subject_id: c.subject_id, op: c.op, payload: c.payload }
}

impl<E, O, P> ProjectedChange<E, O, P> {
    /// The change captured for a model: its entity, its subject id, the
    /// operation, and the model serialized as payload. A serialization error
    /// is returned as the error.
    pub fn for_model<X>(entity: E, subject_id: String, op: O, payload: Result<P, X>) -> (r: Result<Self, X>)
        ensures
            match payload {
                Ok(p) => r matches Ok(c) && c.entity == entity && c.subject_id == subject_id && c.op
                    == op && c.payload == p,
                Err(e) => r matches Err(x) && x == e,
            },
    {
        match payload {
            Ok(p) => Ok(ProjectedChange { entity, subject_id, op, payload: p }),
            Err(e) => Err(e),
        }
    }

    /// The change captured for deleting a model's subject: its entity, the
    /// subject id, the delete operation and the model's delete payload for
    /// that subject.
    pub fn delete_for_model(entity: E, subject_id: String, delete_op: O, delete_payload: P) -> (r: Self)
        ensures
            r.entity == entity,
            r.subject_id == subject_id,
            r.op == delete_op,
            r.payload == delete_payload,
    {
        ProjectedChange { entity, subject_id, op: delete_op, payload: delete_payload }
    }

    /// The outbox request this change projects to: same entity, subject,
    /// operation and payload.
    pub fn into_outbox_request(self) -> (r: OutboxWriteRequest<E, O, P>)
        ensures
            r == spec_outbox_request(self),
    {
        OutboxWriteRequest {
            entity: self.entity,
            subject_id: self.subject_id,
            op: self.op,
            payload: self.payload,
        }
    }
}

/// The outbox requests a commit appends, in order: the explicit requests
/// first, then the projections of the captured changes. Their number is what
/// a successful flush reports as inserted.
pub fn projected_outbox_requests<E, O, P>(
    requests: Vec<OutboxWriteRequest<E, O, P>>,
    projected_changes: Vec<ProjectedChange<E, O, P>>,
) -> (r: Vec<OutboxWriteRequest<E, O, P>>)
    ensures
        r@.len() == requests@.len() + projected_changes@.len(),
        forall|i: int| 0 <= i < requests@.len() ==> #[trigger] r@[i] == requests@[i],
        forall|j: int|
            0 <= j < projected_changes@.len() ==> #[trigger] r@[requests@.len() + j]
                == spec_outbox_request(projected_changes@[j]),
{
    let mut out = requests;
    let ghost base = out@;
    let mut changes = projected_changes;
    let ghost all = changes@;
    let n = changes.len();
    let mut i: usize = 0;
    while i < n
        invariant
            n == all.len(),
            0 <= i <= n,
            changes@ == all.skip(i as int),
            out@.len() == base.len() + i,
            forall|k: int| 0 <= k < base.len() ==> #[trigger] out@[k] == base[k],
            forall|j: int| 0 <= j < i ==> #[trigger] out@[base.len() + j] == spec_outbox_request(all[j]),
        decreases n - i,
    {
        let change = changes.remove(0);
        assert(all.skip(i as int).drop_first() =~= all.skip(i + 1));
        out.push(change.into_outbox_request());
        i = i + 1;
    }
    out
}

} // verus!
