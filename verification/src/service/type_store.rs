//! The book that the filter keeps of the requests that are out.

use vstd::prelude::*;
use crate::messages::groups::requests::{AllRequests, RequestMethod};
use crate::messages::jsonrpc::request::{LspRequest, NumberOrStringView, RequestId};
use crate::messages::jsonrpc::response::{
    LspResponse, ResponseId, ResponseIdView, ResponseMessage, UntypedResponseMessage,
};

verus! {

/// A response together with the method of the request that it answers.
#[derive(Debug, PartialEq)]
pub struct TypedResponse {
    pub method: RequestMethod,
    pub message: ResponseMessage,
}

impl LspResponse for TypedResponse {
    open spec fn response_id_spec(&self) -> ResponseId {
        self.message.id
    }

    open spec fn untyped_spec(self) -> UntypedResponseMessage {
        self.message.untyped_spec()
    }

    fn response_id(&self) -> (id: &ResponseId) {
        &self.message.id
    }

    fn untyped(self) -> (untyped: UntypedResponseMessage) {
        self.message.untyped()
    }
}

/// The methods of the requests that are out, by identifier. A number and a
/// string are never the same identifier.
#[derive(Debug)]
pub struct TypeStore {
    pub entries: Vec<(RequestId, RequestMethod)>,
}

/// The map that the first `n` entries make up: of two entries with one
/// identifier the later counts.
pub open spec fn entries_map(entries: Seq<(RequestId, RequestMethod)>, n: nat) -> Map<
    NumberOrStringView,
    RequestMethod,
>
    decreases n,
{
    if n == 0 || n > entries.len() {
        Map::empty()
    } else {
        entries_map(entries, (n - 1) as nat).insert(entries[n - 1].0@, entries[n - 1].1)
    }
}

/// Entry lists that agree entry by entry make up the same map.
pub proof fn lemma_entries_map_same(
    a: Seq<(RequestId, RequestMethod)>,
    b: Seq<(RequestId, RequestMethod)>,
    n: nat,
)
    requires
        n <= a.len(),
        n <= b.len(),
        forall|k: int| 0 <= k < n ==> a[k].0@ == b[k].0@ && a[k].1 == b[k].1,
    ensures
        entries_map(a, n) == entries_map(b, n),
    decreases n,
{
    if n > 0 {
        lemma_entries_map_same(a, b, (n - 1) as nat);
    }
}

/// An identifier that none of the first `n` entries has is not in their map.
pub proof fn lemma_entries_map_absent(
    entries: Seq<(RequestId, RequestMethod)>,
    n: nat,
    id: NumberOrStringView,
)
    requires
        n <= entries.len(),
        forall|k: int| 0 <= k < n ==> entries[k].0@ != id,
    ensures
        !entries_map(entries, n).contains_key(id),
    decreases n,
{
    if n > 0 {
        lemma_entries_map_absent(entries, (n - 1) as nat, id);
    }
}

/// The last entry with an identifier gives the identifier its method.
pub proof fn lemma_entries_map_last(
    entries: Seq<(RequestId, RequestMethod)>,
    n: nat,
    i: int,
    id: NumberOrStringView,
)
    requires
        0 <= i < n <= entries.len(),
        entries[i].0@ == id,
        forall|k: int| i < k < n ==> entries[k].0@ != id,
    ensures
        entries_map(entries, n).contains_key(id),
        entries_map(entries, n)[id] == entries[i].1,
    decreases n,
{
    if n > i + 1 {
        lemma_entries_map_last(entries, (n - 1) as nat, i, id);
    }
}

impl View for TypeStore {
    type V = Map<NumberOrStringView, RequestMethod>;

    open spec fn view(&self) -> Map<NumberOrStringView, RequestMethod> {
        entries_map(self.entries@, self.entries@.len())
    }
}

/// What loading the type of a response comes to: the response typed with
/// the method that the store has for its identifier, which leaves the store;
/// or, where the store has none, the response handed back.
pub open spec fn is_loaded(
    before: Map<NumberOrStringView, RequestMethod>,
    untyped: UntypedResponseMessage,
    after: Map<NumberOrStringView, RequestMethod>,
    loaded: Result<TypedResponse, UntypedResponseMessage>,
) -> bool {
    match untyped.id@ {
        ResponseIdView::NumberOrString(id) if before.contains_key(id) => {
            &&& after == before.remove(id)
            &&& loaded matches Ok(typed)
            &&& typed.method == before[id]
            &&& typed.message.id == untyped.id
            &&& typed.message.kind == untyped.kind
        },
        _ => after == before && loaded == Err::<TypedResponse, UntypedResponseMessage>(untyped),
    }
}

impl TypeStore {
    /// The store of a filter that has forwarded nothing yet.
    pub fn new() -> (store: TypeStore)
        ensures
            store@ == Map::<NumberOrStringView, RequestMethod>::empty(),
    {
        TypeStore { entries: Vec::new() }
    }

    /// The method on record for `id`.
    pub fn method_of(&self, id: &RequestId) -> (method: Option<RequestMethod>)
        ensures
            method == if self@.contains_key(id@) {
                Some(self@[id@])
            } else {
                None
            },
    {
        let mut i: usize = self.entries.len();
        while i > 0
            invariant
                i <= self.entries@.len(),
                forall|k: int| i <= k < self.entries@.len() ==> self.entries@[k].0@ != id@,
            decreases i,
        {
            i -= 1;
            if self.entries[i].0.0.same(&id.0) {
                proof {
                    lemma_entries_map_last(self.entries@, self.entries@.len(), i as int, id@);
                }
                return Some(self.entries[i].1);
            }
        }
        proof {
            lemma_entries_map_absent(self.entries@, self.entries@.len(), id@);
        }
        None
    }

    /// Puts the method of an outgoing request on record under the request's
    /// identifier. An earlier record under the same identifier is replaced.
    pub fn store_request_type(&mut self, outgoing_request: &AllRequests)
        ensures
            final(self)@ == old(self)@.insert(
                outgoing_request.request_id_spec()@,
                outgoing_request.method_spec(),
            ),
    {
        let id = outgoing_request.request_id().duplicate();
        let ghost before = self.entries@;
        self.entries.push((id, outgoing_request.method()));
        proof {
            lemma_entries_map_same(before, self.entries@, before.len());
        }
    }

    /// Takes every record under `id` off the record.
    fn forget(&mut self, id: &RequestId)
        ensures
            final(self)@ == old(self)@.remove(id@),
    {
        let mut kept: Vec<(RequestId, RequestMethod)> = Vec::new();
        let mut i: usize = 0;
        while i < self.entries.len()
            invariant
                i <= self.entries@.len(),
                self.entries@ == old(self).entries@,
                entries_map(kept@, kept@.len()) == entries_map(self.entries@, i as nat).remove(id@),
            decreases self.entries@.len() - i,
        {
            if !self.entries[i].0.0.same(&id.0) {
                let ghost before = kept@;
                kept.push((self.entries[i].0.duplicate(), self.entries[i].1));
                proof {
                    lemma_entries_map_same(before, kept@, before.len());
                    assert(entries_map(kept@, kept@.len()) =~= entries_map(
                        self.entries@,
                        (i + 1) as nat,
                    ).remove(id@));
                }
            } else {
                proof {
                    assert(entries_map(kept@, kept@.len()) =~= entries_map(
                        self.entries@,
                        (i + 1) as nat,
                    ).remove(id@));
                }
            }
            i += 1;
        }
        self.entries = kept;
    }

    /// Types a response with the method on record for its identifier, and
    /// takes the record off. A response with the identifier `null`, or with
    /// one that is not on record, is handed back.
    pub fn load_response_type(&mut self, untyped_response: UntypedResponseMessage) -> (loaded:
        Result<TypedResponse, UntypedResponseMessage>)
        ensures
            is_loaded(old(self)@, untyped_response, final(self)@, loaded),
    {
        let found = match &untyped_response.id {
            ResponseId::NumberOrString(id) => {
                let request_id = RequestId(id.duplicate());
                match self.method_of(&request_id) {
                    Some(method) => Some((request_id, method)),
                    None => None,
                }
            },
            ResponseId::Null => None,
        };
        match found {
            Some((request_id, method)) => {
                self.forget(&request_id);
                Ok(TypedResponse { method, message: ResponseMessage::typed(untyped_response) })
            },
            None => Err(untyped_response),
        }
    }
}

} // verus!
