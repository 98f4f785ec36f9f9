//! Building a [`Response`] step by step.

use vstd::prelude::*;
use std::collections::BTreeMap;
use crate::response::{Response, Status};

verus! {

/// A response under construction: the template and the status are set one
/// at a time, and both must be set before [`ResponseBuilder::to_response`].
pub struct ResponseBuilder {
    pub data: BTreeMap<String, serde_json::Value>,
    template: Option<String>,
    status: Option<Status>,
}

/// `m` maps a key with the text `text` to `value`.
pub open spec fn holds_under_text(m: Map<String, serde_json::Value>, text: Seq<char>, value: serde_json::Value) -> bool {
    exists|s: String| #[trigger] m.contains_key(s) && s@ == text && m[s] == value
}

impl ResponseBuilder {
    /// The template chosen so far, if any.
    pub closed spec fn template_view(&self) -> Option<Seq<char>> {
        match self.template {
            Some(t) => Some(t@),
            None => None,
        }
    }

    /// The data handed to the template.
    pub closed spec fn data_view(&self) -> Map<String, serde_json::Value> {
        self.data@
    }

    /// The status chosen so far, if any.
    pub closed spec fn status_view(&self) -> Option<Status> {
        self.status
    }

    /// A builder with no data, no template and no status.
    pub fn new() -> (b: ResponseBuilder)
        ensures
            b.data_view() == Map::<String, serde_json::Value>::empty(),
            b.template_view() is None,
            b.status_view() is None,
    {
        ResponseBuilder { data: BTreeMap::new(), template: None, status: None }
    }

    /// Chooses the template, replacing any earlier choice.
    pub fn with_template(&mut self, template: &str)
        ensures
            final(self).template_view() == Some(template@),
            final(self).status_view() == old(self).status_view(),
            final(self).data_view() == old(self).data_view(),
    {
        self.template = Some(template.to_owned());
    }

    /// Chooses the status, replacing any earlier choice.
    pub fn with_status(&mut self, status: Status)
        ensures
            final(self).status_view() == Some(status),
            final(self).template_view() == old(self).template_view(),
            final(self).data_view() == old(self).data_view(),
    {
        self.status = Some(status);
    }

    /// The data handed to the template.
    pub fn data(&self) -> (d: &BTreeMap<String, serde_json::Value>)
        ensures
            d@ == self.data_view(),
    {
        &self.data
    }

    /// Hands `value` to the template under the name `key`, replacing the
    /// value of a key with the same text.
    pub fn insert(&mut self, key: String, value: serde_json::Value)
        ensures
            forall|s: String| #[trigger] final(self).data_view().contains_key(s)
                ==> old(self).data_view().contains_key(s) || s == key,
            holds_under_text(final(self).data_view(), key@, value),
            forall|s: String| #[trigger] old(self).data_view().contains_key(s) && s@ != key@
                ==> final(self).data_view().contains_key(s) && final(self).data_view()[s] == old(self).data_view()[s],
            final(self).template_view() == old(self).template_view(),
            final(self).status_view() == old(self).status_view(),
    {
        insert_entry(&mut self.data, key, value);
    }

    /// Whether both the template and the status have been chosen.
    pub fn is_complete(&self) -> (res: bool)
        ensures
            res == (self.template_view() is Some && self.status_view() is Some),
    {
        self.template.is_some() && self.status.is_some()
    }

    /// The response with the chosen template, status and the data. Both the
    /// template and the status must have been chosen.
    pub fn to_response(self) -> (r: Response)
        requires
            self.template_view() is Some,
            self.status_view() is Some,
        ensures
            r.data@ == self.data_view(),
            Some(r.template@) == self.template_view(),
            Some(r.status) == self.status_view(),
    {
        let ResponseBuilder { data, template, status } = self;
        match (template, status) {
            (Some(template), Some(status)) => Response { data, template, status },
            _ => {
                assert(false);
                Response { data, template: String::new(), status: Status { code: 500 } }
            },
        }
    }
}

/// Calls `BTreeMap::<String, serde_json::Value>::insert`. Trusted, as its
/// documentation states it: afterwards the map holds `value` under a key
/// with the text of `key` (the key already there is kept when there is one,
/// since `String`'s order says equal exactly when the text is equal), and
/// every other entry is as it was. The displaced value is not reported.
#[verifier::external_body]
fn insert_entry(m: &mut BTreeMap<String, serde_json::Value>, key: String, value: serde_json::Value)
    ensures
        forall|s: String| #[trigger] final(m)@.contains_key(s) ==> old(m)@.contains_key(s) || s == key,
        holds_under_text(final(m)@, key@, value),
        forall|s: String| #[trigger] old(m)@.contains_key(s) && s@ != key@
            ==> final(m)@.contains_key(s) && final(m)@[s] == old(m)@[s],
{
    m.insert(key, value);
}

} // verus!
