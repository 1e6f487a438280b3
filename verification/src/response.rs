use vstd::prelude::*;

verus! {

/// A key/value pair attached to a successful outcome, describing what was
/// done.
#[derive(Clone, Debug, PartialEq)]
pub struct Attribute {
    pub key: String,
    pub value: String,
}

/// A request for further work addressed to the host. This core never emits
/// one; the field exists so that an outcome states that explicitly.
#[derive(Clone, Debug, PartialEq)]
pub struct SubMsg {}

/// Outcome of a successful invocation: the attributes it emitted and the
/// (always empty) list of follow-up messages.
#[derive(Clone, Debug, PartialEq)]
pub struct Response {
    pub messages: Vec<SubMsg>,
    pub attributes: Vec<Attribute>,
}

impl Response {
    /// An empty outcome: no attributes, no messages.
    pub fn new() -> (r: Response)
        ensures
            r.messages@ =~= Seq::<SubMsg>::empty(),
            r.attributes@ =~= Seq::<Attribute>::empty(),
    {
        Response { messages: Vec::new(), attributes: Vec::new() }
    }

    /// The same outcome with one more attribute appended at the end.
    pub fn add_attribute(self, key: String, value: String) -> (r: Response)
        ensures
            r.messages@ == self.messages@,
            r.attributes@ == self.attributes@.push((Attribute { key, value })),
    {
        let mut attributes = self.attributes;
        attributes.push(Attribute { key, value });
        Response { messages: self.messages, attributes }
    }
}

} // verus!
