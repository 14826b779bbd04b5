use vstd::prelude::*;

verus! {

/// The handle of a mock on its server: the number that the server gave it
/// when it was created.
#[derive(Clone, Copy, Debug, PartialEq, Eq, Structural)]
pub struct MockRef {
    pub mock_id: usize,
}

impl MockRef {
    pub fn new(mock_id: usize) -> (r: Self)
        ensures
            r.mock_id == mock_id,
    {
        MockRef { mock_id }
    }
}

/// What an adapter reads of the request side of a mock definition.
#[derive(Clone, Copy, Debug, PartialEq, Eq, Structural)]
pub struct RequestRequirements {
    /// The matcher functions that live in this process: `None` where the
    /// definition has no such list, else how many it holds. A list counts as
    /// present even when it is empty.
    pub matchers: Option<usize>,
}

/// What an adapter reads of a mock definition. The rule and the response
/// themselves travel as JSON and are not looked at here.
#[derive(Clone, Copy, Debug, PartialEq, Eq, Structural)]
pub struct MockDefinition {
    pub request: RequestRequirements,
}

impl MockDefinition {
    /// Whether the definition holds matcher functions, which cannot leave the
    /// process.
    pub open spec fn embeds_matchers(self) -> bool {
        self.request.matchers is Some
    }

    /// A definition made of serialisable parts only.
    pub fn new() -> (r: Self)
        ensures
            !r.embeds_matchers(),
            r.request.matchers == None::<usize>,
    {
        MockDefinition { request: RequestRequirements { matchers: None } }
    }

    /// A definition that holds `count` matcher functions of this process.
    pub fn with_matchers(count: usize) -> (r: Self)
        ensures
            r.embeds_matchers(),
            r.request.matchers == Some(count),
    {
        MockDefinition { request: RequestRequirements { matchers: Some(count) } }
    }
}

} // verus!
