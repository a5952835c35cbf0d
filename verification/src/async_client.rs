//! The request facade: for each operation, the request that it sends and
//! what it makes of the response.

use vstd::prelude::*;

use crate::async_subscription::AsyncSubscription;
use crate::error::Error;
use crate::service::Guard;
use crate::ua::data_types::node_id::NodeId;
use crate::ua::requests::{
    BrowseDescription, BrowseNextRequest, BrowseRequest, CallMethodRequest, CallRequest,
    ReadRequest, ReadValueId, WriteRequest, WriteValue,
};
use crate::ua::responses::{
    BrowseNextResponse, BrowseResponse, BrowseResult, CallResponse, CreateSubscriptionResponse,
    ReadResponse, WriteResponse,
};
use crate::ua::values::{
    AttributeId, ClientState, ContinuationPoint, DataValue, ReferenceDescription, Variant,
    ATTRIBUTE_VALUE,
};

verus! {

/// One page of a browse: the references found, and the token for the next
/// page where there is one.
pub type BrowsePage = (Vec<ReferenceDescription>, Option<ContinuationPoint>);

/// The pages of a browse of several targets: one entry for each target,
/// `None` for a target whose result holds no references.
pub type BrowsePages = Vec<Option<BrowsePage>>;

/// The entries of the read request for the attributes `attribute_ids` of
/// `node_id`: one for each attribute, in the order given.
pub open spec fn read_request_of<'a>(
    node_id: &'a NodeId,
    attribute_ids: Seq<AttributeId>,
) -> Seq<ReadValueId<'a>> {
    Seq::new(
        attribute_ids.len(),
        |i: int| (ReadValueId { node_id, attribute_id: attribute_ids[i] }),
    )
}

/// The entries of the browse request for `node_ids`: one for each node, in
/// the order given.
pub open spec fn browse_request_of<'a>(node_ids: &'a [NodeId]) -> Seq<BrowseDescription<'a>> {
    Seq::new(node_ids@.len(), |i: int| (BrowseDescription { node_id: &node_ids@[i] }))
}

/// What a read of `count` attributes returns for the given response: the
/// values as the server listed them, provided that there are `count`.
pub open spec fn read_outcome(
    count: nat,
    response: Result<ReadResponse, Error>,
) -> Result<Vec<DataValue>, Error> {
    match response {
        Err(error) => Err(error),
        Ok(response) => match response.results {
            None => Err(Error::InternalInvariantViolation),
            Some(values) => if values@.len() == count {
                Ok(values)
            } else {
                Err(Error::InternalInvariantViolation)
            },
        },
    }
}

/// What a read of a single attribute returns for the given response.
pub open spec fn read_single_outcome(
    response: Result<ReadResponse, Error>,
) -> Result<DataValue, Error> {
    match read_outcome(1, response) {
        Err(error) => Err(error),
        Ok(values) => Ok(values@[0]),
    }
}

/// What a write returns for the given response: the first status decides.
pub open spec fn write_outcome(response: Result<WriteResponse, Error>) -> Result<(), Error> {
    match response {
        Err(error) => Err(error),
        Ok(response) => match response.results {
            None => Err(Error::InternalInvariantViolation),
            Some(results) => if results@.len() == 0 {
                Err(Error::InternalInvariantViolation)
            } else if results@[0].good() {
                Ok(())
            } else {
                Err(Error::ServiceFailure(results@[0]))
            },
        },
    }
}

/// What a method call returns for the given response: the output arguments
/// of the first result, `None` for a method that returns nothing.
pub open spec fn call_outcome(
    response: Result<CallResponse, Error>,
) -> Result<Option<Vec<Variant>>, Error> {
    match response {
        Err(error) => Err(error),
        Ok(response) => match response.results {
            None => Err(Error::InternalInvariantViolation),
            Some(results) => if results@.len() == 0 {
                Err(Error::InternalInvariantViolation)
            } else if results@[0].status_code.good() {
                Ok(results@[0].output_arguments)
            } else {
                Err(Error::ServiceFailure(results@[0].status_code))
            },
        },
    }
}

/// The page that one browse result holds, if it holds references at all.
pub open spec fn page_of(result: BrowseResult) -> Option<BrowsePage> {
    match result.references {
        None => None,
        Some(references) => Some((references, result.continuation_point)),
    }
}

/// What browsing a single node returns for the given response: the page of
/// the first result.
pub open spec fn browse_outcome(
    response: Result<BrowseResponse, Error>,
) -> Result<BrowsePage, Error> {
    match response {
        Err(error) => Err(error),
        Ok(response) => match response.results {
            None => Err(Error::InternalInvariantViolation),
            Some(results) => if results@.len() == 0 {
                Err(Error::InternalInvariantViolation)
            } else {
                match page_of(results@[0]) {
                    None => Err(Error::InternalInvariantViolation),
                    Some(page) => Ok(page),
                }
            },
        },
    }
}

/// Whether `pages` holds, in order, the page of each of `results`.
pub open spec fn pages_of(results: Seq<BrowseResult>, pages: Seq<Option<BrowsePage>>) -> bool {
    &&& pages.len() == results.len()
    &&& forall|i: int| 0 <= i < results.len() ==> pages[i] == page_of(#[trigger] results[i])
}

/// Whether `outcome` is what a browse of `count` targets returns where the
/// server's list of results is `results`: the page of each result, in order,
/// provided that there are `count`.
pub open spec fn pages_outcome(
    count: nat,
    results: Option<Vec<BrowseResult>>,
    outcome: Result<BrowsePages, Error>,
) -> bool {
    match results {
        None => outcome == Err::<BrowsePages, Error>(Error::InternalInvariantViolation),
        Some(results) => if results@.len() == count {
            outcome is Ok && pages_of(results@, outcome->Ok_0@)
        } else {
            outcome == Err::<BrowsePages, Error>(Error::InternalInvariantViolation)
        },
    }
}

/// What is left to do when the client goes away.
#[derive(Clone, Copy, Debug, PartialEq, Eq, Structural)]
pub struct Shutdown {
    /// Whether to cancel the background task: always.
    pub abort_background_task: bool,
    /// Whether to ask the engine to disconnect: where the guard could be
    /// taken.
    pub disconnect: bool,
}

/// Connected client, seen from the side of its callers.
pub struct AsyncClient {
    cycle_time: u128,
}

impl AsyncClient {
    /// Creates the client whose background task drives the protocol engine
    /// once in each `cycle_time`, given in nanoseconds.
    pub fn new(cycle_time: u128) -> (client: Self)
        ensures
            client.spec_cycle_time() == cycle_time,
    {
        AsyncClient { cycle_time }
    }

    /// Period of the background task, in nanoseconds.
    pub closed spec fn spec_cycle_time(&self) -> u128 {
        self.cycle_time
    }

    /// Period of the background task, in nanoseconds.
    #[verifier::when_used_as_spec(spec_cycle_time)]
    pub fn cycle_time(&self) -> (cycle_time: u128)
        ensures
            cycle_time == self.spec_cycle_time(),
    {
        self.cycle_time
    }

    /// Gets current channel and session state, and connect status: the
    /// state read under the guard, or a lock failure where the guard is
    /// poisoned and nothing could be read.
    pub fn state(&self, guarded: Option<ClientState>) -> (state: Result<ClientState, Error>)
        ensures
            state == match guarded {
                Some(read) => Ok::<ClientState, Error>(read),
                None => Err::<ClientState, Error>(Error::LockFailure),
            },
    {
        match guarded {
            Some(read) => Ok(read),
            None => Err(Error::LockFailure),
        }
    }

    /// Creates new subscription: the one that the given response reports.
    pub fn create_subscription(
        &self,
        response: Result<CreateSubscriptionResponse, Error>,
    ) -> (subscription: Result<AsyncSubscription, Error>)
        ensures
            match response {
                Ok(response) => subscription is Ok && subscription->Ok_0.id()
                    == response.subscription_id,
                Err(error) => subscription is Err && subscription->Err_0 == error,
            },
    {
        AsyncSubscription::new(response)
    }

    /// Ends the client: the background task is cancelled at once, and the
    /// engine is asked to disconnect where the guard could be taken.
    pub fn shutdown(&self, guard: Guard) -> (shutdown: Shutdown)
        ensures
            shutdown.abort_background_task,
            shutdown.disconnect == (guard == Guard::Acquired),
    {
        match guard {
            Guard::Acquired => Shutdown { abort_background_task: true, disconnect: true },
            Guard::Poisoned => Shutdown { abort_background_task: true, disconnect: false },
        }
    }

    /// The request that reads the attributes `attribute_ids` of `node_id`:
    /// one entry for each attribute, in the order given.
    pub fn read_attributes_request<'a>(
        node_id: &'a NodeId,
        attribute_ids: &[AttributeId],
    ) -> (request: ReadRequest<'a>)
        ensures
            request.nodes_to_read@ == read_request_of(node_id, attribute_ids@),
    {
        let mut nodes_to_read: Vec<ReadValueId<'a>> = Vec::new();
        let mut i: usize = 0;
        while i < attribute_ids.len()
            invariant
                i <= attribute_ids@.len(),
                nodes_to_read@ == read_request_of(node_id, attribute_ids@.take(i as int)),
            decreases attribute_ids@.len() - i,
        {
            nodes_to_read.push(ReadValueId { node_id, attribute_id: attribute_ids[i] });
            i += 1;
            assert(nodes_to_read@ =~= read_request_of(node_id, attribute_ids@.take(i as int)));
        }
        assert(attribute_ids@.take(i as int) =~= attribute_ids@);
        ReadRequest { nodes_to_read }
    }

    /// Reads several node attributes: the values that the response lists.
    /// Size and order of the result match size and order of `attribute_ids`.
    pub fn read_attributes(
        &self,
        attribute_ids: &[AttributeId],
        response: Result<ReadResponse, Error>,
    ) -> (values: Result<Vec<DataValue>, Error>)
        ensures
            values == read_outcome(attribute_ids@.len(), response),
            values is Ok ==> values->Ok_0@.len() == attribute_ids@.len(),
    {
        read_attributes_array(attribute_ids.len(), response)
    }

    /// The request that reads one attribute of `node_id`.
    pub fn read_attribute_request<'a>(
        node_id: &'a NodeId,
        attribute_id: &AttributeId,
    ) -> (request: ReadRequest<'a>)
        ensures
            request.nodes_to_read@ == seq![(ReadValueId { node_id, attribute_id: *attribute_id })],
    {
        let mut nodes_to_read: Vec<ReadValueId<'a>> = Vec::new();
        nodes_to_read.push(ReadValueId { node_id, attribute_id: *attribute_id });
        ReadRequest { nodes_to_read }
    }

    /// Reads node attribute: the single value that the response lists.
    pub fn read_attribute(
        &self,
        response: Result<ReadResponse, Error>,
    ) -> (value: Result<DataValue, Error>)
        ensures
            value == read_single_outcome(response),
    {
        let mut values = match read_attributes_array(1, response) {
            Ok(values) => values,
            Err(error) => { return Err(error); },
        };
        match values.pop() {
            Some(value) => Ok(value),
            None => Err(Error::internal()),
        }
    }

    /// The request that reads the value attribute of `node_id`.
    pub fn read_value_request<'a>(node_id: &'a NodeId) -> (request: ReadRequest<'a>)
        ensures
            request.nodes_to_read@ == seq![
                (ReadValueId { node_id, attribute_id: AttributeId { raw: ATTRIBUTE_VALUE } }),
            ],
    {
        let attribute_id = AttributeId::value();
        Self::read_attribute_request(node_id, &attribute_id)
    }

    /// Reads node value: the single value that the response lists.
    pub fn read_value(
        &self,
        response: Result<ReadResponse, Error>,
    ) -> (value: Result<DataValue, Error>)
        ensures
            value == read_single_outcome(response),
    {
        self.read_attribute(response)
    }

    /// The request that writes `value` to the value attribute of `node_id`.
    pub fn write_value_request<'a>(
        node_id: &'a NodeId,
        value: &'a DataValue,
    ) -> (request: WriteRequest<'a>)
        ensures
            request.nodes_to_write@ == seq![
                (WriteValue {
                    node_id,
                    attribute_id: AttributeId { raw: ATTRIBUTE_VALUE },
                    value,
                }),
            ],
    {
        let mut nodes_to_write: Vec<WriteValue<'a>> = Vec::new();
        nodes_to_write.push(WriteValue { node_id, attribute_id: AttributeId::value(), value });
        WriteRequest { nodes_to_write }
    }

    /// Writes node value: succeeds where the first status of the response is
    /// good.
    pub fn write_value(
        &self,
        response: Result<WriteResponse, Error>,
    ) -> (written: Result<(), Error>)
        ensures
            written == write_outcome(response),
    {
        let response = match response {
            Ok(response) => response,
            Err(error) => { return Err(error); },
        };
        let Some(results) = response.results else {
            return Err(Error::internal());
        };
        if results.len() == 0 {
            return Err(Error::internal());
        }
        Error::verify_good(&results[0])
    }

    /// The request that calls `method_id` on `object_id` with the given
    /// input arguments.
    pub fn call_method_request<'a>(
        object_id: &'a NodeId,
        method_id: &'a NodeId,
        input_arguments: &'a [Variant],
    ) -> (request: CallRequest<'a>)
        ensures
            request.methods_to_call@ == seq![
                (CallMethodRequest { object_id, method_id, input_arguments }),
            ],
    {
        let mut methods_to_call: Vec<CallMethodRequest<'a>> = Vec::new();
        methods_to_call.push(CallMethodRequest { object_id, method_id, input_arguments });
        CallRequest { methods_to_call }
    }

    /// Calls specific method node at object node: the output arguments of
    /// the first result, `None` for a method that returns nothing.
    pub fn call_method(
        &self,
        response: Result<CallResponse, Error>,
    ) -> (output: Result<Option<Vec<Variant>>, Error>)
        ensures
            output == call_outcome(response),
    {
        let response = match response {
            Ok(response) => response,
            Err(error) => { return Err(error); },
        };
        let Some(mut results) = response.results else {
            return Err(Error::internal());
        };
        if results.len() == 0 {
            return Err(Error::internal());
        }
        let result = results.swap_remove(0);
        match Error::verify_good(&result.status_code) {
            Ok(()) => Ok(result.output_arguments),
            Err(error) => Err(error),
        }
    }

    /// The request that browses `node_id`.
    pub fn browse_request<'a>(node_id: &'a NodeId) -> (request: BrowseRequest<'a>)
        ensures
            request.nodes_to_browse@ == seq![(BrowseDescription { node_id })],
    {
        let mut nodes_to_browse: Vec<BrowseDescription<'a>> = Vec::new();
        nodes_to_browse.push(BrowseDescription { node_id });
        BrowseRequest { nodes_to_browse }
    }

    /// Browses specific node: the page of references of the first result.
    pub fn browse(
        &self,
        response: Result<BrowseResponse, Error>,
    ) -> (page: Result<BrowsePage, Error>)
        ensures
            page == browse_outcome(response),
    {
        let response = match response {
            Ok(response) => response,
            Err(error) => { return Err(error); },
        };
        let Some(mut results) = response.results else {
            return Err(Error::internal());
        };
        if results.len() == 0 {
            return Err(Error::internal());
        }
        let result = results.swap_remove(0);
        let Some(references) = result.references else {
            return Err(Error::internal());
        };
        Ok((references, result.continuation_point))
    }

    /// The request that browses each of `node_ids`, in the order given.
    pub fn browse_many_request<'a>(node_ids: &'a [NodeId]) -> (request: BrowseRequest<'a>)
        ensures
            request.nodes_to_browse@ == browse_request_of(node_ids),
    {
        let mut nodes_to_browse: Vec<BrowseDescription<'a>> = Vec::new();
        let mut i: usize = 0;
        while i < node_ids.len()
            invariant
                i <= node_ids@.len(),
                nodes_to_browse@.len() == i,
                forall|j: int|
                    0 <= j < i ==> nodes_to_browse@[j] == (BrowseDescription {
                        node_id: &node_ids@[j],
                    }),
            decreases node_ids@.len() - i,
        {
            nodes_to_browse.push(BrowseDescription { node_id: &node_ids[i] });
            i += 1;
        }
        assert(nodes_to_browse@ =~= browse_request_of(node_ids));
        BrowseRequest { nodes_to_browse }
    }

    /// Browses several nodes at once: the page of each result, `None` for a
    /// result without references. Size and order of the result match size and
    /// order of `node_ids`.
    pub fn browse_many(
        &self,
        node_ids: &[NodeId],
        response: Result<BrowseResponse, Error>,
    ) -> (pages: Result<BrowsePages, Error>)
        ensures
            match response {
                Err(error) => pages == Err::<BrowsePages, Error>(error),
                Ok(response) => pages_outcome(node_ids@.len(), response.results, pages),
            },
            pages is Ok ==> pages->Ok_0@.len() == node_ids@.len(),
    {
        match response {
            Ok(response) => pages_in_order(node_ids.len(), response.results),
            Err(error) => Err(error),
        }
    }

    /// The request that continues the browses that issued
    /// `continuation_points`.
    pub fn browse_next_request<'a>(
        continuation_points: &'a [ContinuationPoint],
    ) -> (request: BrowseNextRequest<'a>)
        ensures
            request.continuation_points@ == continuation_points@,
    {
        BrowseNextRequest { continuation_points }
    }

    /// Browses continuation points for more references: the page of each
    /// result, `None` for a result without references. Size and order of the
    /// result match size and order of `continuation_points`.
    pub fn browse_next(
        &self,
        continuation_points: &[ContinuationPoint],
        response: Result<BrowseNextResponse, Error>,
    ) -> (pages: Result<BrowsePages, Error>)
        ensures
            match response {
                Err(error) => pages == Err::<BrowsePages, Error>(error),
                Ok(response) => pages_outcome(continuation_points@.len(), response.results, pages),
            },
            pages is Ok ==> pages->Ok_0@.len() == continuation_points@.len(),
    {
        match response {
            Ok(response) => pages_in_order(continuation_points.len(), response.results),
            Err(error) => Err(error),
        }
    }
}

/// Takes the values out of the response to a read of `count` attributes,
/// provided that there are `count`.
fn read_attributes_array(
    count: usize,
    response: Result<ReadResponse, Error>,
) -> (values: Result<Vec<DataValue>, Error>)
    ensures
        values == read_outcome(count as nat, response),
{
    let response = match response {
        Ok(response) => response,
        Err(error) => { return Err(error); },
    };
    let Some(results) = response.results else {
        return Err(Error::internal());
    };
    if results.len() != count {
        return Err(Error::internal());
    }
    Ok(results)
}

/// Takes the page out of one browse result.
fn into_page(result: BrowseResult) -> (page: Option<BrowsePage>)
    ensures
        page == page_of(result),
{
    match result.references {
        None => None,
        Some(references) => Some((references, result.continuation_point)),
    }
}

/// Takes the page out of each browse result, in order, provided that there
/// are `count` results.
fn pages_in_order(
    count: usize,
    results: Option<Vec<BrowseResult>>,
) -> (pages: Result<BrowsePages, Error>)
    ensures
        pages_outcome(count as nat, results, pages),
{
    let Some(results) = results else {
        return Err(Error::internal());
    };
    if results.len() != count {
        return Err(Error::internal());
    }
    let ghost listed = results@;
    let mut pages: BrowsePages = Vec::new();
    for result in it: results
        invariant
            it.seq() == listed,
            pages@.len() == it.index(),
            forall|j: int| 0 <= j < it.index() ==> pages@[j] == page_of(#[trigger] listed[j]),
    {
        pages.push(into_page(result));
    }
    Ok(pages)
}

/// A read of several attributes that succeeds returns one value for each
/// attribute, and the value at each place is the one that the server listed
/// at that place.
pub proof fn law_read_results_follow_targets(count: nat, response: Result<ReadResponse, Error>)
    requires
        read_outcome(count, response) is Ok,
    ensures
        response is Ok,
        response->Ok_0.results is Some,
        read_outcome(count, response)->Ok_0@.len() == count,
        read_outcome(count, response)->Ok_0@ == response->Ok_0.results->0@,
{
}

/// A browse of several targets that succeeds returns one entry for each
/// target, and the entry at each place is the page of the result that the
/// server listed at that place.
pub proof fn law_browse_results_follow_targets(
    count: nat,
    results: Option<Vec<BrowseResult>>,
    outcome: Result<BrowsePages, Error>,
    place: int,
)
    requires
        pages_outcome(count, results, outcome),
        outcome is Ok,
        0 <= place < count,
    ensures
        results is Some,
        outcome->Ok_0@.len() == count,
        results->0@.len() == count,
        outcome->Ok_0@[place] == page_of(results->0@[place]),
{
}

/// A plural operation fails as a whole only for the request's own error or
/// for a response of the wrong shape: a single target without references
/// does not fail its neighbours.
pub proof fn law_browse_fails_on_shape_only(
    count: nat,
    results: Option<Vec<BrowseResult>>,
    outcome: Result<BrowsePages, Error>,
)
    requires
        pages_outcome(count, results, outcome),
    ensures
        outcome is Ok <==> results is Some && results->0@.len() == count,
        outcome is Err ==> outcome->Err_0 == Error::InternalInvariantViolation,
{
}

} // verus!
