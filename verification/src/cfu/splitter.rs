//! Broadcasting CFU messages to several devices that share a single component ID.
use vstd::prelude::*;

use super::{ComponentId, RequestKind};

verus! {

/// Maximum number of devices supported
pub const MAX_SUPPORTED_DEVICES: usize = 4;

/// Splitter: one CFU component standing for several devices.
pub struct Splitter<'a, C> {
    /// Component ID of the splitter itself
    component_id: ComponentId,
    /// Component ID of each individual device
    devices: &'a [ComponentId],
    /// Customization for the splitter
    customization: C,
}

impl<'a, C> Splitter<'a, C> {
    /// The splitter's own component ID.
    pub closed spec fn spec_component_id(&self) -> ComponentId {
        self.component_id
    }

    /// The devices the splitter broadcasts to.
    pub closed spec fn spec_devices(&self) -> Seq<ComponentId> {
        self.devices@
    }

    /// The customization of the splitter.
    pub closed spec fn spec_customization(&self) -> C {
        self.customization
    }

    /// Create a new Splitter; returns `None` if the devices slice is empty or too large.
    pub fn new(component_id: ComponentId, devices: &'a [ComponentId], customization: C) -> (r: Option<Self>)
        ensures
            r is Some <==> 0 < devices.len() <= MAX_SUPPORTED_DEVICES,
            r matches Some(s) ==> s.spec_component_id() == component_id && s.spec_devices() == devices@
                && s.spec_customization() == customization,
    {
        if devices.len() == 0 || devices.len() > MAX_SUPPORTED_DEVICES {
            None
        } else {
            Some(Splitter { component_id, devices, customization })
        }
    }

    /// The splitter's own component ID.
    pub fn component_id(&self) -> (r: ComponentId)
        ensures
            r == self.spec_component_id(),
    {
        self.component_id
    }

    /// The devices the splitter broadcasts to.
    pub fn devices(&self) -> (r: &'a [ComponentId])
        ensures
            r@ == self.spec_devices(),
    {
        self.devices
    }

    /// The customization of the splitter.
    pub fn customization(&self) -> (r: &C)
        ensures
            *r == self.spec_customization(),
    {
        &self.customization
    }
}

/// How the splitter handles a request.
#[derive(Debug, Clone, Copy, PartialEq, Eq, Structural)]
pub enum SplitterAction {
    /// Ask every device for its version and resolve them into one
    BroadcastFwVersion,
    /// Give the offer to every device and resolve their responses into one
    BroadcastOffer,
    /// Give the content to every device and resolve their responses into one
    BroadcastContent,
    /// Answer that the component is prepared
    ComponentPrepared,
    /// Reject the offer as addressed to an invalid component (extended offers and offer
    /// information are not supported)
    RejectOfferInvalidComponent,
}

/// Decides how a CFU request is processed.
pub fn process_request(request: RequestKind) -> (r: SplitterAction)
    ensures
        r == match request {
            RequestKind::FwVersionRequest => SplitterAction::BroadcastFwVersion,
            RequestKind::GiveOffer => SplitterAction::BroadcastOffer,
            RequestKind::GiveContent => SplitterAction::BroadcastContent,
            RequestKind::AbortUpdate | RequestKind::FinalizeUpdate | RequestKind::PrepareComponentForUpdate => SplitterAction::ComponentPrepared,
            RequestKind::GiveOfferExtended | RequestKind::GiveOfferInformation => SplitterAction::RejectOfferInvalidComponent,
        },
{
    match request {
        RequestKind::FwVersionRequest => SplitterAction::BroadcastFwVersion,
        RequestKind::GiveOffer => SplitterAction::BroadcastOffer,
        RequestKind::GiveContent => SplitterAction::BroadcastContent,
        RequestKind::AbortUpdate => SplitterAction::ComponentPrepared,
        RequestKind::FinalizeUpdate => SplitterAction::ComponentPrepared,
        RequestKind::PrepareComponentForUpdate => SplitterAction::ComponentPrepared,
        RequestKind::GiveOfferExtended => SplitterAction::RejectOfferInvalidComponent,
        RequestKind::GiveOfferInformation => SplitterAction::RejectOfferInvalidComponent,
    }
}

/// How the items of a chunk are run.
#[derive(Debug, Clone, Copy, PartialEq, Eq, Structural)]
pub enum ChunkMode {
    /// No item is left
    Done,
    /// One item, run directly
    Single,
    /// Two items, run one after the other
    Sequential,
    /// Three or four items, run concurrently
    Concurrent,
}

/// Items are processed in chunks of up to this many.
pub const CHUNK_SIZE: usize = 4;

/// The size and mode of the next chunk when `remaining` items are left.
pub fn next_chunk(remaining: usize) -> (r: (usize, ChunkMode))
    ensures
        r.0 == if remaining < 4 { remaining } else { 4 },
        r.1 == if remaining == 0 {
            ChunkMode::Done
        } else if remaining == 1 {
            ChunkMode::Single
        } else if remaining == 2 {
            ChunkMode::Sequential
        } else {
            ChunkMode::Concurrent
        },
{
    if remaining == 0 {
        (0, ChunkMode::Done)
    } else if remaining == 1 {
        (1, ChunkMode::Single)
    } else if remaining == 2 {
        (2, ChunkMode::Sequential)
    } else if remaining == 3 {
        (3, ChunkMode::Concurrent)
    } else {
        (4, ChunkMode::Concurrent)
    }
}

/// The size and mode of the chunk that follows when `remaining` items are left.
pub open spec fn chunk_of(remaining: int) -> (int, ChunkMode) {
    (
        if remaining < 4 { remaining } else { 4 },
        if remaining == 0 {
            ChunkMode::Done
        } else if remaining == 1 {
            ChunkMode::Single
        } else if remaining == 2 {
            ChunkMode::Sequential
        } else {
            ChunkMode::Concurrent
        },
    )
}

/// Decides which chunk of the `n` items to run next, from the results of the items run so far.
///
/// Nothing more is run once every item has run or once an item had no result: the items after a
/// chunk with a missing result are never run. Otherwise the next chunk starts right after the
/// last result, with the size and mode of [`next_chunk`].
pub fn next_run<O>(results: &[Option<O>], n: usize) -> (r: Option<(usize, usize, ChunkMode)>)
    ensures
        r is None <==> (results.len() >= n || exists|i: int| 0 <= i < results.len() && results@[i] is None),
        r matches Some((start, size, mode)) ==> start == results.len() && start < n && size == chunk_of(n - start).0
            && mode == chunk_of(n - start).1,
{
    if results.len() >= n {
        return None;
    }
    let mut i: usize = 0;
    while i < results.len()
        invariant
            i <= results.len(),
            forall|j: int| 0 <= j < i ==> results@[j] is Some,
        decreases results.len() - i,
    {
        if results[i].is_none() {
            return None;
        }
        i = i + 1;
    }
    let start = results.len();
    let (size, mode) = next_chunk(n - start);
    Some((start, size, mode))
}

/// The index of the first missing result among the first `n`, if any.
pub open spec fn first_missing<O>(results: Seq<Option<O>>, n: int) -> Option<int> {
    if exists|i: int| 0 <= i < n && results[i] is None {
        Some(choose|i: int| 0 <= i < n && results[i] is None && forall|j: int| 0 <= j < i ==> results[j] is Some)
    } else {
        None
    }
}

/// How many outputs are written: every chunk before the one holding the first missing result.
pub open spec fn written_len<O>(results: Seq<Option<O>>, n: int) -> int {
    match first_missing(results, n) {
        Some(i) => i - i % 4,
        None => n,
    }
}

/// Writes the results of mapping the input items into the outputs, chunk by chunk.
///
/// `results[i]` is the result for input item `i`; only as many items as there are outputs are
/// mapped. A chunk's outputs are written only when every result in it is present; at the first
/// chunk with a missing result processing stops and `false` is returned.
pub fn map_slice_join<O: Copy>(results: &[Option<O>], output: &mut Vec<O>) -> (r: bool)
    ensures
        ({
            let n = if results.len() < old(output).len() { results.len() as int } else { old(output).len() as int };
            &&& r == (first_missing(results@, n) is None)
            &&& final(output).len() == old(output).len()
            &&& forall|i: int| 0 <= i < written_len(results@, n) ==> #[trigger] final(output)@[i] == results@[i]->0
            &&& forall|i: int| written_len(results@, n) <= i < old(output).len() ==> #[trigger] final(output)@[i] == old(output)@[i]
        }),
{
    let n = if results.len() < output.len() { results.len() } else { output.len() };
    let ghost n_int = n as int;
    let mut start: usize = 0;
    while start < n
        invariant
            n == (if results.len() < old(output).len() { results.len() as int } else { old(output).len() as int }),
            n <= results.len(),
            n <= old(output).len(),
            start <= n,
            start % 4 == 0 || start == n,
            output.len() == old(output).len(),
            forall|j: int| 0 <= j < start ==> #[trigger] results@[j] is Some,
            forall|i: int| 0 <= i < start ==> #[trigger] output@[i] == results@[i]->0,
            forall|i: int| start <= i < old(output).len() ==> #[trigger] output@[i] == old(output)@[i],
        decreases n - start,
    {
        let (size, _mode) = next_chunk(n - start);
        let mut k: usize = 0;
        let mut all_present = true;
        while k < size
            invariant
                size <= 4,
                start + size <= n,
                n <= results.len(),
                k <= size,
                all_present ==> forall|j: int| start <= j < start + k ==> #[trigger] results@[j] is Some,
                !all_present ==> exists|j: int| start <= j < start + k && #[trigger] results@[j] is None,
            decreases size - k,
        {
            if results[start + k].is_none() {
                all_present = false;
            }
            k = k + 1;
        }
        if !all_present {
            proof {
                let w = choose|j: int| start <= j < start + size && #[trigger] results@[j] is None;
                assert(exists|i: int| 0 <= i < n && results@[i] is None);
                let f = first_missing(results@, n as int)->0;
                assert(start <= f < start + size) by {
                    if f < start {
                        assert(results@[f] is Some);
                    }
                    if f > w {
                        assert(results@[w] is Some);
                    }
                }
                assert(f - f % 4 == start) by {
                    assert(f % 4 == f - start) by (nonlinear_arith)
                        requires start % 4 == 0, start <= f < start + 4;
                }
            }
            return false;
        }
        let mut k: usize = 0;
        while k < size
            invariant
                size <= 4,
                start + size <= n,
                n <= results.len(),
                n <= old(output).len(),
                k <= size,
                output.len() == old(output).len(),
                forall|j: int| start <= j < start + size ==> #[trigger] results@[j] is Some,
                forall|i: int| 0 <= i < start + k ==> #[trigger] output@[i] == results@[i]->0,
                forall|i: int| start + k <= i < old(output).len() ==> #[trigger] output@[i] == old(output)@[i],
            decreases size - k,
        {
            match results[start + k] {
                Some(v) => {
                    output.set(start + k, v);
                },
                None => {},
            }
            k = k + 1;
        }
        proof {
            if start + size < n {
                assert(size == 4);
                assert((start + size) % 4 == 0) by (nonlinear_arith)
                    requires start % 4 == 0, size == 4;
            }
        }
        start = start + size;
    }
    proof {
        assert(first_missing(results@, n as int) is None);
    }
    true
}

/// Version of one component.
#[derive(Debug, Clone, Copy, PartialEq, Eq, Structural)]
pub struct ComponentVersion {
    /// Firmware version
    pub fw_version: u32,
    /// Component the version belongs to
    pub component_id: ComponentId,
}

/// Firmware versions reported for a component, the overall component first.
#[derive(Debug, Clone, PartialEq, Eq)]
pub struct FwVersionResponse {
    /// Versions, one per component
    pub components: Vec<ComponentVersion>,
}

/// A response of the splitter.
#[derive(Debug, Clone, PartialEq, Eq)]
pub enum SplitterResponse<O, C> {
    /// The overall firmware version
    FwVersion(FwVersionResponse),
    /// The version could not be had from every device
    InvalidFwVersion(ComponentId),
    /// The resolved response to an offer
    Offer(O),
    /// The resolved response to a content block
    Content(C),
    /// The content block with this sequence number is rejected
    ContentRejection(u16),
}

/// The response to a version request. `resolved` is the version resolved from every device's
/// answer, `None` when a device did not answer. The overall component comes first and carries the
/// splitter's own ID; without every answer the response says the version is invalid.
pub fn version_response<O, C>(resolved: Option<FwVersionResponse>, own_id: ComponentId) -> (r: SplitterResponse<O, C>)
    requires
        resolved matches Some(v) ==> v.components.len() > 0,
    ensures
        resolved is None ==> r == SplitterResponse::<O, C>::InvalidFwVersion(own_id),
        resolved matches Some(v) ==> r matches SplitterResponse::FwVersion(w) && w.components@ == v.components@.update(
            0,
            ComponentVersion { component_id: own_id, ..v.components@[0] },
        ),
{
    match resolved {
        None => SplitterResponse::InvalidFwVersion(own_id),
        Some(v) => {
            let mut components = v.components;
            let first = components[0];
            components.set(0, ComponentVersion { component_id: own_id, ..first });
            SplitterResponse::FwVersion(FwVersionResponse { components })
        },
    }
}

/// The response to an offer: the response resolved from every device's answer, or, when a
/// device did not answer (`None`), the invalid-version response for the splitter's own ID.
pub fn offer_response<O, C>(resolved: Option<O>, own_id: ComponentId) -> (r: SplitterResponse<O, C>)
    ensures
        r == (match resolved {
            Some(o) => SplitterResponse::<O, C>::Offer(o),
            None => SplitterResponse::<O, C>::InvalidFwVersion(own_id),
        }),
{
    match resolved {
        Some(o) => SplitterResponse::Offer(o),
        None => SplitterResponse::InvalidFwVersion(own_id),
    }
}

/// The response to a content block: the response resolved from every device's answer, or, when
/// a device did not answer (`None`), the rejection of the block's sequence number.
pub fn content_outcome<O, C>(resolved: Option<C>, sequence_num: u16) -> (r: SplitterResponse<O, C>)
    ensures
        r == (match resolved {
            Some(c) => SplitterResponse::<O, C>::Content(c),
            None => SplitterResponse::<O, C>::ContentRejection(sequence_num),
        }),
{
    match resolved {
        Some(c) => SplitterResponse::Content(c),
        None => SplitterResponse::ContentRejection(sequence_num),
    }
}

} // verus!
