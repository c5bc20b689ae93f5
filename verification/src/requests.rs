//! The requests of the remote operations, as far as the session reads
//! them. A request that belongs to a session carries the session
//! identifier in its field `cci`.

use crate::timestamp::Timestamp;
use vstd::prelude::*;

verus! {

/// A span of time: whole seconds and the nanoseconds beyond them.
#[derive(Clone, Copy, Debug, PartialEq, Eq, Structural)]
pub struct Duration {
    pub seconds: i64,
    pub nanos: i32,
}

/// Which qualities of a value are asked for.
#[derive(Clone, Copy, Debug, PartialEq, Eq, Structural)]
pub enum Quality {
    Any,
    NonBad,
    Good,
}

/// Asks the service for a session identifier.
#[derive(Clone, Debug, PartialEq, Eq)]
pub struct GetClientConnectionIdRequest {
    pub app: String,
    pub user_id: String,
}

/// Gives a session identifier back to the service.
#[derive(Clone, Debug, PartialEq, Eq)]
pub struct ReleaseClientConnectionIdRequest {
    pub cci: i32,
}

/// Keeps a session identifier alive.
#[derive(Clone, Debug, PartialEq, Eq)]
pub struct KeepaliveClientConnectionIdRequest {
    pub cci: i32,
}

/// Asks for the views that the session may read.
#[derive(Clone, Debug, PartialEq, Eq)]
pub struct GetViewsRequest {
    pub cci: i32,
}

/// Asks for the datasets of a view.
#[derive(Clone, Debug, PartialEq, Eq)]
pub struct GetDataSetListRequest {
    pub view: String,
    pub include_hidden: bool,
    pub cci: i32,
}

/// Asks for the properties of a dataset.
#[derive(Clone, Debug, PartialEq, Eq)]
pub struct GetDatasetInfoRequest {
    pub view: String,
    pub dataset_name: String,
    pub cci: i32,
}

/// Asks for the tags of a dataset.
#[derive(Clone, Debug, PartialEq, Eq)]
pub struct GetTagListRequest {
    pub view: String,
    pub dataset_name: String,
    pub starting_offset: i32,
    pub max_count: i32,
    pub cci: i32,
}

/// Asks for the properties of tags.
#[derive(Clone, Debug, PartialEq, Eq)]
pub struct GetTagInfoRequest {
    pub view: String,
    pub tag_names: Vec<String>,
    pub cci: i32,
}

/// Asks for the time span that the data of tags covers.
#[derive(Clone, Debug, PartialEq, Eq)]
pub struct GetTagDataContextRequest {
    pub view: String,
    pub tag_names: Vec<String>,
    pub cci: i32,
}

/// Asks for the current values of tags.
#[derive(Clone, Debug, PartialEq, Eq)]
pub struct GetTagCurrentValueRequest {
    pub view: String,
    pub tag_names: Vec<String>,
    /// Whether values may be carried forward in time; `None` leaves the
    /// choice to the service.
    pub use_time_extension: Option<bool>,
    pub quality: Quality,
    pub cci: i32,
}

/// One tag of a request for raw data.
#[derive(Clone, Debug, PartialEq, Eq)]
pub struct RawTagRequest {
    pub tag_name: String,
    pub start_time: Option<Timestamp>,
    pub end_time: Option<Timestamp>,
    pub client_data: i32,
    pub continuation_point: Vec<u8>,
}

/// Asks for the raw data of tags in a time range.
#[derive(Clone, Debug, PartialEq, Eq)]
pub struct GetRawDataRequest {
    pub view: String,
    pub requests: Vec<RawTagRequest>,
    pub max_count_per_tag: i32,
    pub return_bounds: bool,
    pub return_annotations: bool,
    pub cci: i32,
}

/// One tag of a request for aggregated data.
#[derive(Clone, Debug, PartialEq, Eq)]
pub struct AggregateTagRequest {
    pub tag_name: String,
    pub aggregate_name: String,
    /// The configuration of the aggregate in its encoded form; `None` asks
    /// for the aggregate as the service configures it.
    pub aggregate_configuration: Option<Vec<u8>>,
    pub sloped: bool,
    pub client_data: i32,
}

/// Asks for aggregated data of tags.
#[derive(Clone, Debug, PartialEq, Eq)]
pub struct GetAggregateDataRequest {
    pub view: String,
    pub requests: Vec<AggregateTagRequest>,
    pub start_time: Option<Timestamp>,
    pub end_time: Option<Timestamp>,
    pub interval: Option<Duration>,
    pub return_annotations: bool,
    pub cci: i32,
}

/// Asks for the statistics of a tag.
#[derive(Clone, Debug, PartialEq, Eq)]
pub struct GetTagStatisticsRequest {
    pub view_name: String,
    pub tag_id: String,
    pub start_time: Option<Timestamp>,
    pub end_time: Option<Timestamp>,
    pub interval: Option<Duration>,
    pub aggregate_name: String,
    pub include_std_dev: bool,
    pub include_percentiles: bool,
    pub cci: i32,
}

/// Asks for live updates. Only the session field is read here.
#[derive(Clone, Debug, PartialEq, Eq)]
pub struct SubscribeToLiveDataRequest {
    pub cci: i32,
}

/// Asks for the children of a node of the views tree.
#[derive(Clone, Debug, PartialEq, Eq)]
pub struct BrowseRequest {
    pub node_id_path: String,
    pub force_reload: bool,
}

/// Asks for the tags at a node.
#[derive(Clone, Debug, PartialEq, Eq)]
pub struct BrowseTagsRequest {
    pub node_id_browse: String,
    pub search_context: String,
    pub max_count: i32,
    pub include_sub_nodes: bool,
    pub include_properties: bool,
}

/// Asks for the tags that match search terms.
#[derive(Clone, Debug, PartialEq, Eq)]
pub struct SearchTagsRequest {
    pub tag_and: Vec<String>,
    pub tag_or: Vec<String>,
    pub description_and: Vec<String>,
    pub description_or: Vec<String>,
    pub eng_units_and: Vec<String>,
    pub eng_units_or: Vec<String>,
    pub include_properties: bool,
}

/// Asks for the nodes along a path of the tree.
#[derive(Clone, Debug, PartialEq, Eq)]
pub struct BrowsePathRequest {
    pub tree_path: Vec<String>,
}

/// A request of any of the remote operations.
#[derive(Clone, Debug, PartialEq, Eq)]
pub enum Request {
    GetClientConnectionId(GetClientConnectionIdRequest),
    ReleaseClientConnectionId(ReleaseClientConnectionIdRequest),
    KeepaliveClientConnectionId(KeepaliveClientConnectionIdRequest),
    Test,
    GetWebServiceVersion,
    GetViews(GetViewsRequest),
    GetDataSetList(GetDataSetListRequest),
    GetDatasetInfo(GetDatasetInfoRequest),
    GetTagList(GetTagListRequest),
    GetTagInfo(GetTagInfoRequest),
    GetTagDataContext(GetTagDataContextRequest),
    GetTagCurrentValue(GetTagCurrentValueRequest),
    GetRawData(GetRawDataRequest),
    GetAggregateData(GetAggregateDataRequest),
    GetTagStatistics(GetTagStatisticsRequest),
    GetAggregateList,
    SubscribeToLiveData(SubscribeToLiveDataRequest),
    Browse(BrowseRequest),
    BrowseTags(BrowseTagsRequest),
    SearchTags(SearchTagsRequest),
    BrowsePath(BrowsePathRequest),
}

impl Request {
    /// The session identifier that the request carries, where it has a
    /// field for one.
    pub open spec fn session_field(self) -> Option<i32> {
        match self {
            Request::ReleaseClientConnectionId(r) => Some(r.cci),
            Request::KeepaliveClientConnectionId(r) => Some(r.cci),
            Request::GetViews(r) => Some(r.cci),
            Request::GetDataSetList(r) => Some(r.cci),
            Request::GetDatasetInfo(r) => Some(r.cci),
            Request::GetTagList(r) => Some(r.cci),
            Request::GetTagInfo(r) => Some(r.cci),
            Request::GetTagDataContext(r) => Some(r.cci),
            Request::GetTagCurrentValue(r) => Some(r.cci),
            Request::GetRawData(r) => Some(r.cci),
            Request::GetAggregateData(r) => Some(r.cci),
            Request::GetTagStatistics(r) => Some(r.cci),
            Request::SubscribeToLiveData(r) => Some(r.cci),
            _ => None,
        }
    }

    /// The request with `cci` in its session field and every other field
    /// as it is. A request without a session field is unchanged.
    pub open spec fn with_session(self, cci: i32) -> Request {
        match self {
            Request::ReleaseClientConnectionId(r) => Request::ReleaseClientConnectionId(ReleaseClientConnectionIdRequest { cci }),
            Request::KeepaliveClientConnectionId(r) => Request::KeepaliveClientConnectionId(KeepaliveClientConnectionIdRequest { cci }),
            Request::GetViews(r) => Request::GetViews(GetViewsRequest { cci }),
            Request::GetDataSetList(r) => Request::GetDataSetList(GetDataSetListRequest { view: r.view, include_hidden: r.include_hidden, cci }),
            Request::GetDatasetInfo(r) => Request::GetDatasetInfo(GetDatasetInfoRequest { view: r.view, dataset_name: r.dataset_name, cci }),
            Request::GetTagList(r) => Request::GetTagList(GetTagListRequest { view: r.view, dataset_name: r.dataset_name, starting_offset: r.starting_offset, max_count: r.max_count, cci }),
            Request::GetTagInfo(r) => Request::GetTagInfo(GetTagInfoRequest { view: r.view, tag_names: r.tag_names, cci }),
            Request::GetTagDataContext(r) => Request::GetTagDataContext(GetTagDataContextRequest { view: r.view, tag_names: r.tag_names, cci }),
            Request::GetTagCurrentValue(r) => Request::GetTagCurrentValue(GetTagCurrentValueRequest { view: r.view, tag_names: r.tag_names, use_time_extension: r.use_time_extension, quality: r.quality, cci }),
            Request::GetRawData(r) => Request::GetRawData(GetRawDataRequest { view: r.view, requests: r.requests, max_count_per_tag: r.max_count_per_tag, return_bounds: r.return_bounds, return_annotations: r.return_annotations, cci }),
            Request::GetAggregateData(r) => Request::GetAggregateData(GetAggregateDataRequest { view: r.view, requests: r.requests, start_time: r.start_time, end_time: r.end_time, interval: r.interval, return_annotations: r.return_annotations, cci }),
            Request::GetTagStatistics(r) => Request::GetTagStatistics(GetTagStatisticsRequest { view_name: r.view_name, tag_id: r.tag_id, start_time: r.start_time, end_time: r.end_time, interval: r.interval, aggregate_name: r.aggregate_name, include_std_dev: r.include_std_dev, include_percentiles: r.include_percentiles, cci }),
            Request::SubscribeToLiveData(r) => Request::SubscribeToLiveData(SubscribeToLiveDataRequest { cci }),
            other => other,
        }
    }

    /// Writes `cci` into the session field of the request, over whatever
    /// the caller put there.
    pub fn stamp(self, cci: i32) -> (r: Request)
        ensures
            r == self.with_session(cci),
    {
        match self {
            Request::ReleaseClientConnectionId(r) => Request::ReleaseClientConnectionId(ReleaseClientConnectionIdRequest { cci }),
            Request::KeepaliveClientConnectionId(r) => Request::KeepaliveClientConnectionId(KeepaliveClientConnectionIdRequest { cci }),
            Request::GetViews(r) => Request::GetViews(GetViewsRequest { cci }),
            Request::GetDataSetList(r) => Request::GetDataSetList(GetDataSetListRequest { view: r.view, include_hidden: r.include_hidden, cci }),
            Request::GetDatasetInfo(r) => Request::GetDatasetInfo(GetDatasetInfoRequest { view: r.view, dataset_name: r.dataset_name, cci }),
            Request::GetTagList(r) => Request::GetTagList(GetTagListRequest { view: r.view, dataset_name: r.dataset_name, starting_offset: r.starting_offset, max_count: r.max_count, cci }),
            Request::GetTagInfo(r) => Request::GetTagInfo(GetTagInfoRequest { view: r.view, tag_names: r.tag_names, cci }),
            Request::GetTagDataContext(r) => Request::GetTagDataContext(GetTagDataContextRequest { view: r.view, tag_names: r.tag_names, cci }),
            Request::GetTagCurrentValue(r) => Request::GetTagCurrentValue(GetTagCurrentValueRequest { view: r.view, tag_names: r.tag_names, use_time_extension: r.use_time_extension, quality: r.quality, cci }),
            Request::GetRawData(r) => Request::GetRawData(GetRawDataRequest { view: r.view, requests: r.requests, max_count_per_tag: r.max_count_per_tag, return_bounds: r.return_bounds, return_annotations: r.return_annotations, cci }),
            Request::GetAggregateData(r) => Request::GetAggregateData(GetAggregateDataRequest { view: r.view, requests: r.requests, start_time: r.start_time, end_time: r.end_time, interval: r.interval, return_annotations: r.return_annotations, cci }),
            Request::GetTagStatistics(r) => Request::GetTagStatistics(GetTagStatisticsRequest { view_name: r.view_name, tag_id: r.tag_id, start_time: r.start_time, end_time: r.end_time, interval: r.interval, aggregate_name: r.aggregate_name, include_std_dev: r.include_std_dev, include_percentiles: r.include_percentiles, cci }),
            Request::SubscribeToLiveData(r) => Request::SubscribeToLiveData(SubscribeToLiveDataRequest { cci }),
            other => other,
        }
    }
}

/// Stamping sets the session field to the session's identifier, whatever
/// stood in it before, and stamping twice is stamping with the later
/// identifier: no caller-supplied value survives.
pub proof fn lemma_stamp_overrides(request: Request, forged: i32, cci: i32)
    ensures
        request.session_field() is Some ==> request.with_session(cci).session_field() == Some(
            cci,
        ),
        request.session_field() is None ==> request.with_session(cci) == request,
        request.with_session(forged).with_session(cci) == request.with_session(cci),
{
}

} // verus!
