//! The session as its user holds it: unestablished, then active, then
//! released for good.
//!
//! Every operation first asks whether the session is active. A session
//! that was released, or never established, answers with a session-state
//! error and gives no request to send.

use crate::requests::{
    AggregateTagRequest, BrowsePathRequest, BrowseRequest, BrowseTagsRequest, Duration,
    GetAggregateDataRequest, GetDataSetListRequest, GetDatasetInfoRequest, GetRawDataRequest,
    GetTagCurrentValueRequest, GetTagDataContextRequest, GetTagInfoRequest, GetTagListRequest,
    GetTagStatisticsRequest, GetViewsRequest, KeepaliveClientConnectionIdRequest, Quality,
    RawTagRequest, ReleaseClientConnectionIdRequest, Request, SearchTagsRequest,
};
use crate::text::{push_signed_decimal, signed_decimal, string_of};
use crate::timestamp::{decode_text, parse_iso_timestamp, ParseError, ParseFailure, Timestamp};
use crate::views_client::{SessionError, ViewsClient};
use vstd::prelude::*;
use vstd::string::StringExecFns;

verus! {

/// Where a session stands. It moves from `Unestablished` to `Active` and
/// from `Active` to `Released`, and in no other way.
#[derive(Clone, Copy, Debug, PartialEq, Eq, Structural)]
pub enum SessionState {
    /// No session identifier was received yet.
    Unestablished,
    /// The service gave the session this identifier.
    Active(i32),
    /// The session was given back. Nothing follows this state.
    Released,
}

/// Why an operation produced no request.
#[derive(Clone, Debug, PartialEq, Eq)]
pub enum CallError {
    /// A time given as a calendar string was not accepted.
    Time(ParseError),
    /// The session is not active.
    Session(SessionError),
}

/// The handle of a session.
#[derive(Debug, PartialEq, Eq)]
pub struct CanaryView {
    client: Option<ViewsClient>,
}

/// The quality that a name stands for: `non_bad`, `good`, and `Any` for
/// every other name.
pub open spec fn quality_of(name: Seq<char>) -> Quality {
    if name == "non_bad"@ {
        Quality::NonBad
    } else if name == "good"@ {
        Quality::Good
    } else {
        Quality::Any
    }
}

/// The quality that `name` stands for.
pub fn quality_from_name(name: &str) -> (r: Quality)
    ensures
        r == quality_of(name@),
{
    let given = name.to_owned();
    if given.eq(&"non_bad".to_owned()) {
        Quality::NonBad
    } else if given.eq(&"good".to_owned()) {
        Quality::Good
    } else {
        Quality::Any
    }
}

/// Where a session of the service stands: active under its identifier
/// until it is released.
pub open spec fn client_state(client: ViewsClient) -> SessionState {
    if client.released() {
        SessionState::Released
    } else {
        SessionState::Active(client.session_id())
    }
}

/// The session-state error of a state that is not active.
pub open spec fn state_error(state: SessionState) -> SessionError {
    match state {
        SessionState::Released => SessionError::Disconnected,
        _ => SessionError::NotEstablished,
    }
}

/// What a session in `state` makes of `request`: the request with the
/// session's identifier where the session is active, a session-state
/// error where it is not.
pub open spec fn respond(state: SessionState, request: Request) -> Result<Request, SessionError> {
    match state {
        SessionState::Active(cci) => Ok(request.with_session(cci)),
        other => Err(state_error(other)),
    }
}

/// The state after the service has answered the setup request with a
/// session that stands at `given`: only an unestablished session takes it.
pub open spec fn after_establish(state: SessionState, given: SessionState) -> SessionState {
    match state {
        SessionState::Unestablished => given,
        other => other,
    }
}

/// The state after a release: an active session is released, and every
/// other state stays what it is.
pub open spec fn after_release(state: SessionState) -> SessionState {
    match state {
        SessionState::Active(_) => SessionState::Released,
        other => other,
    }
}

impl CanaryView {
    /// The state of the session.
    pub closed spec fn state(&self) -> SessionState {
        match self.client {
            None => SessionState::Unestablished,
            Some(client) => client_state(client),
        }
    }

    /// A session that is not established yet.
    pub fn new() -> (r: CanaryView)
        ensures
            r.state() == SessionState::Unestablished,
    {
        CanaryView { client: None }
    }

    /// Records that the setup call has succeeded and the service has given
    /// the session `client`. Tells whether the handle took it: a handle
    /// that holds a session already, active or released, stays as it is.
    pub fn establish(&mut self, client: ViewsClient) -> (entered: bool)
        ensures
            final(self).state() == after_establish(old(self).state(), client_state(client)),
            entered <==> old(self).state() == SessionState::Unestablished,
    {
        match self.client {
            None => {
                self.client = Some(client);
                true
            },
            Some(_) => false,
        }
    }

    /// The session of the service, where the session is active.
    pub fn client(&self) -> (r: Result<&ViewsClient, SessionError>)
        ensures
            match self.state() {
                SessionState::Active(cci) => r matches Ok(client) && client.session_id() == cci
                    && !client.released(),
                other => r == Err::<&ViewsClient, SessionError>(state_error(other)),
            },
    {
        match &self.client {
            None => Err(SessionError::NotEstablished),
            Some(client) => if client.is_released() {
                Err(SessionError::Disconnected)
            } else {
                Ok(client)
            },
        }
    }

    /// The identifier of the session, where the session is active.
    pub fn cci(&self) -> (r: Result<i32, SessionError>)
        ensures
            match self.state() {
                SessionState::Active(cci) => r == Ok::<i32, SessionError>(cci),
                other => r == Err::<i32, SessionError>(state_error(other)),
            },
    {
        match self.client() {
            Ok(client) => Ok(client.cci()),
            Err(e) => Err(e),
        }
    }

    /// The request as this session sends it: stamped with the session's
    /// identifier. A session that is not active sends nothing.
    pub fn call(&self, request: Request) -> (r: Result<Request, SessionError>)
        ensures
            r == respond(self.state(), request),
    {
        match self.client() {
            Ok(client) => client.call(request),
            Err(e) => Err(e),
        }
    }

    /// Releases the session. An active session gives the request that
    /// hands its identifier back and is released from then on; any other
    /// session gives nothing and stays as it is.
    pub fn disconnect(&mut self) -> (r: Option<ReleaseClientConnectionIdRequest>)
        ensures
            final(self).state() == after_release(old(self).state()),
            match old(self).state() {
                SessionState::Active(cci) => r matches Some(release) && release.cci == cci,
                _ => r is None,
            },
    {
        match &mut self.client {
            None => None,
            Some(client) => client.disconnect(),
        }
    }

    /// How the session shows itself: with its identifier while it is
    /// active, as disconnected otherwise.
    pub fn repr(&self) -> (r: String)
        ensures
            match self.state() {
                SessionState::Active(cci) => r@ == "CanaryView(cci="@ + signed_decimal(cci as int)
                    + ")"@,
                _ => r@ == "CanaryView(disconnected)"@,
            },
    {
        match self.client() {
            Ok(client) => {
                let mut digits: Vec<char> = Vec::new();
                push_signed_decimal(&mut digits, client.cci() as i64);
                assert(digits@ =~= signed_decimal(client.session_id() as int));
                let number = string_of(&digits);
                let mut out = "CanaryView(cci=".to_owned();
                out.append(number.as_str());
                out.append(")");
                out
            },
            Err(_) => "CanaryView(disconnected)".to_owned(),
        }
    }

    /// The request that keeps the session alive.
    pub fn keepalive(&self) -> (r: Result<KeepaliveClientConnectionIdRequest, SessionError>)
        ensures
            match self.state() {
                SessionState::Active(cci) => r == Ok::<KeepaliveClientConnectionIdRequest, SessionError>((KeepaliveClientConnectionIdRequest { cci })),
                other => r == Err::<KeepaliveClientConnectionIdRequest, SessionError>(state_error(other)),
            },
    {
        match self.client() {
            Ok(client) => client.keepalive(),
            Err(e) => Err(e),
        }
    }

    /// The request that tests the connection.
    pub fn test(&self) -> (r: Result<Request, SessionError>)
        ensures
            match self.state() {
                SessionState::Active(cci) => r == Ok::<Request, SessionError>(Request::Test),
                other => r == Err::<Request, SessionError>(state_error(other)),
            },
    {
        match self.client() {
            Ok(client) => client.test(),
            Err(e) => Err(e),
        }
    }

    /// The request for the version of the service.
    pub fn get_version(&self) -> (r: Result<Request, SessionError>)
        ensures
            match self.state() {
                SessionState::Active(cci) => r == Ok::<Request, SessionError>(Request::GetWebServiceVersion),
                other => r == Err::<Request, SessionError>(state_error(other)),
            },
    {
        match self.client() {
            Ok(client) => client.get_version(),
            Err(e) => Err(e),
        }
    }

    /// The request for the views of the session.
    pub fn get_views(&self) -> (r: Result<GetViewsRequest, SessionError>)
        ensures
            match self.state() {
                SessionState::Active(cci) => r == Ok::<GetViewsRequest, SessionError>((GetViewsRequest { cci })),
                other => r == Err::<GetViewsRequest, SessionError>(state_error(other)),
            },
    {
        match self.client() {
            Ok(client) => client.get_views(),
            Err(e) => Err(e),
        }
    }

    /// The request for the datasets of `view`.
    pub fn get_dataset_list(&self, view: String, include_hidden: bool) -> (r: Result<GetDataSetListRequest, SessionError>)
        ensures
            match self.state() {
                SessionState::Active(cci) => r == Ok::<GetDataSetListRequest, SessionError>((GetDataSetListRequest { view, include_hidden, cci })),
                other => r == Err::<GetDataSetListRequest, SessionError>(state_error(other)),
            },
    {
        match self.client() {
            Ok(client) => client.get_dataset_list(view, include_hidden),
            Err(e) => Err(e),
        }
    }

    /// The request for the properties of a dataset.
    pub fn get_dataset_info(&self, view: String, dataset_name: String) -> (r: Result<GetDatasetInfoRequest, SessionError>)
        ensures
            match self.state() {
                SessionState::Active(cci) => r == Ok::<GetDatasetInfoRequest, SessionError>((GetDatasetInfoRequest { view, dataset_name, cci })),
                other => r == Err::<GetDatasetInfoRequest, SessionError>(state_error(other)),
            },
    {
        match self.client() {
            Ok(client) => client.get_dataset_info(view, dataset_name),
            Err(e) => Err(e),
        }
    }

    /// The request for the tags of a dataset.
    pub fn get_tag_list(&self, view: String, dataset_name: String, starting_offset: i32, max_count: i32) -> (r: Result<GetTagListRequest, SessionError>)
        ensures
            match self.state() {
                SessionState::Active(cci) => r == Ok::<GetTagListRequest, SessionError>((GetTagListRequest { view, dataset_name, starting_offset, max_count, cci })),
                other => r == Err::<GetTagListRequest, SessionError>(state_error(other)),
            },
    {
        match self.client() {
            Ok(client) => client.get_tag_list(view, dataset_name, starting_offset, max_count),
            Err(e) => Err(e),
        }
    }

    /// The request for the properties of tags.
    pub fn get_tag_info(&self, view: String, tag_names: Vec<String>) -> (r: Result<GetTagInfoRequest, SessionError>)
        ensures
            match self.state() {
                SessionState::Active(cci) => r == Ok::<GetTagInfoRequest, SessionError>((GetTagInfoRequest { view, tag_names, cci })),
                other => r == Err::<GetTagInfoRequest, SessionError>(state_error(other)),
            },
    {
        match self.client() {
            Ok(client) => client.get_tag_info(view, tag_names),
            Err(e) => Err(e),
        }
    }

    /// The request for the time span that the data of tags covers.
    pub fn get_tag_data_context(&self, view: String, tag_names: Vec<String>) -> (r: Result<GetTagDataContextRequest, SessionError>)
        ensures
            match self.state() {
                SessionState::Active(cci) => r == Ok::<GetTagDataContextRequest, SessionError>((GetTagDataContextRequest { view, tag_names, cci })),
                other => r == Err::<GetTagDataContextRequest, SessionError>(state_error(other)),
            },
    {
        match self.client() {
            Ok(client) => client.get_tag_data_context(view, tag_names),
            Err(e) => Err(e),
        }
    }

    /// The request for the aggregates that the service knows.
    pub fn get_aggregate_list(&self) -> (r: Result<Request, SessionError>)
        ensures
            match self.state() {
                SessionState::Active(cci) => r == Ok::<Request, SessionError>(Request::GetAggregateList),
                other => r == Err::<Request, SessionError>(state_error(other)),
            },
    {
        match self.client() {
            Ok(client) => client.get_aggregate_list(),
            Err(e) => Err(e),
        }
    }

    /// The request for the children of a node of the views tree.
    pub fn browse(&self, node_id_path: String, force_reload: bool) -> (r: Result<BrowseRequest, SessionError>)
        ensures
            match self.state() {
                SessionState::Active(cci) => r == Ok::<BrowseRequest, SessionError>((BrowseRequest { node_id_path, force_reload })),
                other => r == Err::<BrowseRequest, SessionError>(state_error(other)),
            },
    {
        match self.client() {
            Ok(client) => client.browse(node_id_path, force_reload),
            Err(e) => Err(e),
        }
    }

    /// The request for the nodes along `tree_path`.
    pub fn browse_path(&self, tree_path: Vec<String>) -> (r: Result<BrowsePathRequest, SessionError>)
        ensures
            match self.state() {
                SessionState::Active(cci) => r == Ok::<BrowsePathRequest, SessionError>((BrowsePathRequest { tree_path })),
                other => r == Err::<BrowsePathRequest, SessionError>(state_error(other)),
            },
    {
        match self.client() {
            Ok(client) => client.browse_path(tree_path),
            Err(e) => Err(e),
        }
    }
}

/// The start and the end of a time range, as calendar strings denote
/// them; the error of the start where both are at fault.
pub open spec fn range_of(start_time: Seq<char>, end_time: Seq<char>) -> Result<
    (Timestamp, Timestamp),
    ParseFailure,
> {
    match decode_text(start_time) {
        Err(f) => Err(f),
        Ok(start) => match decode_text(end_time) {
            Err(f) => Err(f),
            Ok(end) => Ok((start, end)),
        },
    }
}

/// Reads the start and the end of a time range.
pub fn parse_range(start_time: &str, end_time: &str) -> (r: Result<
    (Timestamp, Timestamp),
    ParseError,
>)
    ensures
        match r {
            Ok(range) => range_of(start_time@, end_time@) == Ok::<
                (Timestamp, Timestamp),
                ParseFailure,
            >(range),
            Err(e) => range_of(start_time@, end_time@) == Err::<
                (Timestamp, Timestamp),
                ParseFailure,
            >(e@),
        },
{
    let start = match parse_iso_timestamp(start_time) {
        Ok(t) => t,
        Err(e) => {
            return Err(e);
        },
    };
    let end = match parse_iso_timestamp(end_time) {
        Ok(t) => t,
        Err(e) => {
            return Err(e);
        },
    };
    Ok((start, end))
}

/// `requests` asks for the raw data of each of `tag_names`, in their
/// order, over the range from `start` to `end`, from the beginning.
pub open spec fn asks_raw_data_of(
    requests: Seq<RawTagRequest>,
    tag_names: Seq<String>,
    start: Timestamp,
    end: Timestamp,
) -> bool {
    &&& requests.len() == tag_names.len()
    &&& forall|i: int|
        0 <= i < requests.len() ==> {
            &&& (#[trigger] requests[i]).tag_name == tag_names[i]
            &&& requests[i].start_time == Some(start)
            &&& requests[i].end_time == Some(end)
            &&& requests[i].client_data == 0
            &&& requests[i].continuation_point@.len() == 0
        }
}

/// `requests` asks for the aggregate `aggregate_name` of each of
/// `tag_names`, in their order, as the service configures it.
pub open spec fn asks_aggregate_of(
    requests: Seq<AggregateTagRequest>,
    tag_names: Seq<String>,
    aggregate_name: Seq<char>,
) -> bool {
    &&& requests.len() == tag_names.len()
    &&& forall|i: int|
        0 <= i < requests.len() ==> {
            &&& (#[trigger] requests[i]).tag_name == tag_names[i]
            &&& requests[i].aggregate_name@ == aggregate_name
            &&& requests[i].aggregate_configuration is None
            &&& !requests[i].sloped
            &&& requests[i].client_data == 0
        }
}

/// One request for raw data per tag name.
pub fn raw_tag_requests(tag_names: &Vec<String>, start: Timestamp, end: Timestamp) -> (r: Vec<
    RawTagRequest,
>)
    ensures
        asks_raw_data_of(r@, tag_names@, start, end),
{
    let mut out: Vec<RawTagRequest> = Vec::new();
    let mut i: usize = 0;
    while i < tag_names.len()
        invariant
            i <= tag_names.len(),
            asks_raw_data_of(out@, tag_names@.take(i as int), start, end),
        decreases tag_names.len() - i,
    {
        out.push(
            RawTagRequest {
                tag_name: tag_names[i].clone(),
                start_time: Some(start),
                end_time: Some(end),
                client_data: 0,
                continuation_point: Vec::new(),
            },
        );
        i += 1;
    }
    assert(tag_names@.take(i as int) =~= tag_names@);
    out
}

/// One request for aggregated data per tag name.
pub fn aggregate_tag_requests(tag_names: &Vec<String>, aggregate_name: &str) -> (r: Vec<
    AggregateTagRequest,
>)
    ensures
        asks_aggregate_of(r@, tag_names@, aggregate_name@),
{
    let mut out: Vec<AggregateTagRequest> = Vec::new();
    let mut i: usize = 0;
    while i < tag_names.len()
        invariant
            i <= tag_names.len(),
            asks_aggregate_of(out@, tag_names@.take(i as int), aggregate_name@),
        decreases tag_names.len() - i,
    {
        out.push(
            AggregateTagRequest {
                tag_name: tag_names[i].clone(),
                aggregate_name: aggregate_name.to_owned(),
                aggregate_configuration: None,
                sloped: false,
                client_data: 0,
            },
        );
        i += 1;
    }
    assert(tag_names@.take(i as int) =~= tag_names@);
    out
}

impl CanaryView {
    /// The request for the current values of tags, of the quality that
    /// `quality` names. Whether values are carried forward in time is left
    /// to the service.
    pub fn get_tag_current_value(&self, view: String, tag_names: Vec<String>, quality: &str) -> (r:
        Result<GetTagCurrentValueRequest, SessionError>)
        ensures
            match self.state() {
                SessionState::Active(cci) => r == Ok::<GetTagCurrentValueRequest, SessionError>(
                    GetTagCurrentValueRequest {
                        view,
                        tag_names,
                        use_time_extension: None,
                        quality: quality_of(quality@),
                        cci,
                    },
                ),
                other => r == Err::<GetTagCurrentValueRequest, SessionError>(state_error(other)),
            },
    {
        let request = GetTagCurrentValueRequest {
            view,
            tag_names,
            use_time_extension: None,
            quality: quality_from_name(quality),
            cci: 0,
        };
        match self.client() {
            Ok(client) => client.get_tag_current_value(request),
            Err(e) => Err(e),
        }
    }

    /// The request for the raw data of tags between two times given as
    /// calendar strings.
    ///
    /// The times are read first: a time that is not accepted is the error,
    /// that of the start before that of the end. Then the session must be
    /// active.
    pub fn get_raw_data(
        &self,
        view: String,
        tag_names: Vec<String>,
        start_time: &str,
        end_time: &str,
        max_count_per_tag: i32,
        return_bounds: bool,
    ) -> (r: Result<GetRawDataRequest, CallError>)
        ensures
            match range_of(start_time@, end_time@) {
                Err(f) => r matches Err(CallError::Time(e)) && e@ == f,
                Ok(range) => match self.state() {
                    SessionState::Active(cci) => r matches Ok(request) && request.view == view
                        && asks_raw_data_of(request.requests@, tag_names@, range.0, range.1)
                        && request.max_count_per_tag == max_count_per_tag
                        && request.return_bounds == return_bounds && !request.return_annotations
                        && request.cci == cci,
                    other => r == Err::<GetRawDataRequest, CallError>(
                        CallError::Session(state_error(other)),
                    ),
                },
            },
    {
        let (start, end) = match parse_range(start_time, end_time) {
            Ok(range) => range,
            Err(e) => {
                return Err(CallError::Time(e));
            },
        };
        let request = GetRawDataRequest {
            view,
            requests: raw_tag_requests(&tag_names, start, end),
            max_count_per_tag,
            return_bounds,
            return_annotations: false,
            cci: 0,
        };
        let sent = match self.client() {
            Ok(client) => client.get_raw_data(request),
            Err(e) => Err(e),
        };
        match sent {
            Ok(request) => Ok(request),
            Err(e) => Err(CallError::Session(e)),
        }
    }

    /// The request for aggregated data of tags between two times given as
    /// calendar strings, in intervals of `interval_seconds`.
    ///
    /// The times are read first, then the session must be active.
    pub fn get_aggregate_data(
        &self,
        view: String,
        tag_names: Vec<String>,
        start_time: &str,
        end_time: &str,
        interval_seconds: i64,
        aggregate_name: &str,
    ) -> (r: Result<GetAggregateDataRequest, CallError>)
        ensures
            match range_of(start_time@, end_time@) {
                Err(f) => r matches Err(CallError::Time(e)) && e@ == f,
                Ok(range) => match self.state() {
                    SessionState::Active(cci) => r matches Ok(request) && request.view == view
                        && asks_aggregate_of(request.requests@, tag_names@, aggregate_name@)
                        && request.start_time == Some(range.0) && request.end_time == Some(
                        range.1,
                    ) && request.interval == Some(Duration { seconds: interval_seconds, nanos: 0 })
                        && !request.return_annotations && request.cci == cci,
                    other => r == Err::<GetAggregateDataRequest, CallError>(
                        CallError::Session(state_error(other)),
                    ),
                },
            },
    {
        let (start, end) = match parse_range(start_time, end_time) {
            Ok(range) => range,
            Err(e) => {
                return Err(CallError::Time(e));
            },
        };
        let request = GetAggregateDataRequest {
            view,
            requests: aggregate_tag_requests(&tag_names, aggregate_name),
            start_time: Some(start),
            end_time: Some(end),
            interval: Some(Duration { seconds: interval_seconds, nanos: 0 }),
            return_annotations: false,
            cci: 0,
        };
        let sent = match self.client() {
            Ok(client) => client.get_aggregate_data(request),
            Err(e) => Err(e),
        };
        match sent {
            Ok(request) => Ok(request),
            Err(e) => Err(CallError::Session(e)),
        }
    }

    /// The request for the statistics of a tag between two times given as
    /// calendar strings, in intervals of `interval_seconds`.
    ///
    /// The times are read first, then the session must be active.
    pub fn get_tag_statistics(
        &self,
        view_name: String,
        tag_id: String,
        start_time: &str,
        end_time: &str,
        interval_seconds: i64,
        aggregate_name: String,
        include_std_dev: bool,
        include_percentiles: bool,
    ) -> (r: Result<GetTagStatisticsRequest, CallError>)
        ensures
            match range_of(start_time@, end_time@) {
                Err(f) => r matches Err(CallError::Time(e)) && e@ == f,
                Ok(range) => match self.state() {
                    SessionState::Active(cci) => r == Ok::<GetTagStatisticsRequest, CallError>(
                        GetTagStatisticsRequest {
                            view_name,
                            tag_id,
                            start_time: Some(range.0),
                            end_time: Some(range.1),
                            interval: Some(Duration { seconds: interval_seconds, nanos: 0 }),
                            aggregate_name,
                            include_std_dev,
                            include_percentiles,
                            cci,
                        },
                    ),
                    other => r == Err::<GetTagStatisticsRequest, CallError>(
                        CallError::Session(state_error(other)),
                    ),
                },
            },
    {
        let (start, end) = match parse_range(start_time, end_time) {
            Ok(range) => range,
            Err(e) => {
                return Err(CallError::Time(e));
            },
        };
        let request = GetTagStatisticsRequest {
            view_name,
            tag_id,
            start_time: Some(start),
            end_time: Some(end),
            interval: Some(Duration { seconds: interval_seconds, nanos: 0 }),
            aggregate_name,
            include_std_dev,
            include_percentiles,
            cci: 0,
        };
        let sent = match self.client() {
            Ok(client) => client.get_tag_statistics(request),
            Err(e) => Err(e),
        };
        match sent {
            Ok(request) => Ok(request),
            Err(e) => Err(CallError::Session(e)),
        }
    }

    /// The request for the tags at a node, without their properties.
    pub fn browse_tags(
        &self,
        node_id: String,
        search_context: String,
        max_count: i32,
        include_sub_nodes: bool,
    ) -> (r: Result<BrowseTagsRequest, SessionError>)
        ensures
            match self.state() {
                SessionState::Active(_) => r == Ok::<BrowseTagsRequest, SessionError>(
                    BrowseTagsRequest {
                        node_id_browse: node_id,
                        search_context,
                        max_count,
                        include_sub_nodes,
                        include_properties: false,
                    },
                ),
                other => r == Err::<BrowseTagsRequest, SessionError>(state_error(other)),
            },
    {
        let request = BrowseTagsRequest {
            node_id_browse: node_id,
            search_context,
            max_count,
            include_sub_nodes,
            include_properties: false,
        };
        match self.client() {
            Ok(client) => client.browse_tags(request),
            Err(e) => Err(e),
        }
    }

    /// The request for the tags whose names match all of `tag_and` and any
    /// of `tag_or`; no other search term is set.
    pub fn search_tags(&self, tag_and: Vec<String>, tag_or: Vec<String>) -> (r: Result<
        SearchTagsRequest,
        SessionError,
    >)
        ensures
            match self.state() {
                SessionState::Active(_) => r matches Ok(request) && request.tag_and == tag_and
                    && request.tag_or == tag_or && request.description_and@.len() == 0
                    && request.description_or@.len() == 0 && request.eng_units_and@.len() == 0
                    && request.eng_units_or@.len() == 0 && !request.include_properties,
                other => r == Err::<SearchTagsRequest, SessionError>(state_error(other)),
            },
    {
        let request = SearchTagsRequest {
            tag_and,
            tag_or,
            description_and: Vec::new(),
            description_or: Vec::new(),
            eng_units_and: Vec::new(),
            eng_units_or: Vec::new(),
            include_properties: false,
        };
        match self.client() {
            Ok(client) => client.search_tags(request),
            Err(e) => Err(e),
        }
    }
}

/// After a release no call goes out: whatever the state was before, the
/// session answers every request with a session-state error from then on,
/// and no later event brings it back.
pub proof fn lemma_released_rejects(state: SessionState, request: Request, given: SessionState)
    ensures
        respond(after_release(state), request) is Err,
        state is Active ==> respond(after_release(state), request) == Err::<
            Request,
            SessionError,
        >(SessionError::Disconnected),
        after_establish(SessionState::Released, given) == SessionState::Released,
        after_release(SessionState::Released) == SessionState::Released,
        respond(SessionState::Released, request) == Err::<Request, SessionError>(
            SessionError::Disconnected,
        ),
{
}

/// An active session sends every request under its own identifier: the
/// value that the caller wrote into the session field does not reach the
/// wire.
pub proof fn lemma_call_overrides_session_field(cci: i32, request: Request, forged: i32)
    ensures
        respond(SessionState::Active(cci), request.with_session(forged)) == respond(
            SessionState::Active(cci),
            request,
        ),
        request.session_field() is Some ==> respond(
            SessionState::Active(cci),
            request,
        )->Ok_0.session_field() == Some(cci),
{
}

/// No sequence of events leads from a later state to an earlier one.
pub proof fn lemma_states_move_forward(state: SessionState, given: SessionState)
    ensures
        after_release(state) is Active ==> false,
        after_release(state) == SessionState::Unestablished <==> state
            == SessionState::Unestablished,
        !(state == SessionState::Unestablished) ==> after_establish(state, given) == state,
        state == SessionState::Released ==> after_establish(after_release(state), given)
            == SessionState::Released,
{
}

} // verus!
