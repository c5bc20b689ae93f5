//! The authenticated session: what is needed to open one, and the requests
//! that it sends.
//!
//! Nothing here touches the network. Opening a session yields a plan that
//! says which stream to open and which request sets the session up; an
//! active session turns the arguments of an operation into the request to
//! send, with the session identifier in it. A session that was released
//! gives no request any more.

use crate::credential::{is_value_text, ApiKeyInterceptor};
use crate::endpoint::{
    transport_for, transport_for_address, ConnectError, Transport, TransportView,
};
use crate::requests::{
    BrowsePathRequest, BrowseRequest, BrowseTagsRequest, GetAggregateDataRequest,
    GetClientConnectionIdRequest, GetDataSetListRequest, GetDatasetInfoRequest,
    GetRawDataRequest, GetTagCurrentValueRequest, GetTagDataContextRequest, GetTagInfoRequest,
    GetTagListRequest, GetTagStatisticsRequest, GetViewsRequest,
    KeepaliveClientConnectionIdRequest, ReleaseClientConnectionIdRequest, Request,
    SearchTagsRequest, SubscribeToLiveDataRequest,
};
use vstd::prelude::*;

verus! {

/// Why no session could be planned.
#[derive(Clone, Copy, Debug, PartialEq, Eq, Structural)]
pub enum SetupError {
    /// The address is no URI.
    InvalidUri,
    /// The credential cannot travel in the metadata of a call.
    InvalidCredential,
    /// The address asks for an encrypted stream and names no host.
    MissingHost,
    /// The host cannot name the server in a handshake.
    InvalidServerName,
}

/// What opening a session takes: the stream to open, the interceptor that
/// adds the credential to every call, and the request that asks the
/// service for a session identifier.
#[derive(Debug)]
pub struct ConnectPlan {
    pub transport: Transport,
    pub interceptor: ApiKeyInterceptor,
    pub setup: GetClientConnectionIdRequest,
}

/// What `ViewsClient::connect` gives for an address and a credential: the
/// first fault in the order address, credential, host, or the transport of
/// the address.
pub open spec fn connect_outcome(address: Seq<char>, api_key: Seq<char>) -> Result<
    TransportView,
    SetupError,
> {
    match transport_for_address(address) {
        Err(ConnectError::InvalidUri) => Err(SetupError::InvalidUri),
        other => if !is_value_text(api_key) {
            Err(SetupError::InvalidCredential)
        } else {
            match other {
                Err(ConnectError::MissingHost) => Err(SetupError::MissingHost),
                Err(_) => Err(SetupError::InvalidServerName),
                Ok(t) => Ok(t),
            }
        },
    }
}

/// A call was made on a session that is not active.
#[derive(Clone, Copy, Debug, PartialEq, Eq, Structural)]
pub enum SessionError {
    /// The session was never established.
    NotEstablished,
    /// The session was released.
    Disconnected,
}

/// What a session gives for a request that it would send: the request
/// while it is active, a session-state error once it is released.
pub open spec fn unless_released<T>(released: bool, request: T) -> Result<T, SessionError> {
    if released {
        Err(SessionError::Disconnected)
    } else {
        Ok(request)
    }
}

/// A session with the service: it holds the identifier that the service
/// gave it, and whether it was released. It is active from the answer to
/// the setup request until its release, and a release is final.
#[derive(Debug, PartialEq, Eq, Structural)]
pub struct ViewsClient {
    cci: i32,
    released: bool,
}

impl ConnectPlan {
    /// The session that the plan leads to, once the service has answered
    /// the setup request with the identifier `cci`. The session is active.
    pub fn established(&self, cci: i32) -> (r: ViewsClient)
        ensures
            r.session_id() == cci,
            !r.released(),
    {
        ViewsClient { cci, released: false }
    }
}

impl ViewsClient {
    /// The identifier of the session.
    pub closed spec fn session_id(&self) -> i32 {
        self.cci
    }

    /// Whether the session was released.
    pub closed spec fn released(&self) -> bool {
        self.released
    }

    /// Plans a session with the service at `endpoint`.
    ///
    /// The plan says which stream the address selects and holds the
    /// interceptor for `api_key` and the setup request with `app` and
    /// `user_id`. No plan is made for an address that is no URI, for a
    /// credential that cannot be a metadata value, or for an `https`
    /// address whose host cannot name the server.
    pub fn connect(endpoint: &str, api_key: String, app: String, user_id: String) -> (r: Result<
        ConnectPlan,
        SetupError,
    >)
        ensures
            match r {
                Ok(plan) => connect_outcome(endpoint@, api_key@) == Ok::<
                    TransportView,
                    SetupError,
                >(plan.transport@) && plan.interceptor.token() == api_key@ && plan.setup.app
                    == app && plan.setup.user_id == user_id,
                Err(e) => connect_outcome(endpoint@, api_key@) == Err::<TransportView, SetupError>(
                    e,
                ),
            },
    {
        let planned = transport_for(endpoint);
        if let Err(ConnectError::InvalidUri) = planned {
            return Err(SetupError::InvalidUri);
        }
        let interceptor = match ApiKeyInterceptor::new(api_key) {
            Ok(i) => i,
            Err(_) => {
                return Err(SetupError::InvalidCredential);
            },
        };
        match planned {
            Ok(transport) => Ok(
                ConnectPlan {
                    transport,
                    interceptor,
                    setup: GetClientConnectionIdRequest { app, user_id },
                },
            ),
            Err(ConnectError::MissingHost) => Err(SetupError::MissingHost),
            Err(_) => Err(SetupError::InvalidServerName),
        }
    }

    /// The identifier of the session. It stays what it was when the
    /// session is released.
    pub fn cci(&self) -> (r: i32)
        ensures
            r == self.session_id(),
    {
        self.cci
    }

    /// Whether the session was released.
    pub fn is_released(&self) -> (r: bool)
        ensures
            r == self.released(),
    {
        self.released
    }

    /// Releases the session. The first release gives the request that
    /// hands the identifier back; the session is released from then on,
    /// and a further release gives nothing.
    pub fn disconnect(&mut self) -> (r: Option<ReleaseClientConnectionIdRequest>)
        ensures
            final(self).released(),
            final(self).session_id() == old(self).session_id(),
            r is Some <==> !old(self).released(),
            r matches Some(release) ==> release.cci == old(self).session_id(),
    {
        if self.released {
            None
        } else {
            self.released = true;
            Some(ReleaseClientConnectionIdRequest { cci: self.cci })
        }
    }

    /// The request as it is sent in this session: with the session's
    /// identifier in its session field, whatever the caller wrote there.
    pub fn call(&self, request: Request) -> (r: Result<Request, SessionError>)
        ensures
            r == unless_released(self.released(), request.with_session(self.session_id())),
    {
        if self.released {
            return Err(SessionError::Disconnected);
        }
        Ok(request.stamp(self.cci))
    }

    /// The request that keeps the session alive. A released session gives
    /// a session-state error.
    pub fn keepalive(&self) -> (r: Result<KeepaliveClientConnectionIdRequest, SessionError>)
        ensures
            r == unless_released(self.released(), (KeepaliveClientConnectionIdRequest { cci: self.session_id() })),
    {
        if self.released {
            return Err(SessionError::Disconnected);
        }
        Ok(KeepaliveClientConnectionIdRequest { cci: self.cci })
    }

    /// The request that tests the connection. A released session gives
    /// a session-state error.
    pub fn test(&self) -> (r: Result<Request, SessionError>)
        ensures
            r == unless_released(self.released(), Request::Test),
    {
        if self.released {
            return Err(SessionError::Disconnected);
        }
        Ok(Request::Test)
    }

    /// The request for the version of the service. A released session gives
    /// a session-state error.
    pub fn get_version(&self) -> (r: Result<Request, SessionError>)
        ensures
            r == unless_released(self.released(), Request::GetWebServiceVersion),
    {
        if self.released {
            return Err(SessionError::Disconnected);
        }
        Ok(Request::GetWebServiceVersion)
    }

    /// The request for the views of the session. A released session gives
    /// a session-state error.
    pub fn get_views(&self) -> (r: Result<GetViewsRequest, SessionError>)
        ensures
            r == unless_released(self.released(), (GetViewsRequest { cci: self.session_id() })),
    {
        if self.released {
            return Err(SessionError::Disconnected);
        }
        Ok(GetViewsRequest { cci: self.cci })
    }

    /// The request for the datasets of `view`. A released session gives
    /// a session-state error.
    pub fn get_dataset_list(&self, view: String, include_hidden: bool) -> (r: Result<GetDataSetListRequest, SessionError>)
        ensures
            r == unless_released(self.released(), (GetDataSetListRequest { view, include_hidden, cci: self.session_id() })),
    {
        if self.released {
            return Err(SessionError::Disconnected);
        }
        Ok(GetDataSetListRequest { view, include_hidden, cci: self.cci })
    }

    /// The request for the properties of a dataset. A released session gives
    /// a session-state error.
    pub fn get_dataset_info(&self, view: String, dataset_name: String) -> (r: Result<GetDatasetInfoRequest, SessionError>)
        ensures
            r == unless_released(self.released(), (GetDatasetInfoRequest { view, dataset_name, cci: self.session_id() })),
    {
        if self.released {
            return Err(SessionError::Disconnected);
        }
        Ok(GetDatasetInfoRequest { view, dataset_name, cci: self.cci })
    }

    /// The request for the tags of a dataset. A released session gives
    /// a session-state error.
    pub fn get_tag_list(&self, view: String, dataset_name: String, starting_offset: i32, max_count: i32) -> (r: Result<GetTagListRequest, SessionError>)
        ensures
            r == unless_released(self.released(), (GetTagListRequest { view, dataset_name, starting_offset, max_count, cci: self.session_id() })),
    {
        if self.released {
            return Err(SessionError::Disconnected);
        }
        Ok(GetTagListRequest { view, dataset_name, starting_offset, max_count, cci: self.cci })
    }

    /// The request for the properties of tags. A released session gives
    /// a session-state error.
    pub fn get_tag_info(&self, view: String, tag_names: Vec<String>) -> (r: Result<GetTagInfoRequest, SessionError>)
        ensures
            r == unless_released(self.released(), (GetTagInfoRequest { view, tag_names, cci: self.session_id() })),
    {
        if self.released {
            return Err(SessionError::Disconnected);
        }
        Ok(GetTagInfoRequest { view, tag_names, cci: self.cci })
    }

    /// The request for the time span that the data of tags covers. A released session gives
    /// a session-state error.
    pub fn get_tag_data_context(&self, view: String, tag_names: Vec<String>) -> (r: Result<GetTagDataContextRequest, SessionError>)
        ensures
            r == unless_released(self.released(), (GetTagDataContextRequest { view, tag_names, cci: self.session_id() })),
    {
        if self.released {
            return Err(SessionError::Disconnected);
        }
        Ok(GetTagDataContextRequest { view, tag_names, cci: self.cci })
    }

    /// `request` with the session's identifier in place of the caller's. A released session gives
    /// a session-state error.
    pub fn get_tag_current_value(&self, request: GetTagCurrentValueRequest) -> (r: Result<GetTagCurrentValueRequest, SessionError>)
        ensures
            r == unless_released(self.released(), (GetTagCurrentValueRequest { cci: self.session_id(), ..request })),
    {
        if self.released {
            return Err(SessionError::Disconnected);
        }
        Ok(GetTagCurrentValueRequest { cci: self.cci, ..request })
    }

    /// `request` with the session's identifier in place of the caller's. A released session gives
    /// a session-state error.
    pub fn get_raw_data(&self, request: GetRawDataRequest) -> (r: Result<GetRawDataRequest, SessionError>)
        ensures
            r == unless_released(self.released(), (GetRawDataRequest { cci: self.session_id(), ..request })),
    {
        if self.released {
            return Err(SessionError::Disconnected);
        }
        Ok(GetRawDataRequest { cci: self.cci, ..request })
    }

    /// `request` with the session's identifier in place of the caller's. A released session gives
    /// a session-state error.
    pub fn get_aggregate_data(&self, request: GetAggregateDataRequest) -> (r: Result<GetAggregateDataRequest, SessionError>)
        ensures
            r == unless_released(self.released(), (GetAggregateDataRequest { cci: self.session_id(), ..request })),
    {
        if self.released {
            return Err(SessionError::Disconnected);
        }
        Ok(GetAggregateDataRequest { cci: self.cci, ..request })
    }

    /// `request` with the session's identifier in place of the caller's. A released session gives
    /// a session-state error.
    pub fn get_tag_statistics(&self, request: GetTagStatisticsRequest) -> (r: Result<GetTagStatisticsRequest, SessionError>)
        ensures
            r == unless_released(self.released(), (GetTagStatisticsRequest { cci: self.session_id(), ..request })),
    {
        if self.released {
            return Err(SessionError::Disconnected);
        }
        Ok(GetTagStatisticsRequest { cci: self.cci, ..request })
    }

    /// The request for the aggregates that the service knows. A released session gives
    /// a session-state error.
    pub fn get_aggregate_list(&self) -> (r: Result<Request, SessionError>)
        ensures
            r == unless_released(self.released(), Request::GetAggregateList),
    {
        if self.released {
            return Err(SessionError::Disconnected);
        }
        Ok(Request::GetAggregateList)
    }

    /// `request` with the session's identifier in place of the caller's. A released session gives
    /// a session-state error.
    pub fn subscribe_to_live_data(&self, request: SubscribeToLiveDataRequest) -> (r: Result<SubscribeToLiveDataRequest, SessionError>)
        ensures
            r == unless_released(self.released(), (SubscribeToLiveDataRequest { cci: self.session_id() })),
    {
        if self.released {
            return Err(SessionError::Disconnected);
        }
        Ok(SubscribeToLiveDataRequest { cci: self.cci })
    }

    /// The request for the children of a node of the views tree. A released session gives
    /// a session-state error.
    pub fn browse(&self, node_id_path: String, force_reload: bool) -> (r: Result<BrowseRequest, SessionError>)
        ensures
            r == unless_released(self.released(), (BrowseRequest { node_id_path, force_reload })),
    {
        if self.released {
            return Err(SessionError::Disconnected);
        }
        Ok(BrowseRequest { node_id_path, force_reload })
    }

    /// The request for the tags at a node: `request` as it is. A released session gives
    /// a session-state error.
    pub fn browse_tags(&self, request: BrowseTagsRequest) -> (r: Result<BrowseTagsRequest, SessionError>)
        ensures
            r == unless_released(self.released(), request),
    {
        if self.released {
            return Err(SessionError::Disconnected);
        }
        Ok(request)
    }

    /// The request for a search: `request` as it is. A released session gives
    /// a session-state error.
    pub fn search_tags(&self, request: SearchTagsRequest) -> (r: Result<SearchTagsRequest, SessionError>)
        ensures
            r == unless_released(self.released(), request),
    {
        if self.released {
            return Err(SessionError::Disconnected);
        }
        Ok(request)
    }

    /// The request for the nodes along `tree_path`. A released session gives
    /// a session-state error.
    pub fn browse_path(&self, tree_path: Vec<String>) -> (r: Result<BrowsePathRequest, SessionError>)
        ensures
            r == unless_released(self.released(), (BrowsePathRequest { tree_path })),
    {
        if self.released {
            return Err(SessionError::Disconnected);
        }
        Ok(BrowsePathRequest { tree_path })
    }

}

/// After its release a session gives no request: every operation answers
/// with the session-state error, and a second release gives nothing.
pub proof fn lemma_release_is_final(released: bool, request: Request, cci: i32)
    ensures
        unless_released(true, request.with_session(cci)) == Err::<Request, SessionError>(
            SessionError::Disconnected,
        ),
        unless_released(released, request) is Ok <==> !released,
{
}

} // verus!
