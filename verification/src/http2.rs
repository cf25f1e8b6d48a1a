//! HTTP/2 connection parameters and the order in which they go on the wire.

use vstd::prelude::*;
use crate::error::ConfigurationError;
use crate::order::{order_defect, spec_is_defect_of, spec_is_permutation, OrderDefect, OrderMember};

verus! {

/// The request pseudo-headers of HTTP/2.
#[derive(Debug, Clone, Copy, PartialEq, Eq, Hash, Structural)]
pub enum PseudoOrder {
    Method,
    Scheme,
    Authority,
    Path,
}

/// The parameters of an HTTP/2 SETTINGS frame.
#[derive(Debug, Clone, Copy, PartialEq, Eq, Hash, Structural)]
pub enum SettingsOrder {
    HeaderTableSize,
    EnablePush,
    MaxConcurrentStreams,
    InitialWindowSize,
    MaxFrameSize,
    MaxHeaderListSize,
    EnableConnectProtocol,
}

impl OrderMember for PseudoOrder {
    open spec fn spec_count() -> nat {
        4
    }

    open spec fn spec_ordinal(self) -> nat {
        match self {
            PseudoOrder::Method => 0,
            PseudoOrder::Scheme => 1,
            PseudoOrder::Authority => 2,
            PseudoOrder::Path => 3,
        }
    }

    open spec fn spec_member(ordinal: nat) -> PseudoOrder {
        if ordinal == 0 {
            PseudoOrder::Method
        } else if ordinal == 1 {
            PseudoOrder::Scheme
        } else if ordinal == 2 {
            PseudoOrder::Authority
        } else {
            PseudoOrder::Path
        }
    }

    proof fn lemma_ordinal(self) {
    }

    proof fn lemma_member(ordinal: nat) {
    }

    fn count() -> (count: usize) {
        4
    }

    fn ordinal(self) -> (ordinal: usize) {
        match self {
            PseudoOrder::Method => 0,
            PseudoOrder::Scheme => 1,
            PseudoOrder::Authority => 2,
            PseudoOrder::Path => 3,
        }
    }

    fn member(ordinal: usize) -> (member: Option<PseudoOrder>) {
        match ordinal {
            0 => Some(PseudoOrder::Method),
            1 => Some(PseudoOrder::Scheme),
            2 => Some(PseudoOrder::Authority),
            3 => Some(PseudoOrder::Path),
            _ => None,
        }
    }
}

impl OrderMember for SettingsOrder {
    open spec fn spec_count() -> nat {
        7
    }

    open spec fn spec_ordinal(self) -> nat {
        match self {
            SettingsOrder::HeaderTableSize => 0,
            SettingsOrder::EnablePush => 1,
            SettingsOrder::MaxConcurrentStreams => 2,
            SettingsOrder::InitialWindowSize => 3,
            SettingsOrder::MaxFrameSize => 4,
            SettingsOrder::MaxHeaderListSize => 5,
            SettingsOrder::EnableConnectProtocol => 6,
        }
    }

    open spec fn spec_member(ordinal: nat) -> SettingsOrder {
        if ordinal == 0 {
            SettingsOrder::HeaderTableSize
        } else if ordinal == 1 {
            SettingsOrder::EnablePush
        } else if ordinal == 2 {
            SettingsOrder::MaxConcurrentStreams
        } else if ordinal == 3 {
            SettingsOrder::InitialWindowSize
        } else if ordinal == 4 {
            SettingsOrder::MaxFrameSize
        } else if ordinal == 5 {
            SettingsOrder::MaxHeaderListSize
        } else {
            SettingsOrder::EnableConnectProtocol
        }
    }

    proof fn lemma_ordinal(self) {
    }

    proof fn lemma_member(ordinal: nat) {
    }

    fn count() -> (count: usize) {
        7
    }

    fn ordinal(self) -> (ordinal: usize) {
        match self {
            SettingsOrder::HeaderTableSize => 0,
            SettingsOrder::EnablePush => 1,
            SettingsOrder::MaxConcurrentStreams => 2,
            SettingsOrder::InitialWindowSize => 3,
            SettingsOrder::MaxFrameSize => 4,
            SettingsOrder::MaxHeaderListSize => 5,
            SettingsOrder::EnableConnectProtocol => 6,
        }
    }

    fn member(ordinal: usize) -> (member: Option<SettingsOrder>) {
        match ordinal {
            0 => Some(SettingsOrder::HeaderTableSize),
            1 => Some(SettingsOrder::EnablePush),
            2 => Some(SettingsOrder::MaxConcurrentStreams),
            3 => Some(SettingsOrder::InitialWindowSize),
            4 => Some(SettingsOrder::MaxFrameSize),
            5 => Some(SettingsOrder::MaxHeaderListSize),
            6 => Some(SettingsOrder::EnableConnectProtocol),
            _ => None,
        }
    }
}

/// The priority of the stream that carries a connection's first request.
#[derive(Debug, Clone, Copy, PartialEq, Eq, Hash, Structural)]
pub struct StreamPriority {
    /// The stream's weight.
    pub weight: u8,
    /// The stream that this one depends on.
    pub dependency: u32,
    /// Whether the dependency is exclusive.
    pub exclusive: bool,
}

/// The HTTP/2 side of a client profile: parameter values, and the order in
/// which parameters and pseudo-headers are sent.
#[derive(Debug, Clone, PartialEq, Eq)]
pub struct Http2Settings {
    pub initial_stream_window_size: Option<u32>,
    pub initial_connection_window_size: Option<u32>,
    pub max_concurrent_streams: Option<u32>,
    pub max_header_list_size: Option<u32>,
    pub header_table_size: Option<u32>,
    pub enable_push: Option<bool>,
    pub headers_priority: Option<StreamPriority>,
    pub headers_pseudo_order: Option<Vec<PseudoOrder>>,
    pub settings_order: Option<Vec<SettingsOrder>>,
}

impl ConfigurationError {
    /// The defect of a SETTINGS order that the error reports, if it reports one.
    pub open spec fn spec_settings_defect(self) -> Option<OrderDefect<SettingsOrder>> {
        match self {
            ConfigurationError::DuplicateSetting(parameter) => Some(
                OrderDefect::Duplicate(parameter),
            ),
            ConfigurationError::MissingSetting(parameter) => Some(OrderDefect::Missing(parameter)),
            _ => None,
        }
    }

    /// The defect of a pseudo-header order that the error reports, if it reports one.
    pub open spec fn spec_pseudo_defect(self) -> Option<OrderDefect<PseudoOrder>> {
        match self {
            ConfigurationError::DuplicatePseudoHeader(header) => Some(
                OrderDefect::Duplicate(header),
            ),
            ConfigurationError::MissingPseudoHeader(header) => Some(OrderDefect::Missing(header)),
            _ => None,
        }
    }
}

/// An order that is set names every member exactly once.
pub open spec fn spec_order_is_valid<T: OrderMember>(order: Option<Vec<T>>) -> bool {
    order matches Some(given) ==> spec_is_permutation(given@)
}

/// Checks a SETTINGS order: `Ok` exactly for a permutation of the seven
/// parameters; else the first repeated parameter, or, if none repeats, the
/// first parameter left out.
pub fn validate_settings_order(order: &Vec<SettingsOrder>) -> (checked: Result<
    (),
    ConfigurationError,
>)
    ensures
        checked is Ok <==> spec_is_permutation(order@),
        checked matches Err(error) ==> {
            &&& error.spec_settings_defect() matches Some(defect)
            &&& spec_is_defect_of(order@, defect)
            &&& error is DuplicateSetting <==> !order@.no_duplicates()
        },
{
    match order_defect(order) {
        None => Ok(()),
        Some(OrderDefect::Duplicate(parameter)) => {
            Err(ConfigurationError::DuplicateSetting(parameter))
        },
        Some(OrderDefect::Missing(parameter)) => {
            Err(ConfigurationError::MissingSetting(parameter))
        },
    }
}

/// Checks a pseudo-header order: `Ok` exactly for a permutation of the four
/// pseudo-headers; else the first repeated header, or, if none repeats, the
/// first header left out.
pub fn validate_pseudo_order(order: &Vec<PseudoOrder>) -> (checked: Result<(), ConfigurationError>)
    ensures
        checked is Ok <==> spec_is_permutation(order@),
        checked matches Err(error) ==> {
            &&& error.spec_pseudo_defect() matches Some(defect)
            &&& spec_is_defect_of(order@, defect)
            &&& error is DuplicatePseudoHeader <==> !order@.no_duplicates()
        },
{
    match order_defect(order) {
        None => Ok(()),
        Some(OrderDefect::Duplicate(header)) => {
            Err(ConfigurationError::DuplicatePseudoHeader(header))
        },
        Some(OrderDefect::Missing(header)) => {
            Err(ConfigurationError::MissingPseudoHeader(header))
        },
    }
}

impl Http2Settings {
    /// Both orders, where set, name every member exactly once.
    pub open spec fn spec_is_valid(self) -> bool {
        spec_order_is_valid(self.settings_order) && spec_order_is_valid(self.headers_pseudo_order)
    }

    /// Checks the two orders, the SETTINGS order first. An order that is not
    /// set passes. Nothing is repaired: a defective order is an error.
    pub fn validate(&self) -> (checked: Result<(), ConfigurationError>)
        ensures
            checked is Ok <==> self.spec_is_valid(),
            checked matches Err(error) ==> {
                if !spec_order_is_valid(self.settings_order) {
                    &&& error.spec_settings_defect() matches Some(defect)
                    &&& spec_is_defect_of(self.settings_order->Some_0@, defect)
                } else {
                    &&& error.spec_pseudo_defect() matches Some(defect)
                    &&& spec_is_defect_of(self.headers_pseudo_order->Some_0@, defect)
                }
            },
    {
        match &self.settings_order {
            Some(order) => {
                match validate_settings_order(order) {
                    Ok(()) => {},
                    Err(error) => {
                        return Err(error);
                    },
                }
            },
            None => {},
        }
        match &self.headers_pseudo_order {
            Some(order) => validate_pseudo_order(order),
            None => Ok(()),
        }
    }
}

impl Http2Settings {
    /// The settings before any option is set: every value and both orders
    /// left to the HTTP/2 implementation.
    pub open spec fn spec_default() -> Http2Settings {
        Http2Settings {
            initial_stream_window_size: None,
            initial_connection_window_size: None,
            max_concurrent_streams: None,
            max_header_list_size: None,
            header_table_size: None,
            enable_push: None,
            headers_priority: None,
            headers_pseudo_order: None,
            settings_order: None,
        }
    }

    /// Starts from the default settings.
    pub fn builder() -> (builder: Http2SettingsBuilder)
        ensures
            builder.settings == Http2Settings::spec_default(),
    {
        Http2SettingsBuilder { settings: Http2Settings::default() }
    }
}

impl Default for Http2Settings {
    fn default() -> (settings: Http2Settings)
        ensures
            settings == Http2Settings::spec_default(),
    {
        Http2Settings {
            initial_stream_window_size: None,
            initial_connection_window_size: None,
            max_concurrent_streams: None,
            max_header_list_size: None,
            header_table_size: None,
            enable_push: None,
            headers_priority: None,
            headers_pseudo_order: None,
            settings_order: None,
        }
    }
}

/// Builds `Http2Settings` option by option. No option can fail here.
#[derive(Debug, Clone, PartialEq, Eq)]
pub struct Http2SettingsBuilder {
    pub settings: Http2Settings,
}

impl Http2SettingsBuilder {
    /// Sets the initial window size of a stream.
    pub fn initial_stream_window_size(
        self,
        initial_stream_window_size: u32,
    ) -> (builder: Http2SettingsBuilder)
        ensures
            builder.settings == (Http2Settings {
                initial_stream_window_size: Some(initial_stream_window_size),
                ..self.settings
            }),
    {
        Http2SettingsBuilder {
            settings: Http2Settings {
                initial_stream_window_size: Some(initial_stream_window_size),
                ..self.settings
            },
        }
    }

    /// Sets the initial window size of the connection.
    pub fn initial_connection_window_size(
        self,
        initial_connection_window_size: u32,
    ) -> (builder: Http2SettingsBuilder)
        ensures
            builder.settings == (Http2Settings {
                initial_connection_window_size: Some(initial_connection_window_size),
                ..self.settings
            }),
    {
        Http2SettingsBuilder {
            settings: Http2Settings {
                initial_connection_window_size: Some(initial_connection_window_size),
                ..self.settings
            },
        }
    }

    /// Sets how many streams may be open at once.
    pub fn max_concurrent_streams(
        self,
        max_concurrent_streams: u32,
    ) -> (builder: Http2SettingsBuilder)
        ensures
            builder.settings == (Http2Settings {
                max_concurrent_streams: Some(max_concurrent_streams),
                ..self.settings
            }),
    {
        Http2SettingsBuilder {
            settings: Http2Settings {
                max_concurrent_streams: Some(max_concurrent_streams),
                ..self.settings
            },
        }
    }

    /// Sets the largest header list accepted.
    pub fn max_header_list_size(self, max_header_list_size: u32) -> (builder: Http2SettingsBuilder)
        ensures
            builder.settings == (Http2Settings {
                max_header_list_size: Some(max_header_list_size),
                ..self.settings
            }),
    {
        Http2SettingsBuilder {
            settings: Http2Settings {
                max_header_list_size: Some(max_header_list_size),
                ..self.settings
            },
        }
    }

    /// Sets the size of the header compression table.
    pub fn header_table_size(self, header_table_size: u32) -> (builder: Http2SettingsBuilder)
        ensures
            builder.settings == (Http2Settings {
                header_table_size: Some(header_table_size),
                ..self.settings
            }),
    {
        Http2SettingsBuilder {
            settings: Http2Settings { header_table_size: Some(header_table_size), ..self.settings },
        }
    }

    /// Sets whether the server may push.
    pub fn enable_push(self, enable_push: bool) -> (builder: Http2SettingsBuilder)
        ensures
            builder.settings == (Http2Settings { enable_push: Some(enable_push), ..self.settings }),
    {
        Http2SettingsBuilder {
            settings: Http2Settings { enable_push: Some(enable_push), ..self.settings },
        }
    }

    /// Sets the priority of the stream that carries the first request.
    pub fn headers_priority(
        self,
        headers_priority: StreamPriority,
    ) -> (builder: Http2SettingsBuilder)
        ensures
            builder.settings == (Http2Settings {
                headers_priority: Some(headers_priority),
                ..self.settings
            }),
    {
        Http2SettingsBuilder {
            settings: Http2Settings { headers_priority: Some(headers_priority), ..self.settings },
        }
    }

    /// Sets the order in which the pseudo-headers of a request are sent. The
    /// order is taken as given and checked by `Http2Settings::validate`.
    pub fn headers_pseudo_order(
        self,
        headers_pseudo_order: Vec<PseudoOrder>,
    ) -> (builder: Http2SettingsBuilder)
        ensures
            builder.settings == (Http2Settings {
                headers_pseudo_order: Some(headers_pseudo_order),
                ..self.settings
            }),
    {
        Http2SettingsBuilder {
            settings: Http2Settings {
                headers_pseudo_order: Some(headers_pseudo_order),
                ..self.settings
            },
        }
    }

    /// Sets the order in which the parameters of the SETTINGS frame are sent.
    /// The order is taken as given and checked by `Http2Settings::validate`.
    pub fn settings_order(
        self,
        settings_order: Vec<SettingsOrder>,
    ) -> (builder: Http2SettingsBuilder)
        ensures
            builder.settings == (Http2Settings {
                settings_order: Some(settings_order),
                ..self.settings
            }),
    {
        Http2SettingsBuilder {
            settings: Http2Settings { settings_order: Some(settings_order), ..self.settings },
        }
    }

    /// The settings as built.
    pub fn build(self) -> (settings: Http2Settings)
        ensures
            settings == self.settings,
    {
        self.settings
    }
}

} // verus!
