//! The discrete usage events that go to the event sink, and the calls they
//! describe.

use vstd::prelude::*;

verus! {

/// One usage event. `id` is the identifier of the execution or of the
/// independent storage call; `udf_id` names the function that was called.
#[derive(Clone, Debug, PartialEq, Eq)]
pub enum UsageEvent {
    FunctionCall {
        id: String,
        udf_id: String,
        udf_id_type: String,
        tag: String,
        memory_megabytes: u64,
        duration_millis: u64,
        environment: String,
        is_tracked: bool,
    },
    FunctionStorageCalls { id: String, udf_id: String, call: String, count: u64 },
    FunctionStorageBandwidth { id: String, udf_id: String, ingress: u64, egress: u64 },
    DatabaseBandwidth { id: String, udf_id: String, table_name: String, ingress: u64, egress: u64 },
    VectorBandwidth { id: String, udf_id: String, table_name: String, ingress: u64, egress: u64 },
    StorageCall { id: String, call: String },
    StorageBandwidth { id: String, ingress: u64, egress: u64 },
}

/// What a usage event holds, as mathematical values.
pub enum UsageEventView {
    FunctionCall {
        id: Seq<char>,
        udf_id: Seq<char>,
        udf_id_type: Seq<char>,
        tag: Seq<char>,
        memory_megabytes: nat,
        duration_millis: nat,
        environment: Seq<char>,
        is_tracked: bool,
    },
    FunctionStorageCalls { id: Seq<char>, udf_id: Seq<char>, call: Seq<char>, count: nat },
    FunctionStorageBandwidth { id: Seq<char>, udf_id: Seq<char>, ingress: nat, egress: nat },
    DatabaseBandwidth {
        id: Seq<char>,
        udf_id: Seq<char>,
        table_name: Seq<char>,
        ingress: nat,
        egress: nat,
    },
    VectorBandwidth {
        id: Seq<char>,
        udf_id: Seq<char>,
        table_name: Seq<char>,
        ingress: nat,
        egress: nat,
    },
    StorageCall { id: Seq<char>, call: Seq<char> },
    StorageBandwidth { id: Seq<char>, ingress: nat, egress: nat },
}

impl DeepView for UsageEvent {
    type V = UsageEventView;

    open spec fn deep_view(&self) -> UsageEventView {
        match *self {
            UsageEvent::FunctionCall {
                id,
                udf_id,
                udf_id_type,
                tag,
                memory_megabytes,
                duration_millis,
                environment,
                is_tracked,
            } => UsageEventView::FunctionCall {
                id: id@,
                udf_id: udf_id@,
                udf_id_type: udf_id_type@,
                tag: tag@,
                memory_megabytes: memory_megabytes as nat,
                duration_millis: duration_millis as nat,
                environment: environment@,
                is_tracked,
            },
            UsageEvent::FunctionStorageCalls {
                id,
                udf_id,
                call,
                count,
            } => UsageEventView::FunctionStorageCalls {
                id: id@,
                udf_id: udf_id@,
                call: call@,
                count: count as nat,
            },
            UsageEvent::FunctionStorageBandwidth {
                id,
                udf_id,
                ingress,
                egress,
            } => UsageEventView::FunctionStorageBandwidth {
                id: id@,
                udf_id: udf_id@,
                ingress: ingress as nat,
                egress: egress as nat,
            },
            UsageEvent::DatabaseBandwidth {
                id,
                udf_id,
                table_name,
                ingress,
                egress,
            } => UsageEventView::DatabaseBandwidth {
                id: id@,
                udf_id: udf_id@,
                table_name: table_name@,
                ingress: ingress as nat,
                egress: egress as nat,
            },
            UsageEvent::VectorBandwidth {
                id,
                udf_id,
                table_name,
                ingress,
                egress,
            } => UsageEventView::VectorBandwidth {
                id: id@,
                udf_id: udf_id@,
                table_name: table_name@,
                ingress: ingress as nat,
                egress: egress as nat,
            },
            UsageEvent::StorageCall { id, call } => UsageEventView::StorageCall {
                id: id@,
                call: call@,
            },
            UsageEvent::StorageBandwidth {
                id,
                ingress,
                egress,
            } => UsageEventView::StorageBandwidth {
                id: id@,
                ingress: ingress as nat,
                egress: egress as nat,
            },
        }
    }
}

/// Who made a call: a function, an HTTP route, or a command-line tool. Each
/// holds the identifier that the events carry for it.
#[derive(Clone, Debug, PartialEq, Eq)]
pub enum UdfIdentifier {
    /// A function, by its path. A system function is one that runs on the
    /// platform's behalf, not the user's.
    Function { path: String, is_system: bool },
    /// An HTTP route.
    Http { route: String },
    /// A command of the command-line tool.
    Cli { command: String },
}

impl UdfIdentifier {
    /// The identifier that events carry for this caller.
    pub open spec fn udf_id_view(&self) -> Seq<char> {
        match *self {
            UdfIdentifier::Function { path, .. } => path@,
            UdfIdentifier::Http { route } => route@,
            UdfIdentifier::Cli { command } => command@,
        }
    }

    /// The kind of identifier, as events name it.
    pub open spec fn udf_id_type_view(&self) -> Seq<char> {
        match *self {
            UdfIdentifier::Function { .. } => "function"@,
            UdfIdentifier::Http { .. } => "http"@,
            UdfIdentifier::Cli { .. } => "cli"@,
        }
    }

    /// Whether calls of this caller count toward the call statistics: those
    /// of user functions and of HTTP routes do, those of system functions and
    /// of the command-line tool do not.
    pub open spec fn counts_calls(&self) -> bool {
        match *self {
            UdfIdentifier::Function { is_system, .. } => !is_system,
            UdfIdentifier::Http { .. } => true,
            UdfIdentifier::Cli { .. } => false,
        }
    }

    /// The identifier that events carry for this caller.
    pub fn udf_id(&self) -> (id: String)
        ensures
            id@ == self.udf_id_view(),
    {
        match self {
            UdfIdentifier::Function { path, .. } => path.clone(),
            UdfIdentifier::Http { route } => route.clone(),
            UdfIdentifier::Cli { command } => command.clone(),
        }
    }

    /// The kind of identifier, as events name it.
    pub fn udf_id_type(&self) -> (kind: &'static str)
        ensures
            kind@ == self.udf_id_type_view(),
    {
        match self {
            UdfIdentifier::Function { .. } => "function",
            UdfIdentifier::Http { .. } => "http",
            UdfIdentifier::Cli { .. } => "cli",
        }
    }

    /// Whether calls of this caller count toward the call statistics.
    pub fn should_track_calls(&self) -> (counted: bool)
        ensures
            counted == self.counts_calls(),
    {
        match self {
            UdfIdentifier::Function { is_system, .. } => !*is_system,
            UdfIdentifier::Http { .. } => true,
            UdfIdentifier::Cli { .. } => false,
        }
    }
}

/// Where a function runs.
#[derive(Clone, Copy, Debug, PartialEq, Eq, Structural)]
pub enum ModuleEnvironment {
    Isolate,
    Node,
    Invalid,
}

impl ModuleEnvironment {
    /// The name of the environment, as events carry it.
    pub open spec fn label_view(&self) -> Seq<char> {
        match *self {
            ModuleEnvironment::Isolate => "isolate"@,
            ModuleEnvironment::Node => "node"@,
            ModuleEnvironment::Invalid => "invalid"@,
        }
    }

    /// The name of the environment, as events carry it.
    pub fn label(&self) -> (label: &'static str)
        ensures
            label@ == self.label_view(),
    {
        match self {
            ModuleEnvironment::Isolate => "isolate",
            ModuleEnvironment::Node => "node",
            ModuleEnvironment::Invalid => "invalid",
        }
    }
}

/// The kind of a call. Actions carry how long they ran, in milliseconds, and
/// the memory they were given, in megabytes.
#[derive(Clone, Copy, Debug, PartialEq, Eq, Structural)]
pub enum CallType {
    Action { env: ModuleEnvironment, duration_millis: u64, memory_in_mb: u64 },
    HttpAction { duration_millis: u64, memory_in_mb: u64 },
    Export,
    CachedQuery,
    UncachedQuery,
    Mutation,
    Import,
}

impl CallType {
    /// The tag of this kind of call.
    pub open spec fn tag_view(&self) -> Seq<char> {
        match *self {
            CallType::Action { .. } => "action"@,
            CallType::Export => "export"@,
            CallType::CachedQuery => "cached_query"@,
            CallType::UncachedQuery => "uncached_query"@,
            CallType::Mutation => "mutation"@,
            CallType::HttpAction { .. } => "http_action"@,
            CallType::Import => "import"@,
        }
    }

    /// The memory given to the call, in megabytes: zero for all but actions.
    pub open spec fn memory_megabytes_view(&self) -> nat {
        match *self {
            CallType::Action { memory_in_mb, .. } => memory_in_mb as nat,
            CallType::HttpAction { memory_in_mb, .. } => memory_in_mb as nat,
            _ => 0,
        }
    }

    /// How long the call ran, in milliseconds: zero for all but actions.
    pub open spec fn duration_millis_view(&self) -> nat {
        match *self {
            CallType::Action { duration_millis, .. } => duration_millis as nat,
            CallType::HttpAction { duration_millis, .. } => duration_millis as nat,
            _ => 0,
        }
    }

    /// Where the call ran: an action where it says, every other call in the
    /// isolate.
    pub open spec fn environment_view(&self) -> Seq<char> {
        match *self {
            CallType::Action { env, .. } => env.label_view(),
            _ => ModuleEnvironment::Isolate.label_view(),
        }
    }

    /// The tag of this kind of call.
    pub fn tag(&self) -> (tag: &'static str)
        ensures
            tag@ == self.tag_view(),
    {
        match self {
            CallType::Action { .. } => "action",
            CallType::Export => "export",
            CallType::CachedQuery => "cached_query",
            CallType::UncachedQuery => "uncached_query",
            CallType::Mutation => "mutation",
            CallType::HttpAction { .. } => "http_action",
            CallType::Import => "import",
        }
    }

    /// The memory given to the call, in megabytes.
    pub fn memory_megabytes(&self) -> (megabytes: u64)
        ensures
            megabytes == self.memory_megabytes_view(),
    {
        match self {
            CallType::Action { memory_in_mb, .. } | CallType::HttpAction { memory_in_mb, .. } => {
                *memory_in_mb
            },
            _ => 0,
        }
    }

    /// How long the call ran, in milliseconds.
    pub fn duration_millis(&self) -> (millis: u64)
        ensures
            millis == self.duration_millis_view(),
    {
        match self {
            CallType::Action { duration_millis, .. }
            | CallType::HttpAction { duration_millis, .. } => { *duration_millis },
            _ => 0,
        }
    }

    /// Where the call ran.
    pub fn environment(&self) -> (label: String)
        ensures
            label@ == self.environment_view(),
    {
        match self {
            CallType::Action { env, .. } => env.label().to_owned(),
            _ => ModuleEnvironment::Isolate.label().to_owned(),
        }
    }
}

} // verus!
