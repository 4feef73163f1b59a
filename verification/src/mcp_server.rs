//! Provider connections: how one is described before it is opened, and what
//! the engine knows of one that is live.

use crate::completion_evaluated_prompt::CompletionEvaluatedPrompt;
use vstd::prelude::*;
use vstd::string::*;

verus! {

/// Version of the tool-listing protocol that a client announces.
#[allow(non_camel_case_types)]
#[derive(Clone, Copy, Debug, PartialEq, Eq, Structural)]
pub enum ProtocolVersion {
    V_2024_11_05,
    V_2025_03_26,
}

impl ProtocolVersion {
    pub open spec fn spec_text(self) -> Seq<char> {
        match self {
            ProtocolVersion::V_2024_11_05 => "2024-11-05"@,
            ProtocolVersion::V_2025_03_26 => "2025-03-26"@,
        }
    }

    /// The newest version.
    pub fn latest() -> (version: ProtocolVersion)
        ensures
            version == ProtocolVersion::V_2025_03_26,
    {
        ProtocolVersion::V_2025_03_26
    }

    /// The version as it is written on the wire.
    pub fn as_str(self) -> (text: &'static str)
        ensures
            text@ == self.spec_text(),
    {
        match self {
            ProtocolVersion::V_2024_11_05 => "2024-11-05",
            ProtocolVersion::V_2025_03_26 => "2025-03-26",
        }
    }
}

/// What a client tells a provider about itself. A name or a version that is
/// not set is left to the transport.
#[derive(Clone, Debug, PartialEq, Eq)]
pub struct ClientInfo {
    pub protocol_version: ProtocolVersion,
    pub name: Option<String>,
    pub version: Option<String>,
}

/// How a provider is reached.
#[derive(Clone, Debug, PartialEq, Eq)]
pub enum McpTransport {
    /// A server-sent-events endpoint.
    Sse { url: String },
    /// A child process that speaks over its standard streams.
    Stdio { executable: String, arguments: Vec<String>, identifier: String },
}

impl McpTransport {
    /// The identifier of a connection over this transport: the address of an
    /// endpoint, the given identifier of a child process.
    pub open spec fn spec_identifier(self) -> Seq<char> {
        match self {
            McpTransport::Sse { url } => url@,
            McpTransport::Stdio { identifier, .. } => identifier@,
        }
    }
}

pub struct McpConnectionBuilder {
    client_info: ClientInfo,
    transport: McpTransport,
    revalidate_tooling: bool,
    skip_tooling: bool,
    revalidate_resources: bool,
    skip_resources: bool,
}

/// What the engine knows of a connection, without the session behind it.
pub struct ConnectionView {
    pub identifier: Seq<char>,
    pub revalidate_tooling: bool,
    pub skip_tooling: bool,
    pub revalidate_resources: bool,
    pub skip_resources: bool,
}

/// The copies of `arguments`, in order.
fn owned_arguments(arguments: &Vec<&str>) -> (owned: Vec<String>)
    ensures
        owned@.len() == arguments@.len(),
        forall|i: int| 0 <= i < owned@.len() ==> owned@[i]@ == arguments@[i]@,
{
    let mut owned: Vec<String> = Vec::new();
    let mut i: usize = 0;
    while i < arguments.len()
        invariant
            i <= arguments.len(),
            owned@.len() == i,
            forall|j: int| 0 <= j < i ==> owned@[j]@ == arguments@[j]@,
        decreases arguments.len() - i,
    {
        owned.push(arguments[i].to_owned());
        i += 1;
    }
    owned
}

impl McpConnectionBuilder {
    fn new(transport: McpTransport) -> (builder: Self)
        ensures
            builder.transport == transport,
            builder.client_info.protocol_version == ProtocolVersion::V_2025_03_26,
            builder.client_info.name is None,
            builder.client_info.version is None,
            !builder.revalidate_tooling,
            !builder.skip_tooling,
            !builder.revalidate_resources,
            !builder.skip_resources,
    {
        Self {
            client_info: ClientInfo {
                protocol_version: ProtocolVersion::latest(),
                name: None,
                version: None,
            },
            transport,
            revalidate_tooling: false,
            skip_tooling: false,
            revalidate_resources: false,
            skip_resources: false,
        }
    }

    /// The transport that the connection will use.
    pub closed spec fn spec_transport(&self) -> McpTransport {
        self.transport
    }

    /// What the client will tell the provider about itself.
    pub closed spec fn spec_client_info(&self) -> ClientInfo {
        self.client_info
    }

    /// The policy flags that the connection will carry, in the order:
    /// revalidate tooling, skip tooling, revalidate resources, skip resources.
    pub closed spec fn flags(&self) -> (bool, bool, bool, bool) {
        (self.revalidate_tooling, self.skip_tooling, self.revalidate_resources, self.skip_resources)
    }

    /// A builder that is in every respect as `self`, but for its flags.
    pub open spec fn same_but_flags(&self, other: &Self) -> bool {
        &&& self.spec_transport() == other.spec_transport()
        &&& self.spec_client_info() == other.spec_client_info()
    }

    /// A builder that is in every respect as `self`, but for what the client
    /// tells of itself.
    pub open spec fn same_but_client_info(&self, other: &Self) -> bool {
        &&& self.spec_transport() == other.spec_transport()
        &&& self.flags() == other.flags()
    }

    /// Creates a connection builder for a server-sent-events endpoint.
    pub fn sse(url: String) -> (builder: Self)
        ensures
            builder.spec_transport() == (McpTransport::Sse { url }),
            builder.flags() == (false, false, false, false),
            builder.spec_client_info().protocol_version == ProtocolVersion::V_2025_03_26,
            builder.spec_client_info().name is None,
            builder.spec_client_info().version is None,
    {
        Self::new(McpTransport::Sse { url })
    }

    /// Creates a connection builder for a child process.
    pub fn stdio(executable: String, arguments: Vec<&str>, identifier: String) -> (builder: Self)
        ensures
            builder.spec_transport() matches McpTransport::Stdio {
                executable: e,
                arguments: a,
                identifier: i,
            } && e == executable && i == identifier && a@.len() == arguments@.len() && (forall|
                k: int,
            |
                0 <= k < a@.len() ==> a@[k]@ == arguments@[k]@),
            builder.flags() == (false, false, false, false),
            builder.spec_client_info().protocol_version == ProtocolVersion::V_2025_03_26,
            builder.spec_client_info().name is None,
            builder.spec_client_info().version is None,
    {
        Self::new(
            McpTransport::Stdio {
                executable,
                arguments: owned_arguments(&arguments),
                identifier,
            },
        )
    }

    /// Creates a builder for the connection to the orchestrating server, at
    /// the address that the server handed to the agent.
    pub fn from_coral_env(connection_url: String) -> (builder: Self)
        ensures
            builder.spec_transport() == (McpTransport::Sse { url: connection_url }),
            builder.flags() == (false, false, false, false),
            builder.spec_client_info().protocol_version == ProtocolVersion::V_2024_11_05,
            builder.spec_client_info().name is None,
            builder.spec_client_info().version is None,
    {
        Self::sse(connection_url).protocol_version(ProtocolVersion::V_2024_11_05)
    }

    /// Sets the protocol version.
    pub fn protocol_version(self, protocol_version: ProtocolVersion) -> (builder: Self)
        ensures
            builder.same_but_client_info(&self),
            builder.spec_client_info() == (ClientInfo {
                protocol_version,
                ..self.spec_client_info()
            }),
    {
        let mut builder = self;
        builder.client_info.protocol_version = protocol_version;
        builder
    }

    /// Sets the name of the agent as exposed to other agents on the provider.
    pub fn name(self, name: String) -> (builder: Self)
        ensures
            builder.same_but_client_info(&self),
            builder.spec_client_info() == (ClientInfo {
                name: Some(name),
                ..self.spec_client_info()
            }),
    {
        let mut builder = self;
        builder.client_info.name = Some(name);
        builder
    }

    /// Sets the version of the agent as exposed to other agents on the provider.
    pub fn version(self, version: String) -> (builder: Self)
        ensures
            builder.same_but_client_info(&self),
            builder.spec_client_info() == (ClientInfo {
                version: Some(version),
                ..self.spec_client_info()
            }),
    {
        let mut builder = self;
        builder.client_info.version = Some(version);
        builder
    }

    /// Sets all that the client tells of itself.
    pub fn client_info(self, client_info: ClientInfo) -> (builder: Self)
        ensures
            builder.same_but_client_info(&self),
            builder.spec_client_info() == client_info,
    {
        let mut builder = self;
        builder.client_info = client_info;
        builder
    }

    /// Set to true if the tools of this provider are to be fetched anew
    /// before every completion request.
    pub fn revalidate_tooling(self, revalidate_tooling: bool) -> (builder: Self)
        ensures
            builder.same_but_flags(&self),
            builder.flags() == (revalidate_tooling, self.flags().1, self.flags().2, self.flags().3),
    {
        let mut builder = self;
        builder.revalidate_tooling = revalidate_tooling;
        builder
    }

    /// Skips the tools of this provider. This must be used on providers that
    /// have none.
    pub fn skip_tooling(self, skip_tooling: bool) -> (builder: Self)
        ensures
            builder.same_but_flags(&self),
            builder.flags() == (self.flags().0, skip_tooling, self.flags().2, self.flags().3),
    {
        let mut builder = self;
        builder.skip_tooling = skip_tooling;
        builder
    }

    /// Set to true if the resources of this provider are to be listed anew
    /// before every completion request.
    pub fn revalidate_resources(self, revalidate_resources: bool) -> (builder: Self)
        ensures
            builder.same_but_flags(&self),
            builder.flags() == (
                self.flags().0,
                self.flags().1,
                revalidate_resources,
                self.flags().3,
            ),
    {
        let mut builder = self;
        builder.revalidate_resources = revalidate_resources;
        builder
    }

    /// Skips the resources of this provider.
    pub fn skip_resources(self, skip_resources: bool) -> (builder: Self)
        ensures
            builder.same_but_flags(&self),
            builder.flags() == (self.flags().0, self.flags().1, self.flags().2, skip_resources),
    {
        let mut builder = self;
        builder.skip_resources = skip_resources;
        builder
    }

    /// The transport that the connection will use.
    pub fn transport(&self) -> (transport: &McpTransport)
        ensures
            *transport == self.spec_transport(),
    {
        &self.transport
    }

    /// What the client will tell the provider about itself.
    pub fn info(&self) -> (info: &ClientInfo)
        ensures
            *info == self.spec_client_info(),
    {
        &self.client_info
    }

    /// Builds the connection, once the session `running_service` was opened
    /// over the builder's transport. The connection is identified by the
    /// address of its endpoint or by the identifier given for its process.
    pub fn connected<S>(self, running_service: S) -> (connection: McpServerConnection<S>)
        ensures
            connection@ == (ConnectionView {
                identifier: self.spec_transport().spec_identifier(),
                revalidate_tooling: self.flags().0,
                skip_tooling: self.flags().1,
                revalidate_resources: self.flags().2,
                skip_resources: self.flags().3,
            }),
            *connection.spec_service() == running_service,
    {
        let identifier = match self.transport {
            McpTransport::Sse { url } => url,
            McpTransport::Stdio { identifier, .. } => identifier,
        };
        McpServerConnection::new(
            running_service,
            self.revalidate_tooling,
            self.skip_tooling,
            self.revalidate_resources,
            self.skip_resources,
            identifier,
        )
    }
}

/// A live connection to a provider; `S` is the session behind it.
///
/// A copy of a connection shares the session with the connection it was made from.
pub struct McpServerConnection<S> {
    running_service: S,
    revalidate_tooling: bool,
    skip_tooling: bool,
    revalidate_resources: bool,
    skip_resources: bool,
    identifier: String,
}

impl<S> View for McpServerConnection<S> {
    type V = ConnectionView;

    closed spec fn view(&self) -> ConnectionView {
        ConnectionView {
            identifier: self.identifier@,
            revalidate_tooling: self.revalidate_tooling,
            skip_tooling: self.skip_tooling,
            revalidate_resources: self.revalidate_resources,
            skip_resources: self.skip_resources,
        }
    }
}

impl<S: Clone> McpServerConnection<S> {
    /// `copy` is a copy of this connection: it has the same identifier and
    /// the same policies, and the session behind it is a copy of the handle
    /// to the session behind this one.
    pub open spec fn copied_to(&self, copy: &Self) -> bool {
        &&& copy@ == self@
        &&& cloned(*self.spec_service(), *copy.spec_service())
    }
}

impl<S: Clone> Clone for McpServerConnection<S> {
    /// A copy of the connection, over a copy of the handle to its session.
    fn clone(&self) -> (copy: Self)
        ensures
            self.copied_to(&copy),
    {
        McpServerConnection {
            running_service: self.running_service.clone(),
            revalidate_tooling: self.revalidate_tooling,
            skip_tooling: self.skip_tooling,
            revalidate_resources: self.revalidate_resources,
            skip_resources: self.skip_resources,
            identifier: self.identifier.clone(),
        }
    }
}

impl<S> McpServerConnection<S> {
    /// The session behind the connection.
    pub closed spec fn spec_service(&self) -> &S {
        &self.running_service
    }

    /// A connection over the session `running_service`.
    pub fn new(
        running_service: S,
        revalidate_tooling: bool,
        skip_tooling: bool,
        revalidate_resources: bool,
        skip_resources: bool,
        identifier: String,
    ) -> (connection: Self)
        ensures
            connection@ == (ConnectionView {
                identifier: identifier@,
                revalidate_tooling,
                skip_tooling,
                revalidate_resources,
                skip_resources,
            }),
            *connection.spec_service() == running_service,
    {
        Self {
            running_service,
            revalidate_tooling,
            skip_tooling,
            revalidate_resources,
            skip_resources,
            identifier,
        }
    }

    /// The session behind the connection.
    pub fn running_service(&self) -> (service: &S)
        ensures
            service == self.spec_service(),
    {
        &self.running_service
    }

    /// The identifier of the connection.
    pub fn identifier(&self) -> (identifier: &String)
        ensures
            identifier@ == self@.identifier,
    {
        &self.identifier
    }

    /// Whether the tools are fetched anew on every round.
    pub fn revalidate_tooling(&self) -> (flag: bool)
        ensures
            flag == self@.revalidate_tooling,
    {
        self.revalidate_tooling
    }

    /// Whether the tools are left out.
    pub fn skip_tooling(&self) -> (flag: bool)
        ensures
            flag == self@.skip_tooling,
    {
        self.skip_tooling
    }

    /// Whether the resources are listed anew on every round.
    pub fn revalidate_resources(&self) -> (flag: bool)
        ensures
            flag == self@.revalidate_resources,
    {
        self.revalidate_resources
    }

    /// Whether the resources are left out.
    pub fn skip_resources(&self) -> (flag: bool)
        ensures
            flag == self@.skip_resources,
    {
        self.skip_resources
    }
}

impl<S: Clone> McpServerConnection<S> {
    /// A prompt that starts with `prompt` and goes on with all the resources
    /// of this connection, as they are when the prompt is evaluated.
    pub fn prompt_with_resources_str(&self, prompt: String) -> (evaluated: CompletionEvaluatedPrompt<
        S,
    >)
        ensures
            evaluated@ == seq![
                crate::completion_evaluated_prompt::PromptPartView::String(prompt@),
                crate::completion_evaluated_prompt::PromptPartView::AllResources(self@),
            ],
            evaluated.parts@.len() == 2,
            evaluated.parts@[0] == crate::completion_evaluated_prompt::PromptPart::<S>::String(
                prompt,
            ),
            evaluated.parts@[1] matches crate::completion_evaluated_prompt::PromptPart::AllResources(
                copy,
            ) && self.copied_to(&copy),
    {
        CompletionEvaluatedPrompt::from_string(prompt).all_resources(self.clone())
    }

    /// A prompt that holds nothing but all the resources of this connection.
    pub fn prompt_with_resources(&self) -> (evaluated: CompletionEvaluatedPrompt<S>)
        ensures
            evaluated@ == seq![
                crate::completion_evaluated_prompt::PromptPartView::AllResources(self@),
            ],
            evaluated.parts@.len() == 1,
            evaluated.parts@[0] matches crate::completion_evaluated_prompt::PromptPart::AllResources(
                copy,
            ) && self.copied_to(&copy),
    {
        CompletionEvaluatedPrompt::new().all_resources(self.clone())
    }
}

} // verus!
