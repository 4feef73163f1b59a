//! Prompts that are put together when a completion is about to be requested.
//!
//! A prompt is an ordered list of parts: literal text, one resource of a
//! provider, or all the resources of a provider. The content of the
//! resources is fetched when the prompt is evaluated, not when it is built,
//! so two evaluations of one prompt may differ where the providers changed.

use crate::mcp_server::{ConnectionView, McpServerConnection};
use vstd::prelude::*;
use vstd::string::*;

verus! {

/// The content of a resource, as far as a prompt reads it.
#[derive(Clone, Debug, PartialEq, Eq)]
pub enum ResourceContents {
    TextResourceContents { text: String },
    BlobResourceContents { blob: String },
}

impl ResourceContents {
    /// The text that a prompt takes from the content.
    pub open spec fn spec_text(self) -> Seq<char> {
        match self {
            ResourceContents::TextResourceContents { text } => text@,
            ResourceContents::BlobResourceContents { blob } => blob@,
        }
    }
}

/// A prompt made of parts that are evaluated before each completion request.
///
/// A newline follows every part of an evaluated prompt.
pub struct CompletionEvaluatedPrompt<S> {
    pub parts: Vec<PromptPart<S>>,
}

/// One resource of one provider.
pub struct ResourceData<S> {
    mcp_server_connection: McpServerConnection<S>,
    resource_uri: String,
}

pub enum PromptPart<S> {
    /// A literal text.
    String(String),
    /// A resource of a provider, referenced by its address.
    Resource(ResourceData<S>),
    /// All resources of a provider.
    AllResources(McpServerConnection<S>),
}

pub enum PromptPartView {
    String(Seq<char>),
    Resource { connection: ConnectionView, uri: Seq<char> },
    AllResources(ConnectionView),
}

impl<S> View for PromptPart<S> {
    type V = PromptPartView;

    closed spec fn view(&self) -> PromptPartView {
        match self {
            PromptPart::String(s) => PromptPartView::String(s@),
            PromptPart::Resource(r) => PromptPartView::Resource {
                connection: r.mcp_server_connection@,
                uri: r.resource_uri@,
            },
            PromptPart::AllResources(c) => PromptPartView::AllResources(c@),
        }
    }
}

impl<S> View for CompletionEvaluatedPrompt<S> {
    type V = Seq<PromptPartView>;

    open spec fn view(&self) -> Seq<PromptPartView> {
        self.parts@.map_values(|p: PromptPart<S>| p@)
    }
}

/// The lines joined by newlines, with none after the last.
pub open spec fn join_lines(lines: Seq<Seq<char>>) -> Seq<char>
    decreases lines.len(),
{
    if lines.len() == 0 {
        Seq::empty()
    } else if lines.len() == 1 {
        lines[0]
    } else {
        join_lines(lines.drop_last()) + seq!['\n'] + lines.last()
    }
}

/// The text of a list of resource contents: one line per content.
pub open spec fn contents_text(contents: Seq<ResourceContents>) -> Seq<char> {
    join_lines(contents.map_values(|c: ResourceContents| c.spec_text()))
}

/// The texts of the fetched lists, in order.
pub open spec fn fetched_texts(fetched: Seq<Vec<ResourceContents>>) -> Seq<Seq<char>> {
    fetched.map_values(|f: Vec<ResourceContents>| contents_text(f@))
}

/// Number of parts among the first `n` whose content is fetched.
pub open spec fn live_count(parts: Seq<PromptPartView>, n: nat) -> nat
    decreases n,
{
    if n == 0 {
        0
    } else {
        live_count(parts, (n - 1) as nat) + if parts[n - 1] is String {
            0nat
        } else {
            1nat
        }
    }
}

/// What part `i` expands to: itself where it is literal, else the fetched
/// text that belongs to it.
pub open spec fn expansion(parts: Seq<PromptPartView>, fetched: Seq<Seq<char>>, i: int) -> Seq<
    char,
> {
    match parts[i] {
        PromptPartView::String(s) => s,
        _ => fetched[live_count(parts, i as nat) as int],
    }
}

/// The first `n` parts evaluated: the expansion of each, in order, each
/// followed by a newline.
pub open spec fn evaluated(parts: Seq<PromptPartView>, fetched: Seq<Seq<char>>, n: nat) -> Seq<
    char,
>
    decreases n,
{
    if n == 0 {
        Seq::empty()
    } else {
        evaluated(parts, fetched, (n - 1) as nat) + expansion(parts, fetched, n - 1) + seq!['\n']
    }
}

/// The positions among the first `n` parts whose content is fetched, ascending.
pub open spec fn live_positions(parts: Seq<PromptPartView>, n: nat) -> Seq<usize>
    decreases n,
{
    if n == 0 {
        Seq::empty()
    } else if parts[n - 1] is String {
        live_positions(parts, (n - 1) as nat)
    } else {
        live_positions(parts, (n - 1) as nat).push((n - 1) as usize)
    }
}

/// There are as many live positions as live parts.
pub proof fn lemma_live_positions_len(parts: Seq<PromptPartView>, n: nat)
    ensures
        live_positions(parts, n).len() == live_count(parts, n),
    decreases n,
{
    if n > 0 {
        lemma_live_positions_len(parts, (n - 1) as nat);
    }
}

/// The number of live parts grows with the number of parts looked at.
pub proof fn lemma_live_count_monotonic(parts: Seq<PromptPartView>, m: nat, n: nat)
    requires
        m <= n,
    ensures
        live_count(parts, m) <= live_count(parts, n),
    decreases n,
{
    if m < n {
        lemma_live_count_monotonic(parts, m, (n - 1) as nat);
    }
}

/// A prompt of literal parts alone evaluates to the same text whatever the
/// providers hold: nothing is fetched for it.
pub proof fn law_literal_prompt_is_stable(
    parts: Seq<PromptPartView>,
    first: Seq<Seq<char>>,
    second: Seq<Seq<char>>,
    n: nat,
)
    requires
        n <= parts.len(),
        forall|i: int| 0 <= i < parts.len() ==> parts[i] is String,
    ensures
        live_count(parts, n) == 0,
        evaluated(parts, first, n) == evaluated(parts, second, n),
    decreases n,
{
    if n > 0 {
        law_literal_prompt_is_stable(parts, first, second, (n - 1) as nat);
    }
}

impl<S: Clone> ResourceData<S> {
    /// `copy` is a copy of this resource: the same address, on a copy of the
    /// same connection.
    pub open spec fn copied_to(&self, copy: &Self) -> bool {
        &&& self.spec_handle().copied_to(&copy.spec_handle())
        &&& copy.spec_uri() == self.spec_uri()
    }
}

impl<S: Clone> Clone for ResourceData<S> {
    fn clone(&self) -> (copy: Self)
        ensures
            self.copied_to(&copy),
    {
        ResourceData {
            mcp_server_connection: self.mcp_server_connection.clone(),
            resource_uri: self.resource_uri.clone(),
        }
    }
}

impl<S: Clone> PromptPart<S> {
    /// `copy` is a copy of this part: the same text, or the same reference
    /// over a copy of the same connection.
    pub open spec fn copied_to(&self, copy: &Self) -> bool {
        match (*self, *copy) {
            (PromptPart::String(a), PromptPart::String(b)) => a@ == b@,
            (PromptPart::Resource(a), PromptPart::Resource(b)) => a.copied_to(&b),
            (PromptPart::AllResources(a), PromptPart::AllResources(b)) => a.copied_to(&b),
            _ => false,
        }
    }
}

impl<S: Clone> Clone for PromptPart<S> {
    fn clone(&self) -> (copy: Self)
        ensures
            copy@ == self@,
            self.copied_to(&copy),
    {
        match self {
            PromptPart::String(s) => PromptPart::String(s.clone()),
            PromptPart::Resource(r) => PromptPart::Resource(r.clone()),
            PromptPart::AllResources(c) => PromptPart::AllResources(c.clone()),
        }
    }
}

impl<S: Clone> CompletionEvaluatedPrompt<S> {
    /// `copy` is a copy of this prompt: as many parts, each a copy of the
    /// part in its place.
    pub open spec fn copied_to(&self, copy: &Self) -> bool {
        &&& copy.parts@.len() == self.parts@.len()
        &&& forall|i: int|
            0 <= i < self.parts@.len() ==> (#[trigger] self.parts@[i]).copied_to(&copy.parts@[i])
    }
}

impl<S: Clone> Clone for CompletionEvaluatedPrompt<S> {
    fn clone(&self) -> (copy: Self)
        ensures
            copy@ == self@,
            self.copied_to(&copy),
    {
        let mut parts: Vec<PromptPart<S>> = Vec::new();
        let mut i: usize = 0;
        while i < self.parts.len()
            invariant
                i <= self.parts.len(),
                parts@.len() == i,
                forall|j: int| 0 <= j < i ==> parts@[j]@ == self.parts@[j]@,
                forall|j: int| 0 <= j < i ==> (#[trigger] self.parts@[j]).copied_to(&parts@[j]),
            decreases self.parts.len() - i,
        {
            parts.push(self.parts[i].clone());
            i += 1;
        }
        let copy = CompletionEvaluatedPrompt { parts };
        proof {
            assert(copy@ =~= self@);
        }
        copy
    }
}

impl<S> CompletionEvaluatedPrompt<S> {
    /// A prompt without parts.
    pub fn new() -> (prompt: Self)
        ensures
            prompt@ == Seq::<PromptPartView>::empty(),
            prompt.parts@ == Seq::<PromptPart<S>>::empty(),
    {
        let prompt = Self { parts: Vec::new() };
        proof {
            assert(prompt@ =~= Seq::<PromptPartView>::empty());
        }
        prompt
    }

    /// Creates a prompt that starts with one literal part.
    pub fn from_string(string: String) -> (prompt: Self)
        ensures
            prompt@ == seq![PromptPartView::String(string@)],
            prompt.parts@ == seq![PromptPart::<S>::String(string)],
    {
        let prompt = Self::new().string(string);
        proof {
            assert(prompt.parts@ =~= seq![PromptPart::<S>::String(string)]);
        }
        prompt
    }

    fn with_part(self, part: PromptPart<S>) -> (prompt: Self)
        ensures
            prompt@ == self@.push(part@),
            prompt.parts@ == self.parts@.push(part),
    {
        let mut prompt = self;
        prompt.parts.push(part);
        proof {
            assert(prompt@ =~= self@.push(part@));
        }
        prompt
    }

    /// Appends a literal part to this prompt.
    pub fn string(self, string: String) -> (prompt: Self)
        ensures
            prompt@ == self@.push(PromptPartView::String(string@)),
            prompt.parts@ == self.parts@.push(PromptPart::String(string)),
    {
        self.with_part(PromptPart::String(string))
    }

    /// Appends one resource of a provider, referenced by its address. The
    /// part holds the connection itself, with the session behind it.
    pub fn resource(self, mcp_server_connection: McpServerConnection<S>, resource_uri: String) -> (prompt:
        Self)
        ensures
            prompt@ == self@.push(
                PromptPartView::Resource { connection: mcp_server_connection@, uri: resource_uri@ },
            ),
            prompt.parts@.len() == self.parts@.len() + 1,
            prompt.parts@.drop_last() == self.parts@,
            prompt.parts@.last() matches PromptPart::Resource(data) && data.spec_handle()
                == mcp_server_connection && data.spec_uri() == resource_uri@,
    {
        self.with_part(PromptPart::Resource(ResourceData { mcp_server_connection, resource_uri }))
    }

    /// Appends all the resources of a provider. Which resources these are is
    /// found out when the prompt is evaluated, not here. The part holds the
    /// connection itself, with the session behind it.
    pub fn all_resources(self, mcp_server_connection: McpServerConnection<S>) -> (prompt: Self)
        ensures
            prompt@ == self@.push(PromptPartView::AllResources(mcp_server_connection@)),
            prompt.parts@ == self.parts@.push(PromptPart::AllResources(mcp_server_connection)),
    {
        self.with_part(PromptPart::AllResources(mcp_server_connection))
    }

    /// The positions of the parts whose content has to be fetched before the
    /// prompt can be evaluated, in the order in which it is needed.
    pub fn fetches(&self) -> (positions: Vec<usize>)
        ensures
            positions@ == live_positions(self@, self@.len()),
            positions@.len() == live_count(self@, self@.len()),
    {
        let mut positions: Vec<usize> = Vec::new();
        let mut i: usize = 0;
        while i < self.parts.len()
            invariant
                i <= self.parts.len(),
                positions@ == live_positions(self@, i as nat),
            decreases self.parts.len() - i,
        {
            match &self.parts[i] {
                PromptPart::String(_) => {},
                _ => {
                    positions.push(i);
                },
            }
            i += 1;
        }
        proof {
            lemma_live_positions_len(self@, self@.len());
        }
        positions
    }

    /// Converts a list of resource contents into text: one line per content.
    pub fn resource_contents_to_string(resource_contents: &Vec<ResourceContents>) -> (text: String)
        ensures
            text@ == contents_text(resource_contents@),
    {
        let mut text = String::new();
        let mut i: usize = 0;
        let ghost lines = resource_contents@.map_values(|c: ResourceContents| c.spec_text());
        while i < resource_contents.len()
            invariant
                i <= resource_contents.len(),
                lines == resource_contents@.map_values(|c: ResourceContents| c.spec_text()),
                text@ == join_lines(lines.take(i as int)),
            decreases resource_contents.len() - i,
        {
            proof {
                assert(lines.take(i + 1).drop_last() =~= lines.take(i as int));
                assert(lines.take(i + 1).last() == lines[i as int]);
                reveal_strlit("\n");
                assert("\n"@ =~= seq!['\n']);
                if i == 0 {
                    assert(join_lines(lines.take(1)) == lines[0]);
                    assert(Seq::<char>::empty() + lines[0] =~= lines[0]);
                }
            }
            if i > 0 {
                text.append("\n");
            }
            match &resource_contents[i] {
                ResourceContents::TextResourceContents { text: t } => text.append(t.as_str()),
                ResourceContents::BlobResourceContents { blob } => text.append(blob.as_str()),
            }
            i += 1;
        }
        proof {
            assert(lines.take(resource_contents@.len() as int) =~= lines);
        }
        text
    }

    /// Evaluates all parts into a new text.
    ///
    /// `fetched` holds the content that was fetched for the parts that
    /// `fetches` names, one list per part and in that order. Where their
    /// number is not that of those parts there is no text. Each part expands
    /// to itself or to the text of its content, and a newline follows it.
    pub fn evaluate(&self, fetched: &Vec<Vec<ResourceContents>>) -> (text: Option<String>)
        ensures
            text is Some <==> fetched@.len() == live_count(self@, self@.len()),
            text matches Some(t) ==> t@ == evaluated(
                self@,
                fetched_texts(fetched@),
                self@.len(),
            ),
    {
        let needed = self.fetches();
        let supplied = fetched.len();
        if needed.len() != supplied {
            return None;
        }
        let mut buffer = String::new();
        let mut i: usize = 0;
        let mut k: usize = 0;
        while i < self.parts.len()
            invariant
                i <= self.parts.len(),
                k == live_count(self@, i as nat),
                supplied == fetched@.len(),
                fetched@.len() == live_count(self@, self@.len()),
                buffer@ == evaluated(self@, fetched_texts(fetched@), i as nat),
            decreases self.parts.len() - i,
        {
            proof {
                lemma_live_count_monotonic(self@, (i + 1) as nat, self@.len());
                reveal_strlit("\n");
                assert("\n"@ =~= seq!['\n']);
            }
            match &self.parts[i] {
                PromptPart::String(string) => {
                    buffer.append(string.as_str());
                },
                _ => {
                    proof {
                        assert(!(self@[i as int] is String));
                        assert(live_count(self@, (i + 1) as nat) == k + 1);
                    }
                    let expansion = Self::resource_contents_to_string(&fetched[k]);
                    buffer.append(expansion.as_str());
                    k += 1;
                },
            }
            buffer.append("\n");
            i += 1;
        }
        Some(buffer)
    }
}

impl<S> Default for CompletionEvaluatedPrompt<S> {
    fn default() -> (prompt: Self)
        ensures
            prompt@ == Seq::<PromptPartView>::empty(),
            prompt.parts@ == Seq::<PromptPart<S>>::empty(),
    {
        Self::new()
    }
}

impl<S> ResourceData<S> {
    /// The connection that holds the resource.
    pub fn connection(&self) -> (connection: &McpServerConnection<S>)
        ensures
            *connection == self.spec_handle(),
            connection@ == self.spec_connection(),
    {
        &self.mcp_server_connection
    }

    /// The address of the resource.
    pub fn uri(&self) -> (uri: &String)
        ensures
            uri@ == self.spec_uri(),
    {
        &self.resource_uri
    }

    /// The connection that holds the resource, with the session behind it.
    pub closed spec fn spec_handle(&self) -> McpServerConnection<S> {
        self.mcp_server_connection
    }

    pub closed spec fn spec_connection(&self) -> ConnectionView {
        self.mcp_server_connection@
    }

    pub closed spec fn spec_uri(&self) -> Seq<char> {
        self.resource_uri@
    }
}

} // verus!
