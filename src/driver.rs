use vstd::prelude::*;

verus! {

/// Where the conversation stands between two events.
#[derive(Clone, Copy, Debug, PartialEq, Eq, Structural)]
pub enum DriverState {
    /// No request is outstanding.
    Idle,
    /// A user or tool message was sent; the model's reply is awaited.
    AwaitingModel,
    /// The model asked for tool calls; their results are awaited.
    AwaitingTools,
}

#[derive(Clone, Copy, Debug, PartialEq, Eq, Structural)]
pub enum Role {
    User,
    Assistant,
    Tool,
}

/// A call of a tool by name, with its arguments by name.
#[derive(Debug)]
pub struct ToolRequest {
    pub name: String,
    pub arguments: Vec<(String, String)>,
}

pub type RequestView = (Seq<char>, Seq<(Seq<char>, Seq<char>)>);

impl View for ToolRequest {
    type V = RequestView;

    open spec fn view(&self) -> Self::V {
        (self.name@, self.arguments@.map_values(|a: (String, String)| (a.0@, a.1@)))
    }
}

pub open spec fn request_views(calls: Seq<ToolRequest>) -> Seq<RequestView> {
    calls.map_values(|c: ToolRequest| c@)
}

impl ToolRequest {
    /// A copy of the request.
    pub fn duplicate(&self) -> (r: ToolRequest)
        ensures
            r@ == self@,
    {
        let mut arguments: Vec<(String, String)> = Vec::new();
        let mut i: usize = 0;
        while i < self.arguments.len()
            invariant
                i <= self.arguments@.len(),
                arguments@.len() == i,
                forall|j: int| 0 <= j < i ==> (#[trigger] arguments@[j]).0@ == self.arguments@[j].0@ && arguments@[j].1@
                    == self.arguments@[j].1@,
            decreases self.arguments@.len() - i,
        {
            let a = &self.arguments[i];
            arguments.push((a.0.clone(), a.1.clone()));
            i = i + 1;
        }
        let r = ToolRequest { name: self.name.clone(), arguments };
        assert(r@.1 =~= self@.1);
        r
    }
}

/// A copy of each request, in order.
fn duplicate_calls(calls: &Vec<ToolRequest>) -> (r: Vec<ToolRequest>)
    ensures
        request_views(r@) == request_views(calls@),
{
    let mut r: Vec<ToolRequest> = Vec::new();
    let mut i: usize = 0;
    while i < calls.len()
        invariant
            i <= calls@.len(),
            r@.len() == i,
            forall|j: int| 0 <= j < i ==> (#[trigger] r@[j])@ == calls@[j]@,
        decreases calls@.len() - i,
    {
        r.push(calls[i].duplicate());
        i = i + 1;
    }
    assert(request_views(r@) =~= request_views(calls@));
    r
}

/// One message of the history; an assistant message that asks for tools
/// carries the calls.
#[derive(Debug)]
pub struct ChatEntry {
    pub role: Role,
    pub content: String,
    pub calls: Vec<ToolRequest>,
}

pub type EntryView = (Role, Seq<char>, Seq<RequestView>);

impl View for ChatEntry {
    type V = EntryView;

    open spec fn view(&self) -> Self::V {
        (self.role, self.content@, request_views(self.calls@))
    }
}

/// What the model answered: a final text, or tool calls to run.
pub enum ModelReply {
    Text { content: String },
    ToolCalls { calls: Vec<ToolRequest> },
}

/// The most tool rounds one user turn may take before the driver stops it.
pub const MAX_TOOL_ROUNDS: usize = 8;

pub struct DriverView {
    pub state: DriverState,
    pub history: Seq<EntryView>,
    pub pending: Seq<RequestView>,
    pub rounds: nat,
}

/// Owns the history of one conversation and decides, event by event, what
/// happens next; the caller talks to the model and runs the tools.
pub struct Driver {
    state: DriverState,
    history: Vec<ChatEntry>,
    pending: Vec<ToolRequest>,
    rounds: usize,
}

pub open spec fn round_cap_text() -> Seq<char> {
    "Stopped: the model kept asking for tools without giving an answer."@
}

pub open spec fn after_submit(d: DriverView, text: Seq<char>) -> DriverView {
    DriverView {
        state: DriverState::AwaitingModel,
        history: d.history.push((Role::User, text, Seq::empty())),
        pending: Seq::empty(),
        rounds: 0,
    }
}

pub open spec fn after_reply_text(d: DriverView, content: Seq<char>) -> DriverView {
    DriverView {
        state: DriverState::Idle,
        history: d.history.push((Role::Assistant, content, Seq::empty())),
        pending: Seq::empty(),
        rounds: d.rounds,
    }
}

pub open spec fn after_reply_calls(d: DriverView, calls: Seq<RequestView>) -> DriverView {
    if d.rounds >= MAX_TOOL_ROUNDS {
        after_reply_text(d, round_cap_text())
    } else {
        DriverView {
            state: DriverState::AwaitingTools,
            history: d.history.push((Role::Assistant, Seq::empty(), calls)),
            pending: calls,
            rounds: d.rounds + 1,
        }
    }
}

pub open spec fn tool_entries(results: Seq<Seq<char>>) -> Seq<EntryView> {
    results.map_values(|r: Seq<char>| (Role::Tool, r, Seq::<RequestView>::empty()))
}

pub open spec fn after_results(d: DriverView, results: Seq<Seq<char>>) -> DriverView {
    DriverView {
        state: DriverState::AwaitingModel,
        history: d.history + tool_entries(results),
        pending: Seq::empty(),
        rounds: d.rounds,
    }
}

impl View for Driver {
    type V = DriverView;

    closed spec fn view(&self) -> DriverView {
        DriverView {
            state: self.state,
            history: self.history@.map_values(|e: ChatEntry| e@),
            pending: request_views(self.pending@),
            rounds: self.rounds as nat,
        }
    }
}

impl Driver {
    pub closed spec fn wf(&self) -> bool {
        &&& self.rounds <= MAX_TOOL_ROUNDS
        &&& self.state != DriverState::AwaitingTools ==> self.pending@.len() == 0
    }

    /// A driver with an empty history, waiting for the user.
    pub fn new() -> (r: Driver)
        ensures
            r.wf(),
            r@.state == DriverState::Idle,
            r@.history == Seq::<EntryView>::empty(),
            r@.pending == Seq::<RequestView>::empty(),
    {
        let r = Driver { state: DriverState::Idle, history: Vec::new(), pending: Vec::new(), rounds: 0 };
        assert(r@.history =~= Seq::<EntryView>::empty());
        assert(r@.pending =~= Seq::<RequestView>::empty());
        r
    }

    pub fn state(&self) -> (r: DriverState)
        ensures
            r == self@.state,
    {
        self.state
    }

    pub fn history(&self) -> (r: &Vec<ChatEntry>)
        ensures
            r@.map_values(|e: ChatEntry| e@) == self@.history,
    {
        &self.history
    }

    /// The tool calls whose results are awaited, in the order asked.
    pub fn pending_calls(&self) -> (r: &Vec<ToolRequest>)
        ensures
            request_views(r@) == self@.pending,
    {
        &self.pending
    }

    /// The user sends `text`: it joins the history and goes to the model.
    pub fn submit_user(&mut self, text: String)
        requires
            old(self).wf(),
            old(self)@.state == DriverState::Idle,
        ensures
            final(self).wf(),
            final(self)@ == after_submit(old(self)@, text@),
    {
        let entry = ChatEntry { role: Role::User, content: text, calls: Vec::new() };
        assert(entry@ == (Role::User, text@, Seq::<RequestView>::empty()));
        self.history.push(entry);
        self.state = DriverState::AwaitingModel;
        self.pending = Vec::new();
        self.rounds = 0;
        assert(self@.history =~= after_submit(old(self)@, text@).history);
        assert(self@.pending =~= Seq::<RequestView>::empty());
    }

    /// The model answered. A final text joins the history, ends the turn and
    /// is handed back. Tool calls join the history and await their results,
    /// unless the turn has used up its rounds: then it ends with a notice.
    pub fn receive_reply(&mut self, reply: ModelReply) -> (r: Option<String>)
        requires
            old(self).wf(),
            old(self)@.state == DriverState::AwaitingModel,
        ensures
            final(self).wf(),
            match reply {
                ModelReply::Text { content } => {
                    &&& final(self)@ == after_reply_text(old(self)@, content@)
                    &&& r matches Some(t) && t@ == content@
                },
                ModelReply::ToolCalls { calls } => {
                    &&& final(self)@ == after_reply_calls(old(self)@, request_views(calls@))
                    &&& match r {
                        Some(t) => old(self)@.rounds >= MAX_TOOL_ROUNDS && t@ == round_cap_text(),
                        None => old(self)@.rounds < MAX_TOOL_ROUNDS,
                    }
                },
            },
    {
        match reply {
            ModelReply::Text { content } => {
                let answer = content.clone();
                self.finish(content);
                Some(answer)
            },
            ModelReply::ToolCalls { calls } => {
                if self.rounds >= MAX_TOOL_ROUNDS {
                    let notice = String::from_str("Stopped: the model kept asking for tools without giving an answer.");
                    let answer = notice.clone();
                    self.finish(notice);
                    Some(answer)
                } else {
                    let entry = ChatEntry { role: Role::Assistant, content: String::new(), calls: duplicate_calls(&calls) };
                    assert(entry@ == (Role::Assistant, Seq::<char>::empty(), request_views(calls@)));
                    self.history.push(entry);
                    self.pending = calls;
                    self.rounds = self.rounds + 1;
                    self.state = DriverState::AwaitingTools;
                    assert(self@.history =~= old(self)@.history.push(entry@));
                    None
                }
            },
        }
    }

    fn finish(&mut self, content: String)
        requires
            old(self).wf(),
        ensures
            final(self).wf(),
            final(self)@ == after_reply_text(old(self)@, content@),
    {
        let entry = ChatEntry { role: Role::Assistant, content, calls: Vec::new() };
        assert(entry@ == (Role::Assistant, content@, Seq::<RequestView>::empty()));
        self.history.push(entry);
        self.pending = Vec::new();
        self.state = DriverState::Idle;
        assert(self@.history =~= after_reply_text(old(self)@, content@).history);
        assert(self@.pending =~= Seq::<RequestView>::empty());
    }

    /// The results of the pending calls, in their order, join the history
    /// as tool messages and go to the model.
    pub fn receive_tool_results(&mut self, results: Vec<String>)
        requires
            old(self).wf(),
            old(self)@.state == DriverState::AwaitingTools,
            results@.len() == old(self)@.pending.len(),
        ensures
            final(self).wf(),
            final(self)@ == after_results(old(self)@, results@.map_values(|s: String| s@)),
    {
        let ghost start = self.history@.map_values(|e: ChatEntry| e@);
        let ghost rv = results@.map_values(|s: String| s@);
        let ghost rounds = self.rounds;
        let mut i: usize = 0;
        while i < results.len()
            invariant
                i <= results@.len(),
                self.rounds == rounds,
                rounds <= MAX_TOOL_ROUNDS,
                rv == results@.map_values(|s: String| s@),
                self.history@.map_values(|e: ChatEntry| e@) == start + tool_entries(rv.take(i as int)),
            decreases results@.len() - i,
        {
            let entry = ChatEntry { role: Role::Tool, content: results[i].clone(), calls: Vec::new() };
            assert(entry@ == (Role::Tool, rv[i as int], Seq::<RequestView>::empty()));
            let ghost before = self.history@.map_values(|e: ChatEntry| e@);
            self.history.push(entry);
            assert(self.history@.map_values(|e: ChatEntry| e@) =~= before.push(entry@));
            assert(tool_entries(rv.take(i as int + 1)) =~= tool_entries(rv.take(i as int)).push(entry@));
            assert(self.history@.map_values(|e: ChatEntry| e@) =~= start + tool_entries(rv.take(i as int + 1)));
            i = i + 1;
        }
        assert(rv.take(rv.len() as int) =~= rv);
        self.pending = Vec::new();
        self.state = DriverState::AwaitingModel;
        assert(self@.pending =~= Seq::<RequestView>::empty());
    }

    /// Ends the turn without an answer, after a failure outside the tools
    /// (the model could not be reached, or it named an unknown tool); the
    /// history stays as it was.
    pub fn abandon_turn(&mut self)
        requires
            old(self).wf(),
        ensures
            final(self).wf(),
            final(self)@.state == DriverState::Idle,
            final(self)@.history == old(self)@.history,
            final(self)@.pending == Seq::<RequestView>::empty(),
    {
        self.pending = Vec::new();
        self.state = DriverState::Idle;
        assert(self@.pending =~= Seq::<RequestView>::empty());
    }
}

/// One user turn with one tool round: the user's text, the model's tool
/// calls, their results and the model's answer. The driver is idle again,
/// and its history has grown by exactly the user message, the assistant's
/// calls, one tool message per result, and the assistant's answer.
pub proof fn turn_with_one_tool_round(d: DriverView, text: Seq<char>, calls: Seq<RequestView>, results: Seq<Seq<char>>, answer: Seq<char>)
    requires
        d.state == DriverState::Idle,
        results.len() == calls.len(),
    ensures
        ({
            let asked = after_reply_calls(after_submit(d, text), calls);
            let done = after_reply_text(after_results(asked, results), answer);
            &&& asked.state == DriverState::AwaitingTools
            &&& asked.pending == calls
            &&& done.state == DriverState::Idle
            &&& done.history == d.history.push((Role::User, text, Seq::empty())).push(
                (Role::Assistant, Seq::empty(), calls),
            ) + tool_entries(results) + seq![(Role::Assistant, answer, Seq::<RequestView>::empty())]
        }),
{
    let asked = after_reply_calls(after_submit(d, text), calls);
    let done = after_reply_text(after_results(asked, results), answer);
    assert(done.history =~= d.history.push((Role::User, text, Seq::empty())).push(
        (Role::Assistant, Seq::empty(), calls),
    ) + tool_entries(results) + seq![(Role::Assistant, answer, Seq::<RequestView>::empty())]);
}

} // verus!
