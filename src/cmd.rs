use vstd::prelude::*;

use crate::session::{cleared, rendered, PromptStyle, Session};
use crate::text::{
    contains, contains_seq, join_all, joined, lowered, remove_all, removed, str_eq, to_lowercase,
    trim, trimmed,
};
use crate::{USER_CHATTING_NAME, USER_CHATTING_NAME_SHORT};

verus! {

/// The fixed reply to a greeting.
pub const GREETING_REPLY: &'static str = "Hello, what can I do for you?";

/// One event of a command's response stream.
#[derive(Debug, PartialEq, Eq)]
pub enum CmdRes {
    Content(String),
    Over,
    Exit,
}

/// What an event of a response stream carries.
pub enum Event {
    Content(Seq<char>),
    Over,
    Exit,
}

impl View for CmdRes {
    type V = Event;

    open spec fn view(&self) -> Event {
        match self {
            CmdRes::Content(s) => Event::Content(s@),
            CmdRes::Over => Event::Over,
            CmdRes::Exit => Event::Exit,
        }
    }
}

/// What the user asked for.
#[derive(Debug, PartialEq, Eq)]
pub enum Cmd {
    Greeting,
    Exit,
    Message(String),
}

/// What a command carries.
pub enum CmdView {
    Greeting,
    Exit,
    Message(Seq<char>),
}

impl View for Cmd {
    type V = CmdView;

    open spec fn view(&self) -> CmdView {
        match self {
            Cmd::Greeting => CmdView::Greeting,
            Cmd::Exit => CmdView::Exit,
            Cmd::Message(s) => CmdView::Message(s@),
        }
    }
}

/// The command for raw input `raw` whose lower case is `lower`: the two
/// reserved phrases, or else a message holding the raw text.
pub open spec fn classified(lower: Seq<char>, raw: Seq<char>) -> CmdView {
    if lower == "hi echo"@ {
        CmdView::Greeting
    } else if lower == "exit"@ {
        CmdView::Exit
    } else {
        CmdView::Message(raw)
    }
}

/// The events of a sequence of responses.
pub open spec fn events_of(rs: Seq<CmdRes>) -> Seq<Event> {
    rs.map_values(|r: CmdRes| r@)
}

/// Every event is a content event.
pub open spec fn all_content(ev: Seq<Event>) -> bool {
    forall|i: int| 0 <= i < ev.len() ==> (#[trigger] ev[i]) is Content
}

/// A terminal event, if any, is the last one: content events come first
/// and none follows a terminal event.
pub open spec fn well_ordered(ev: Seq<Event>) -> bool {
    forall|i: int| 0 <= i < ev.len() && !((#[trigger] ev[i]) is Content) ==> i == ev.len() - 1
}

/// Content events followed by exactly one terminal event.
pub open spec fn finished(ev: Seq<Event>) -> bool {
    ev.len() > 0 && !(ev.last() is Content) && well_ordered(ev)
}

/// No content event carries the short speaker tag.
pub open spec fn tag_free(ev: Seq<Event>) -> bool {
    forall|i: int|
        0 <= i < ev.len() && (#[trigger] ev[i]) is Content ==> !contains_seq(
            ev[i]->Content_0,
            USER_CHATTING_NAME_SHORT@,
        )
}

/// The content events made of streamed tokens.
pub open spec fn content_events(tokens: Seq<Seq<char>>) -> Seq<Event> {
    tokens.map_values(|t: Seq<char>| Event::Content(t))
}

/// The text kept from the streamed tokens, before trimming: all of them
/// joined, with the short speaker tag taken out.
pub open spec fn stripped(tokens: Seq<Seq<char>>) -> Seq<char> {
    removed(joined(tokens), USER_CHATTING_NAME_SHORT@)
}

/// The output recorded for the streamed tokens: the stripped text, trimmed.
pub open spec fn final_text(tokens: Seq<Seq<char>>) -> Seq<char> {
    trimmed(stripped(tokens))
}

/// Whether a streamed token is handed on: it is, unless it holds the short tag.
pub open spec fn forwarded(token: Seq<char>) -> bool {
    !contains_seq(token, USER_CHATTING_NAME_SHORT@)
}

impl Cmd {
    /// Classifies raw input, given the input's lower case.
    pub fn from_lowered(lower: &str, value: &str) -> (r: Cmd)
        ensures
            r@ == classified(lower@, value@),
    {
        if str_eq(lower, "hi echo") {
            Cmd::Greeting
        } else if str_eq(lower, "exit") {
            Cmd::Exit
        } else {
            Cmd::Message(String::from_str(value))
        }
    }

    /// Classifies raw input: "hi echo" and "exit" in any case, else a message.
    pub fn from(value: &str) -> (r: Cmd)
        ensures
            r@ == classified(lowered(value@), value@),
    {
        let lower = to_lowercase(value);
        Cmd::from_lowered(lower.as_str(), value)
    }
}

/// The text joined from the streamed chunks, with the short speaker tag taken out.
pub fn strip_tag(chunks: &Vec<String>) -> (r: String)
    ensures
        r@ == stripped(chunks.deep_view()),
{
    proof {
        reveal_strlit("Userc33dc3");
    }
    let all = join_all(chunks);
    remove_all(all.as_str(), USER_CHATTING_NAME_SHORT)
}

/// The output of an exchange made of the streamed chunks: joined, the
/// short speaker tag taken out, trimmed.
pub fn final_output(chunks: &Vec<String>) -> (r: String)
    ensures
        r@ == final_text(chunks.deep_view()),
{
    let s = strip_tag(chunks);
    trim(s.as_str())
}

/// Where an executor stands.
#[derive(Clone, Copy, PartialEq, Eq, Structural, Debug)]
pub enum Phase {
    Created,
    Running,
    Completed,
    Failed,
}

/// A request to the generation engine.
pub struct GenerationRequest {
    pub prompt: String,
    /// Literal texts at which the engine itself stops.
    pub stop_prompts: Vec<String>,
}

/// What the caller does once an executor has started.
pub enum Start {
    /// Deliver these events; the command is complete.
    Respond(Vec<CmdRes>),
    /// Run the engine on this request, handing each token to `on_token`.
    Generate(GenerationRequest),
}

/// Runs one command: decides the events to deliver and the session changes,
/// while the caller performs the generation and the delivery.
pub struct Executor {
    cmd: Cmd,
    input: String,
    style: PromptStyle,
    phase: Phase,
    streamed: Vec<String>,
    stopped: bool,
    events: Ghost<Seq<Event>>,
}

impl Executor {
    /// The events handed out so far.
    pub closed spec fn events(&self) -> Seq<Event> {
        self.events@
    }

    /// The command being run.
    pub closed spec fn cmd_view(&self) -> CmdView {
        self.cmd@
    }

    /// The raw input the command came from.
    pub closed spec fn input_view(&self) -> Seq<char> {
        self.input@
    }

    /// The tokens forwarded so far.
    pub closed spec fn streamed_view(&self) -> Seq<Seq<char>> {
        self.streamed.deep_view()
    }

    /// Whether a token has told generation to stop.
    pub closed spec fn is_stopped(&self) -> bool {
        self.stopped
    }

    pub closed spec fn phase_view(&self) -> Phase {
        self.phase
    }

    pub closed spec fn style_view(&self) -> PromptStyle {
        self.style
    }

    pub closed spec fn wf(&self) -> bool {
        &&& self.cmd@ == classified(lowered(self.input@), self.input@)
        &&& self.phase == Phase::Created ==> self.events@.len() == 0 && self.streamed@.len() == 0
            && !self.stopped
        &&& self.phase == Phase::Running ==> self.cmd@ is Message && self.events@
            == content_events(self.streamed.deep_view())
        &&& self.phase == Phase::Completed ==> finished(self.events@)
        &&& self.phase == Phase::Failed ==> all_content(self.events@)
        &&& self.cmd@ is Message ==> tag_free(self.events@)
    }

    /// An executor for raw input, rendering prompts under `style`.
    pub fn new(user_input: &str, style: PromptStyle) -> (r: Executor)
        ensures
            r.wf(),
            r.cmd_view() == classified(lowered(user_input@), user_input@),
            r.input_view() == user_input@,
            r.phase_view() == Phase::Created,
            r.style_view() == style,
            r.events().len() == 0,
    {
        Executor {
            cmd: Cmd::from(user_input),
            input: String::from_str(user_input),
            style,
            phase: Phase::Created,
            streamed: Vec::new(),
            stopped: false,
            events: Ghost(Seq::empty()),
        }
    }

    /// The command being run.
    pub fn cmd(&self) -> (r: &Cmd)
        ensures
            r@ == self.cmd_view(),
    {
        &self.cmd
    }

    pub fn phase(&self) -> (r: Phase)
        ensures
            r == self.phase_view(),
    {
        self.phase
    }

    /// The tokens forwarded so far.
    pub fn streamed(&self) -> (r: &Vec<String>)
        ensures
            r.deep_view() == self.streamed_view(),
    {
        &self.streamed
    }

    /// Starts the command. A greeting clears the session and answers with the
    /// fixed reply; an exit answers with the exit event; a message renders
    /// its prompt from the session and asks for a generation that stops at
    /// the speaker tag.
    pub fn start(&mut self, session: &mut Session) -> (r: Start)
        requires
            old(self).wf(),
            old(self).phase_view() == Phase::Created,
        ensures
            final(self).wf(),
            final(self).input_view() == old(self).input_view(),
            final(self).cmd_view() == old(self).cmd_view(),
            final(self).style_view() == old(self).style_view(),
            !final(self).is_stopped(),
            old(self).cmd_view() is Greeting ==> {
                &&& final(session)@ == cleared(old(session)@)
                &&& r matches Start::Respond(rs) && events_of(rs@) == seq![
                    Event::Content(GREETING_REPLY@),
                    Event::Over,
                ]
                &&& final(self).phase_view() == Phase::Completed
            },
            old(self).cmd_view() is Exit ==> {
                &&& final(session)@ == old(session)@
                &&& r matches Start::Respond(rs) && events_of(rs@) == seq![Event::Exit]
                &&& final(self).phase_view() == Phase::Completed
            },
            old(self).cmd_view() is Message ==> {
                &&& final(session)@ == old(session)@
                &&& r matches Start::Generate(req) && req.prompt@ == rendered(
                    old(self).style_view(),
                    old(session)@,
                    old(self).cmd_view()->Message_0,
                ) && req.stop_prompts.deep_view() == seq![USER_CHATTING_NAME@]
                &&& final(self).phase_view() == Phase::Running
                &&& final(self).streamed_view().len() == 0
            },
            r matches Start::Respond(rs) ==> final(self).events() == old(self).events()
                + events_of(rs@),
            r is Generate ==> final(self).events() == old(self).events(),
    {
        match &self.cmd {
            Cmd::Greeting => {
                session.clear();
                let rs = vec![CmdRes::Content(String::from_str(GREETING_REPLY)), CmdRes::Over];
                self.phase = Phase::Completed;
                self.events = Ghost(events_of(rs@));
                assert(events_of(rs@) =~= seq![Event::Content(GREETING_REPLY@), Event::Over]);
                Start::Respond(rs)
            },
            Cmd::Exit => {
                let rs = vec![CmdRes::Exit];
                self.phase = Phase::Completed;
                self.events = Ghost(events_of(rs@));
                assert(events_of(rs@) =~= seq![Event::Exit]);
                Start::Respond(rs)
            },
            Cmd::Message(text) => {
                let prompt = session.render_prompt(text.as_str(), self.style);
                let stop_prompts = vec![String::from_str(USER_CHATTING_NAME)];
                assert(stop_prompts.deep_view() =~= seq![USER_CHATTING_NAME@]);
                self.phase = Phase::Running;
                assert(content_events(self.streamed.deep_view()) =~= self.events@);
                Start::Generate(GenerationRequest { prompt, stop_prompts })
            },
        }
    }

    /// Decides on one token produced by the engine. A token is handed on as
    /// content, and generation goes on, unless it holds the short speaker tag
    /// or an earlier token stopped generation; then nothing is handed on and
    /// generation stops (`None`).
    pub fn on_token(&mut self, token: String) -> (r: Option<CmdRes>)
        requires
            old(self).wf(),
            old(self).phase_view() == Phase::Running,
        ensures
            final(self).wf(),
            final(self).phase_view() == Phase::Running,
            final(self).input_view() == old(self).input_view(),
            final(self).cmd_view() == old(self).cmd_view(),
            final(self).style_view() == old(self).style_view(),
            !old(self).is_stopped() && forwarded(token@) ==> {
                &&& r matches Some(c) && c@ == Event::Content(token@)
                &&& !final(self).is_stopped()
                &&& final(self).streamed_view() == old(self).streamed_view().push(token@)
                &&& final(self).events() == old(self).events().push(Event::Content(token@))
            },
            old(self).is_stopped() || !forwarded(token@) ==> {
                &&& r is None
                &&& final(self).is_stopped()
                &&& final(self).streamed_view() == old(self).streamed_view()
                &&& final(self).events() == old(self).events()
            },
    {
        if self.stopped || contains(token.as_str(), USER_CHATTING_NAME_SHORT) {
            self.stopped = true;
            return None;
        }
        let ghost tv = token@;
        let forward = String::from_str(token.as_str());
        self.streamed.push(token);
        self.events = Ghost(self.events@.push(Event::Content(tv)));
        assert(content_events(self.streamed.deep_view()) =~= self.events@);
        Some(CmdRes::Content(forward))
    }

    /// Completes a generation that ended normally: records the turn made of
    /// the raw input and the final output of the forwarded tokens, then
    /// answers with the end event.
    pub fn finish(&mut self, session: &mut Session) -> (r: CmdRes)
        requires
            old(self).wf(),
            old(self).phase_view() == Phase::Running,
        ensures
            final(self).wf(),
            final(self).phase_view() == Phase::Completed,
            final(self).input_view() == old(self).input_view(),
            final(self).cmd_view() == old(self).cmd_view(),
            r@ == Event::Over,
            final(self).events() == old(self).events().push(Event::Over),
            final(session)@ == old(session)@.push(
                (old(self).input_view(), final_text(old(self).streamed_view())),
            ),
    {
        let output = final_output(&self.streamed);
        session.append(self.input.as_str(), output.as_str());
        self.phase = Phase::Completed;
        self.events = Ghost(self.events@.push(Event::Over));
        CmdRes::Over
    }

    /// Gives up a generation that failed: nothing more is handed out and the
    /// session is left alone.
    pub fn fail(&mut self)
        requires
            old(self).wf(),
            old(self).phase_view() == Phase::Running,
        ensures
            final(self).wf(),
            final(self).phase_view() == Phase::Failed,
            final(self).events() == old(self).events(),
    {
        self.phase = Phase::Failed;
    }
}

/// Whatever the executor has been through, its events are content events
/// followed by at most one terminal event, and a completed executor has
/// exactly one terminal event, last.
pub proof fn lemma_response_order(e: &Executor)
    requires
        e.wf(),
    ensures
        well_ordered(e.events()),
        e.phase_view() == Phase::Completed ==> finished(e.events()),
        e.phase_view() != Phase::Completed ==> all_content(e.events()),
{
    let ev = e.events();
    if e.phase_view() == Phase::Running {
        assert forall|i: int| 0 <= i < ev.len() implies (#[trigger] ev[i]) is Content by {
            assert(ev[i] == Event::Content(e.streamed_view()[i]));
        }
    }
}

/// A message holds the user's raw text exactly, so the turn that `finish`
/// records for it has that text as its input.
pub proof fn lemma_message_keeps_input(e: &Executor)
    requires
        e.wf(),
        e.cmd_view() is Message,
    ensures
        e.cmd_view()->Message_0 == e.input_view(),
{
}

/// No event of a message's response stream carries the short speaker tag.
pub proof fn lemma_tag_never_delivered(e: &Executor)
    requires
        e.wf(),
        e.cmd_view() is Message,
    ensures
        tag_free(e.events()),
{
}

} // verus!
