use vstd::prelude::*;

use crate::USER_CHATTING_NAME;

verus! {

/// One completed exchange: what the user wrote and what came back.
pub struct IOPair {
    input: String,
    output: String,
}

/// The conversation so far, most recent turn last.
pub struct Session {
    pairs: Vec<IOPair>,
}

/// How a prompt is rendered from the session and the next input.
#[derive(Clone, Copy, PartialEq, Eq, Structural, Debug)]
pub enum PromptStyle {
    /// Only the next input, wrapped in an instruction template.
    Stateless,
    /// A fixed greeting exchange, the latest turn, then the next input.
    WithContext,
}

impl View for Session {
    type V = Seq<(Seq<char>, Seq<char>)>;

    closed spec fn view(&self) -> Seq<(Seq<char>, Seq<char>)> {
        self.pairs@.map_values(|p: IOPair| (p.input@, p.output@))
    }
}

/// The history left by `clear`, whatever it held before.
pub open spec fn cleared(h: Seq<(Seq<char>, Seq<char>)>) -> Seq<(Seq<char>, Seq<char>)> {
    Seq::empty()
}

/// The stateless prompt for `input`.
pub open spec fn stateless_prompt(input: Seq<char>) -> Seq<char> {
    "Instruct: "@ + input + "\nOutput:"@
}

/// The fixed greeting exchange that opens every context-aware prompt.
pub open spec fn greeting_prefix() -> Seq<char> {
    USER_CHATTING_NAME@ + ": Hi.\nAI: Hi, what can I do for you?\n"@
}

/// A prior turn as it appears in a context-aware prompt.
pub open spec fn turn_text(turn: (Seq<char>, Seq<char>)) -> Seq<char> {
    USER_CHATTING_NAME@ + ": "@ + turn.0 + "\nAI:"@ + turn.1 + "\n"@
}

/// The text of the most recent turn, or nothing when there is none.
pub open spec fn recent_context(h: Seq<(Seq<char>, Seq<char>)>) -> Seq<char> {
    if h.len() == 0 {
        Seq::empty()
    } else {
        turn_text(h.last())
    }
}

/// The context-aware prompt for `input` after history `h`: the greeting
/// exchange, the latest turn, then `input` with the assistant's turn left open.
pub open spec fn context_prompt(h: Seq<(Seq<char>, Seq<char>)>, input: Seq<char>) -> Seq<char> {
    greeting_prefix() + recent_context(h) + USER_CHATTING_NAME@ + ": "@ + input + "\nAI:"@
}

/// The prompt for `input` after history `h` under `style`.
pub open spec fn rendered(
    style: PromptStyle,
    h: Seq<(Seq<char>, Seq<char>)>,
    input: Seq<char>,
) -> Seq<char> {
    match style {
        PromptStyle::Stateless => stateless_prompt(input),
        PromptStyle::WithContext => context_prompt(h, input),
    }
}

impl Session {
    /// An empty session.
    pub fn new() -> (r: Session)
        ensures
            r@ == Seq::<(Seq<char>, Seq<char>)>::empty(),
    {
        let r = Session { pairs: Vec::new() };
        assert(r@ =~= Seq::<(Seq<char>, Seq<char>)>::empty());
        r
    }

    /// The number of turns held.
    pub fn turn_count(&self) -> (r: usize)
        ensures
            r == self@.len(),
    {
        self.pairs.len()
    }

    /// The input and output of turn `i`.
    pub fn turn(&self, i: usize) -> (r: (String, String))
        requires
            i < self@.len(),
        ensures
            r.0@ == self@[i as int].0,
            r.1@ == self@[i as int].1,
    {
        let p = &self.pairs[i];
        (String::from_str(p.input.as_str()), String::from_str(p.output.as_str()))
    }

    /// Pushes a completed turn at the end.
    pub fn append(&mut self, input: &str, output: &str)
        ensures
            final(self)@ == old(self)@.push((input@, output@)),
    {
        let pair = IOPair { input: String::from_str(input), output: String::from_str(output) };
        self.pairs.push(pair);
        assert(final(self)@ =~= old(self)@.push((input@, output@)));
    }

    /// The stateless prompt: the input in an instruction template.
    pub fn gen_prompt(&mut self, prompt: &str) -> (r: String)
        ensures
            r@ == stateless_prompt(prompt@),
            final(self)@ == old(self)@,
    {
        String::from_str("Instruct: ").concat(prompt).concat("\nOutput:")
    }

    /// The context-aware prompt: the greeting exchange, the latest turn
    /// tagged with the speaker tag, then the input, the assistant's turn open.
    pub fn gen_prompt_with_context(&mut self, prompt: &str) -> (r: String)
        ensures
            r@ == context_prompt(old(self)@, prompt@),
            final(self)@ == old(self)@,
    {
        let prefix = String::from_str(USER_CHATTING_NAME).concat(
            ": Hi.\nAI: Hi, what can I do for you?\n",
        );
        let n = self.pairs.len();
        let mut context = String::new();
        if n > 0 {
            let pair = &self.pairs[n - 1];
            context = String::from_str(USER_CHATTING_NAME).concat(": ").concat(
                pair.input.as_str(),
            ).concat("\nAI:").concat(pair.output.as_str()).concat("\n");
            assert(self@.last() == (pair.input@, pair.output@));
        }
        assert(context@ == recent_context(self@));
        let r = prefix.concat(context.as_str()).concat(USER_CHATTING_NAME).concat(": ").concat(
            prompt,
        ).concat("\nAI:");
        assert(r@ =~= context_prompt(self@, prompt@));
        r
    }

    /// The prompt for `prompt` under `style`.
    pub fn render_prompt(&mut self, prompt: &str, style: PromptStyle) -> (r: String)
        ensures
            r@ == rendered(style, old(self)@, prompt@),
            final(self)@ == old(self)@,
    {
        match style {
            PromptStyle::Stateless => self.gen_prompt(prompt),
            PromptStyle::WithContext => self.gen_prompt_with_context(prompt),
        }
    }

    /// Empties the history.
    pub fn clear(&mut self)
        ensures
            final(self)@ == cleared(old(self)@),
    {
        self.pairs.clear();
        assert(final(self)@ =~= cleared(old(self)@));
    }
}

/// Clearing twice leaves the same empty history as clearing once.
pub proof fn lemma_clear_idempotent(h: Seq<(Seq<char>, Seq<char>)>)
    ensures
        cleared(cleared(h)) == cleared(h),
        cleared(h).len() == 0,
{
}

} // verus!
