use vstd::prelude::*;

use crate::cmd::{final_output, final_text, CmdRes};

verus! {

/// What the read-eval-print loop does after one response event.
#[derive(Debug, PartialEq, Eq)]
pub enum ClientStep {
    /// Wait for the next event of the same response.
    Continue,
    /// The response is over: print this text and read the next line.
    Print(String),
    /// Say goodbye and end the program.
    Quit,
}

/// The consumer side of a response stream: gathers content until the end
/// event and decides what the loop does next.
pub struct Client {
    output: Vec<String>,
}

impl View for Client {
    type V = Seq<Seq<char>>;

    /// The content received since the last end event.
    closed spec fn view(&self) -> Seq<Seq<char>> {
        self.output.deep_view()
    }
}

impl Client {
    pub fn new() -> (r: Client)
        ensures
            r@.len() == 0,
    {
        let r = Client { output: Vec::new() };
        assert(r@ =~= Seq::<Seq<char>>::empty());
        r
    }

    /// Takes one event: content is gathered; the end event prints the
    /// gathered text without the short speaker tag, trimmed, and starts
    /// afresh; the exit event ends the program.
    pub fn receive(&mut self, event: CmdRes) -> (r: ClientStep)
        ensures
            event is Content ==> r is Continue && final(self)@ == old(self)@.push(
                event->Content_0@,
            ),
            event is Over ==> final(self)@.len() == 0 && (r matches ClientStep::Print(s) && s@
                == final_text(old(self)@)),
            event is Exit ==> r is Quit && final(self)@ == old(self)@,
    {
        match event {
            CmdRes::Content(content) => {
                let ghost c = content@;
                self.output.push(content);
                assert(self@ =~= old(self)@.push(c));
                ClientStep::Continue
            },
            CmdRes::Over => {
                let text = final_output(&self.output);
                self.output = Vec::new();
                assert(self@ =~= Seq::<Seq<char>>::empty());
                ClientStep::Print(text)
            },
            CmdRes::Exit => ClientStep::Quit,
        }
    }
}

} // verus!
