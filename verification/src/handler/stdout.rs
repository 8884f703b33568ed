//! The queue in which fragments wait for the output sink.

use crate::style::{content_views, Content, ContentView};
use vstd::prelude::*;

verus! {

/// Fragments in the order in which they were emitted. They leave the queue
/// together, when it is flushed.
#[derive(Debug)]
pub struct StdoutHandler {
    queue: Vec<Content>,
}

impl View for StdoutHandler {
    type V = Seq<ContentView>;

    closed spec fn view(&self) -> Seq<ContentView> {
        content_views(self.queue@)
    }
}

/// The views of two runs of fragments, one after the other, are the views of
/// the runs joined.
pub proof fn lemma_content_views_add(first: Seq<Content>, second: Seq<Content>)
    ensures
        content_views(first + second) == content_views(first) + content_views(second),
{
    assert(content_views(first + second) =~= content_views(first) + content_views(second));
}

impl StdoutHandler {
    /// An empty queue.
    pub fn new() -> (handler: StdoutHandler)
        ensures
            handler@ == Seq::<ContentView>::empty(),
    {
        let handler = StdoutHandler { queue: Vec::new() };
        assert(handler@ =~= Seq::<ContentView>::empty());
        handler
    }

    /// Puts `contents` at the end of the queue, in their order.
    pub fn queue_styled_content_v2(&mut self, contents: Vec<Content>)
        ensures
            final(self)@ == old(self)@ + content_views(contents@),
    {
        let mut contents = contents;
        proof {
            lemma_content_views_add(self.queue@, contents@);
        }
        self.queue.append(&mut contents);
    }

    /// Empties the queue and hands out what it held, first in first out, for
    /// the sink to print fragment by fragment.
    pub fn flush(&mut self) -> (contents: Vec<Content>)
        ensures
            content_views(contents@) == old(self)@,
            final(self)@ == Seq::<ContentView>::empty(),
    {
        let mut contents = Vec::new();
        core::mem::swap(&mut self.queue, &mut contents);
        assert(self@ =~= Seq::<ContentView>::empty());
        contents
    }
}

impl Default for StdoutHandler {
    fn default() -> (handler: StdoutHandler)
        ensures
            handler@ == Seq::<ContentView>::empty(),
    {
        StdoutHandler::new()
    }
}

} // verus!
