use vstd::prelude::*;

use crate::headers::{lemma_replaced_keeps_others, lemma_replaced_single_value, replaced, values_of};

verus! {

/// What a context tells the host once it has reacted to an event.
#[derive(Clone, Copy, Debug, PartialEq, Eq, Structural)]
pub enum Action {
    /// Go on with the stream as usual.
    Continue,
    /// Hold the stream until the context resumes it.
    Pause,
}

/// One exchange (request and response) as the filter sees it. It holds nothing.
#[derive(Clone, Copy, Debug, PartialEq, Eq, Structural)]
pub struct Filter;

/// The plugin instance: it makes one `Filter` for each new HTTP stream.
#[derive(Clone, Copy, Debug, PartialEq, Eq, Structural)]
pub struct Root;

/// The context that `Root` makes for the stream `context_id`.
pub open spec fn created_context(context_id: u32) -> Option<Filter> {
    Some(Filter)
}

impl Root {
    pub fn new() -> (r: Root)
        ensures
            r == Root,
    {
        Root
    }

    /// Makes the context of a new HTTP stream. It never fails.
    pub fn create_http_context(&self, context_id: u32) -> (r: Option<Filter>)
        ensures
            r == created_context(context_id),
            r == Some(Filter),
    {
        Some(Filter)
    }
}

/// The name of the header that the filter puts on every response.
pub open spec fn custom_header_name() -> Seq<char> {
    "x-wasm-custom"@
}

/// The value that the filter gives that header.
pub open spec fn custom_header_value() -> Seq<char> {
    "FOO"@
}

/// The response headers that go downstream, given those that came from
/// upstream, once the host has carried out the filter's instruction.
pub open spec fn forwarded_headers(upstream: Seq<(Seq<char>, Seq<char>)>) -> Seq<(Seq<char>, Seq<char>)> {
    replaced(upstream, custom_header_name(), custom_header_value())
}

/// An instruction to the host: replace every value of the response header
/// `name` by the one value `value` (set, not append).
#[derive(Clone, Copy, Debug)]
pub struct SetHeader {
    pub name: &'static str,
    pub value: &'static str,
}

impl SetHeader {
    /// The response headers once the host has carried out this instruction
    /// on the table `upstream`.
    pub open spec fn applied_to(self, upstream: Seq<(Seq<char>, Seq<char>)>) -> Seq<(Seq<char>, Seq<char>)> {
        replaced(upstream, self.name@, self.value@)
    }
}

/// The header that the filter sets, as (name, value).
pub fn custom_header() -> (r: (&'static str, &'static str))
    ensures
        r.0@ == custom_header_name(),
        r.1@ == custom_header_value(),
{
    ("x-wasm-custom", "FOO")
}

impl Filter {
    /// Reacts to the response headers of the exchange. It returns the one
    /// host call to make, a set of `x-wasm-custom: FOO` on the response, and
    /// the action for the host: go on, whatever becomes of that call.
    /// Neither the number of headers nor the end-of-stream flag matters.
    pub fn on_http_response_headers(&mut self, num_headers: usize, end_of_stream: bool) -> (r: (SetHeader, Action))
        ensures
            r.0.name@ == custom_header_name(),
            r.0.value@ == custom_header_value(),
            forall|upstream: Seq<(Seq<char>, Seq<char>)>| #[trigger] r.0.applied_to(upstream) == forwarded_headers(upstream),
            r.1 == Action::Continue,
            *final(self) == *old(self),
    {
        let (name, value) = custom_header();
        (SetHeader { name, value }, Action::Continue)
    }
}

/// Once the host has carried out the filter's instruction, the response
/// carries `x-wasm-custom` exactly once, with the value `FOO`, whatever
/// upstream sent under that name.
pub proof fn lemma_forwarded_has_custom_header(upstream: Seq<(Seq<char>, Seq<char>)>)
    ensures
        values_of(forwarded_headers(upstream), custom_header_name()) == seq![custom_header_value()],
{
    lemma_replaced_single_value(upstream, custom_header_name(), custom_header_value());
}

/// Once the host has carried out the filter's instruction, every other
/// response header is as upstream sent it.
pub proof fn lemma_forwarded_keeps_other_headers(upstream: Seq<(Seq<char>, Seq<char>)>, name: Seq<char>)
    requires
        name != custom_header_name(),
    ensures
        values_of(forwarded_headers(upstream), name) == values_of(upstream, name),
{
    lemma_replaced_keeps_others(upstream, custom_header_name(), custom_header_value(), name);
}

/// Making a context always succeeds, and gives the same context whatever
/// the stream and whatever streams came before.
pub proof fn lemma_context_creation_uniform(first: u32, second: u32)
    ensures
        created_context(first) is Some,
        created_context(first) == created_context(second),
{
}

} // verus!
