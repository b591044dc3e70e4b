//! Persistent vectors of messages and tools, shared cheaply between a conversation and the
//! requests built from it.
use vstd::prelude::*;
use crate::anthropic::{Message, Tool};

verus! {

#[verifier::external_type_specification]
#[verifier::external_body]
#[verifier::reject_recursive_types(A)]
pub struct ExVector<A>(im::Vector<A>);

/// The messages held by a vector, in order.
pub uninterp spec fn message_items(v: im::Vector<Message>) -> Seq<Message>;

/// The tools held by a vector, in order.
pub uninterp spec fn tool_items(v: im::Vector<Tool>) -> Seq<Tool>;

/// Relies on `im::Vector::new`: an empty vector.
#[verifier::external_body]
pub fn messages_new() -> (r: im::Vector<Message>)
    ensures
        message_items(r) == Seq::<Message>::empty(),
{
    im::Vector::new()
}

/// Relies on `im::Vector::push_back`: the message goes after the others.
#[verifier::external_body]
pub fn messages_push(v: &mut im::Vector<Message>, m: Message)
    ensures
        message_items(*final(v)) == message_items(*old(v)).push(m),
{
    v.push_back(m)
}

/// Relies on `im::Vector::len`: the number of messages.
#[verifier::external_body]
pub fn messages_len(v: &im::Vector<Message>) -> (r: usize)
    ensures
        r == message_items(*v).len(),
{
    v.len()
}

/// Relies on indexing an `im::Vector`, which panics only past the end.
#[verifier::external_body]
pub fn message_at(v: &im::Vector<Message>, i: usize) -> (r: &Message)
    requires
        i < message_items(*v).len(),
    ensures
        *r == message_items(*v)[i as int],
{
    &v[i]
}

/// Relies on `Clone for im::Vector`: a vector holding the same messages.
#[verifier::external_body]
pub fn messages_clone(v: &im::Vector<Message>) -> (r: im::Vector<Message>)
    ensures
        message_items(r) == message_items(*v),
{
    v.clone()
}

/// Relies on `im::Vector::new`: an empty vector.
#[verifier::external_body]
pub fn tools_new() -> (r: im::Vector<Tool>)
    ensures
        tool_items(r) == Seq::<Tool>::empty(),
{
    im::Vector::new()
}

/// Relies on `im::Vector::push_back`: the tool goes after the others.
#[verifier::external_body]
pub fn tools_push(v: &mut im::Vector<Tool>, t: Tool)
    ensures
        tool_items(*final(v)) == tool_items(*old(v)).push(t),
{
    v.push_back(t)
}

/// Relies on `im::Vector::len`: the number of tools.
#[verifier::external_body]
pub fn tools_len(v: &im::Vector<Tool>) -> (r: usize)
    ensures
        r == tool_items(*v).len(),
{
    v.len()
}

/// Relies on indexing an `im::Vector`, which panics only past the end.
#[verifier::external_body]
pub fn tool_at(v: &im::Vector<Tool>, i: usize) -> (r: &Tool)
    requires
        i < tool_items(*v).len(),
    ensures
        *r == tool_items(*v)[i as int],
{
    &v[i]
}

/// Relies on `Clone for im::Vector`: a vector holding the same tools.
#[verifier::external_body]
pub fn tools_clone(v: &im::Vector<Tool>) -> (r: im::Vector<Tool>)
    ensures
        tool_items(r) == tool_items(*v),
{
    v.clone()
}

} // verus!
