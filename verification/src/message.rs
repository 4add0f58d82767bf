use vstd::prelude::*;

verus! {

/// The wire shape `{ content: string }` used for every request and
/// response body.
#[derive(Debug)]
pub struct Message {
    pub content: String,
}

impl View for Message {
    type V = Seq<char>;

    open spec fn view(&self) -> Seq<char> {
        self.content@
    }
}

/// The text that `echo` puts in front of the text it received.
pub open spec fn echo_prefix() -> Seq<char> {
    "Server received: "@
}

/// The fixed greeting that `greet` returns.
pub open spec fn greeting() -> Seq<char> {
    "Hello, tester!"@
}

/// Echoes the received text behind the fixed prefix.
pub fn echo(m: &Message) -> (r: Message)
    ensures
        r@ == echo_prefix() + m@,
{
    let mut content = String::from_str("Server received: ");
    content.append(m.content.as_str());
    Message { content }
}

/// Returns the fixed greeting. It reads no state, so every call
/// returns the same text.
pub fn greet() -> (r: Message)
    ensures
        r@ == greeting(),
{
    Message { content: String::from_str("Hello, tester!") }
}

} // verus!
