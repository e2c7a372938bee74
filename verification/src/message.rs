//! Messages: the immutable values a conversation is made of.

use vstd::prelude::*;

verus! {

/// Who a message is attributed to.
#[derive(Clone, Copy, Debug, PartialEq, Eq, Structural)]
pub enum Role {
    System,
    User,
    Assistant,
}

/// The text by which a role is written on the wire and in text dumps.
pub open spec fn role_label(role: Role) -> Seq<char> {
    match role {
        Role::System => "system"@,
        Role::User => "user"@,
        Role::Assistant => "assistant"@,
    }
}

impl Role {
    /// The label of this role.
    pub fn label(&self) -> (text: &'static str)
        ensures
            text@ == role_label(*self),
    {
        match self {
            Role::System => "system",
            Role::User => "user",
            Role::Assistant => "assistant",
        }
    }
}

/// What a message is, as a mathematical value.
pub struct MessageView {
    pub role: Role,
    pub content: Seq<char>,
}

/// One message of a conversation. A message is made once and never changed.
#[derive(Debug)]
pub struct Message {
    role: Role,
    content: String,
}

impl View for Message {
    type V = MessageView;

    closed spec fn view(&self) -> MessageView {
        MessageView { role: self.role, content: self.content@ }
    }
}

impl Message {
    /// A message with the given role and content.
    pub fn new(role: Role, content: String) -> (message: Message)
        ensures
            message@ == (MessageView { role, content: content@ }),
    {
        Message { role, content }
    }

    /// The role of this message.
    pub fn role(&self) -> (role: Role)
        ensures
            role == self@.role,
    {
        self.role
    }

    /// The content of this message.
    pub fn content(&self) -> (content: &str)
        ensures
            content@ == self@.content,
    {
        self.content.as_str()
    }
}

impl Clone for Message {
    fn clone(&self) -> (copy: Message)
        ensures
            copy@ == self@,
    {
        Message { role: self.role, content: self.content.clone() }
    }
}

/// The views of a sequence of messages, in order.
pub open spec fn message_views(messages: Seq<Message>) -> Seq<MessageView> {
    messages.map_values(|m: Message| m@)
}

/// The line that shows one message in a text dump or a prompt: its role's
/// label, a colon and a space, its content, and a line break.
pub open spec fn message_line(message: MessageView) -> Seq<char> {
    role_label(message.role) + ": "@ + message.content + "\n"@
}

/// The lines of a sequence of messages, one after the other.
pub open spec fn message_lines(messages: Seq<MessageView>) -> Seq<char>
    decreases messages.len(),
{
    if messages.len() == 0 {
        Seq::empty()
    } else {
        message_lines(messages.drop_last()) + message_line(messages.last())
    }
}

/// Writes the lines of `messages` at the end of `text`.
pub fn append_message_lines(text: &mut String, messages: &[Message])
    ensures
        final(text)@ == old(text)@ + message_lines(message_views(messages@)),
{
    let ghost views = message_views(messages@);
    let mut i: usize = 0;
    assert(views.take(0) =~= Seq::<MessageView>::empty());
    while i < messages.len()
        invariant
            i <= messages@.len(),
            views == message_views(messages@),
            text@ == old(text)@ + message_lines(views.take(i as int)),
        decreases messages@.len() - i,
    {
        let ghost before = text@;
        let message = &messages[i];
        text.append(message.role().label());
        text.append(": ");
        text.append(message.content());
        text.append("\n");
        proof {
            let next = views.take(i as int + 1);
            assert(next.drop_last() =~= views.take(i as int));
            assert(next.last() == message@);
            assert(text@ =~= before + message_line(message@));
            assert(text@ =~= old(text)@ + message_lines(next));
        }
        i = i + 1;
    }
    assert(views.take(i as int) =~= views);
}

} // verus!
