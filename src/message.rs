//! The message that endpoints hand to one another.
use vstd::prelude::*;

verus! {

/// What a message holds, as sequences of characters.
pub ghost struct MessageModel {
    pub client: Seq<char>,
    pub channel: Seq<char>,
    pub author: Seq<char>,
    pub content: Seq<char>,
}

/// The text `"[client: channel] [author] content"`.
pub open spec fn rendered(m: MessageModel) -> Seq<char> {
    seq!['['] + m.client + seq![':', ' '] + m.channel + seq![']', ' ', '['] + m.author + seq![
        ']',
        ' ',
    ] + m.content
}

/// A chat message relayed between endpoints; immutable once built.
#[derive(Debug)]
pub struct Message {
    client: String,
    channel: String,
    author: String,
    content: String,
}

impl View for Message {
    type V = MessageModel;

    closed spec fn view(&self) -> MessageModel {
        MessageModel {
            client: self.client@,
            channel: self.channel@,
            author: self.author@,
            content: self.content@,
        }
    }
}

impl Message {
    /// Builds a message from the endpoint kind that produced it, its channel, its
    /// author and its text.
    pub fn new(client: String, channel: String, author: String, content: String) -> (r: Message)
        ensures
            r@ == (MessageModel {
                client: client@,
                channel: channel@,
                author: author@,
                content: content@,
            }),
    {
        Message { client, channel, author, content }
    }

    /// The endpoint kind that produced the message.
    pub fn client(&self) -> (r: &str)
        ensures
            r@ == self@.client,
    {
        self.client.as_str()
    }

    /// The channel the message was posted on.
    pub fn channel(&self) -> (r: &str)
        ensures
            r@ == self@.channel,
    {
        self.channel.as_str()
    }

    /// The message's author.
    pub fn author(&self) -> (r: &str)
        ensures
            r@ == self@.author,
    {
        self.author.as_str()
    }

    /// The message's text.
    pub fn content(&self) -> (r: &str)
        ensures
            r@ == self@.content,
    {
        self.content.as_str()
    }

    /// A copy of the message.
    pub fn duplicate(&self) -> (r: Message)
        ensures
            r@ == self@,
    {
        Message {
            client: self.client.clone(),
            channel: self.channel.clone(),
            author: self.author.clone(),
            content: self.content.clone(),
        }
    }

    /// The human-readable form `"[client: channel] [author] content"`, used for
    /// display and for posting on platforms that take plain text.
    pub fn render(&self) -> (r: String)
        ensures
            r@ == rendered(self@),
    {
        let mut out = String::from_str("[");
        out.append(self.client.as_str());
        out.append(": ");
        out.append(self.channel.as_str());
        out.append("] [");
        out.append(self.author.as_str());
        out.append("] ");
        out.append(self.content.as_str());
        proof {
            reveal_strlit("[");
            reveal_strlit(": ");
            reveal_strlit("] [");
            reveal_strlit("] ");
            assert(out@ =~= rendered(self@));
        }
        out
    }
}

impl Clone for Message {
    fn clone(&self) -> (r: Message)
        ensures
            r@ == self@,
    {
        self.duplicate()
    }
}

} // verus!
